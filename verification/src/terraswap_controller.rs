//! The Protocol B controller: drives a terraswap deployment.
//!
//! Same capability surface as the Protocol A controller, over terraswap's own
//! message encodings: asset descriptors are raw address strings rather than
//! address structures, and the factory takes only the two code identifiers.

use crate::chain;
use crate::common_integration::{
    store_factory_code, store_pair_code, store_token_code, AvailablePlatforms,
};
use crate::drivers::{withdraw_hook_payload, DexDriver, Driver, ProtocolError};
use vstd::prelude::*;
use vstd::string::*;

verus! {

/// The number of decimals every token this controller deploys uses.
pub const TERRASWAP_TOKEN_DECIMALS: u8 = 6;

/// A suite of identifiers which together form one terraswap deployment:
/// owner identity, pair code identifier, factory address, and token code
/// identifier.
#[derive(Debug)]
pub struct TerraSwapController(pub String, pub u64, pub String, pub u64);

impl Driver for TerraSwapController {
    open spec fn spec_owner(&self) -> Seq<char> {
        self.0@
    }

    /// The terraswap pair and factory contract code cannot be stored here
    /// (the contracts are not published as library crates), so the bootstrap
    /// never completes: it reports the failed operation.
    fn init_contracts(app: &mut cw_multi_test::App, owner: &String) -> (r: Result<
        Self,
        ProtocolError,
    >)
        ensures
            r is Err,
    {
        let pair_code_id: u64 = match store_pair_code(app, Some(AvailablePlatforms::TERRASWAP)) {
            Ok(id) => id,
            Err(e) => {
                return Err(e);
            },
        };
        let factory_code_id: u64 = match store_factory_code(
            app,
            Some(AvailablePlatforms::TERRASWAP),
        ) {
            Ok(id) => id,
            Err(e) => {
                return Err(e);
            },
        };
        let token_code_id: u64 = match store_token_code(app, Some(AvailablePlatforms::TERRASWAP)) {
            Ok(id) => id,
            Err(e) => {
                return Err(e);
            },
        };
        match chain::instantiate_terraswap_factory(
            app,
            factory_code_id,
            pair_code_id,
            token_code_id,
            owner.as_str(),
        ) {
            Ok(factory) => Ok(
                TerraSwapController(owner.clone(), pair_code_id, factory, token_code_id),
            ),
            Err(reason) => Err(ProtocolError::OperationFailed { reason }),
        }
    }
}

impl DexDriver for TerraSwapController {
    fn init_cw20_token(&self, app: &mut cw_multi_test::App, name: &String) -> Result<
        String,
        ProtocolError,
    > {
        match chain::instantiate_astroport_token(
            app,
            self.3,
            self.0.as_str(),
            name.as_str(),
            TERRASWAP_TOKEN_DECIMALS,
        ) {
            Ok(addr) => Ok(addr),
            Err(reason) => Err(ProtocolError::OperationFailed { reason }),
        }
    }

    fn create_pool(
        &self,
        app: &mut cw_multi_test::App,
        token1: &String,
        token2: &String,
    ) -> Result<String, ProtocolError> {
        match chain::execute_terraswap_create_pair(
            app,
            self.0.as_str(),
            self.2.as_str(),
            token1.as_str(),
            token2.as_str(),
        ) {
            Ok(_) => (),
            Err(reason) => {
                return Err(ProtocolError::OperationFailed { reason });
            },
        }
        match chain::query_terraswap_pair_lp(
            app,
            self.2.as_str(),
            token1.as_str(),
            token2.as_str(),
        ) {
            Ok(lp) => Ok(lp),
            Err(reason) => Err(ProtocolError::OperationFailed { reason }),
        }
    }

    fn deposit_liquidity(
        &self,
        app: &mut cw_multi_test::App,
        pair_instance: &String,
        token_x_instance: &String,
        token_x_amount: u128,
        token_y_instance: &String,
        token_y_amount: u128,
        caller: &Option<String>,
    ) -> Result<(), ProtocolError> {
        let sender: &String = match caller {
            Some(c) => c,
            None => &self.0,
        };
        match chain::execute_terraswap_provide_liquidity(
            app,
            sender.as_str(),
            pair_instance.as_str(),
            token_x_instance.as_str(),
            token_x_amount,
            token_y_instance.as_str(),
            token_y_amount,
        ) {
            Ok(_) => Ok(()),
            Err(reason) => Err(ProtocolError::OperationFailed { reason }),
        }
    }

    fn withdraw_liquidity(
        &self,
        app: &mut cw_multi_test::App,
        pair_instance: &String,
        lp_token_instance: &String,
        lp_token_amount: u128,
        caller: &Option<String>,
    ) -> Result<(), ProtocolError> {
        let sender: &String = match caller {
            Some(c) => c,
            None => &self.0,
        };
        match chain::execute_cw20_send(
            app,
            sender.as_str(),
            lp_token_instance.as_str(),
            pair_instance.as_str(),
            lp_token_amount,
            withdraw_hook_payload(),
        ) {
            Ok(_) => Ok(()),
            Err(reason) => Err(ProtocolError::OperationFailed { reason }),
        }
    }
}

impl TerraSwapController {
    /// The owner identity this controller operates under.
    pub fn addr(&self) -> (r: String)
        ensures
            r@ == self.spec_owner(),
    {
        self.0.clone()
    }
}

} // verus!
