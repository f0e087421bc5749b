//! The capability interface every protocol controller satisfies.
//!
//! `Driver` covers contract deployment and bootstrap; `DexDriver` layers the
//! exchange-specific operations on top.  Two controllers implement identical
//! signatures over incompatible underlying message encodings; the interface
//! exists to hide that incompatibility from test-writing code.

use vstd::prelude::*;
use vstd::string::*;

verus! {

/// An execute or instantiate call against the simulated chain was rejected;
/// the rejection is propagated unchanged, never retried.
#[derive(Debug)]
pub enum ProtocolError {
    OperationFailed { reason: String },
}

impl ProtocolError {
    /// Wrap a rejection reported by the simulated chain.
    pub fn operation_failed(reason: String) -> (r: ProtocolError)
        ensures
            r matches ProtocolError::OperationFailed { reason: m } && m@ == reason@,
    {
        ProtocolError::OperationFailed { reason }
    }
}

/// The bootstrap capability: deploy a fresh, independent protocol instance
/// and hand back a fully populated controller.  Failure is fatal for the
/// fixture; no partially initialised controller is ever returned.
pub trait Driver: Sized {
    /// The owner identity the controller operates under.
    spec fn spec_owner(&self) -> Seq<char>;

    /// Deploy the protocol's code and instantiate its factory, recording the
    /// owner identity and the established code identifiers.
    fn init_contracts(app: &mut cw_multi_test::App, owner: &String) -> (r: Result<
        Self,
        ProtocolError,
    >)
        ensures
            (r matches Ok(c) ==> c.spec_owner() == owner@),
    ;
}

/// The exchange capability set layered on [`Driver`]: token creation, pool
/// creation, and liquidity deposit and withdrawal.  Operations that take an
/// optional caller act as the controller's owner when none is given.
pub trait DexDriver: Driver {
    /// Deploy a fungible token under this protocol's token code, owned by the
    /// controller's owner identity.
    fn init_cw20_token(&self, app: &mut cw_multi_test::App, name: &String) -> Result<
        String,
        ProtocolError,
    >;

    /// Ask the protocol's factory to create a pair of the two tokens, then
    /// query it for the resulting pair's liquidity-token address.  The two
    /// steps are required: neither protocol's creation call returns the pool
    /// address synchronously.
    fn create_pool(
        &self,
        app: &mut cw_multi_test::App,
        token1: &String,
        token2: &String,
    ) -> Result<String, ProtocolError>;

    /// Issue the protocol-specific provide-liquidity call.  Any required
    /// token allowances must exist beforehand.
    fn deposit_liquidity(
        &self,
        app: &mut cw_multi_test::App,
        pair_instance: &String,
        token_x_instance: &String,
        token_x_amount: u128,
        token_y_instance: &String,
        token_y_amount: u128,
        caller: &Option<String>,
    ) -> Result<(), ProtocolError>;

    /// Send liquidity tokens to the pool with the protocol's withdraw hook
    /// payload attached.
    fn withdraw_liquidity(
        &self,
        app: &mut cw_multi_test::App,
        pair_instance: &String,
        lp_token_instance: &String,
        lp_token_amount: u128,
        caller: &Option<String>,
    ) -> Result<(), ProtocolError>;
}

/// The hook payload a liquidity withdrawal carries: both protocols frame the
/// withdraw request as this message.
pub fn withdraw_hook_payload() -> (r: Vec<u8>)
    ensures
        r@ == "{\"withdraw_liquidity\":{}}".spec_bytes(),
{
    "{\"withdraw_liquidity\":{}}".as_bytes_vec()
}

} // verus!
