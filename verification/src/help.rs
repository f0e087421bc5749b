//! Bootstrap helpers for the basic fixture: a mintable token, a pair for it
//! against the native coin, and a checked mint operation.
//!
//! The fixture builds its pair on the terraswap platform, whose pair
//! contract code is not published as a library crate; in this build the
//! bootstrap therefore always reports the failed operation, and its contract
//! says so.

use crate::chain;
use crate::common_integration::{store_pair_code, store_token_code, AvailablePlatforms};
use crate::drivers::ProtocolError;
use crate::encoding::{bytes_eq, spec_dec_bytes, u128_dec_bytes};
use vstd::prelude::*;
use vstd::string::*;

verus! {

/// The basic contract instances a scenario needs: the mintable token, its
/// pair against the native coin, and that pair's liquidity token.
#[derive(Debug)]
pub struct BaseContracts {
    pub anchor_token: String,
    pub anc_ust_pair: String,
    pub anc_ust: String,
}

/// Create the basic contract instances needed to test against the fixture:
/// the mintable token, its pair against the native coin, and the pair's
/// liquidity token, all deployed under the owner identity `owner`.
///
/// The pair is a terraswap pair, whose contract code cannot be stored here,
/// so the bootstrap never completes: it reports the failed operation.
pub fn init_contracts(app: &mut cw_multi_test::App) -> (r: Result<BaseContracts, ProtocolError>)
    ensures
        r is Err,
{
    let owner = String::from_str("owner");
    let token_code_id: u64 = match store_token_code(app, Some(AvailablePlatforms::TERRASWAP)) {
        Ok(id) => id,
        Err(e) => {
            return Err(e);
        },
    };
    let anchor_token = match chain::instantiate_cw20_base_token(
        app,
        token_code_id,
        owner.as_str(),
        "Anchor Token",
        "ANC",
        6,
        Some(owner.clone()),
    ) {
        Ok(addr) => addr,
        Err(reason) => {
            return Err(ProtocolError::OperationFailed { reason });
        },
    };
    match instantiate_pair(app, &owner, &anchor_token) {
        Ok((pair, lp)) => Ok(BaseContracts { anchor_token, anc_ust_pair: pair, anc_ust: lp }),
        Err(e) => Err(e),
    }
}

/// Create the pair of the token against the native coin and return the pair
/// address with its liquidity-token address.  The pair's self-reported
/// address must agree with the address the chain assigned it.
///
/// The pair is a terraswap pair, whose contract code cannot be stored here,
/// so the creation never completes: it reports the failed operation.
pub fn instantiate_pair(
    app: &mut cw_multi_test::App,
    owner: &String,
    anchor_token_instance: &String,
) -> (r: Result<(String, String), ProtocolError>)
    ensures
        r is Err,
{
    let token_code_id: u64 = match store_token_code(app, Some(AvailablePlatforms::TERRASWAP)) {
        Ok(id) => id,
        Err(e) => {
            return Err(e);
        },
    };
    let pair_code_id: u64 = match store_pair_code(app, Some(AvailablePlatforms::TERRASWAP)) {
        Ok(id) => id,
        Err(e) => {
            return Err(e);
        },
    };
    let pair = match chain::instantiate_terraswap_pair(
        app,
        pair_code_id,
        token_code_id,
        owner.as_str(),
        "uusd",
        anchor_token_instance.as_str(),
        6,
        6,
    ) {
        Ok(addr) => addr,
        Err(reason) => {
            return Err(ProtocolError::OperationFailed { reason });
        },
    };
    match chain::query_terraswap_pair_info(app, pair.as_str()) {
        Ok((reported, lp)) => {
            if reported.eq(&pair) {
                Ok((pair, lp))
            } else {
                Err(
                    ProtocolError::operation_failed(
                        String::from_str("pair reports an address other than its own"),
                    ),
                )
            }
        },
        Err(reason) => Err(ProtocolError::OperationFailed { reason }),
    }
}

/// Whether the reported events acknowledge minting `amount` to `to`: the
/// second event must carry the mint action, the recipient, and the exact
/// decimal amount as its second through fourth attributes.
pub open spec fn mint_acknowledged(
    events: Seq<Vec<(String, String)>>,
    to: Seq<char>,
    amount: nat,
) -> bool {
    &&& events.len() >= 2
    &&& events[1]@.len() >= 4
    &&& events[1]@[1].0@ == "action"@
    &&& events[1]@[1].1@ == "mint"@
    &&& events[1]@[2].0@ == "to"@
    &&& events[1]@[2].1@ == to
    &&& events[1]@[3].0@ == "amount"@
    &&& vstd::utf8::encode_utf8(events[1]@[3].1@) == spec_dec_bytes(amount)
}

/// Decide whether a list of per-event attributes acknowledges the requested
/// mint.
pub fn mint_event_acknowledges(
    events: &Vec<Vec<(String, String)>>,
    to: &String,
    amount: u128,
) -> (r: bool)
    ensures
        r == mint_acknowledged(events@, to@, amount as nat),
{
    if events.len() < 2 {
        return false;
    }
    let attrs = &events[1];
    if attrs.len() < 4 {
        return false;
    }
    let action_ok = attrs[1].0.eq(&String::from_str("action")) && attrs[1].1.eq(
        &String::from_str("mint"),
    );
    let to_ok = attrs[2].0.eq(&String::from_str("to")) && attrs[2].1.eq(to);
    let expected_amount = u128_dec_bytes(amount);
    let amount_ok = attrs[3].0.eq(&String::from_str("amount")) && bytes_eq(
        attrs[3].1.as_str().as_bytes(),
        expected_amount.as_slice(),
    );
    action_ok && to_ok && amount_ok
}

/// Mint tokens to a recipient and check the mint event the chain reports.
/// The call succeeds exactly when the chain accepts the mint and the
/// reported events satisfy [`mint_acknowledged`] for this recipient and
/// amount.
pub fn mint_some_anc(
    app: &mut cw_multi_test::App,
    owner: String,
    anchor_token_instance: String,
    amount: u128,
    to: String,
) -> Result<(), ProtocolError> {
    let events = match chain::execute_cw20_mint(
        app,
        owner.as_str(),
        anchor_token_instance.as_str(),
        to.as_str(),
        amount,
    ) {
        Ok(evs) => evs,
        Err(reason) => {
            return Err(ProtocolError::OperationFailed { reason });
        },
    };
    if mint_event_acknowledges(&events, &to, amount) {
        Ok(())
    } else {
        Err(
            ProtocolError::operation_failed(
                String::from_str("mint event does not report the requested mint"),
            ),
        )
    }
}

} // verus!
