//! Shared bootstrap helpers: storing contract code per platform and driving
//! the block clock of the simulated chain.

use crate::chain;
use crate::drivers::ProtocolError;
use vstd::prelude::*;
use vstd::string::*;

verus! {

/// The exchange platforms a harness can drive.
#[derive(Clone, Copy, Debug, PartialEq, Eq, Structural)]
#[allow(non_camel_case_types)]
pub enum AvailablePlatforms {
    ASTROPORT,
    TERRASWAP,
}

/// The platform an optional choice resolves to: astroport when unspecified.
pub open spec fn chosen_platform(p: Option<AvailablePlatforms>) -> AvailablePlatforms {
    match p {
        Option::Some(x) => x,
        Option::None => AvailablePlatforms::ASTROPORT,
    }
}

/// Store the chosen platform's token contract code and return its code
/// identifier.  The terraswap token contract is a derivative of cw20-base,
/// which is not published on its own; the cw20-base code stands in for it.
pub fn store_token_code(app: &mut cw_multi_test::App, platform: Option<AvailablePlatforms>) -> (r:
    Result<u64, ProtocolError>)
    ensures
        r is Ok,
{
    match platform.unwrap_or(AvailablePlatforms::ASTROPORT) {
        AvailablePlatforms::ASTROPORT => Ok(chain::store_astroport_token_contract(app)),
        AvailablePlatforms::TERRASWAP => Ok(chain::store_cw20_base_contract(app)),
    }
}

/// Store the chosen platform's pair contract code and return its code
/// identifier.  The terraswap pair contract is not published as a library
/// crate, so choosing that platform reports a failed operation.
pub fn store_pair_code(app: &mut cw_multi_test::App, platform: Option<AvailablePlatforms>) -> (r:
    Result<u64, ProtocolError>)
    ensures
        chosen_platform(platform) == AvailablePlatforms::ASTROPORT ==> r is Ok,
        chosen_platform(platform) == AvailablePlatforms::TERRASWAP ==> r is Err,
{
    match platform.unwrap_or(AvailablePlatforms::ASTROPORT) {
        AvailablePlatforms::ASTROPORT => Ok(chain::store_astroport_pair_contract(app)),
        AvailablePlatforms::TERRASWAP => Err(
            ProtocolError::operation_failed(
                String::from_str("no pair contract code is available for this platform"),
            ),
        ),
    }
}

/// Store the chosen platform's factory contract code and return its code
/// identifier.  The terraswap factory contract is not published as a library
/// crate, so choosing that platform reports a failed operation.
pub fn store_factory_code(app: &mut cw_multi_test::App, platform: Option<AvailablePlatforms>) -> (r:
    Result<u64, ProtocolError>)
    ensures
        chosen_platform(platform) == AvailablePlatforms::ASTROPORT ==> r is Ok,
        chosen_platform(platform) == AvailablePlatforms::TERRASWAP ==> r is Err,
{
    match platform.unwrap_or(AvailablePlatforms::ASTROPORT) {
        AvailablePlatforms::ASTROPORT => Ok(chain::store_astroport_factory_contract(app)),
        AvailablePlatforms::TERRASWAP => Err(
            ProtocolError::operation_failed(
                String::from_str("no factory contract code is available for this platform"),
            ),
        ),
    }
}

/// Build a fresh simulated chain.
pub fn mock_app() -> cw_multi_test::App {
    chain::mock_app()
}

/// The block height and timestamp after advancing the clock, both saturating
/// at the largest representable value.
pub fn advanced_block_numbers(height: u64, time_nanos: u64, blocks: u64, interval_secs: u64) -> (r:
    (u64, u64))
    ensures
        r.0 == if height + blocks <= u64::MAX {
            (height + blocks) as u64
        } else {
            u64::MAX
        },
        r.1 == if time_nanos + blocks * interval_secs * 1_000_000_000 <= u64::MAX {
            (time_nanos + blocks * interval_secs * 1_000_000_000) as u64
        } else {
            u64::MAX
        },
{
    let new_height: u64 = match height.checked_add(blocks) {
        Some(h) => h,
        None => u64::MAX,
    };
    let new_time: u64 = match blocks.checked_mul(interval_secs) {
        Some(s) => match s.checked_mul(1_000_000_000) {
            Some(n) => match time_nanos.checked_add(n) {
                Some(t) => t,
                None => u64::MAX,
            },
            None => {
                proof {
                    assert(time_nanos + blocks * interval_secs * 1_000_000_000 > u64::MAX)
                        by (nonlinear_arith)
                        requires
                            blocks * interval_secs == s,
                            s * 1_000_000_000 > u64::MAX,
                            time_nanos >= 0,
                    ;
                }
                u64::MAX
            },
        },
        None => {
            proof {
                assert(time_nanos + blocks * interval_secs * 1_000_000_000 > u64::MAX)
                    by (nonlinear_arith)
                    requires
                        blocks * interval_secs > u64::MAX,
                        time_nanos >= 0,
                ;
            }
            u64::MAX
        },
    };
    (new_height, new_time)
}

/// Advance the simulated chain by one block of five seconds.
pub fn advance_one_block(app: cw_multi_test::App) -> cw_multi_test::App {
    advance_n_blocks(app, 1, None)
}

/// Advance the simulated chain by the given number of blocks, each taking the
/// given interval in seconds (five when unspecified).
pub fn advance_n_blocks(
    app: cw_multi_test::App,
    blocks_to_advance: u64,
    block_time_interval: Option<u64>,
) -> cw_multi_test::App {
    let mut app = app;
    let (height, time_nanos, chain_id) = chain::get_block(&app);
    let interval: u64 = block_time_interval.unwrap_or(5);
    let (new_height, new_time) = advanced_block_numbers(
        height,
        time_nanos,
        blocks_to_advance,
        interval,
    );
    chain::set_block(&mut app, new_height, new_time, chain_id);
    app
}

} // verus!
