//! The scenario harness: a simulated chain, a fixed cast of identities, and
//! one controller slot per protocol.
//!
//! Controllers start uninitialised; real deployment is deferred to an
//! explicit setup step, because chain bootstrapping order must be controlled
//! by the test, not implied by construction.  A slot is a sum type, so
//! touching a controller before deployment is a type impossibility rather
//! than a dummy-value bug.

use crate::astroport_controller::AstroportController;
use crate::common_integration::mock_app;
use crate::terraswap_controller::TerraSwapController;
use vstd::prelude::*;
use vstd::string::*;

verus! {

/// A controller's two-state lifecycle: not yet deployed, or fully deployed
/// and ready.  There is no teardown state; a new test takes a new slot.
#[derive(Debug)]
pub enum ControllerSlot<C> {
    Uninitialized,
    Ready(C),
}

/// A ready-to-use test fixture: the simulated chain, three identities, and
/// one controller slot per protocol.
pub struct SimpleScenario {
    pub app: cw_multi_test::App,
    pub owner: String,
    pub alice: String,
    pub bob: String,
    pub terraswap: ControllerSlot<TerraSwapController>,
    pub astroport: ControllerSlot<AstroportController>,
}

impl SimpleScenario {
    /// Wire up a fresh simulated chain, the cast of identities, and two
    /// still-uninitialised controllers.
    pub fn new() -> (r: Self)
        ensures
            r.owner@ == "owner"@,
            r.alice@ == "alice"@,
            r.bob@ == "bob"@,
            r.terraswap is Uninitialized,
            r.astroport is Uninitialized,
    {
        SimpleScenario {
            app: mock_app(),
            owner: String::from_str("owner"),
            alice: String::from_str("alice"),
            bob: String::from_str("bob"),
            terraswap: ControllerSlot::Uninitialized,
            astroport: ControllerSlot::Uninitialized,
        }
    }
}

} // verus!
