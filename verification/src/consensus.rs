//! The consensus network that a wallet database is bound to.

use vstd::prelude::*;

verus! {

/// The network whose consensus rules govern a wallet: the production network
/// or the test network.
#[derive(Clone, Copy, Debug, PartialEq, Eq, Structural)]
pub enum ZcashConsensusParameters {
    MainNetwork,
    TestNetwork,
}

} // verus!
