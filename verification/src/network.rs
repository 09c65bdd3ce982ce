//! The networks on which the staking contract is deployed.

use vstd::prelude::*;

verus! {

/// A network that a query can be sent to.
#[derive(Clone, Copy, Debug, PartialEq, Eq, Structural)]
pub enum NetworkType {
    BSCMainNetwork,
    BSCTestNetwork,
}

impl NetworkType {
    /// The network that a selector names: `0` the main network, `1` the
    /// test network, and no other integer any.
    pub open spec fn of_selector(selector: int) -> Option<NetworkType> {
        if selector == 0 {
            Some(NetworkType::BSCMainNetwork)
        } else if selector == 1 {
            Some(NetworkType::BSCTestNetwork)
        } else {
            None
        }
    }

    /// Resolves a selector taken from a request.
    pub fn from_selector(selector: i64) -> (network: Option<NetworkType>)
        ensures
            network == Self::of_selector(selector as int),
    {
        match selector {
            0 => Some(NetworkType::BSCMainNetwork),
            1 => Some(NetworkType::BSCTestNetwork),
            _ => None,
        }
    }
}

} // verus!
