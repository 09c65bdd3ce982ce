//! What a query for a staking position asks, and what it is told.

use vstd::prelude::*;
use crate::decimal::decimal;
use crate::uint256::Uint256;

verus! {

/// A query: the selector of a network and the public address of an account.
/// The address is passed on as it came.
#[derive(Clone, Debug, PartialEq, Eq)]
pub struct GetNECOStakedInfoRequest {
    pub network: i64,
    pub public_address: String,
}

/// What a `GetNECOStakedInfoRequest` holds: the selector as an integer and
/// the address as a sequence of characters.
pub struct GetNECOStakedInfoRequestView {
    pub network: int,
    pub public_address: Seq<char>,
}

impl View for GetNECOStakedInfoRequest {
    type V = GetNECOStakedInfoRequestView;

    open spec fn view(&self) -> GetNECOStakedInfoRequestView {
        GetNECOStakedInfoRequestView {
            network: self.network as int,
            public_address: self.public_address@,
        }
    }
}

/// The staking position of an account: the amount staked and the time since
/// which it is staked, both in decimal notation.
#[derive(Clone, Debug, PartialEq, Eq)]
pub struct NECOStakedInfo {
    pub public_address: String,
    pub staked_amount: String,
    pub staked_time: String,
}

/// What a `NECOStakedInfo` holds, as sequences of characters.
pub struct NECOStakedInfoView {
    pub public_address: Seq<char>,
    pub staked_amount: Seq<char>,
    pub staked_time: Seq<char>,
}

impl NECOStakedInfoView {
    /// The position of the account at `public_address` with the given amount
    /// and time.
    pub open spec fn of(public_address: Seq<char>, amount: nat, time: nat) -> Self {
        NECOStakedInfoView {
            public_address,
            staked_amount: decimal(amount),
            staked_time: decimal(time),
        }
    }
}

impl View for NECOStakedInfo {
    type V = NECOStakedInfoView;

    open spec fn view(&self) -> NECOStakedInfoView {
        NECOStakedInfoView {
            public_address: self.public_address@,
            staked_amount: self.staked_amount@,
            staked_time: self.staked_time@,
        }
    }
}

impl NECOStakedInfo {
    /// Writes down the position of an account from the two integers read
    /// from the chain.
    pub fn new(
        public_address: &String,
        staked_amount: &Uint256,
        staked_time: &Uint256,
    ) -> (info: Self)
        ensures
            info@ == NECOStakedInfoView::of(public_address@, staked_amount@, staked_time@),
    {
        NECOStakedInfo {
            public_address: public_address.clone(),
            staked_amount: staked_amount.to_decimal(),
            staked_time: staked_time.to_decimal(),
        }
    }
}

} // verus!
