use vstd::prelude::*;

use crate::coin::{Coin, CoinView, Decimal};

verus! {

/// The contract's record in the current layout.
#[derive(Clone, Debug, PartialEq, Eq)]
pub struct State {
    pub counter: u64,
    pub minimal_donation: Coin,
    pub owner: String,
    /// Donations left before the next share goes to the parent; `None` when
    /// there is no parent.
    pub donating_parent: Option<u64>,
}

pub struct StateView {
    pub counter: u64,
    pub minimal_donation: CoinView,
    pub owner: Seq<char>,
    pub donating_parent: Option<u64>,
}

impl View for State {
    type V = StateView;

    open spec fn view(&self) -> StateView {
        StateView {
            counter: self.counter,
            minimal_donation: self.minimal_donation@,
            owner: self.owner@,
            donating_parent: self.donating_parent,
        }
    }
}

/// Where and how often a share of the funds is forwarded.
#[derive(Clone, Debug, PartialEq, Eq)]
pub struct ParentDonation {
    pub address: String,
    /// The value the countdown restarts from.
    pub donating_parent_period: u64,
    /// The share of each denomination that is forwarded.
    pub part: Decimal,
}

pub struct ParentDonationView {
    pub address: Seq<char>,
    pub donating_parent_period: u64,
    pub part: Decimal,
}

impl View for ParentDonation {
    type V = ParentDonationView;

    open spec fn view(&self) -> ParentDonationView {
        ParentDonationView {
            address: self.address@,
            donating_parent_period: self.donating_parent_period,
            part: self.part,
        }
    }
}

/// The identity tag of the program that last wrote the records.
#[derive(Clone, Debug, PartialEq, Eq)]
pub struct ContractVersion {
    pub contract: String,
    pub version: String,
}

pub struct ContractVersionView {
    pub contract: Seq<char>,
    pub version: Seq<char>,
}

impl View for ContractVersion {
    type V = ContractVersionView;

    open spec fn view(&self) -> ContractVersionView {
        ContractVersionView { contract: self.contract@, version: self.version@ }
    }
}

/// The records of one instance, one field per storage key.
///
/// The current layout keeps `state` and, when there is a parent,
/// `parent_donation`. The layout of version 0.2.0 kept the same `state` record
/// without a countdown, so it reads as a `State` whose `donating_parent` is
/// `None`. The layout of version 0.1.0 kept `counter`, `minimal_donation` and
/// `owner` as three records of their own.
#[derive(Clone, Debug, PartialEq, Eq)]
pub struct Store {
    pub contract_version: Option<ContractVersion>,
    pub state: Option<State>,
    pub parent_donation: Option<ParentDonation>,
    pub counter: Option<u64>,
    pub minimal_donation: Option<Coin>,
    pub owner: Option<String>,
}

impl Store {
    /// The records of an instance that has not been set up: none at all.
    pub fn new() -> (r: Store)
        ensures
            r.contract_version is None,
            r.state is None,
            r.parent_donation is None,
            r.counter is None,
            r.minimal_donation is None,
            r.owner is None,
    {
        Store {
            contract_version: None,
            state: None,
            parent_donation: None,
            counter: None,
            minimal_donation: None,
            owner: None,
        }
    }
}

pub struct StoreView {
    pub contract_version: Option<ContractVersionView>,
    pub state: Option<StateView>,
    pub parent_donation: Option<ParentDonationView>,
    pub counter: Option<u64>,
    pub minimal_donation: Option<CoinView>,
    pub owner: Option<Seq<char>>,
}

impl View for Store {
    type V = StoreView;

    open spec fn view(&self) -> StoreView {
        StoreView {
            contract_version: match self.contract_version {
                Some(v) => Some(v@),
                None => None,
            },
            state: match self.state {
                Some(s) => Some(s@),
                None => None,
            },
            parent_donation: match self.parent_donation {
                Some(p) => Some(p@),
                None => None,
            },
            counter: self.counter,
            minimal_donation: match self.minimal_donation {
                Some(c) => Some(c@),
                None => None,
            },
            owner: match self.owner {
                Some(o) => Some(o@),
                None => None,
            },
        }
    }
}

} // verus!
