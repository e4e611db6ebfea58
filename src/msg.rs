use vstd::prelude::*;

use crate::coin::{Coin, Decimal};

verus! {

/// A parent contract to forward a share of the funds to.
#[derive(Clone, Debug, PartialEq, Eq)]
pub struct Parent {
    pub addr: String,
    /// How many qualifying donations pass between two forwards.
    pub donating_period: u64,
    /// The share of each denomination that is forwarded.
    pub part: Decimal,
}

pub struct ParentView {
    pub addr: Seq<char>,
    pub donating_period: u64,
    pub part: Decimal,
}

impl View for Parent {
    type V = ParentView;

    open spec fn view(&self) -> ParentView {
        ParentView { addr: self.addr@, donating_period: self.donating_period, part: self.part }
    }
}

/// The models of an optional parent.
pub open spec fn parent_view(parent: Option<Parent>) -> Option<ParentView> {
    match parent {
        Some(p) => Some(p@),
        None => None,
    }
}

#[derive(Clone, Debug, PartialEq, Eq)]
pub struct InstantiateMsg {
    pub counter: u64,
    pub minimal_donation: Coin,
    pub parent: Option<Parent>,
}

#[derive(Clone, Debug, PartialEq, Eq)]
pub enum QueryMsg {
    Value {},
}

#[derive(Clone, Debug, PartialEq, Eq)]
pub enum ExecMsg {
    Donate {},
    Reset { counter: u64 },
    Withdraw {},
    WithdrawTo { receiver: String, funds: Vec<Coin> },
}

#[derive(Clone, Copy, Debug, PartialEq, Eq, Structural)]
pub struct ValueResp {
    pub value: u64,
}

#[derive(Clone, Debug, PartialEq, Eq)]
pub struct MigrateMsg {
    pub parent: Option<Parent>,
}

/// Who sent a message, and the funds sent with it.
#[derive(Clone, Debug, PartialEq, Eq)]
pub struct MessageInfo {
    pub sender: String,
    pub funds: Vec<Coin>,
}

} // verus!
