//! A counter contract that accepts donations, forwards a share of its funds to
//! a parent contract on a countdown, lets its owner reset and withdraw, and
//! migrates its stored records across the layouts it has had.
//!
//! The host's storage, address check and bank queries stay outside: each entry
//! point takes the instance's records as a [`state::Store`], the funds the
//! contract holds and the host's verdicts as plain values, and hands back the
//! records to write and the instructions to run.

pub mod coin;
pub mod contract;
pub mod error;
pub mod msg;
pub mod response;
pub mod state;

use cosmwasm_std::StdError;
use vstd::prelude::*;

use crate::coin::{coins_view, Coin};
use crate::contract::exec::{
    bank_send, capped, donate_outcome, donation_countable, is_owner, not_owner,
    withdraw_attributes,
};
use crate::contract::{instantiated, rejected};
use crate::error::ContractError;
use crate::msg::{parent_view, ExecMsg, InstantiateMsg, MessageInfo, MigrateMsg, QueryMsg, ValueResp};
use crate::response::{decimal, empty_response, Response, ResponseView};
use crate::state::{StateView, Store, StoreView};

verus! {

/// Sets up a new instance from its instantiation message, failing without a
/// write where one is already set up; `addr_check` is the host's verdict on the
/// parent's address, not read when there is no parent.
pub fn instantiate(
    store: &mut Store,
    info: &MessageInfo,
    msg: InstantiateMsg,
    addr_check: Result<(), StdError>,
) -> (r: Result<Response, StdError>)
    ensures
        r is Err ==> final(store)@ == old(store)@,
        old(store).state is Some ==> r is Err,
        old(store).state is None && rejected(msg.parent, addr_check) ==> r == Err::<
            Response,
            StdError,
        >(addr_check->Err_0),
        old(store).state is None && !rejected(msg.parent, addr_check) ==> r is Ok && r->Ok_0@
            == empty_response() && final(store)@ == instantiated(
            old(store)@,
            info.sender@,
            msg.counter,
            msg.minimal_donation@,
            parent_view(msg.parent),
        ),
{
    contract::instantiate(store, info, msg.counter, msg.minimal_donation, msg.parent, addr_check)
}

/// Runs one state-changing message. `balance` is what the contract's account
/// holds.
pub fn execute(store: &mut Store, info: &MessageInfo, balance: Vec<Coin>, msg: ExecMsg) -> (r:
    Result<Response, ContractError>)
    requires
        msg is Donate ==> donation_countable(old(store)@, coins_view(info.funds@)),
    ensures
        r is Err ==> final(store)@ == old(store)@,
        msg is Donate ==> match donate_outcome(
            old(store)@,
            info.sender@,
            coins_view(info.funds@),
            coins_view(balance@),
        ) {
            None => r matches Err(ContractError::Std(_)),
            Some(o) => r is Ok && (final(store)@, r->Ok_0@) == o,
        },
        !(msg is Donate) && old(store).state is None ==> r matches Err(ContractError::Std(_)),
        !(msg is Donate) && not_owner(old(store)@, info.sender@) ==> r == Err::<
            Response,
            ContractError,
        >(ContractError::Unauthorized { owner: old(store).state->Some_0.owner }),
        msg matches ExecMsg::Reset { counter } ==> (is_owner(old(store)@, info.sender@) ==> r is Ok
            && final(store)@ == (StoreView {
            state: Some(StateView { counter, ..old(store)@.state->Some_0 }),
            ..old(store)@
        }) && r->Ok_0@ == (ResponseView {
            messages: seq![],
            attributes: seq![
                ("action"@, "reset"@),
                ("sender"@, info.sender@),
                ("counter"@, decimal(counter as nat)),
            ],
        })),
        msg is Withdraw ==> (is_owner(old(store)@, info.sender@) ==> r is Ok && final(store)@
            == old(store)@ && r->Ok_0@ == (ResponseView {
            messages: seq![bank_send(info.sender@, coins_view(balance@))],
            attributes: withdraw_attributes(info.sender@),
        })),
        msg matches ExecMsg::WithdrawTo { receiver, funds } ==> (is_owner(
            old(store)@,
            info.sender@,
        ) ==> r is Ok && final(store)@ == old(store)@ && r->Ok_0@ == (ResponseView {
            messages: seq![bank_send(receiver@, capped(coins_view(balance@), coins_view(funds@)))],
            attributes: withdraw_attributes(info.sender@),
        })),
{
    match msg {
        ExecMsg::Donate {  } => match contract::exec::donate(store, info, balance) {
            Ok(resp) => Ok(resp),
            Err(e) => Err(ContractError::Std(e)),
        },
        ExecMsg::Reset { counter } => contract::exec::reset(store, info, counter),
        ExecMsg::Withdraw {  } => contract::exec::withdraw(store, info, balance),
        ExecMsg::WithdrawTo { receiver, funds } => contract::exec::withdraw_to(
            store,
            info,
            balance,
            receiver,
            funds,
        ),
    }
}

/// Answers a query.
pub fn query(store: &Store, msg: QueryMsg) -> (r: Result<ValueResp, StdError>)
    ensures
        store.state is None ==> r is Err,
        store.state is Some ==> r == Ok::<ValueResp, StdError>(
            ValueResp { value: store.state->Some_0.counter },
        ),
{
    match msg {
        QueryMsg::Value {  } => contract::query::value(store),
    }
}

/// Brings the records to the current layout, applying the parent of `msg` when
/// a transformation runs; see [`contract::migrate`].
pub fn migrate(store: &mut Store, msg: MigrateMsg, addr_check: Result<(), StdError>) -> (r: Result<
    Response,
    ContractError,
>)
    ensures
        r is Err ==> final(store)@ == old(store)@,
        old(store).contract_version is None ==> r matches Err(ContractError::Std(_)),
        contract::foreign(old(store)@) ==> r == Err::<Response, ContractError>(
            ContractError::InvalidContract {
                contract: old(store).contract_version->Some_0.contract,
            },
        ),
        contract::unknown_version(old(store)@) ==> r == Err::<Response, ContractError>(
            ContractError::InvalidContractVersion {
                version: old(store).contract_version->Some_0.version,
            },
        ),
        contract::tagged(old(store)@, contract::CONTRACT_VERSION@) ==> r is Ok && r->Ok_0@
            == empty_response() && final(store)@ == old(store)@,
        contract::from_legacy(old(store)@) && contract::legacy_fields(old(store)@) is None ==> r matches Err(
            ContractError::Std(_),
        ),
        contract::from_legacy(old(store)@) && contract::legacy_fields(old(store)@) is Some
            && rejected(msg.parent, addr_check) ==> r == Err::<Response, ContractError>(
            ContractError::Std(addr_check->Err_0),
        ),
        contract::from_legacy(old(store)@) && contract::legacy_fields(old(store)@) is Some
            && !rejected(msg.parent, addr_check) ==> r is Ok && r->Ok_0@ == empty_response()
            && final(store)@ == contract::upgraded(old(store)@, parent_view(msg.parent)),
{
    contract::migrate(store, msg.parent, addr_check)
}

} // verus!
