//! The read-only queries.

use cosmwasm_std::StdError;
use vstd::prelude::*;

use crate::error::not_found;
use crate::msg::ValueResp;
use crate::state::Store;

verus! {

/// The current value of the counter.
pub fn value(store: &Store) -> (r: Result<ValueResp, StdError>)
    ensures
        store.state is None ==> r is Err,
        store.state is Some ==> r == Ok::<ValueResp, StdError>(
            ValueResp { value: store.state->Some_0.counter },
        ),
{
    match &store.state {
        Some(state) => Ok(ValueResp { value: state.counter }),
        None => Err(not_found("state")),
    }
}

} // verus!
