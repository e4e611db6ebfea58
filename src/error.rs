use vstd::prelude::*;

verus! {

/// The host library's error type, carried through unopened.
#[verifier::external_type_specification]
#[verifier::external_body]
pub struct ExStdError(cosmwasm_std::StdError);

/// Relies on `cosmwasm_std::StdError::not_found`: the error a storage read
/// reports when the record described by `kind` is absent.
#[verifier::external_body]
pub(crate) fn not_found(kind: &str) -> (r: cosmwasm_std::StdError) {
    cosmwasm_std::StdError::not_found(kind)
}

/// Relies on `cosmwasm_std::StdError::generic_err`: an error that carries the
/// message `msg`.
#[verifier::external_body]
pub(crate) fn generic_err(msg: &str) -> (r: cosmwasm_std::StdError) {
    cosmwasm_std::StdError::generic_err(msg)
}

/// What can go wrong in a call on the contract.
#[derive(Debug, PartialEq)]
pub enum ContractError {
    /// A failure of the host: a missing or unreadable record, a rejected address,
    /// an arithmetic overflow.
    Std(cosmwasm_std::StdError),
    /// The caller is not the recorded owner.
    Unauthorized { owner: String },
    /// The stored identity tag names another program.
    InvalidContract { contract: String },
    /// The stored identity tag holds a version this program cannot migrate from.
    InvalidContractVersion { version: String },
}

} // verus!
