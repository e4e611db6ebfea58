//! Instantiation and migration of the stored records.

pub mod exec;
pub mod query;

use cosmwasm_std::StdError;
use vstd::prelude::*;

use crate::coin::{Coin, CoinView};
use crate::error::{generic_err, not_found, ContractError};
use crate::msg::{parent_view, MessageInfo, Parent, ParentView};
use crate::response::{empty_response, Response};
use crate::state::{
    ContractVersion, ContractVersionView, ParentDonation, ParentDonationView, State, StateView,
    Store, StoreView,
};

verus! {

/// The name this program records in its identity tag.
pub const CONTRACT_NAME: &'static str = "counting_contract";

/// The version of the layout this program reads and writes.
pub const CONTRACT_VERSION: &'static str = "0.3.0";

/// The identity tag this program writes.
pub open spec fn current_tag() -> ContractVersionView {
    ContractVersionView { contract: CONTRACT_NAME@, version: CONTRACT_VERSION@ }
}

/// `s` with the current-layout records built from the carried fields and the
/// optional parent. Without a parent the `parent_donation` record is left as it
/// was.
pub open spec fn with_state(
    s: StoreView,
    counter: u64,
    minimal_donation: CoinView,
    owner: Seq<char>,
    parent: Option<ParentView>,
) -> StoreView {
    StoreView {
        state: Some(
            StateView {
                counter,
                minimal_donation,
                owner,
                donating_parent: match parent {
                    Some(p) => Some(p.donating_period),
                    None => None,
                },
            },
        ),
        parent_donation: match parent {
            Some(p) => Some(
                ParentDonationView {
                    address: p.addr,
                    donating_parent_period: p.donating_period,
                    part: p.part,
                },
            ),
            None => s.parent_donation,
        },
        ..s
    }
}

/// `s` with the identity tag of this program.
pub open spec fn retagged(s: StoreView) -> StoreView {
    StoreView { contract_version: Some(current_tag()), ..s }
}

/// The records that instantiation leaves.
pub open spec fn instantiated(
    s: StoreView,
    owner: Seq<char>,
    counter: u64,
    minimal_donation: CoinView,
    parent: Option<ParentView>,
) -> StoreView {
    retagged(with_state(s, counter, minimal_donation, owner, parent))
}

/// The carried fields of the layout of version 0.1.0: three records of their own.
pub open spec fn fields_0_1_0(s: StoreView) -> Option<(u64, CoinView, Seq<char>)> {
    match (s.counter, s.minimal_donation, s.owner) {
        (Some(c), Some(m), Some(o)) => Some((c, m, o)),
        _ => None,
    }
}

/// The carried fields of the layout of version 0.2.0: the `state` record.
pub open spec fn fields_0_2_0(s: StoreView) -> Option<(u64, CoinView, Seq<char>)> {
    match s.state {
        Some(st) => Some((st.counter, st.minimal_donation, st.owner)),
        None => None,
    }
}

/// The stored tag names a program other than this one.
pub open spec fn foreign(s: StoreView) -> bool {
    match s.contract_version {
        Some(t) => t.contract != CONTRACT_NAME@,
        None => false,
    }
}

/// The stored tag is this program's, at the given version.
pub open spec fn tagged(s: StoreView, version: Seq<char>) -> bool {
    match s.contract_version {
        Some(t) => t.contract == CONTRACT_NAME@ && t.version == version,
        None => false,
    }
}

/// The stored tag is this program's, at a version it has a transformation for.
pub open spec fn from_legacy(s: StoreView) -> bool {
    tagged(s, "0.1.0"@) || tagged(s, "0.2.0"@)
}

/// The stored tag is this program's, at a version it knows nothing of.
pub open spec fn unknown_version(s: StoreView) -> bool {
    match s.contract_version {
        Some(t) => t.contract == CONTRACT_NAME@ && !from_legacy(s) && t.version != CONTRACT_VERSION@,
        None => false,
    }
}

/// The carried fields of a store at a legacy version, read from that version's layout.
pub open spec fn legacy_fields(s: StoreView) -> Option<(u64, CoinView, Seq<char>)> {
    if tagged(s, "0.1.0"@) {
        fields_0_1_0(s)
    } else {
        fields_0_2_0(s)
    }
}

/// The records a migration from a legacy version leaves.
pub open spec fn upgraded(s: StoreView, parent: Option<ParentView>) -> StoreView {
    let f = legacy_fields(s)->Some_0;
    retagged(with_state(s, f.0, f.1, f.2, parent))
}

/// The parent is given and the host rejected its address.
pub open spec fn rejected<E>(parent: Option<Parent>, addr_check: Result<(), E>) -> bool {
    parent is Some && addr_check is Err
}

/// Writes the current-layout records, or fails without writing when the
/// parent's address was rejected.
fn install(
    store: &mut Store,
    counter: u64,
    minimal_donation: Coin,
    owner: String,
    parent: Option<Parent>,
    addr_check: Result<(), StdError>,
) -> (r: Result<Response, StdError>)
    ensures
        rejected(parent, addr_check) ==> r == Err::<Response, StdError>(addr_check->Err_0) && final(store)@ == old(store)@,
        !rejected(parent, addr_check) ==> r is Ok && r->Ok_0@ == empty_response()
            && final(store)@ == with_state(
            old(store)@,
            counter,
            minimal_donation@,
            owner@,
            parent_view(parent),
        ),
{
    match parent {
        None => {
            store.state = Some(
                State { counter, minimal_donation, owner, donating_parent: None },
            );
            Ok(Response::new())
        },
        Some(p) => match addr_check {
            Err(e) => Err(e),
            Ok(()) => {
                store.state = Some(
                    State {
                        counter,
                        minimal_donation,
                        owner,
                        donating_parent: Some(p.donating_period),
                    },
                );
                store.parent_donation = Some(
                    ParentDonation {
                        address: p.addr,
                        donating_parent_period: p.donating_period,
                        part: p.part,
                    },
                );
                Ok(Response::new())
            },
        },
    }
}

/// The identity tag of this program.
fn current_version() -> (r: ContractVersion)
    ensures
        r@ == current_tag(),
{
    ContractVersion {
        contract: String::from_str(CONTRACT_NAME),
        version: String::from_str(CONTRACT_VERSION),
    }
}

/// Sets up a new instance owned by the sender: the identity tag, the counter,
/// the minimal donation and, when given, the parent. An instance is set up
/// once: where a `state` record is already present the call fails and writes
/// nothing. `addr_check` is the host's verdict on the parent's address; it is
/// not read when there is no parent.
pub fn instantiate(
    store: &mut Store,
    info: &MessageInfo,
    counter: u64,
    minimal_donation: Coin,
    parent: Option<Parent>,
    addr_check: Result<(), StdError>,
) -> (r: Result<Response, StdError>)
    ensures
        r is Err ==> final(store)@ == old(store)@,
        old(store).state is Some ==> r is Err,
        old(store).state is None && rejected(parent, addr_check) ==> r == Err::<Response, StdError>(
            addr_check->Err_0,
        ),
        old(store).state is None && !rejected(parent, addr_check) ==> r is Ok && r->Ok_0@
            == empty_response() && final(store)@ == instantiated(
            old(store)@,
            info.sender@,
            counter,
            minimal_donation@,
            parent_view(parent),
        ),
{
    if store.state.is_some() {
        return Err(generic_err("instance already instantiated"));
    }
    let tag = current_version();
    let r = install(store, counter, minimal_donation, info.sender.clone(), parent, addr_check);
    if r.is_ok() {
        store.contract_version = Some(tag);
    }
    r
}

/// Moves a store from the layout of version 0.1.0, where the counter, the
/// minimal donation and the owner are records of their own, to the current
/// layout, applying the parent when one is given. The identity tag is not
/// touched.
pub fn migrate_0_1_0(
    store: &mut Store,
    parent: Option<Parent>,
    addr_check: Result<(), StdError>,
) -> (r: Result<Response, StdError>)
    ensures
        r is Err ==> final(store)@ == old(store)@,
        fields_0_1_0(old(store)@) is None ==> r is Err,
        fields_0_1_0(old(store)@) is Some && rejected(parent, addr_check) ==> r == Err::<Response, StdError>(addr_check->Err_0),
        fields_0_1_0(old(store)@) is Some && !rejected(parent, addr_check) ==> r is Ok
            && r->Ok_0@ == empty_response() && final(store)@ == with_state(
            old(store)@,
            fields_0_1_0(old(store)@)->Some_0.0,
            fields_0_1_0(old(store)@)->Some_0.1,
            fields_0_1_0(old(store)@)->Some_0.2,
            parent_view(parent),
        ),
{
    let counter = match store.counter {
        Some(c) => c,
        None => {
            return Err(not_found("counter"));
        },
    };
    let minimal_donation = match &store.minimal_donation {
        Some(m) => m.duplicate(),
        None => {
            return Err(not_found("minimal_donation"));
        },
    };
    let owner = match &store.owner {
        Some(o) => o.clone(),
        None => {
            return Err(not_found("owner"));
        },
    };
    install(store, counter, minimal_donation, owner, parent, addr_check)
}

/// Moves a store from the layout of version 0.2.0, whose `state` record has no
/// countdown, to the current layout, applying the parent when one is given. The
/// identity tag is not touched.
pub fn migrate_0_2_0(
    store: &mut Store,
    parent: Option<Parent>,
    addr_check: Result<(), StdError>,
) -> (r: Result<Response, StdError>)
    ensures
        r is Err ==> final(store)@ == old(store)@,
        fields_0_2_0(old(store)@) is None ==> r is Err,
        fields_0_2_0(old(store)@) is Some && rejected(parent, addr_check) ==> r == Err::<Response, StdError>(addr_check->Err_0),
        fields_0_2_0(old(store)@) is Some && !rejected(parent, addr_check) ==> r is Ok
            && r->Ok_0@ == empty_response() && final(store)@ == with_state(
            old(store)@,
            fields_0_2_0(old(store)@)->Some_0.0,
            fields_0_2_0(old(store)@)->Some_0.1,
            fields_0_2_0(old(store)@)->Some_0.2,
            parent_view(parent),
        ),
{
    let (counter, minimal_donation, owner) = match &store.state {
        Some(old_state) => (
            old_state.counter,
            old_state.minimal_donation.duplicate(),
            old_state.owner.clone(),
        ),
        None => {
            return Err(not_found("state"));
        },
    };
    install(store, counter, minimal_donation, owner, parent, addr_check)
}

/// Brings the records of an instance to the current layout.
///
/// The stored identity tag must name this program. From a known earlier
/// version the records are transformed and the tag advanced; at the current
/// version nothing is written and the parent is not applied; any other version
/// is refused. A call that fails writes nothing.
pub fn migrate(
    store: &mut Store,
    parent: Option<Parent>,
    addr_check: Result<(), StdError>,
) -> (r: Result<Response, ContractError>)
    ensures
        r is Err ==> final(store)@ == old(store)@,
        old(store).contract_version is None ==> r matches Err(ContractError::Std(_)),
        foreign(old(store)@) ==> r == Err::<Response, ContractError>(
            ContractError::InvalidContract {
                contract: old(store).contract_version->Some_0.contract,
            },
        ),
        unknown_version(old(store)@) ==> r == Err::<Response, ContractError>(
            ContractError::InvalidContractVersion {
                version: old(store).contract_version->Some_0.version,
            },
        ),
        tagged(old(store)@, CONTRACT_VERSION@) ==> r is Ok && r->Ok_0@ == empty_response()
            && final(store)@ == old(store)@,
        from_legacy(old(store)@) && legacy_fields(old(store)@) is None ==> r matches Err(
            ContractError::Std(_),
        ),
        from_legacy(old(store)@) && legacy_fields(old(store)@) is Some && rejected(
            parent,
            addr_check,
        ) ==> r == Err::<Response, ContractError>(ContractError::Std(addr_check->Err_0)),
        from_legacy(old(store)@) && legacy_fields(old(store)@) is Some && !rejected(
            parent,
            addr_check,
        ) ==> r is Ok && r->Ok_0@ == empty_response() && final(store)@ == upgraded(
            old(store)@,
            parent_view(parent),
        ),
{
    proof {
        reveal_strlit("0.1.0");
        reveal_strlit("0.2.0");
        reveal_strlit("0.3.0");
        assert(CONTRACT_VERSION@ == "0.3.0"@);
        assert(CONTRACT_VERSION@[2] == '3' && "0.1.0"@[2] == '1' && "0.2.0"@[2] == '2');
    }
    let (contract, version) = match &store.contract_version {
        Some(tag) => (tag.contract.clone(), tag.version.clone()),
        None => {
            return Err(ContractError::Std(not_found("contract_info")));
        },
    };
    if !(contract == String::from_str(CONTRACT_NAME)) {
        return Err(ContractError::InvalidContract { contract });
    }
    let tag = current_version();
    let resp = if version == String::from_str("0.1.0") {
        migrate_0_1_0(store, parent, addr_check)
    } else if version == String::from_str("0.2.0") {
        migrate_0_2_0(store, parent, addr_check)
    } else if version == String::from_str(CONTRACT_VERSION) {
        return Ok(Response::new());
    } else {
        return Err(ContractError::InvalidContractVersion { version });
    };
    match resp {
        Ok(resp) => {
            store.contract_version = Some(tag);
            Ok(resp)
        },
        Err(e) => Err(ContractError::Std(e)),
    }
}

/// The records that the migration of version 0.2.0 left behind for a store of
/// version 0.1.0: the three records gathered into `state`, with no countdown,
/// and the tag at 0.2.0.
pub open spec fn lifted_to_0_2_0(s: StoreView) -> StoreView {
    let f = fields_0_1_0(s)->Some_0;
    StoreView {
        contract_version: Some(ContractVersionView { contract: CONTRACT_NAME@, version: "0.2.0"@ }),
        state: Some(
            StateView { counter: f.0, minimal_donation: f.1, owner: f.2, donating_parent: None },
        ),
        ..s
    }
}

/// Migrating a store of version 0.1.0 straight to the current layout leaves the
/// same records as taking it to the layout of version 0.2.0 first and migrating
/// from there, with the same parent applied at the last step.
pub proof fn lemma_migration_chain(s: StoreView, parent: Option<ParentView>)
    requires
        tagged(s, "0.1.0"@),
        fields_0_1_0(s) is Some,
    ensures
        from_legacy(lifted_to_0_2_0(s)),
        legacy_fields(lifted_to_0_2_0(s)) is Some,
        upgraded(lifted_to_0_2_0(s), parent) == upgraded(s, parent),
{
    reveal_strlit("0.1.0");
    reveal_strlit("0.2.0");
    assert("0.1.0"@[2] != "0.2.0"@[2]);
    assert(upgraded(lifted_to_0_2_0(s), parent) =~= upgraded(s, parent));
}

} // verus!
