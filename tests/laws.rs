use counting_contract::coin::{Coin, Decimal};
use counting_contract::contract::{exec, migrate_0_2_0};
use counting_contract::contract::query::value;
use counting_contract::error::ContractError;
use counting_contract::msg::{ExecMsg, InstantiateMsg, MessageInfo, MigrateMsg, Parent};
use counting_contract::response::{decimal_string, OutboundMsg};
use counting_contract::state::{ContractVersion, ParentDonation, State, Store};
use counting_contract::{execute, instantiate, migrate};

use cosmwasm_std::StdError;

fn coin(amount: u128, denom: &str) -> Coin {
    Coin { denom: denom.to_string(), amount }
}

fn info(sender: &str, funds: Vec<Coin>) -> MessageInfo {
    MessageInfo { sender: sender.to_string(), funds }
}

fn tag(contract: &str, version: &str) -> Option<ContractVersion> {
    Some(ContractVersion { contract: contract.to_string(), version: version.to_string() })
}

fn parent(period: u64, part: Decimal) -> Parent {
    Parent { addr: "parent".to_string(), donating_period: period, part }
}

fn set_up(counter: u64, minimal_donation: Coin, parent: Option<Parent>) -> Store {
    let mut store = Store::new();
    let msg = InstantiateMsg { counter, minimal_donation, parent };
    instantiate(&mut store, &info("owner", vec![]), msg, Ok(())).unwrap();
    store
}

fn state(counter: u64, minimal_donation: Coin, owner: &str, donating_parent: Option<u64>) -> State {
    State { counter, minimal_donation, owner: owner.to_string(), donating_parent }
}

fn snapshot(store: &Store) -> String {
    format!("{:?}", store)
}

#[test]
fn instantiate_records_tag_state_and_parent() {
    let store = set_up(7, coin(10, "atom"), Some(parent(3, Decimal::percent(25))));
    assert_eq!(store.contract_version, tag("counting_contract", "0.3.0"));
    assert_eq!(store.state, Some(state(7, coin(10, "atom"), "owner", Some(3))));
    assert_eq!(
        store.parent_donation,
        Some(ParentDonation {
            address: "parent".to_string(),
            donating_parent_period: 3,
            part: Decimal::raw(250_000_000_000_000_000),
        })
    );
}

#[test]
fn instantiate_with_rejected_parent_address_writes_nothing() {
    let mut store = Store::new();
    let msg = InstantiateMsg {
        counter: 0,
        minimal_donation: coin(10, "atom"),
        parent: Some(parent(2, Decimal::percent(10))),
    };
    let err = instantiate(&mut store, &info("owner", vec![]), msg, Err(StdError::generic_err("bad")))
        .unwrap_err();
    assert_eq!(err, StdError::generic_err("bad"));
    assert_eq!(store, Store::new());
}

#[test]
fn migration_at_current_version_changes_nothing() {
    let mut store = set_up(4, coin(10, "atom"), None);
    let before = snapshot(&store);
    let msg = MigrateMsg { parent: Some(parent(2, Decimal::percent(50))) };
    let resp = migrate(&mut store, msg, Ok(())).unwrap();
    assert!(resp.messages.is_empty() && resp.attributes.is_empty());
    assert_eq!(snapshot(&store), before);
    assert_eq!(store.parent_donation, None);
}

#[test]
fn migration_chain_from_oldest_layout() {
    let legacy = || Store {
        contract_version: tag("counting_contract", "0.1.0"),
        counter: Some(5),
        minimal_donation: Some(coin(10, "atom")),
        owner: Some("owner".to_string()),
        ..Store::new()
    };
    let mut direct = legacy();
    migrate(&mut direct, MigrateMsg { parent: None }, Ok(())).unwrap();
    assert_eq!(direct.state, Some(state(5, coin(10, "atom"), "owner", None)));
    assert_eq!(direct.contract_version, tag("counting_contract", "0.3.0"));

    // The same instance after the migration of version 0.2.0.
    let mut stepped = Store {
        contract_version: tag("counting_contract", "0.2.0"),
        state: Some(state(5, coin(10, "atom"), "owner", None)),
        ..legacy()
    };
    migrate(&mut stepped, MigrateMsg { parent: None }, Ok(())).unwrap();
    assert_eq!(stepped, direct);
}

#[test]
fn migration_from_0_2_0_applies_parent() {
    let mut store = Store {
        contract_version: tag("counting_contract", "0.2.0"),
        state: Some(state(8, coin(1, "atom"), "owner", None)),
        ..Store::new()
    };
    let msg = MigrateMsg { parent: Some(parent(4, Decimal::percent(10))) };
    migrate(&mut store, msg, Ok(())).unwrap();
    assert_eq!(store.state, Some(state(8, coin(1, "atom"), "owner", Some(4))));
    assert_eq!(
        store.parent_donation,
        Some(ParentDonation {
            address: "parent".to_string(),
            donating_parent_period: 4,
            part: Decimal::percent(10),
        })
    );
    assert_eq!(store.contract_version, tag("counting_contract", "0.3.0"));
}

#[test]
fn migration_with_rejected_parent_address_writes_nothing() {
    let mut store = Store {
        contract_version: tag("counting_contract", "0.2.0"),
        state: Some(state(8, coin(1, "atom"), "owner", None)),
        ..Store::new()
    };
    let before = snapshot(&store);
    let msg = MigrateMsg { parent: Some(parent(4, Decimal::percent(10))) };
    let err = migrate(&mut store, msg, Err(StdError::generic_err("bad"))).unwrap_err();
    assert_eq!(err, ContractError::Std(StdError::generic_err("bad")));
    assert_eq!(snapshot(&store), before);
}

#[test]
fn migration_from_missing_legacy_record_fails() {
    let mut store = Store {
        contract_version: tag("counting_contract", "0.1.0"),
        counter: Some(5),
        owner: Some("owner".to_string()),
        ..Store::new()
    };
    let before = snapshot(&store);
    let err = migrate(&mut store, MigrateMsg { parent: None }, Ok(())).unwrap_err();
    assert!(matches!(err, ContractError::Std(StdError::NotFound { .. })));
    assert_eq!(snapshot(&store), before);
}

#[test]
fn migrate_0_2_0_keeps_tag() {
    let mut store = Store {
        contract_version: tag("counting_contract", "0.2.0"),
        state: Some(state(2, coin(3, "atom"), "owner", None)),
        ..Store::new()
    };
    migrate_0_2_0(&mut store, None, Ok(())).unwrap();
    assert_eq!(store.contract_version, tag("counting_contract", "0.2.0"));
    assert_eq!(store.state, Some(state(2, coin(3, "atom"), "owner", None)));
}

#[test]
fn migration_without_tag_fails() {
    let mut store = Store::new();
    let err = migrate(&mut store, MigrateMsg { parent: None }, Ok(())).unwrap_err();
    assert!(matches!(err, ContractError::Std(StdError::NotFound { .. })));
    assert_eq!(store, Store::new());
}

#[test]
fn unknown_version_rejected() {
    let mut store = set_up(4, coin(10, "atom"), None);
    store.contract_version = tag("counting_contract", "9.9.9");
    let before = snapshot(&store);
    let err = migrate(&mut store, MigrateMsg { parent: None }, Ok(())).unwrap_err();
    assert_eq!(err, ContractError::InvalidContractVersion { version: "9.9.9".to_string() });
    assert_eq!(snapshot(&store), before);
}

#[test]
fn name_mismatch_rejected() {
    let mut store = set_up(4, coin(10, "atom"), None);
    store.contract_version = tag("other_contract", "0.1.0");
    let before = snapshot(&store);
    let err = migrate(&mut store, MigrateMsg { parent: None }, Ok(())).unwrap_err();
    assert_eq!(err, ContractError::InvalidContract { contract: "other_contract".to_string() });
    assert_eq!(snapshot(&store), before);
}

#[test]
fn donation_threshold() {
    let mut store = set_up(0, coin(10, "atom"), None);
    exec::donate(&mut store, &info("sender", vec![coin(10, "atom")]), vec![]).unwrap();
    assert_eq!(value(&store).unwrap().value, 1);
    exec::donate(&mut store, &info("sender", vec![coin(5, "atom")]), vec![]).unwrap();
    assert_eq!(value(&store).unwrap().value, 1);
    exec::donate(&mut store, &info("sender", vec![coin(50, "btc")]), vec![]).unwrap();
    assert_eq!(value(&store).unwrap().value, 1);
}

#[test]
fn zero_threshold_always_donates() {
    let mut store = set_up(0, coin(0, "atom"), None);
    exec::donate(&mut store, &info("sender", vec![]), vec![]).unwrap();
    exec::donate(&mut store, &info("sender", vec![coin(1, "btc")]), vec![]).unwrap();
    assert_eq!(value(&store).unwrap().value, 2);
}

#[test]
fn parent_forwarding_cycle() {
    let mut store = set_up(0, coin(10, "atom"), Some(parent(2, Decimal::percent(50))));
    let funds = vec![coin(10, "atom")];

    let first = exec::donate(&mut store, &info("sender", funds.clone()), vec![coin(10, "atom")])
        .unwrap();
    assert!(first.messages.is_empty());
    assert_eq!(store.state.as_ref().unwrap().donating_parent, Some(1));

    let balance = vec![coin(21, "atom"), coin(7, "btc")];
    let second = exec::donate(&mut store, &info("sender", funds), balance).unwrap();
    assert_eq!(store.state.as_ref().unwrap().donating_parent, Some(2));
    assert_eq!(store.state.as_ref().unwrap().counter, 2);
    assert_eq!(
        second.messages,
        vec![OutboundMsg::WasmExecute {
            contract_addr: "parent".to_string(),
            msg: ExecMsg::Donate {},
            funds: vec![coin(10, "atom"), coin(3, "btc")],
        }]
    );
    assert_eq!(second.attributes[0].key, "donated_to_parent");
    assert_eq!(second.attributes[0].value, "parent");
}

#[test]
fn forwarding_overflow_fails_without_writing() {
    let mut store = set_up(0, coin(0, "atom"), Some(parent(1, Decimal::percent(200))));
    let before = snapshot(&store);
    let err = exec::donate(&mut store, &info("sender", vec![]), vec![coin(u128::MAX, "atom")])
        .unwrap_err();
    assert!(matches!(err, StdError::ConversionOverflow { .. }));
    assert_eq!(snapshot(&store), before);
}

#[test]
fn owner_gating_leaves_records() {
    let mut store = set_up(5, coin(10, "atom"), None);
    let before = snapshot(&store);
    let member = info("member", vec![]);
    let unauthorized = ContractError::Unauthorized { owner: "owner".to_string() };
    for msg in [
        ExecMsg::Reset { counter: 0 },
        ExecMsg::Withdraw {},
        ExecMsg::WithdrawTo { receiver: "member".to_string(), funds: vec![] },
    ] {
        let err = execute(&mut store, &member, vec![coin(10, "atom")], msg).unwrap_err();
        assert_eq!(err, unauthorized);
        assert_eq!(snapshot(&store), before);
    }
}

#[test]
fn withdraw_caps() {
    let store = set_up(0, coin(10, "atom"), None);
    let owner = info("owner", vec![]);
    let balance = || vec![coin(10, "atom"), coin(7, "btc")];
    let sent = |limits: Vec<Coin>| {
        let resp =
            exec::withdraw_to(&store, &owner, balance(), "receiver".to_string(), limits).unwrap();
        match resp.messages.into_iter().next().unwrap() {
            OutboundMsg::BankSend { to_address, amount } => {
                assert_eq!(to_address, "receiver");
                amount
            }
            other => panic!("unexpected message {:?}", other),
        }
    };
    assert_eq!(
        sent(vec![coin(5, "atom"), coin(100, "btc")]),
        vec![coin(5, "atom"), coin(7, "btc")]
    );
    assert_eq!(sent(vec![coin(3, "atom")]), vec![coin(3, "atom"), coin(0, "btc")]);
    assert_eq!(sent(vec![]), balance());
}

#[test]
fn withdraw_sends_everything_to_owner() {
    let store = set_up(0, coin(10, "atom"), None);
    let resp = exec::withdraw(&store, &info("owner", vec![]), vec![coin(4, "atom")]).unwrap();
    assert_eq!(
        resp.messages,
        vec![OutboundMsg::BankSend { to_address: "owner".to_string(), amount: vec![coin(4, "atom")] }]
    );
}

#[test]
fn value_without_state_fails() {
    let err = value(&Store::new()).unwrap_err();
    assert!(matches!(err, StdError::NotFound { .. }));
}

#[test]
fn decimal_notation() {
    assert_eq!(decimal_string(0), "0");
    assert_eq!(decimal_string(9), "9");
    assert_eq!(decimal_string(10), "10");
    assert_eq!(decimal_string(u64::MAX), "18446744073709551615");
}

#[test]
fn donation_qualifies_checks_denomination_and_amount() {
    assert!(exec::donation_qualifies(&coin(10, "atom"), &vec![coin(3, "btc"), coin(10, "atom")]));
    assert!(!exec::donation_qualifies(&coin(10, "atom"), &vec![coin(30, "btc"), coin(9, "atom")]));
    assert!(exec::donation_qualifies(&coin(0, "atom"), &vec![]));
}

#[test]
fn second_instantiation_fails_without_writing() {
    let mut store = set_up(3, coin(10, "atom"), None);
    let before = snapshot(&store);
    let msg = InstantiateMsg { counter: 0, minimal_donation: coin(1, "btc"), parent: None };
    let err = instantiate(&mut store, &info("intruder", vec![]), msg, Ok(())).unwrap_err();
    assert!(matches!(err, StdError::GenericErr { .. }));
    assert_eq!(snapshot(&store), before);
}

#[test]
fn zero_period_forwards_every_donation() {
    let mut store = set_up(0, coin(0, "atom"), Some(parent(0, Decimal::percent(50))));
    assert_eq!(store.state.as_ref().unwrap().donating_parent, Some(0));
    for expected in 1..=2u64 {
        let resp = exec::donate(&mut store, &info("sender", vec![]), vec![coin(8, "atom")]).unwrap();
        assert_eq!(
            resp.messages,
            vec![OutboundMsg::WasmExecute {
                contract_addr: "parent".to_string(),
                msg: ExecMsg::Donate {},
                funds: vec![coin(4, "atom")],
            }]
        );
        assert_eq!(store.state.as_ref().unwrap().counter, expected);
        assert_eq!(store.state.as_ref().unwrap().donating_parent, Some(0));
    }
}
