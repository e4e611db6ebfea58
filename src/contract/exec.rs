//! The state-changing operations: donating, resetting and withdrawing.

use cosmwasm_std::StdError;
use vstd::prelude::*;

use crate::coin::{
    checked_mul_floor, coins_view, part_of, Coin, CoinView, Decimal, DECIMAL_FRACTIONAL,
};
use crate::error::{not_found, ContractError};
use crate::msg::{ExecMsg, MessageInfo};
use crate::response::{decimal, decimal_string, OutboundMsg, OutboundMsgView, Response, ResponseView};
use crate::state::{ParentDonationView, StateView, Store, StoreView};

verus! {

/// Funds `funds` meet the minimal donation `min`: the minimum is zero, or a coin
/// of its denomination reaches it.
pub open spec fn qualifies(min: CoinView, funds: Seq<CoinView>) -> bool {
    min.amount == 0 || exists|i: int|
        0 <= i < funds.len() && funds[i].denom == min.denom && funds[i].amount >= min.amount
}

/// The share `part` of each coin of `balance`.
pub open spec fn forwarded(balance: Seq<CoinView>, part: Decimal) -> Seq<CoinView> {
    balance.map_values(|c: CoinView| CoinView { denom: c.denom, amount: part_of(c.amount, part) as u128 })
}

/// Every share of `balance` fits in 128 bits.
pub open spec fn forward_fits(balance: Seq<CoinView>, part: Decimal) -> bool {
    forall|i: int| 0 <= i < balance.len() ==> part_of(#[trigger] balance[i].amount, part) <= u128::MAX
}

/// This donation brings the countdown to the parent to zero, or finds it there
/// already (a parent period of zero forwards on every donation).
pub open spec fn forwards(st: StateView) -> bool {
    st.donating_parent == Some(1u64) || st.donating_parent == Some(0u64)
}

/// The state after a qualifying donation: one more on the counter, one less on
/// the countdown, which restarts from `period` when it reaches zero (or was
/// there already).
pub open spec fn counted(st: StateView, period: u64) -> StateView {
    StateView {
        counter: (st.counter + 1) as u64,
        donating_parent: match st.donating_parent {
            Some(n) => if n <= 1 {
                Some(period)
            } else {
                Some((n - 1) as u64)
            },
            None => None,
        },
        ..st
    }
}

/// A donation can be counted without overflow: when it qualifies, the counter
/// is below its maximum.
pub open spec fn donation_countable(s: StoreView, funds: Seq<CoinView>) -> bool {
    match s.state {
        Some(st) => qualifies(st.minimal_donation, funds) ==> st.counter < u64::MAX,
        None => true,
    }
}

/// The tags of a donation.
pub open spec fn donate_attributes(sender: Seq<char>, counter: nat) -> Seq<(Seq<char>, Seq<char>)> {
    seq![("action"@, "donate"@), ("sender"@, sender), ("counter"@, decimal(counter))]
}

/// The call on the parent that carries its share of `balance`.
pub open spec fn forward_msg(pd: ParentDonationView, balance: Seq<CoinView>) -> OutboundMsgView {
    OutboundMsgView::WasmExecute {
        contract_addr: pd.address,
        msg: ExecMsg::Donate {  },
        funds: forwarded(balance, pd.part),
    }
}

/// The records and response a donation of `funds` by `sender` leaves, when the
/// contract holds `balance`; `None` when it fails.
pub open spec fn donate_outcome(
    s: StoreView,
    sender: Seq<char>,
    funds: Seq<CoinView>,
    balance: Seq<CoinView>,
) -> Option<(StoreView, ResponseView)> {
    match s.state {
        None => None,
        Some(st) => if !qualifies(st.minimal_donation, funds) {
            Some((s, ResponseView { messages: seq![], attributes: donate_attributes(sender, st.counter as nat) }))
        } else if !forwards(st) {
            Some(
                (
                    StoreView { state: Some(counted(st, 0)), ..s },
                    ResponseView {
                        messages: seq![],
                        attributes: donate_attributes(sender, (st.counter + 1) as nat),
                    },
                ),
            )
        } else {
            match s.parent_donation {
                None => None,
                Some(pd) => if !forward_fits(balance, pd.part) {
                    None
                } else {
                    Some(
                        (
                            StoreView {
                                state: Some(counted(st, pd.donating_parent_period)),
                                ..s
                            },
                            ResponseView {
                                messages: seq![forward_msg(pd, balance)],
                                attributes: seq![("donated_to_parent"@, pd.address)]
                                    + donate_attributes(sender, (st.counter + 1) as nat),
                            },
                        ),
                    )
                },
            }
        },
    }
}

/// Whether `funds` meet the minimal donation.
pub fn donation_qualifies(minimal_donation: &Coin, funds: &Vec<Coin>) -> (r: bool)
    ensures
        r == qualifies(minimal_donation@, coins_view(funds@)),
{
    if minimal_donation.amount == 0 {
        return true;
    }
    let ghost fv = coins_view(funds@);
    let mut i: usize = 0;
    while i < funds.len()
        invariant
            i <= funds.len(),
            fv == coins_view(funds@),
            forall|j: int|
                0 <= j < i ==> !(fv[j].denom == minimal_donation@.denom && fv[j].amount
                    >= minimal_donation.amount),
        decreases funds.len() - i,
    {
        let coin = &funds[i];
        if coin.denom == minimal_donation.denom && coin.amount >= minimal_donation.amount {
            assert(fv[i as int] == coin@);
            return true;
        }
        i += 1;
    }
    false
}

/// The share `part` of each coin of `balance`, or an error when one does not
/// fit in 128 bits.
fn forward_share(balance: &Vec<Coin>, part: Decimal) -> (r: Result<Vec<Coin>, StdError>)
    ensures
        r is Ok <==> forward_fits(coins_view(balance@), part),
        r is Ok ==> coins_view(r->Ok_0@) == forwarded(coins_view(balance@), part),
{
    let ghost bv = coins_view(balance@);
    let mut out: Vec<Coin> = Vec::new();
    let mut i: usize = 0;
    while i < balance.len()
        invariant
            i <= balance.len(),
            bv == coins_view(balance@),
            out@.len() == i,
            forall|j: int| 0 <= j < i ==> part_of(#[trigger] bv[j].amount, part) <= u128::MAX,
            coins_view(out@) =~= forwarded(bv, part).take(i as int),
        decreases balance.len() - i,
    {
        let coin = &balance[i];
        match checked_mul_floor(coin.amount, part) {
            Ok(amount) => {
                out.push(Coin { denom: coin.denom.clone(), amount });
                assert(coins_view(out@) =~= forwarded(bv, part).take(i + 1));
            },
            Err(e) => {
                assert(part_of(bv[i as int].amount, part) > u128::MAX);
                return Err(e);
            },
        }
        i += 1;
    }
    assert(forwarded(bv, part).take(i as int) =~= forwarded(bv, part));
    Ok(out)
}

/// Counts a donation that meets the minimum and, when the countdown to the
/// parent runs out, restarts it and forwards the parent its share of the
/// contract's `balance`. A donation below the minimum changes nothing and is
/// no error.
pub fn donate(store: &mut Store, info: &MessageInfo, balance: Vec<Coin>) -> (r: Result<Response, StdError>)
    requires
        donation_countable(old(store)@, coins_view(info.funds@)),
    ensures
        donate_outcome(old(store)@, info.sender@, coins_view(info.funds@), coins_view(balance@)) is None
            ==> r is Err && final(store)@ == old(store)@,
        donate_outcome(old(store)@, info.sender@, coins_view(info.funds@), coins_view(balance@)) is Some
            ==> r is Ok && (final(store)@, r->Ok_0@) == donate_outcome(
            old(store)@,
            info.sender@,
            coins_view(info.funds@),
            coins_view(balance@),
        )->Some_0,
{
    let (counter, countdown, qualified) = match &store.state {
        None => {
            return Err(not_found("state"));
        },
        Some(state) => (
            state.counter,
            state.donating_parent,
            donation_qualifies(&state.minimal_donation, &info.funds),
        ),
    };
    let mut resp = Response::new();
    let mut new_counter = counter;
    if qualified {
        new_counter = counter + 1;
        let mut new_countdown = countdown;
        if let Some(n) = countdown {
            if n <= 1 {
                let (address, period, part) = match &store.parent_donation {
                    None => {
                        return Err(not_found("parent_donation"));
                    },
                    Some(pd) => (pd.address.clone(), pd.donating_parent_period, pd.part),
                };
                let funds = match forward_share(&balance, part) {
                    Ok(funds) => funds,
                    Err(e) => {
                        return Err(e);
                    },
                };
                let msg = OutboundMsg::WasmExecute {
                    contract_addr: address.clone(),
                    msg: ExecMsg::Donate {  },
                    funds,
                };
                resp = resp.add_message(msg).add_attribute("donated_to_parent", address);
                new_countdown = Some(period);
            } else {
                new_countdown = Some(n - 1);
            }
        }
        match &mut store.state {
            Some(state) => {
                state.counter = new_counter;
                state.donating_parent = new_countdown;
            },
            None => {},
        }
    }
    let resp = resp.add_attribute("action", String::from_str("donate")).add_attribute(
        "sender",
        info.sender.clone(),
    ).add_attribute("counter", decimal_string(new_counter));
    proof {
        let out = donate_outcome(old(store)@, info.sender@, coins_view(info.funds@), coins_view(balance@));
        assert(out is Some);
        assert(store@ == out->Some_0.0);
        assert(resp@.attributes =~= out->Some_0.1.attributes);
        assert(resp@.messages =~= out->Some_0.1.messages);
    }
    Ok(resp)
}

/// With a minimal donation of zero every donation counts, whatever funds come
/// with it, even none: a call that succeeds adds one to the counter.
pub proof fn lemma_zero_threshold_counts(
    s: StoreView,
    sender: Seq<char>,
    funds: Seq<CoinView>,
    balance: Seq<CoinView>,
)
    requires
        s.state is Some,
        s.state->Some_0.minimal_donation.amount == 0,
        donation_countable(s, funds),
        donate_outcome(s, sender, funds, balance) is Some,
    ensures
        qualifies(s.state->Some_0.minimal_donation, funds),
        donate_outcome(s, sender, funds, balance)->Some_0.0.state->Some_0.counter
            == s.state->Some_0.counter + 1,
{
}

/// With a countdown of two and a parent period of two, two qualifying
/// donations in a row forward nothing on the first call; on the second the
/// countdown reaches zero, restarts at two, and exactly one instruction goes
/// out: the parent's share of the balance held at that moment, no more than
/// that balance in any denomination (see `lemma_share_fits`).
pub proof fn lemma_parent_forwarding_cycle(
    s: StoreView,
    sender: Seq<char>,
    funds1: Seq<CoinView>,
    balance1: Seq<CoinView>,
    funds2: Seq<CoinView>,
    balance2: Seq<CoinView>,
)
    requires
        s.state is Some,
        s.state->Some_0.donating_parent == Some(2u64),
        qualifies(s.state->Some_0.minimal_donation, funds1),
        qualifies(s.state->Some_0.minimal_donation, funds2),
        s.parent_donation is Some,
        s.parent_donation->Some_0.donating_parent_period == 2,
        s.parent_donation->Some_0.part.atomics <= DECIMAL_FRACTIONAL,
        s.state->Some_0.counter + 2 <= u64::MAX,
    ensures
        ({
            let first = donate_outcome(s, sender, funds1, balance1);
            &&& first is Some
            &&& first->Some_0.0.state->Some_0.donating_parent == Some(1u64)
            &&& first->Some_0.0.state->Some_0.counter == s.state->Some_0.counter + 1
            &&& first->Some_0.1.messages.len() == 0
            &&& ({
                let second = donate_outcome(first->Some_0.0, sender, funds2, balance2);
                &&& second is Some
                &&& second->Some_0.0.state->Some_0.donating_parent == Some(2u64)
                &&& second->Some_0.0.state->Some_0.counter == s.state->Some_0.counter + 2
                &&& second->Some_0.0.parent_donation == s.parent_donation
                &&& second->Some_0.1.messages == seq![
                    forward_msg(s.parent_donation->Some_0, balance2),
                ]
            })
        }),
{
    lemma_share_fits(balance2, s.parent_donation->Some_0.part);
}

/// A share of at most one never exceeds what it is taken from.
pub proof fn lemma_share_fits(balance: Seq<CoinView>, part: Decimal)
    requires
        part.atomics <= DECIMAL_FRACTIONAL,
    ensures
        forward_fits(balance, part),
        forall|i: int| 0 <= i < balance.len() ==> part_of(#[trigger] balance[i].amount, part) <= balance[i].amount,
{
    assert forall|i: int| 0 <= i < balance.len() implies part_of(#[trigger] balance[i].amount, part)
        <= balance[i].amount by {
        let a = balance[i].amount as int;
        let p = part.atomics as int;
        let d = DECIMAL_FRACTIONAL as int;
        assert(a * p <= a * d) by (nonlinear_arith)
            requires
                0 <= a,
                0 <= p <= d,
        ;
        assert((a * p) / d <= (a * d) / d) by (nonlinear_arith)
            requires
                a * p <= a * d,
                d > 0,
        ;
        assert((a * d) / d == a) by (nonlinear_arith)
            requires
                d > 0,
        ;
    }
}

/// What a withdrawal to a receiver sends: with no limits, the balance as it
/// is; otherwise each coin of the balance, in order, with its amount the
/// smaller of what is held and the limit on its denomination, zero when that
/// denomination is not listed.
pub proof fn lemma_withdraw_caps(balance: Seq<CoinView>, limits: Seq<CoinView>)
    ensures
        limits.len() == 0 ==> capped(balance, limits) == balance,
        capped(balance, limits).len() == balance.len(),
        forall|i: int|
            0 <= i < balance.len() ==> {
                let c = #[trigger] capped(balance, limits)[i];
                &&& c.denom == balance[i].denom
                &&& c.amount <= balance[i].amount
                &&& limits.len() > 0 ==> c.amount == vstd::math::min(
                    balance[i].amount as int,
                    limit_for(limits, balance[i].denom) as int,
                )
            },
        forall|d: Seq<char>|
            (forall|k: int| 0 <= k < limits.len() ==> (#[trigger] limits[k]).denom != d)
                ==> limit_for(limits, d) == 0,
{
    assert forall|d: Seq<char>|
        (forall|k: int| 0 <= k < limits.len() ==> (#[trigger] limits[k]).denom != d) implies
        limit_for(limits, d) == 0 by {
        lemma_unlisted_limit(limits, d);
    }
}

/// A denomination that `limits` does not list has the limit zero.
proof fn lemma_unlisted_limit(limits: Seq<CoinView>, d: Seq<char>)
    requires
        forall|k: int| 0 <= k < limits.len() ==> (#[trigger] limits[k]).denom != d,
    ensures
        limit_for(limits, d) == 0,
    decreases limits.len(),
{
    if limits.len() > 0 {
        assert(limits[0].denom != d);
        assert forall|k: int| 0 <= k < limits.drop_first().len() implies (
        #[trigger] limits.drop_first()[k]).denom != d by {
            assert(limits.drop_first()[k] == limits[k + 1]);
        }
        lemma_unlisted_limit(limits.drop_first(), d);
    }
}

/// The limit that `limits` sets on `denom`: the amount of its first coin of
/// that denomination, zero when it has none.
pub open spec fn limit_for(limits: Seq<CoinView>, denom: Seq<char>) -> u128
    decreases limits.len(),
{
    if limits.len() == 0 {
        0
    } else if limits[0].denom == denom {
        limits[0].amount
    } else {
        limit_for(limits.drop_first(), denom)
    }
}

/// `balance` with each coin capped at the limit `limits` sets on its
/// denomination; an empty `limits` caps nothing.
pub open spec fn capped(balance: Seq<CoinView>, limits: Seq<CoinView>) -> Seq<CoinView> {
    if limits.len() == 0 {
        balance
    } else {
        balance.map_values(
            |c: CoinView|
                CoinView {
                    denom: c.denom,
                    amount: if c.amount <= limit_for(limits, c.denom) {
                        c.amount
                    } else {
                        limit_for(limits, c.denom)
                    },
                },
        )
    }
}

/// The tags of a withdrawal.
pub open spec fn withdraw_attributes(sender: Seq<char>) -> Seq<(Seq<char>, Seq<char>)> {
    seq![("action"@, "withdraw"@), ("sender"@, sender)]
}

/// The transfer of `amount` to `to_address`.
pub open spec fn bank_send(to_address: Seq<char>, amount: Seq<CoinView>) -> OutboundMsgView {
    OutboundMsgView::BankSend { to_address, amount }
}

/// The caller is not the owner recorded in `s`.
pub open spec fn not_owner(s: StoreView, sender: Seq<char>) -> bool {
    match s.state {
        Some(st) => st.owner != sender,
        None => false,
    }
}

/// The caller is the owner recorded in `s`.
pub open spec fn is_owner(s: StoreView, sender: Seq<char>) -> bool {
    match s.state {
        Some(st) => st.owner == sender,
        None => false,
    }
}

/// Reads the recorded owner and checks that the caller is that owner.
fn check_owner(store: &Store, info: &MessageInfo) -> (r: Result<(), ContractError>)
    ensures
        store.state is None ==> r matches Err(ContractError::Std(_)),
        not_owner(store@, info.sender@) ==> r == Err::<(), ContractError>(
            ContractError::Unauthorized { owner: store.state->Some_0.owner },
        ),
        is_owner(store@, info.sender@) ==> r is Ok,
{
    match &store.state {
        None => Err(ContractError::Std(not_found("state"))),
        Some(state) => if info.sender == state.owner {
            Ok(())
        } else {
            Err(ContractError::Unauthorized { owner: state.owner.clone() })
        },
    }
}

/// Sets the counter to `counter`; only the owner may.
pub fn reset(store: &mut Store, info: &MessageInfo, counter: u64) -> (r: Result<Response, ContractError>)
    ensures
        r is Err ==> final(store)@ == old(store)@,
        old(store).state is None ==> r matches Err(ContractError::Std(_)),
        not_owner(old(store)@, info.sender@) ==> r == Err::<Response, ContractError>(
            ContractError::Unauthorized { owner: old(store).state->Some_0.owner },
        ),
        is_owner(old(store)@, info.sender@) ==> r is Ok && final(store)@ == (StoreView {
            state: Some(StateView { counter, ..old(store)@.state->Some_0 }),
            ..old(store)@
        }) && r->Ok_0@ == (ResponseView {
            messages: seq![],
            attributes: seq![
                ("action"@, "reset"@),
                ("sender"@, info.sender@),
                ("counter"@, decimal(counter as nat)),
            ],
        }),
{
    match check_owner(store, info) {
        Err(e) => {
            return Err(e);
        },
        Ok(()) => {},
    }
    match &mut store.state {
        Some(state) => {
            state.counter = counter;
        },
        None => {},
    }
    let resp = Response::new().add_attribute("action", String::from_str("reset")).add_attribute(
        "sender",
        info.sender.clone(),
    ).add_attribute("counter", decimal_string(counter));
    assert(resp@.attributes =~= seq![
        ("action"@, "reset"@),
        ("sender"@, info.sender@),
        ("counter"@, decimal(counter as nat)),
    ]);
    Ok(resp)
}

/// Sends the contract's whole `balance` to the caller; only the owner may.
pub fn withdraw(store: &Store, info: &MessageInfo, balance: Vec<Coin>) -> (r: Result<Response, ContractError>)
    ensures
        store.state is None ==> r matches Err(ContractError::Std(_)),
        not_owner(store@, info.sender@) ==> r == Err::<Response, ContractError>(
            ContractError::Unauthorized { owner: store.state->Some_0.owner },
        ),
        is_owner(store@, info.sender@) ==> r is Ok && r->Ok_0@ == (ResponseView {
            messages: seq![bank_send(info.sender@, coins_view(balance@))],
            attributes: withdraw_attributes(info.sender@),
        }),
{
    match check_owner(store, info) {
        Err(e) => {
            return Err(e);
        },
        Ok(()) => {},
    }
    let msg = OutboundMsg::BankSend { to_address: info.sender.clone(), amount: balance };
    let resp = Response::new().add_message(msg).add_attribute(
        "action",
        String::from_str("withdraw"),
    ).add_attribute("sender", info.sender.clone());
    assert(resp@.attributes =~= withdraw_attributes(info.sender@));
    assert(resp@.messages =~= seq![bank_send(info.sender@, coins_view(balance@))]);
    Ok(resp)
}

/// The limit that `limits` sets on `denom`.
fn find_limit(limits: &Vec<Coin>, denom: &String) -> (r: u128)
    ensures
        r == limit_for(coins_view(limits@), denom@),
{
    let ghost lv = coins_view(limits@);
    assert(lv.subrange(0, lv.len() as int) =~= lv);
    let mut i: usize = 0;
    while i < limits.len()
        invariant
            i <= limits.len(),
            lv == coins_view(limits@),
            limit_for(lv, denom@) == limit_for(lv.subrange(i as int, lv.len() as int), denom@),
        decreases limits.len() - i,
    {
        let ghost rest = lv.subrange(i as int, lv.len() as int);
        assert(rest[0] == limits[i as int]@);
        if limits[i].denom == *denom {
            return limits[i].amount;
        }
        assert(rest.drop_first() =~= lv.subrange(i + 1, lv.len() as int));
        i += 1;
    }
    0
}

/// `balance` with each coin capped at the limit `limits` sets on its
/// denomination.
fn cap_balance(balance: Vec<Coin>, limits: &Vec<Coin>) -> (r: Vec<Coin>)
    ensures
        coins_view(r@) == capped(coins_view(balance@), coins_view(limits@)),
{
    if limits.len() == 0 {
        return balance;
    }
    let ghost bv = coins_view(balance@);
    let ghost want = capped(bv, coins_view(limits@));
    let mut out: Vec<Coin> = Vec::new();
    let mut i: usize = 0;
    while i < balance.len()
        invariant
            i <= balance.len(),
            limits.len() > 0,
            bv == coins_view(balance@),
            want == capped(bv, coins_view(limits@)),
            out@.len() == i,
            coins_view(out@) =~= want.take(i as int),
        decreases balance.len() - i,
    {
        let coin = &balance[i];
        let limit = find_limit(limits, &coin.denom);
        let amount = if coin.amount <= limit {
            coin.amount
        } else {
            limit
        };
        out.push(Coin { denom: coin.denom.clone(), amount });
        assert(bv[i as int] == coin@);
        assert(want[i as int] == (CoinView { denom: coin@.denom, amount }));
        assert(coins_view(out@) =~= want.take(i + 1));
        i += 1;
    }
    assert(want.take(i as int) =~= want);
    out
}

/// Sends the contract's `balance` to `receiver`, each denomination capped at
/// its limit in `funds` (an unlisted one at zero); an empty `funds` caps
/// nothing. Only the owner may.
pub fn withdraw_to(
    store: &Store,
    info: &MessageInfo,
    balance: Vec<Coin>,
    receiver: String,
    funds: Vec<Coin>,
) -> (r: Result<Response, ContractError>)
    ensures
        store.state is None ==> r matches Err(ContractError::Std(_)),
        not_owner(store@, info.sender@) ==> r == Err::<Response, ContractError>(
            ContractError::Unauthorized { owner: store.state->Some_0.owner },
        ),
        is_owner(store@, info.sender@) ==> r is Ok && r->Ok_0@ == (ResponseView {
            messages: seq![bank_send(receiver@, capped(coins_view(balance@), coins_view(funds@)))],
            attributes: withdraw_attributes(info.sender@),
        }),
{
    match check_owner(store, info) {
        Err(e) => {
            return Err(e);
        },
        Ok(()) => {},
    }
    let ghost rv = receiver@;
    let amount = cap_balance(balance, &funds);
    let msg = OutboundMsg::BankSend { to_address: receiver, amount };
    let resp = Response::new().add_message(msg).add_attribute(
        "action",
        String::from_str("withdraw"),
    ).add_attribute("sender", info.sender.clone());
    assert(resp@.attributes =~= withdraw_attributes(info.sender@));
    assert(resp@.messages =~= seq![bank_send(rv, capped(coins_view(balance@), coins_view(funds@)))]);
    Ok(resp)
}

} // verus!
