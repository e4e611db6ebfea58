use vstd::prelude::*;

use crate::coin::{coins_view, Coin, CoinView};
use crate::msg::ExecMsg;

verus! {

/// A key-value tag that describes what a call did.
#[derive(Clone, Debug, PartialEq, Eq)]
pub struct Attribute {
    pub key: String,
    pub value: String,
}

impl View for Attribute {
    type V = (Seq<char>, Seq<char>);

    open spec fn view(&self) -> (Seq<char>, Seq<char>) {
        (self.key@, self.value@)
    }
}

/// An instruction for the host to run once the call has committed.
#[derive(Clone, Debug, PartialEq, Eq)]
pub enum OutboundMsg {
    /// Send `amount` from the contract's account to `to_address`.
    BankSend { to_address: String, amount: Vec<Coin> },
    /// Call `msg` on the contract at `contract_addr`, sending `funds` along.
    WasmExecute { contract_addr: String, msg: ExecMsg, funds: Vec<Coin> },
}

pub enum OutboundMsgView {
    BankSend { to_address: Seq<char>, amount: Seq<CoinView> },
    WasmExecute { contract_addr: Seq<char>, msg: ExecMsg, funds: Seq<CoinView> },
}

impl View for OutboundMsg {
    type V = OutboundMsgView;

    open spec fn view(&self) -> OutboundMsgView {
        match self {
            OutboundMsg::BankSend { to_address, amount } => OutboundMsgView::BankSend {
                to_address: to_address@,
                amount: coins_view(amount@),
            },
            OutboundMsg::WasmExecute { contract_addr, msg, funds } => OutboundMsgView::WasmExecute {
                contract_addr: contract_addr@,
                msg: *msg,
                funds: coins_view(funds@),
            },
        }
    }
}

/// What a successful call hands back to the host.
#[derive(Clone, Debug, PartialEq, Eq)]
pub struct Response {
    pub messages: Vec<OutboundMsg>,
    pub attributes: Vec<Attribute>,
}

pub struct ResponseView {
    pub messages: Seq<OutboundMsgView>,
    pub attributes: Seq<(Seq<char>, Seq<char>)>,
}

impl View for Response {
    type V = ResponseView;

    open spec fn view(&self) -> ResponseView {
        ResponseView {
            messages: self.messages@.map_values(|m: OutboundMsg| m@),
            attributes: self.attributes@.map_values(|a: Attribute| a@),
        }
    }
}

/// The response with no messages and no attributes.
pub open spec fn empty_response() -> ResponseView {
    ResponseView { messages: seq![], attributes: seq![] }
}

/// The character of a decimal digit.
pub open spec fn digit_char(d: nat) -> char {
    seq!['0', '1', '2', '3', '4', '5', '6', '7', '8', '9'][d as int]
}

/// The decimal notation of `n`, without leading zeros.
pub open spec fn decimal(n: nat) -> Seq<char>
    decreases n,
{
    if n < 10 {
        seq![digit_char(n)]
    } else {
        decimal(n / 10).push(digit_char(n % 10))
    }
}

fn digit_str(d: u64) -> (r: &'static str)
    requires
        d < 10,
    ensures
        r@ == seq![digit_char(d as nat)],
{
    let r = if d == 0 {
        "0"
    } else if d == 1 {
        "1"
    } else if d == 2 {
        "2"
    } else if d == 3 {
        "3"
    } else if d == 4 {
        "4"
    } else if d == 5 {
        "5"
    } else if d == 6 {
        "6"
    } else if d == 7 {
        "7"
    } else if d == 8 {
        "8"
    } else {
        "9"
    };
    proof {
        reveal_strlit("0");
        reveal_strlit("1");
        reveal_strlit("2");
        reveal_strlit("3");
        reveal_strlit("4");
        reveal_strlit("5");
        reveal_strlit("6");
        reveal_strlit("7");
        reveal_strlit("8");
        reveal_strlit("9");
        assert(r@ =~= seq![digit_char(d as nat)]);
    }
    r
}

fn push_decimal(s: &mut String, n: u64)
    ensures
        final(s)@ == old(s)@ + decimal(n as nat),
    decreases n,
{
    if n >= 10 {
        push_decimal(s, n / 10);
    }
    s.append(digit_str(n % 10));
    assert(final(s)@ =~= old(s)@ + decimal(n as nat));
}

/// The decimal notation of `n`.
pub fn decimal_string(n: u64) -> (r: String)
    ensures
        r@ == decimal(n as nat),
{
    let mut s = String::new();
    push_decimal(&mut s, n);
    assert(s@ =~= decimal(n as nat));
    s
}

impl Response {
    pub fn new() -> (r: Response)
        ensures
            r@ == empty_response(),
    {
        let r = Response { messages: Vec::new(), attributes: Vec::new() };
        assert(r@.messages =~= seq![]);
        assert(r@.attributes =~= seq![]);
        r
    }

    pub fn add_attribute(self, key: &str, value: String) -> (r: Response)
        ensures
            r@ == (ResponseView {
                messages: self@.messages,
                attributes: self@.attributes.push((key@, value@)),
            }),
    {
        let mut r = self;
        r.attributes.push(Attribute { key: String::from_str(key), value });
        assert(r@.attributes =~= self@.attributes.push((key@, value@)));
        r
    }

    pub fn add_message(self, msg: OutboundMsg) -> (r: Response)
        ensures
            r@ == (ResponseView {
                messages: self@.messages.push(msg@),
                attributes: self@.attributes,
            }),
    {
        let mut r = self;
        let ghost m = msg@;
        r.messages.push(msg);
        assert(r@.messages =~= self@.messages.push(m));
        r
    }
}

} // verus!
