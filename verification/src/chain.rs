//! What the chain hands an operation (block, sender, attached funds) and what
//! an operation hands back (payments and event attributes).
use vstd::prelude::*;

verus! {

/// Nanoseconds in one second.
pub const NANOS_PER_SECOND: u64 = 1_000_000_000u64;

/// Seconds in one day.
pub const SECONDS_PER_DAY: u64 = 86_400u64;

/// The block an operation runs in; `time` is in nanoseconds since the epoch.
#[derive(Clone, Copy, Debug, PartialEq, Eq, Structural)]
pub struct Env {
    pub time: u64,
    pub height: u64,
}

/// A quantity of one token.
#[derive(Clone, Debug, PartialEq)]
pub struct Coin {
    pub denom: String,
    pub amount: u128,
}

/// Who sent a message and what funds came with it.
#[derive(Clone, Debug, PartialEq)]
pub struct MessageInfo {
    pub sender: String,
    pub funds: Vec<Coin>,
}

/// A payment that an operation asks the chain to make.
#[derive(Clone, Debug, PartialEq)]
pub enum CosmosMsg {
    /// Send `amount` of `denom` from the contract to `to_address`.
    BankSend { to_address: String, denom: String, amount: u128 },
    /// Ask the token contract `contract_addr` to transfer `amount` to `recipient`.
    Cw20Transfer { contract_addr: String, recipient: String, amount: u128 },
}

/// One key/value pair of the event an operation emits.
#[derive(Clone, Debug, PartialEq)]
pub struct Attribute {
    pub key: String,
    pub value: String,
}

/// What a successful operation returns.
#[derive(Clone, Debug, PartialEq)]
pub struct Response {
    pub messages: Vec<CosmosMsg>,
    pub attributes: Vec<Attribute>,
}

/// The whole seconds of a timestamp.
pub open spec fn seconds_of(t: u64) -> nat {
    (t / NANOS_PER_SECOND) as nat
}

/// The timestamp `days` days after `t`.
pub open spec fn days_after(t: u64, days: u64) -> int {
    t + days * SECONDS_PER_DAY * NANOS_PER_SECOND
}

/// The timestamp `secs` seconds after `t`.
pub open spec fn seconds_after(t: u64, secs: u64) -> int {
    t + secs * NANOS_PER_SECOND
}

/// The whole seconds of a timestamp.
pub fn seconds(t: u64) -> (r: u64)
    ensures
        r == seconds_of(t),
{
    t / NANOS_PER_SECOND
}

/// `t` plus `secs` seconds.
pub fn plus_seconds(t: u64, secs: u64) -> (r: u64)
    requires
        seconds_after(t, secs) <= u64::MAX,
    ensures
        r == seconds_after(t, secs),
{
    assert(secs * NANOS_PER_SECOND <= t + secs * NANOS_PER_SECOND);
    t + secs * NANOS_PER_SECOND
}

/// `t` plus `days` days.
pub fn plus_days(t: u64, days: u64) -> (r: u64)
    requires
        days_after(t, days) <= u64::MAX,
    ensures
        r == days_after(t, days),
{
    assert(days * SECONDS_PER_DAY <= days * SECONDS_PER_DAY * NANOS_PER_SECOND) by (nonlinear_arith);
    assert(days * SECONDS_PER_DAY * NANOS_PER_SECOND <= t + days * SECONDS_PER_DAY * NANOS_PER_SECOND);
    plus_seconds(t, days * SECONDS_PER_DAY)
}

/// An attribute as a pair of texts.
pub open spec fn attr_view(a: Attribute) -> (Seq<char>, Seq<char>) {
    (a.key@, a.value@)
}

/// A payment as its kind (`true` for a bank send), recipient, denomination or token contract, and amount.
pub open spec fn msg_view(m: CosmosMsg) -> (bool, Seq<char>, Seq<char>, u128) {
    match m {
        CosmosMsg::BankSend { to_address, denom, amount } => (true, to_address@, denom@, amount),
        CosmosMsg::Cw20Transfer { contract_addr, recipient, amount } => (false, recipient@, contract_addr@, amount),
    }
}

/// A bank payment as the library's view of a message.
pub open spec fn bank_view(to: Seq<char>, denom: Seq<char>, amount: u128) -> (bool, Seq<char>, Seq<char>, u128) {
    (true, to, denom, amount)
}

impl Response {
    /// The attributes, as pairs of texts.
    pub open spec fn attrs(self) -> Seq<(Seq<char>, Seq<char>)> {
        self.attributes@.map_values(|a: Attribute| attr_view(a))
    }

    /// The payments, as views.
    pub open spec fn msgs(self) -> Seq<(bool, Seq<char>, Seq<char>, u128)> {
        self.messages@.map_values(|m: CosmosMsg| msg_view(m))
    }

    /// A response with no payments and no attributes.
    pub fn new() -> (r: Response)
        ensures
            r.attrs() == Seq::<(Seq<char>, Seq<char>)>::empty(),
            r.msgs() == Seq::<(bool, Seq<char>, Seq<char>, u128)>::empty(),
    {
        let r = Response { messages: Vec::new(), attributes: Vec::new() };
        assert(r.attrs() =~= Seq::<(Seq<char>, Seq<char>)>::empty());
        assert(r.msgs() =~= Seq::<(bool, Seq<char>, Seq<char>, u128)>::empty());
        r
    }

    /// Appends an attribute.
    pub fn add_attribute(self, key: &str, value: String) -> (r: Response)
        ensures
            r.attrs() == self.attrs().push((key@, value@)),
            r.msgs() == self.msgs(),
    {
        let mut r = self;
        let ghost old_r = r;
        r.attributes.push(Attribute { key: String::from_str(key), value });
        assert(r.attrs() =~= old_r.attrs().push((key@, value@)));
        r
    }

    /// Appends a payment.
    pub fn add_message(self, m: CosmosMsg) -> (r: Response)
        ensures
            r.attrs() == self.attrs(),
            r.msgs() == self.msgs().push(msg_view(m)),
    {
        let mut r = self;
        let ghost old_r = r;
        r.messages.push(m);
        assert(r.msgs() =~= old_r.msgs().push(msg_view(m)));
        r
    }
}

/// A bank payment of one coin.
pub fn bank_send(to: String, denom: &str, amount: u128) -> (m: CosmosMsg)
    ensures
        msg_view(m) == bank_view(to@, denom@, amount),
{
    CosmosMsg::BankSend { to_address: to, denom: String::from_str(denom), amount }
}

} // verus!
