//! The clients that drive a node: the transfers they submit, the accounts they
//! pair, and the pace at which the benchmark client submits transactions.
use vstd::prelude::*;
use crate::shim_server::BroadcastTxQuery;
use crate::rpc::{bytes_hex, hex_string, hex_text, json_string, JsonRpcRequest};
use crate::text::utf8_of;
use crate::transaction::{json_request_recipient, decodes_to, quantity_value, TxRequestView};

verus! {

/// The gas that every transfer is given.
pub const TRANSFER_GAS: u64 = 21000;

/// What `serde_json::to_string` writes for the `TransactionRequest` of a transfer
/// of `value` wei from `from` to `to` (20-byte addresses) with `gas` gas, built as
/// `TransactionRequest::new().from(from).to(to).value(value).gas(gas)`: the fields
/// that are set, in the order the struct declares them, addresses and quantities
/// as hex strings.
pub open spec fn transfer_request_json(from: Seq<u8>, to: Seq<u8>, value: nat, gas: nat) -> Seq<char> {
    "{\"from\":"@ + hex_string(bytes_hex(from)) + ",\"to\":"@ + hex_string(bytes_hex(to))
        + ",\"gas\":"@ + hex_string(hex_text(gas)) + ",\"value\":"@ + hex_string(hex_text(value))
        + "}"@
}

/// The request of a transfer, as its JSON decodes: sender, recipient, value and
/// gas set, every other field absent.
pub open spec fn transfer_request(from: Seq<u8>, to: Seq<u8>, value: nat, gas: nat) -> TxRequestView {
    TxRequestView {
        from: Some(from),
        to: Some(to),
        gas: Some(gas),
        gas_price: None,
        value: Some(value),
        data: None,
        nonce: None,
        chain_id: None,
    }
}

/// The JSON text of a transfer request (`serde_json::to_string` of an ethers
/// `TransactionRequest` with `from`, `to`, `value` and `gas` set): the derived
/// `Serialize` skips the absent fields (and always the chain id), and impl-serde
/// writes the addresses with `serialize_raw` and the quantities with
/// `serialize_uint` (see `transfer_request_json`). serde_json's documentation says serialising fails
/// only where a `Serialize` impl decides to or a map has non-string keys; the
/// request's fields are addresses and integers written as hex strings. The request
/// serialises the four fields it has and skips the absent ones, which
/// `serde_json::from_slice` reads back as absent (the chain id is never written and
/// defaults to absent): so the text decodes to the same request.
#[verifier::external_body]
fn transfer_json(from: [u8; 20], to: [u8; 20], value: [u64; 4], gas: u64) -> (r: Result<String, String>)
    ensures
        r is Ok,
        r matches Ok(t) ==> t@ == transfer_request_json(from@, to@, quantity_value(value), gas as nat),
        r matches Ok(t) ==> decodes_to(
            utf8_of(t@),
            transfer_request(from@, to@, quantity_value(value), gas as nat),
        ),
{
    let request = ethers_core::types::TransactionRequest::new().from(ethers_core::types::H160(from)).to(
        ethers_core::types::H160(to),
    ).value(ethers_core::types::U256(value)).gas(ethers_core::types::U256::from(gas));
    serde_json::to_string(&request).map_err(|e| e.to_string())
}

/// The JSON text of a transfer of `value` wei (a 256-bit quantity) from `from` to
/// `to` with the transfer gas. The text decodes back to that transfer, so it goes
/// to an address.
pub fn transfer_text(from: [u8; 20], to: [u8; 20], value: [u64; 4]) -> (t: String)
    ensures
        t@ == transfer_request_json(from@, to@, quantity_value(value), TRANSFER_GAS as nat),
        decodes_to(
            utf8_of(t@),
            transfer_request(from@, to@, quantity_value(value), TRANSFER_GAS as nat),
        ),
        json_request_recipient(utf8_of(t@)) == Some(Some(to@)),
{
    match transfer_json(from, to, value, TRANSFER_GAS) {
        Ok(t) => t,
        Err(_) => String::new(),
    }
}

/// The query that broadcasts a transfer of `value` wei from `from` to `to`; the
/// transaction it carries decodes to that transfer, to the address `to`.
pub fn transfer_broadcast(from: [u8; 20], to: [u8; 20], value: [u64; 4]) -> (q: BroadcastTxQuery)
    ensures
        q.tx@ == transfer_request_json(from@, to@, quantity_value(value), TRANSFER_GAS as nat),
        decodes_to(
            utf8_of(q.tx@),
            transfer_request(from@, to@, quantity_value(value), TRANSFER_GAS as nat),
        ),
        json_request_recipient(utf8_of(q.tx@)) == Some(Some(to@)),
{
    BroadcastTxQuery { tx: transfer_text(from, to, value) }
}

/// The transactions that the benchmark client cycles through: for each pair of
/// accounts, a transfer of one wei from the first to the second, as JSON bytes.
pub fn transfer_batch(accounts: &Vec<([u8; 20], [u8; 20])>) -> (txs: Vec<Vec<u8>>)
    ensures
        txs.len() == accounts.len(),
        forall|i: int|
            0 <= i < accounts.len() ==> (#[trigger] txs[i])@ == utf8_of(
                transfer_request_json(accounts[i].0@, accounts[i].1@, 1, TRANSFER_GAS as nat),
            ),
        forall|i: int|
            0 <= i < accounts.len() ==> json_request_recipient((#[trigger] txs[i])@) == Some(
                Some(accounts[i].1@),
            ),
{
    let mut txs: Vec<Vec<u8>> = Vec::new();
    for i in 0..accounts.len()
        invariant
            txs.len() == i,
            forall|j: int|
                0 <= j < i ==> (#[trigger] txs[j])@ == utf8_of(
                    transfer_request_json(accounts[j].0@, accounts[j].1@, 1, TRANSFER_GAS as nat),
                ),
            forall|j: int|
                0 <= j < i ==> json_request_recipient((#[trigger] txs[j])@) == Some(
                    Some(accounts[j].1@),
                ),
    {
        let (from, to) = accounts[i];
        let text = transfer_text(from, to, [1, 0, 0, 0]);
        txs.push(crate::text::utf8_bytes(text.as_str()));
    }
    txs
}

/// The addresses that `serde_json::from_slice` reads from `bytes` as a JSON list of
/// addresses (each 20 bytes), or `None` where it fails.
pub uninterp spec fn json_address_list(bytes: Seq<u8>) -> Option<Seq<Seq<u8>>>;

/// The addresses of a list of byte arrays, by their bytes.
pub open spec fn addresses_view(v: Seq<[u8; 20]>) -> Seq<Seq<u8>> {
    v.map_values(|a: [u8; 20]| a@)
}

/// Reads `bytes` as a JSON list of addresses (`serde_json::from_slice` into a list
/// of ethers addresses), stated only by the name `json_address_list`.
#[verifier::external_body]
fn decode_address_list(bytes: &[u8]) -> (r: Option<Vec<[u8; 20]>>)
    ensures
        r is Some <==> json_address_list(bytes@) is Some,
        r matches Some(v) ==> json_address_list(bytes@) == Some(addresses_view(v@)),
{
    match serde_json::from_slice::<Vec<ethers_core::types::H160>>(bytes) {
        Ok(list) => Some(list.into_iter().map(|a| a.0).collect()),
        Err(_) => None,
    }
}

/// The accounts listed in the JSON reply `bytes` to `eth_accounts`, or `None` where
/// the reply is not a list of addresses.
pub fn account_list(bytes: &[u8]) -> (accounts: Option<Vec<[u8; 20]>>)
    ensures
        accounts is Some <==> json_address_list(bytes@) is Some,
        accounts matches Some(v) ==> json_address_list(bytes@) == Some(addresses_view(v@)),
{
    decode_address_list(bytes)
}

/// Pairs each account with the one before it, the first with the last: the
/// accounts rotated right by one place are the recipients.
pub fn pair_accounts(accounts: &Vec<[u8; 20]>) -> (pairs: Vec<([u8; 20], [u8; 20])>)
    ensures
        pairs.len() == accounts.len(),
        forall|i: int|
            0 <= i < accounts.len() ==> #[trigger] pairs[i] == (
                accounts[i],
                accounts[(i + accounts.len() - 1) % (accounts.len() as int)],
            ),
        forall|j: int|
            0 <= j < accounts.len() ==> pairs[(j + 1) % (accounts.len() as int)].1 == #[trigger] accounts[j],
{
    let n = accounts.len();
    let mut pairs: Vec<([u8; 20], [u8; 20])> = Vec::new();
    for i in 0..n
        invariant
            n == accounts.len(),
            pairs.len() == i,
            forall|j: int|
                0 <= j < i ==> #[trigger] pairs[j] == (
                    accounts[j],
                    accounts[(j + n - 1) % (n as int)],
                ),
    {
        let prev = if i == 0 {
            n - 1
        } else {
            i - 1
        };
        proof {
            if i == 0 {
                assert((i + n - 1) % (n as int) == n - 1) by (nonlinear_arith)
                    requires
                        i == 0,
                        n > 0,
                ;
            } else {
                assert((i + n - 1) % (n as int) == i - 1) by (nonlinear_arith)
                    requires
                        0 < i < n,
                ;
            }
        }
        pairs.push((accounts[i], accounts[prev]));
    }
    proof {
        assert forall|j: int| 0 <= j < n implies pairs[(j + 1) % (n as int)].1 == #[trigger] accounts[j] by {
            let i = (j + 1) % (n as int);
            assert(0 <= i < n && (i + n - 1) % (n as int) == j) by (nonlinear_arith)
                requires
                    0 <= j < n,
                    i == (j + 1) % (n as int),
            ;
        }
    }
    pairs
}

/// The account pairs of the node's development accounts, read from the JSON reply
/// `bytes` to `eth_accounts`: each account paired with the one before it; `None`
/// where the reply is not a list of addresses.
pub fn dev_account_pairs(bytes: &[u8]) -> (pairs: Option<Vec<([u8; 20], [u8; 20])>>)
    ensures
        pairs is Some <==> json_address_list(bytes@) is Some,
        pairs matches Some(p) ==> {
            let accounts = json_address_list(bytes@)->0;
            &&& p.len() == accounts.len()
            &&& forall|i: int|
                0 <= i < accounts.len() ==> (#[trigger] p[i]).0@ == accounts[i] && p[i].1@
                    == accounts[(i + accounts.len() - 1) % (accounts.len() as int)]
        },
{
    match account_list(bytes) {
        Some(accounts) => {
            let pairs = pair_accounts(&accounts);
            proof {
                assert forall|i: int| 0 <= i < accounts.len() implies
                    (#[trigger] pairs[i]).0@ == addresses_view(accounts@)[i]
                    && pairs[i].1@ == addresses_view(accounts@)[(i + accounts.len() - 1) % (accounts.len() as int)] by {
                    let k = (i + accounts.len() - 1) % (accounts.len() as int);
                    assert(0 <= k < accounts.len()) by (nonlinear_arith)
                        requires
                            0 <= i < accounts.len(),
                            k == (i + accounts.len() - 1) % (accounts.len() as int),
                    ;
                }
            }
            Some(pairs)
        },
        None => None,
    }
}

/// Bursts per second that the benchmark client sends.
pub const PRECISION: u64 = 20;

/// The length of a burst, in milliseconds.
pub const BURST_DURATION: u64 = 1000 / PRECISION;

/// Where the benchmark client's send loop stands.
pub enum SchedulePhase {
    /// Waiting for the next burst to begin.
    AwaitingTick,
    /// Sending the transactions of a burst.
    Bursting,
    /// Sending failed; the client stops.
    Stopped,
}

/// What the benchmark client's send loop is told.
pub enum ScheduleEvent {
    /// A new burst begins (the interval ticked).
    Tick,
    /// The last transaction asked for was sent (`true`) or sending failed (`false`).
    Sent(bool),
}

/// What the benchmark client's send loop does next.
pub enum ScheduleAction {
    /// Send the transaction at `index` of the cycled transactions; where `sample`
    /// holds the burst counter, it is the burst's sample transaction, which is logged.
    Send { index: usize, sample: Option<u64> },
    /// The burst is over: check whether it took longer than `BURST_DURATION`, and
    /// wait for the next tick.
    EndBurst,
    /// Stop sending (the client returns).
    Stop,
}

/// The pace of the benchmark client: `burst` transactions every `BURST_DURATION`
/// milliseconds, cycling through `tx_count` transactions.
pub struct SendSchedule {
    burst: u64,
    tx_count: usize,
    counter: u64,
    x: u64,
    phase: SchedulePhase,
}

impl SendSchedule {
    /// There are transactions to cycle through, and a burst in progress has a
    /// position inside it.
    #[verifier::type_invariant]
    spec fn wf(&self) -> bool {
        &&& self.tx_count > 0
        &&& self.phase is Bursting ==> self.x < self.burst
    }

    /// The number of transactions in a burst.
    pub closed spec fn burst(&self) -> u64 {
        self.burst
    }

    /// The number of transactions cycled through.
    pub closed spec fn tx_count(&self) -> usize {
        self.tx_count
    }

    /// The number of bursts begun before the current one.
    pub closed spec fn counter(&self) -> u64 {
        self.counter
    }

    /// The position of the next transaction within the current burst.
    pub closed spec fn x(&self) -> u64 {
        self.x
    }

    /// Where the loop stands.
    pub closed spec fn phase(&self) -> SchedulePhase {
        self.phase
    }

    /// The number of transactions in a burst.
    pub fn burst_size(&self) -> (b: u64)
        ensures
            b == self.burst(),
    {
        self.burst
    }

    /// The number of bursts begun before the current one.
    pub fn bursts_begun(&self) -> (c: u64)
        ensures
            c == self.counter(),
    {
        self.counter
    }

    /// `event` is one that the loop can be told in its phase.
    pub open spec fn accepts(&self, event: ScheduleEvent) -> bool {
        match event {
            ScheduleEvent::Tick => self.phase() is AwaitingTick,
            ScheduleEvent::Sent(_) => self.phase() is Bursting,
        }
    }

    /// The send of the transaction at position `x` of a burst.
    pub open spec fn send_at(&self, x: u64) -> ScheduleAction {
        ScheduleAction::Send {
            index: ((x as usize) as int % (self.tx_count() as int)) as usize,
            sample: if x == self.counter() % self.burst() {
                Some(self.counter())
            } else {
                None
            },
        }
    }

    /// Starts the loop: `rate` transactions per second, in bursts of
    /// `rate / PRECISION`, cycling through `tx_count` transactions.
    pub fn new(rate: u64, tx_count: usize) -> (s: SendSchedule)
        requires
            tx_count > 0,
        ensures
            s.burst() == rate / PRECISION,
            s.tx_count() == tx_count,
            s.counter() == 0,
            s.phase() is AwaitingTick,
    {
        SendSchedule { burst: rate / PRECISION, tx_count, counter: 0, x: 0, phase: SchedulePhase::AwaitingTick }
    }

    /// Ends the current burst.
    fn end_burst(&mut self) -> (a: ScheduleAction)
        requires
            old(self).counter < u64::MAX,
        ensures
            a is EndBurst,
            final(self).phase is AwaitingTick,
            final(self).counter == old(self).counter + 1,
            final(self).burst == old(self).burst,
            final(self).tx_count == old(self).tx_count,
    {
        proof {
            use_type_invariant(&*self);
        }
        self.counter = self.counter + 1;
        self.phase = SchedulePhase::AwaitingTick;
        ScheduleAction::EndBurst
    }

    /// The send of the transaction at position `self.x` of the burst.
    fn send_next(&self) -> (a: ScheduleAction)
        requires
            self.x < self.burst,
        ensures
            a == self.send_at(self.x),
    {
        proof {
            use_type_invariant(self);
        }
        let index = (self.x as usize) % self.tx_count;
        let sample = if self.x == self.counter % self.burst {
            Some(self.counter)
        } else {
            None
        };
        ScheduleAction::Send { index, sample }
    }

    /// Takes what happened and says what the loop does next. Each burst sends its
    /// transactions at positions `0..burst`, the one at position `x` being
    /// transaction `x % tx_count` and the sample where `x == counter % burst`; the
    /// first failed send stops the loop.
    pub fn step(&mut self, event: ScheduleEvent) -> (a: ScheduleAction)
        requires
            old(self).accepts(event),
            old(self).counter() < u64::MAX,
        ensures
            final(self).burst() == old(self).burst(),
            final(self).tx_count() == old(self).tx_count(),
            match event {
                ScheduleEvent::Tick => if old(self).burst() == 0 {
                    a is EndBurst && final(self).phase() is AwaitingTick && final(self).counter()
                        == old(self).counter() + 1
                } else {
                    a == final(self).send_at(0) && final(self).x() == 0 && final(self).phase() is Bursting
                        && final(self).counter() == old(self).counter()
                },
                ScheduleEvent::Sent(true) => if old(self).x() + 1 < old(self).burst() {
                    a == final(self).send_at((old(self).x() + 1) as u64) && final(self).x() == old(self).x()
                        + 1 && final(self).phase() is Bursting && final(self).counter()
                        == old(self).counter()
                } else {
                    a is EndBurst && final(self).phase() is AwaitingTick && final(self).counter()
                        == old(self).counter() + 1
                },
                ScheduleEvent::Sent(false) => a is Stop && final(self).phase() is Stopped
                    && final(self).counter() == old(self).counter(),
            },
            a matches ScheduleAction::Send { sample: Some(n), .. } ==> n == old(self).counter(),
    {
        proof {
            use_type_invariant(&*self);
        }
        match event {
            ScheduleEvent::Tick => {
                if self.burst == 0 {
                    self.end_burst()
                } else {
                    self.x = 0;
                    self.phase = SchedulePhase::Bursting;
                    self.send_next()
                }
            },
            ScheduleEvent::Sent(true) => {
                if self.x + 1 < self.burst {
                    self.x = self.x + 1;
                    self.send_next()
                } else {
                    self.end_burst()
                }
            },
            ScheduleEvent::Sent(false) => {
                self.phase = SchedulePhase::Stopped;
                ScheduleAction::Stop
            },
        }
    }
}

/// A burst that took `elapsed_ms` milliseconds was too slow for the requested rate.
pub fn burst_overran(elapsed_ms: u128) -> (r: bool)
    ensures
        r == (elapsed_ms > BURST_DURATION),
{
    elapsed_ms > BURST_DURATION as u128
}

/// The action sends a burst's sample transaction.
pub open spec fn is_sample(a: ScheduleAction) -> bool {
    a matches ScheduleAction::Send { sample: Some(_), .. }
}

/// Each burst of a positive size has exactly one sample transaction: the one at
/// position `counter % burst`.
pub proof fn law_one_sample_per_burst(s: SendSchedule)
    requires
        s.burst() > 0,
    ensures
        is_sample(s.send_at(s.counter() % s.burst())),
        forall|x: u64, y: u64|
            x < s.burst() && y < s.burst() && is_sample(#[trigger] s.send_at(x)) && is_sample(
                #[trigger] s.send_at(y),
            ) ==> x == y,
{
}

/// The sample of a burst is numbered by the bursts begun before it, not by its
/// position: in a burst of positive size, the send at position `x` sends
/// transaction `x % tx_count` (`x` taken as a `usize`), and is the sample exactly when `x` is
/// `counter % burst`, and the sample carries `counter` itself. So the samples of
/// successive bursts are numbered 0, 1, 2, ... without wrapping.
pub proof fn law_sample_numbers_count_bursts(s: SendSchedule, x: u64)
    requires
        s.burst() > 0,
        s.tx_count() > 0,
        x < s.burst(),
    ensures
        s.send_at(x) matches ScheduleAction::Send { index, sample } && index as int == ((x as usize) as int)
            % (s.tx_count() as int) && (sample is Some <==> x == s.counter() % s.burst()) && (
        sample matches Some(n) ==> n == s.counter()),
{
}

/// What `serde_json::from_slice` reads from `bytes` as an ethers `U256`: its value,
/// or `None` where it fails.
pub uninterp spec fn json_quantity(bytes: Seq<u8>) -> Option<nat>;

/// Reads `bytes` as a JSON `U256` (`serde_json::from_slice`), stated by the name
/// `json_quantity`; the quantity is returned as the `U256`'s limbs.
#[verifier::external_body]
fn decode_quantity(bytes: &[u8]) -> (r: Option<[u64; 4]>)
    ensures
        r is Some <==> json_quantity(bytes@) is Some,
        r matches Some(q) ==> json_quantity(bytes@) == Some(quantity_value(q)),
{
    match serde_json::from_slice::<ethers_core::types::U256>(bytes) {
        Ok(v) => Some(v.0),
        Err(_) => None,
    }
}

/// The balance in the JSON reply `bytes` to `eth_getBalance`, or `None` where the
/// reply is not a quantity.
pub fn balance_of_reply(bytes: &[u8]) -> (r: Option<[u64; 4]>)
    ensures
        r is Some <==> json_quantity(bytes@) is Some,
        r matches Some(q) ==> json_quantity(bytes@) == Some(quantity_value(q)),
{
    decode_quantity(bytes)
}

/// What `serde_json::to_string` writes for the pair of the ethers address with bytes
/// `address` and the block tag `block`: a JSON array of the two.
pub open spec fn json_address_and_tag(address: Seq<u8>, block: Seq<char>) -> Seq<char> {
    "["@ + hex_string(bytes_hex(address)) + ","@ + json_string(block) + "]"@
}

/// The parameters of a balance query for `address` at the latest block.
pub open spec fn json_balance_params(address: Seq<u8>) -> Seq<char> {
    json_address_and_tag(address, "latest"@)
}

/// `serde_json::to_string` of the pair (address, block tag), which serde writes as
/// a two-element array: the address as impl-serde's `serialize_raw` hex string, the
/// tag as a JSON string (serde_json's escaping, `json_string`). A hex string and a
/// text do not fail to serialise.
#[verifier::external_body]
fn address_and_tag_json(address: [u8; 20], block: &str) -> (r: Result<String, String>)
    ensures
        r is Ok,
        r matches Ok(t) ==> t@ == json_address_and_tag(address@, block@),
{
    serde_json::to_string(&(ethers_core::types::H160(address), block)).map_err(|e| e.to_string())
}

/// The parameters of a balance query for `address` at the latest block.
pub fn balance_params(address: [u8; 20]) -> (t: String)
    ensures
        t@ == json_balance_params(address@),
{
    match address_and_tag_json(address, "latest") {
        Ok(t) => t,
        Err(_) => String::new(),
    }
}

/// The query for the balance of `address` at the latest block.
pub fn balance_query(address: [u8; 20]) -> (q: JsonRpcRequest)
    ensures
        q.method@ == "eth_getBalance"@,
        q.params@ == json_balance_params(address@),
{
    JsonRpcRequest { method: crate::text::owned("eth_getBalance"), params: balance_params(address) }
}

/// The query for the node's accounts: `eth_accounts` with no parameters (an
/// empty JSON array).
pub fn accounts_query() -> (q: JsonRpcRequest)
    ensures
        q.method@ == "eth_accounts"@,
        q.params@ == "[]"@,
{
    JsonRpcRequest { method: crate::text::owned("eth_accounts"), params: crate::text::owned("[]") }
}

/// How long the benchmark client waits before trying a node again, in milliseconds.
pub const RETRY_DELAY_MS: u64 = 10;

/// What the benchmark client does after trying to connect to a node it waits for.
pub enum WaitAction {
    /// The node is online: stop waiting for it.
    Online,
    /// Try again after this many milliseconds.
    RetryAfter(u64),
}

/// Decides, after an attempt to connect to a node, whether to keep waiting for it.
pub fn after_connect_attempt(connected: bool) -> (a: WaitAction)
    ensures
        connected ==> a is Online,
        !connected ==> a == WaitAction::RetryAfter(RETRY_DELAY_MS),
{
    if connected {
        WaitAction::Online
    } else {
        WaitAction::RetryAfter(RETRY_DELAY_MS)
    }
}

} // verus!
