//! How queries that reach a primary are answered.
//!
//! The RPC shim takes `eth_*` queries: a query whose method and parameters the
//! application's request type accepts is forwarded if it is one of the supported
//! methods, and the engine stops on any other accepted method; a query that is
//! not accepted is answered with the reason. The ABCI engine forwards every query
//! and answers with the application's reply as a JSON string, or `"error"`.
use vstd::prelude::*;
use crate::error::{EngineError, EngineErrorView};
use crate::text::{contains_str, contains_text, utf8_bytes};


verus! {

/// A JSON-RPC query as the shim receives it: the method and its parameters as JSON text.
pub struct JsonRpcRequest {
    pub method: String,
    pub params: String,
}

#[verifier::external_type_specification]
#[verifier::external_body]
pub struct ExJsonValue(serde_json::Value);

/// What `serde_json::from_str` reads from the text `text`: the JSON value, or the
/// parser's message (its error's `Display`, which names the line and column).
pub uninterp spec fn json_text_value(text: Seq<char>) -> Result<serde_json::Value, Seq<char>>;

/// A parsing outcome with the message taken as its characters.
pub open spec fn parsed_view(r: Result<serde_json::Value, String>) -> Result<serde_json::Value, Seq<char>> {
    match r {
        Ok(v) => Ok(v),
        Err(m) => Err(m@),
    }
}

/// Reads `text` as a JSON value with `serde_json::from_str`. The value read, or the
/// parser's message, is what the name `json_text_value` gives for the text.
#[verifier::external_body]
fn parse_json(text: &str) -> (r: Result<serde_json::Value, String>)
    ensures
        json_text_value(text@) == parsed_view(r),
{
    serde_json::from_str(text).map_err(|e| e.to_string())
}

impl JsonRpcRequest {
    /// The parameters of the query as a JSON value: the value that the parameters'
    /// text reads as; parameters that are not JSON stop the engine with the
    /// parser's message.
    pub fn params_value(&self) -> (r: Result<serde_json::Value, EngineError>)
        ensures
            match json_text_value(self.params@) {
                Ok(v) => (r matches Ok(x) && x == v),
                Err(m) => (r matches Err(EngineError::InvalidParams(x)) && x@ == m),
            },
    {
        match parse_json(self.params.as_str()) {
            Ok(v) => Ok(v),
            Err(m) => Err(EngineError::InvalidParams(m)),
        }
    }
}

/// The methods of the application's request type that the engine tells apart.
pub enum EthQuery {
    ChainId,
    Accounts,
    BlockNumber,
    GetBalance,
    GetTransactionCount,
    Sign,
    GetLogs,
    /// Any other method that the application's request type accepts.
    Other,
}

impl EthQuery {
    /// The application's request type gives this method arguments: an address and
    /// a block (`eth_getBalance`, `eth_getTransactionCount`), an address and a
    /// message (`eth_sign`), a log filter (`eth_getLogs`). `eth_chainId`,
    /// `eth_accounts` and `eth_blockNumber` take none.
    pub open spec fn carries_arguments(self) -> bool {
        self is GetBalance || self is GetTransactionCount || self is Sign || self is GetLogs
    }
}

/// The type that the application's reply to a forwarded query is read as.
pub enum ResponseKind {
    /// A text (the chain id).
    Text,
    /// A list of addresses.
    Addresses,
    /// A 64-bit number (the block number).
    Number,
    /// A 256-bit quantity (a balance, a transaction count).
    Quantity,
    /// A 256-bit hash (a signature; the logs are read as one too).
    Hash,
}

/// Which parameters are forwarded with the method.
pub enum ParamsSource {
    /// The method's own parameters, which are empty.
    Empty,
    /// The parameters of the query as they came.
    AsGiven,
}

/// How a supported query is forwarded to the application.
pub struct Forward {
    pub kind: ResponseKind,
    pub params: ParamsSource,
}

/// How a query of method `q` is forwarded, or `None` where the method is not supported.
pub open spec fn forward_of(q: EthQuery) -> Option<(ResponseKind, ParamsSource)> {
    match q {
        EthQuery::ChainId => Some((ResponseKind::Text, ParamsSource::Empty)),
        EthQuery::Accounts => Some((ResponseKind::Addresses, ParamsSource::Empty)),
        EthQuery::BlockNumber => Some((ResponseKind::Number, ParamsSource::Empty)),
        EthQuery::GetBalance => Some((ResponseKind::Quantity, ParamsSource::AsGiven)),
        EthQuery::GetTransactionCount => Some((ResponseKind::Quantity, ParamsSource::AsGiven)),
        EthQuery::Sign => Some((ResponseKind::Hash, ParamsSource::AsGiven)),
        EthQuery::GetLogs => Some((ResponseKind::Hash, ParamsSource::AsGiven)),
        EthQuery::Other => None,
    }
}

/// Every method the shim tells apart is supported but `Other`; a method that takes
/// arguments is forwarded with the query's parameters as they came, and one that
/// takes none with empty parameters.
pub proof fn law_arguments_are_forwarded(q: EthQuery)
    ensures
        forward_of(q) is Some <==> !(q is Other),
        forward_of(q) matches Some((_, params)) ==> (params is AsGiven <==> q.carries_arguments()),
        forward_of(q) matches Some((_, params)) ==> (params is Empty <==> !q.carries_arguments()),
{
}

/// The application's reply is read as what the method returns: the chain id as a
/// text, the accounts as addresses, the block number as a 64-bit number, a balance
/// or a transaction count as a 256-bit quantity, a signature (and the logs) as a hash.
pub proof fn law_replies_are_read_as_the_method_returns(q: EthQuery)
    ensures
        forward_of(q) matches Some((kind, _)) ==> {
            &&& kind is Text <==> q is ChainId
            &&& kind is Addresses <==> q is Accounts
            &&& kind is Number <==> q is BlockNumber
            &&& kind is Quantity <==> (q is GetBalance || q is GetTransactionCount)
            &&& kind is Hash <==> (q is Sign || q is GetLogs)
        },
{
}

/// How a query of method `q` is forwarded; a method that is not supported is
/// refused as `NotImplemented`.
pub fn client_request(q: EthQuery) -> (r: Result<Forward, EngineError>)
    ensures
        match forward_of(q) {
            Some((kind, params)) => r == Ok::<Forward, EngineError>(Forward { kind, params }),
            None => r matches Err(EngineError::NotImplemented),
        },
        r is Ok <==> !(q is Other),
        r matches Ok(f) ==> (f.params is AsGiven <==> q.carries_arguments()),
{
    match q {
        EthQuery::ChainId => Ok(Forward { kind: ResponseKind::Text, params: ParamsSource::Empty }),
        EthQuery::Accounts => Ok(Forward { kind: ResponseKind::Addresses, params: ParamsSource::Empty }),
        EthQuery::BlockNumber => Ok(Forward { kind: ResponseKind::Number, params: ParamsSource::Empty }),
        EthQuery::GetBalance => Ok(Forward { kind: ResponseKind::Quantity, params: ParamsSource::AsGiven }),
        EthQuery::GetTransactionCount => Ok(
            Forward { kind: ResponseKind::Quantity, params: ParamsSource::AsGiven },
        ),
        EthQuery::Sign => Ok(Forward { kind: ResponseKind::Hash, params: ParamsSource::AsGiven }),
        EthQuery::GetLogs => Ok(Forward { kind: ResponseKind::Hash, params: ParamsSource::AsGiven }),
        EthQuery::Other => Err(EngineError::NotImplemented),
    }
}

/// What the engine does with a query, given whether the application's request type
/// accepted it.
pub enum QueryDecision {
    /// Forward it, and answer with the application's reply.
    Forward(Forward),
    /// Answer at once with these bytes: the reason the query was not accepted.
    /// `unknown_method` tells whether the reason is an unknown method.
    Reply { value: Vec<u8>, unknown_method: bool },
    /// Stop the engine with this error.
    Fail(EngineError),
}

/// The query was not accepted because its method is unknown: the reason says
/// "unknown variant".
pub open spec fn names_unknown_method(reason: Seq<char>) -> bool {
    contains_text(reason, "unknown variant"@)
}

/// `d` is what the engine does with a query: `parsed` is the method that the
/// application's request type read from it, or the reason why it did not accept
/// it. A supported method is forwarded, any other accepted method stops the
/// engine with `NotImplemented`, and a query that was not accepted is answered
/// with the bytes of the reason.
pub open spec fn decides(parsed: Result<EthQuery, String>, d: QueryDecision) -> bool {
    match parsed {
        Ok(q) => match forward_of(q) {
            Some((kind, params)) => d == QueryDecision::Forward(Forward { kind, params }),
            None => d matches QueryDecision::Fail(e) && e@ == EngineErrorView::NotImplemented,
        },
        Err(reason) => d matches QueryDecision::Reply { value, unknown_method } && value@
            == crate::text::utf8_of(reason@) && unknown_method == names_unknown_method(reason@),
    }
}

/// Decides what to do with a query (see `decides`).
pub fn handle_rpc_query(parsed: Result<EthQuery, String>) -> (d: QueryDecision)
    ensures
        decides(parsed, d),
        parsed matches Ok(q) ==> (d matches QueryDecision::Forward(f) ==> (f.params is AsGiven
            <==> q.carries_arguments())),
{
    match parsed {
        Ok(q) => match client_request(q) {
            Ok(f) => QueryDecision::Forward(f),
            Err(e) => QueryDecision::Fail(e),
        },
        Err(reason) => {
            let unknown_method = contains_str(reason.as_str(), "unknown variant");
            let value = utf8_bytes(reason.as_str());
            QueryDecision::Reply { value, unknown_method }
        },
    }
}

/// The lowercase hexadecimal digit of `d < 16`.
pub open spec fn hex_digit(d: nat) -> char {
    if d < 10 {
        crate::text::digit_char(d)
    } else if d == 10 {
        'a'
    } else if d == 11 {
        'b'
    } else if d == 12 {
        'c'
    } else if d == 13 {
        'd'
    } else if d == 14 {
        'e'
    } else {
        'f'
    }
}

/// How serde_json writes the character `c` inside a JSON string: a quote and a
/// backslash are escaped with a backslash; backspace, tab, line feed, form feed
/// and carriage return as `\b`, `\t`, `\n`, `\f`, `\r`; every other control
/// character below U+0020 as `\u00` and two lowercase hex digits; anything else
/// as itself.
pub open spec fn json_escape_char(c: char) -> Seq<char> {
    if c == '"' {
        seq!['\\', '"']
    } else if c == '\\' {
        seq!['\\', '\\']
    } else if c == '\u{8}' {
        seq!['\\', 'b']
    } else if c == '\t' {
        seq!['\\', 't']
    } else if c == '\n' {
        seq!['\\', 'n']
    } else if c == '\u{c}' {
        seq!['\\', 'f']
    } else if c == '\r' {
        seq!['\\', 'r']
    } else if (c as nat) < 0x20 {
        seq!['\\', 'u', '0', '0', hex_digit((c as nat) / 16), hex_digit((c as nat) % 16)]
    } else {
        seq![c]
    }
}

/// The characters `s` escaped one by one (see `json_escape_char`).
pub open spec fn json_escaped(s: Seq<char>) -> Seq<char>
    decreases s.len(),
{
    if s.len() == 0 {
        seq![]
    } else {
        json_escape_char(s[0]) + json_escaped(s.drop_first())
    }
}

/// What serde_json writes for the string `s`: a JSON string literal.
pub open spec fn json_string(s: Seq<char>) -> Seq<char> {
    seq!['"'] + json_escaped(s) + seq!['"']
}

/// Writes `s` as a JSON string literal with `serde_json::to_string`. serde_json's
/// documentation says that serialising fails only where the value's `Serialize`
/// decides to fail or a map has keys that are not strings, neither of which a
/// string does; its escaping (`format_escaped_str_contents` and its escape table)
/// is `json_string`.
#[verifier::external_body]
fn to_json_string(s: &String) -> (r: Result<String, String>)
    ensures
        r is Ok,
        r matches Ok(t) ==> t@ == json_string(s@),
{
    serde_json::to_string(s).map_err(|e| e.to_string())
}

/// The text that an ABCI query is answered with: the application's reply, or the
/// word `error` where forwarding it failed.
pub open spec fn abci_reply_text(reply: Result<String, String>) -> Seq<char> {
    match reply {
        Ok(text) => text@,
        Err(_) => "error"@,
    }
}

/// The answer to an ABCI query: the reply text (see `abci_reply_text`) written as a
/// JSON string, as UTF-8 bytes.
pub fn abci_query_value(reply: Result<String, String>) -> (value: Vec<u8>)
    ensures
        value@ == crate::text::utf8_of(json_string(abci_reply_text(reply))),
{
    let text = match reply {
        Ok(text) => text,
        Err(_) => crate::text::owned("error"),
    };
    match to_json_string(&text) {
        Ok(json) => utf8_bytes(json.as_str()),
        Err(_) => Vec::new(),
    }
}

/// A reply of the application to a forwarded query, as plain values.
pub enum Reply {
    Text(String),
    Addresses(Vec<[u8; 20]>),
    Number(u64),
    /// A 256-bit quantity, as the limbs of a `U256`.
    Quantity([u64; 4]),
    /// A 256-bit hash, as its bytes.
    Hash([u8; 32]),
}

impl Reply {
    /// The type that this reply is read as.
    pub open spec fn kind(&self) -> ResponseKind {
        match self {
            Reply::Text(_) => ResponseKind::Text,
            Reply::Addresses(_) => ResponseKind::Addresses,
            Reply::Number(_) => ResponseKind::Number,
            Reply::Quantity(_) => ResponseKind::Quantity,
            Reply::Hash(_) => ResponseKind::Hash,
        }
    }
}

/// The lowercase hexadecimal digits of `n`, with no leading zeros.
pub open spec fn hex_text(n: nat) -> Seq<char>
    decreases n,
{
    if n < 16 {
        seq![hex_digit(n)]
    } else {
        hex_text(n / 16).push(hex_digit(n % 16))
    }
}

/// The bytes `b`, two lowercase hexadecimal digits each.
pub open spec fn bytes_hex(b: Seq<u8>) -> Seq<char>
    decreases b.len(),
{
    if b.len() == 0 {
        seq![]
    } else {
        seq![hex_digit((b[0] / 16) as nat), hex_digit((b[0] % 16) as nat)] + bytes_hex(b.drop_first())
    }
}

/// A JSON string holding `0x` followed by `digits`.
pub open spec fn hex_string(digits: Seq<char>) -> Seq<char> {
    seq!['"', '0', 'x'] + digits + seq!['"']
}

/// The elements of a JSON list of hashes or addresses `items`, each written as
/// `0x` and its bytes in hex, separated by commas.
pub open spec fn hex_items(items: Seq<Seq<u8>>) -> Seq<char>
    decreases items.len(),
{
    if items.len() == 0 {
        seq![]
    } else if items.len() == 1 {
        hex_string(bytes_hex(items[0]))
    } else {
        hex_string(bytes_hex(items[0])) + seq![','] + hex_items(items.drop_first())
    }
}

/// What `serde_json::to_vec` writes for a list of ethers addresses, each given by
/// its 20 bytes: a JSON list of hex strings, with no spaces.
pub open spec fn json_address_list_bytes(addresses: Seq<Seq<u8>>) -> Seq<u8> {
    crate::text::utf8_of(seq!['['] + hex_items(addresses) + seq![']'])
}

/// What `serde_json::to_vec` writes for the ethers `U256` of value `value`: a hex
/// string with no leading zeros (`0x0` for zero).
pub open spec fn json_quantity_bytes(value: nat) -> Seq<u8> {
    crate::text::utf8_of(hex_string(hex_text(value)))
}

/// What `serde_json::to_vec` writes for the ethers `H256` with bytes `hash`: a hex
/// string of all 32 bytes.
pub open spec fn json_hash_bytes(hash: Seq<u8>) -> Seq<u8> {
    crate::text::utf8_of(hex_string(bytes_hex(hash)))
}

/// The JSON bytes of a reply.
pub open spec fn reply_json(reply: Reply) -> Seq<u8> {
    match reply {
        Reply::Text(s) => crate::text::utf8_of(json_string(s@)),
        Reply::Addresses(a) => json_address_list_bytes(crate::bench::addresses_view(a@)),
        Reply::Number(n) => crate::text::utf8_of(crate::text::decimal_text(n as nat)),
        Reply::Quantity(q) => json_quantity_bytes(crate::transaction::quantity_value(q)),
        Reply::Hash(h) => json_hash_bytes(h@),
    }
}

/// `serde_json::to_vec` of a string: the string literal of `json_string`, in UTF-8
/// (the same writer as `to_string`; a string's serialisation does not fail).
#[verifier::external_body]
fn text_json(s: &String) -> (r: Result<Vec<u8>, String>)
    ensures
        r is Ok,
        r matches Ok(b) ==> b@ == crate::text::utf8_of(json_string(s@)),
{
    serde_json::to_vec(s).map_err(|e| e.to_string())
}

/// `serde_json::to_vec` of a list of ethers addresses: each serialises with
/// impl-serde's `serialize_raw`, a string of `0x` and every byte in lowercase hex,
/// which does not fail.
#[verifier::external_body]
fn addresses_json(a: &Vec<[u8; 20]>) -> (r: Result<Vec<u8>, String>)
    ensures
        r is Ok,
        r matches Ok(b) ==> b@ == json_address_list_bytes(crate::bench::addresses_view(a@)),
{
    let list: Vec<ethers_core::types::H160> = a.iter().map(|x| ethers_core::types::H160(*x)).collect();
    serde_json::to_vec(&list).map_err(|e| e.to_string())
}

/// `serde_json::to_vec` of a `u64`: its decimal digits (serde_json writes integers
/// with `itoa`, which does not fail).
#[verifier::external_body]
fn number_json(n: u64) -> (r: Result<Vec<u8>, String>)
    ensures
        r is Ok,
        r matches Ok(b) ==> b@ == crate::text::utf8_of(crate::text::decimal_text(n as nat)),
{
    serde_json::to_vec(&n).map_err(|e| e.to_string())
}

/// `serde_json::to_vec` of an ethers `U256`: impl-serde's `serialize_uint` writes
/// `0x` and the value in lowercase hex with leading zeros trimmed (`0x0` for zero),
/// which does not fail.
#[verifier::external_body]
fn quantity_json(q: [u64; 4]) -> (r: Result<Vec<u8>, String>)
    ensures
        r is Ok,
        r matches Ok(b) ==> b@ == json_quantity_bytes(crate::transaction::quantity_value(q)),
{
    serde_json::to_vec(&ethers_core::types::U256(q)).map_err(|e| e.to_string())
}

/// `serde_json::to_vec` of an ethers `H256`: impl-serde's `serialize_raw`, `0x`
/// and every byte in lowercase hex, which does not fail.
#[verifier::external_body]
fn hash_json(h: [u8; 32]) -> (r: Result<Vec<u8>, String>)
    ensures
        r is Ok,
        r matches Ok(b) ==> b@ == json_hash_bytes(h@),
{
    serde_json::to_vec(&ethers_core::types::H256(h)).map_err(|e| e.to_string())
}

/// Takes the bytes of a serialisation that does not fail.
fn infallible(r: Result<Vec<u8>, String>) -> (b: Vec<u8>)
    requires
        r is Ok,
    ensures
        r matches Ok(v) && b == v,
{
    match r {
        Ok(v) => v,
        Err(_) => Vec::new(),
    }
}

/// The answer to a forwarded query: the application's reply, read as the type
/// that `forward` names, written as JSON.
pub fn reply_bytes(forward: &Forward, reply: Reply) -> (b: Vec<u8>)
    requires
        reply.kind() == forward.kind,
    ensures
        b@ == reply_json(reply),
{
    match reply {
        Reply::Text(s) => infallible(text_json(&s)),
        Reply::Addresses(a) => infallible(addresses_json(&a)),
        Reply::Number(n) => infallible(number_json(n)),
        Reply::Quantity(q) => infallible(quantity_json(q)),
        Reply::Hash(h) => infallible(hash_json(h)),
    }
}

} // verus!
