//! Transaction receipts as the chain reports them, and the fixed record
//! shape that leaves the library.
use vstd::prelude::*;
use crate::error::DeployError;

verus! {

/// One key/value attribute of a logged event.
#[derive(Clone, Debug, PartialEq, Eq)]
pub struct LogAttribute {
    pub key: String,
    pub value: String,
}

/// One event of a transaction log.
#[derive(Clone, Debug, PartialEq, Eq)]
pub struct LogEvent {
    pub kind: String,
    pub attributes: Vec<LogAttribute>,
}

/// The structured log of one message of a transaction.
#[derive(Clone, Debug, PartialEq, Eq)]
pub struct LogMessage {
    pub msg_index: Option<u64>,
    pub events: Vec<LogEvent>,
}

/// A receipt as the network returns it, with every field it carries.
#[derive(Clone, Debug, PartialEq, Eq)]
pub struct RawReceipt {
    pub height: u64,
    pub txhash: String,
    pub codespace: String,
    pub code: u64,
    pub data: String,
    pub raw_log: String,
    pub logs: Vec<LogMessage>,
    pub info: String,
    pub gas_wanted: u64,
    pub gas_used: u64,
    pub timestamp: String,
    pub events: Vec<LogEvent>,
}

/// The stable record handed to callers: ten fields, whatever the network.
#[derive(Clone, Debug, PartialEq, Eq)]
pub struct TransactionRecord {
    pub height: u64,
    pub txhash: String,
    pub codespace: String,
    pub code: u64,
    pub data: String,
    pub raw_log: String,
    pub logs: Vec<LogMessage>,
    pub info: String,
    pub gas_wanted: u64,
    pub gas_used: u64,
}

/// The record holds exactly the ten tracked fields of the receipt, unchanged.
pub open spec fn normalized_from(r: TransactionRecord, raw: RawReceipt) -> bool {
    &&& r.height == raw.height
    &&& r.txhash == raw.txhash
    &&& r.codespace == raw.codespace
    &&& r.code == raw.code
    &&& r.data == raw.data
    &&& r.raw_log == raw.raw_log
    &&& r.logs == raw.logs
    &&& r.info == raw.info
    &&& r.gas_wanted == raw.gas_wanted
    &&& r.gas_used == raw.gas_used
}

/// Projects a receipt onto the record shape; the timestamp and the events
/// are dropped on purpose.
pub fn normalize(raw: RawReceipt) -> (r: TransactionRecord)
    ensures
        normalized_from(r, raw),
{
    TransactionRecord {
        height: raw.height,
        txhash: raw.txhash,
        codespace: raw.codespace,
        code: raw.code,
        data: raw.data,
        raw_log: raw.raw_log,
        logs: raw.logs,
        info: raw.info,
        gas_wanted: raw.gas_wanted,
        gas_used: raw.gas_used,
    }
}

/// Turns the outcome of a submission or a query into the library's result:
/// a receipt is normalized, a failure becomes a chain error with its message
/// kept verbatim.
pub fn settle(outcome: Result<RawReceipt, String>) -> (r: Result<TransactionRecord, DeployError>)
    ensures
        match outcome {
            Ok(raw) => r is Ok && normalized_from(r->Ok_0, raw),
            Err(m) => r == Err::<TransactionRecord, DeployError>(DeployError::Chain(m)),
        },
{
    match outcome {
        Ok(raw) => Ok(normalize(raw)),
        Err(m) => Err(DeployError::Chain(m)),
    }
}

/// Success on the chain is result code zero.
pub open spec fn succeeded(code: u64) -> bool {
    code == 0
}

/// An upper-case hexadecimal digit.
pub open spec fn is_hash_digit(c: char) -> bool {
    ('0' <= c && c <= '9') || ('A' <= c && c <= 'F')
}

/// A transaction identifier: 64 upper-case hexadecimal digits.
pub open spec fn well_formed_hash(s: Seq<char>) -> bool {
    s.len() == 64 && forall|i: int| 0 <= i < s.len() ==> is_hash_digit(#[trigger] s[i])
}

/// Tells whether a string is a transaction identifier.
pub fn is_well_formed_hash(s: &str) -> (r: bool)
    ensures
        r == well_formed_hash(s@),
{
    let n = s.unicode_len();
    if n != 64 {
        return false;
    }
    let mut i: usize = 0;
    while i < n
        invariant
            n == s@.len(),
            0 <= i <= n,
            forall|j: int| 0 <= j < i ==> is_hash_digit(#[trigger] s@[j]),
        decreases n - i,
    {
        let c = s.get_char(i);
        if !(('0' <= c && c <= '9') || ('A' <= c && c <= 'F')) {
            return false;
        }
        i = i + 1;
    }
    true
}

impl TransactionRecord {
    /// Whether the chain accepted the transaction.
    pub fn is_success(&self) -> (r: bool)
        ensures
            r == succeeded(self.code),
    {
        self.code == 0
    }
}

} // verus!
