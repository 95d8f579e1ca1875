//! The plain data shapes the daemon's responses are resolved into, and the
//! errors this client distinguishes.

use vstd::prelude::*;

verus! {

/// Metadata of a deployed contract instance.
///
/// All fields start out as empty strings and are populated step by step while
/// the daemon's responses are resolved; a helper that cannot find the field it
/// is looking for leaves it empty rather than failing, and callers are
/// responsible for detecting incompleteness (see [`NetContract::is_resolved`]).
#[derive(Debug, PartialEq, Eq)]
pub struct NetContract {
    pub label: String,
    pub id: String,
    pub address: String,
    pub code_hash: String,
}

impl NetContract {
    /// A contract is fully resolved only once its id, address and code hash
    /// are all non-empty.
    pub open spec fn is_resolved(&self) -> bool {
        self.id@.len() > 0 && self.address@.len() > 0 && self.code_hash@.len() > 0
    }

    /// A fresh, entirely unresolved contract carrying only its label.
    pub fn new(label: &str) -> (c: NetContract)
        ensures
            c.label@ == label@,
            c.id@ == Seq::<char>::empty(),
            c.address@ == Seq::<char>::empty(),
            c.code_hash@ == Seq::<char>::empty(),
    {
        NetContract {
            label: label.to_owned(),
            id: String::new(),
            address: String::new(),
            code_hash: String::new(),
        }
    }
}

impl Clone for NetContract {
    fn clone(&self) -> (c: Self)
        ensures
            c == *self,
    {
        NetContract {
            label: self.label.clone(),
            id: self.id.clone(),
            address: self.address.clone(),
            code_hash: self.code_hash.clone(),
        }
    }
}

/// Handle returned by submitting a transaction; only the hash is used, to
/// query the full result later.
pub struct TxResponse {
    pub txhash: String,
}

/// One key/value pair of side-effect metadata reported by the daemon.
pub struct Attribute {
    pub msg_key: String,
    pub value: String,
}

/// One event of a transaction log, a sequence of attributes.
pub struct Event {
    pub attributes: Vec<Attribute>,
}

/// One log entry of a transaction, a sequence of events.
pub struct Log {
    pub events: Vec<Event>,
}

/// Full on-chain result of a transaction, fetched by hash.
pub struct TxQuery {
    pub txhash: String,
    pub raw_log: String,
    pub logs: Vec<Log>,
}

/// Result of the privileged compute query for a transaction hash.
pub struct TxCompute {
    pub output_data_as_string: String,
}

/// One entry in the list of all stored contract codes.
pub struct ListCodeResponse {
    pub id: u64,
    pub data_hash: String,
}

/// One entry describing a contract instantiated from a given code id.
pub struct ListContractCode {
    pub code_id: u64,
    pub label: String,
    pub address: String,
}

/// Public key attached to a signed document.
pub struct PubKey {
    pub msg_type: String,
    pub value: String,
}

/// The signed-transaction document returned by the signing operation.
pub struct SignedTx {
    pub pub_key: PubKey,
    pub signature: String,
}

/// The ways a cache load fails.
///
/// Both are expected control-flow signals, not failures of the deployment
/// flow: either makes it fall through to a fresh deployment. Launch and
/// parse failures of the daemon itself are surfaced by the unverified shell
/// as the process and deserialization errors of its libraries, matching how
/// callers have always told them apart.
#[derive(Clone, Copy, Debug, PartialEq, Eq, Structural)]
pub enum CacheError {
    /// A cached contract was asked for without giving a name.
    NoCachedContract,
    /// No contract of the given name is in the cache.
    CacheMiss,
}

} // verus!
