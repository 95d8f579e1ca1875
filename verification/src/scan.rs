//! Scanning of daemon responses: the first-match-wins attribute scan over a
//! transaction's logs, the code listing scan, and the step-by-step assembly
//! of a deployed contract's metadata from those scans.
//!
//! The attribute scan deliberately reads only the first event of the first
//! log, as the daemon has always reported the assigned code id and contract
//! address there; when that slot or the key is missing, the field under
//! resolution is silently left as it was rather than failing, and callers
//! detect incompleteness through [`NetContract::is_resolved`].

use vstd::prelude::*;
use crate::text::{dec_digits, str_eq, u64_to_dec_string};
use crate::types::{Attribute, ListCodeResponse, NetContract, TxQuery};

verus! {

/// First-match-wins scan of an attribute list for a key.
pub open spec fn scan_attributes(attrs: Seq<Attribute>, key: Seq<char>) -> Option<Seq<char>>
    decreases attrs.len(),
{
    if attrs.len() == 0 {
        None
    } else if attrs[0].msg_key@ == key {
        Some(attrs[0].value@)
    } else {
        scan_attributes(attrs.drop_first(), key)
    }
}

/// Returns the value of the first attribute whose key matches, scanning in
/// order; the scan stops at the first match.
pub fn find_attribute_value(attrs: &Vec<Attribute>, key: &str) -> (r: Option<String>)
    ensures
        match r {
            Some(v) => scan_attributes(attrs@, key@) == Some(v@),
            None => scan_attributes(attrs@, key@) is None,
        },
{
    proof {
        assert(attrs@.skip(0) =~= attrs@);
    }
    let mut i: usize = 0;
    while i < attrs.len()
        invariant
            i <= attrs@.len(),
            scan_attributes(attrs@, key@) == scan_attributes(attrs@.skip(i as int), key@),
        decreases attrs@.len() - i,
    {
        proof {
            assert(attrs@.skip(i as int)[0] == attrs@[i as int]);
            assert(attrs@.skip(i as int).drop_first() =~= attrs@.skip(i + 1));
        }
        if str_eq(attrs[i].msg_key.as_str(), key) {
            return Some(attrs[i].value.clone());
        }
        i = i + 1;
    }
    proof {
        assert(attrs@.skip(attrs@.len() as int).len() == 0);
    }
    None
}

/// The value of the given key in the first event of the first log of a
/// transaction's result, if that slot exists and holds the key.
pub open spec fn first_event_attribute(q: TxQuery, key: Seq<char>) -> Option<Seq<char>> {
    if q.logs@.len() > 0 && q.logs@[0].events@.len() > 0 {
        scan_attributes(q.logs@[0].events@[0].attributes@, key)
    } else {
        None
    }
}

/// Scans the first event of the first log of a transaction's result for a
/// key, first match wins.
pub fn query_attribute(q: &TxQuery, key: &str) -> (r: Option<String>)
    ensures
        match r {
            Some(v) => first_event_attribute(*q, key@) == Some(v@),
            None => first_event_attribute(*q, key@) is None,
        },
{
    if q.logs.len() > 0 {
        let log = &q.logs[0];
        if log.events.len() > 0 {
            return find_attribute_value(&log.events[0].attributes, key);
        }
    }
    None
}

/// First-match-wins scan of the code listing for the entry whose decimal id
/// equals the given code id string; its data hash is the code hash.
pub open spec fn scan_code_hash(list: Seq<ListCodeResponse>, id: Seq<char>) -> Option<Seq<char>>
    decreases list.len(),
{
    if list.len() == 0 {
        None
    } else if dec_digits(list[0].id as nat) == id {
        Some(list[0].data_hash@)
    } else {
        scan_code_hash(list.drop_first(), id)
    }
}

/// Returns the data hash of the first listed code whose id, rendered in
/// decimal as the daemon prints it, equals the given code id string.
pub fn find_code_hash(list: &Vec<ListCodeResponse>, id: &str) -> (r: Option<String>)
    ensures
        match r {
            Some(h) => scan_code_hash(list@, id@) == Some(h@),
            None => scan_code_hash(list@, id@) is None,
        },
{
    proof {
        assert(list@.skip(0) =~= list@);
    }
    let mut i: usize = 0;
    while i < list.len()
        invariant
            i <= list@.len(),
            scan_code_hash(list@, id@) == scan_code_hash(list@.skip(i as int), id@),
        decreases list@.len() - i,
    {
        proof {
            assert(list@.skip(i as int)[0] == list@[i as int]);
            assert(list@.skip(i as int).drop_first() =~= list@.skip(i + 1));
        }
        let rendered = u64_to_dec_string(list[i].id);
        if str_eq(rendered.as_str(), id) {
            return Some(list[i].data_hash.clone());
        }
        i = i + 1;
    }
    proof {
        assert(list@.skip(list@.len() as int).len() == 0);
    }
    None
}

/// An optional scanned value, or the empty string when the scan found
/// nothing.
pub open spec fn or_empty(v: Option<Seq<char>>) -> Seq<char> {
    match v {
        Some(s) => s,
        None => Seq::<char>::empty(),
    }
}

/// Starts resolving a deployed contract from the result of the store
/// transaction: the label is taken over, the id is the scanned `code_id`
/// attribute (empty when absent), and address and code hash are still empty.
pub fn contract_from_store_query(label: &str, store_query: &TxQuery) -> (c: NetContract)
    ensures
        c.label@ == label@,
        c.id@ == or_empty(first_event_attribute(*store_query, "code_id"@)),
        c.address@ == Seq::<char>::empty(),
        c.code_hash@ == Seq::<char>::empty(),
{
    let mut c = NetContract::new(label);
    match query_attribute(store_query, "code_id") {
        Some(v) => {
            c.id = v;
        },
        None => {},
    }
    c
}

/// Fills in the contract's address from the result of the instantiate
/// transaction: the scanned `contract_address` attribute when present,
/// otherwise the address is left as it was. No other field changes.
pub fn set_address_from_init_query(c: &mut NetContract, init_query: &TxQuery)
    ensures
        final(c).address@ == match first_event_attribute(*init_query, "contract_address"@) {
            Some(v) => v,
            None => old(c).address@,
        },
        final(c).label == old(c).label,
        final(c).id == old(c).id,
        final(c).code_hash == old(c).code_hash,
{
    match query_attribute(init_query, "contract_address") {
        Some(v) => {
            c.address = v;
        },
        None => {},
    }
}

/// Fills in the contract's code hash from the code listing: the data hash of
/// the first entry whose id matches the contract's id when present,
/// otherwise the code hash is left as it was. No other field changes.
pub fn set_code_hash_from_list(c: &mut NetContract, listed: &Vec<ListCodeResponse>)
    ensures
        final(c).code_hash@ == match scan_code_hash(listed@, old(c).id@) {
            Some(h) => h,
            None => old(c).code_hash@,
        },
        final(c).label == old(c).label,
        final(c).id == old(c).id,
        final(c).address == old(c).address,
{
    match find_code_hash(listed, c.id.as_str()) {
        Some(h) => {
            c.code_hash = h;
        },
        None => {},
    }
}

} // verus!
