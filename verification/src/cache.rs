//! The contract cache: deployed-contract metadata keyed by a logical name.
//!
//! The cache itself is modeled here as a verified name-to-contract store
//! with first-match lookup; saving prepends an entry, which gives overwrite
//! semantics without disturbing other names. The unverified shell persists
//! each entry as one file per name under the cache directory — the path of
//! that file is computed here — and loads it back on demand.
//!
//! Loading without a name fails immediately with the distinct
//! no-cached-contract error: this is the expected, non-exceptional path when
//! caching was not requested, and it is the control-flow signal on which the
//! deploy flow falls through to a fresh deployment.

use vstd::prelude::*;
use crate::args::opt_view;
use crate::text::str_eq;
use crate::types::{CacheError, NetContract};

verus! {

/// First-match-wins lookup of a name among the cache's entries.
pub open spec fn lookup(entries: Seq<(String, NetContract)>, name: Seq<char>) -> Option<
    NetContract,
>
    decreases entries.len(),
{
    if entries.len() == 0 {
        None
    } else if entries[0].0@ == name {
        Some(entries[0].1)
    } else {
        lookup(entries.drop_first(), name)
    }
}

/// What a save does to the cache: one entry is prepended, carrying the given
/// name and contract, and everything that was there stays behind it.
pub open spec fn save_post(
    before: Seq<(String, NetContract)>,
    after: Seq<(String, NetContract)>,
    name: Seq<char>,
    c: NetContract,
) -> bool {
    &&& after.len() == before.len() + 1
    &&& after[0].0@ == name
    &&& after[0].1 == c
    &&& after.skip(1) == before
}

/// What a load returns: without a name the distinct no-cached-contract
/// error, with a name the cached contract or a cache miss.
pub open spec fn load_spec(
    entries: Seq<(String, NetContract)>,
    name: Option<Seq<char>>,
) -> Result<NetContract, CacheError> {
    match name {
        None => Err(CacheError::NoCachedContract),
        Some(n) => match lookup(entries, n) {
            Some(c) => Ok(c),
            None => Err(CacheError::CacheMiss),
        },
    }
}

/// The in-memory cache of deployed-contract metadata.
pub struct ContractCache {
    entries: Vec<(String, NetContract)>,
}

impl ContractCache {
    /// The entries, newest first; lookups take the first match.
    pub closed spec fn model(&self) -> Seq<(String, NetContract)> {
        self.entries@
    }

    /// An empty cache.
    pub fn new() -> (cache: ContractCache)
        ensures
            cache.model() == Seq::<(String, NetContract)>::empty(),
    {
        ContractCache { entries: Vec::new() }
    }

    /// Stores a contract under a name, overwriting any earlier contract of
    /// that name and leaving every other name's entry untouched.
    pub fn save(&mut self, name: &str, contract: &NetContract)
        ensures
            save_post(old(self).model(), final(self).model(), name@, *contract),
            lookup(final(self).model(), name@) == Some(*contract),
            forall|n: Seq<char>| n != name@ ==> lookup(final(self).model(), n) == lookup(
                old(self).model(),
                n,
            ),
    {
        self.entries.insert(0, (name.to_owned(), contract.clone()));
        proof {
            assert(self.entries@.skip(1) =~= old(self).entries@);
            assert forall|n: Seq<char>| n != name@ implies lookup(self.entries@, n) == lookup(
                old(self).entries@,
                n,
            ) by {
                assert(self.entries@.drop_first() =~= old(self).entries@);
            }
        }
    }

    /// Loads the contract cached under a name. Without a name it fails
    /// immediately with the no-cached-contract error and touches nothing;
    /// with a name it returns the cached contract, or a cache miss when the
    /// name is absent.
    pub fn load(&self, name: Option<&str>) -> (r: Result<NetContract, CacheError>)
        ensures
            r == load_spec(self.model(), opt_view(name)),
    {
        let n = match name {
            Some(n) => n,
            None => {
                return Err(CacheError::NoCachedContract);
            },
        };
        proof {
            assert(self.entries@.skip(0) =~= self.entries@);
        }
        let mut i: usize = 0;
        while i < self.entries.len()
            invariant
                opt_view(name) == Some(n@),
                i <= self.entries@.len(),
                lookup(self.entries@, n@) == lookup(self.entries@.skip(i as int), n@),
            decreases self.entries@.len() - i,
        {
            proof {
                assert(self.entries@.skip(i as int)[0] == self.entries@[i as int]);
                assert(self.entries@.skip(i as int).drop_first() =~= self.entries@.skip(i + 1));
            }
            if str_eq(self.entries[i].0.as_str(), n) {
                proof {
                    assert(lookup(self.entries@.skip(i as int), n@) == Some(
                        self.entries@[i as int].1,
                    ));
                }
                return Ok(self.entries[i].1.clone());
            }
            i = i + 1;
        }
        proof {
            assert(self.entries@.skip(self.entries@.len() as int).len() == 0);
        }
        Err(CacheError::CacheMiss)
    }
}

/// What the deploy flow does with the cache: a hit skips the store and
/// instantiate daemon calls entirely and returns the cached contract, a miss
/// falls through to a fresh deployment.
pub enum CacheDecision {
    Hit(NetContract),
    Deploy,
}

/// The decision the deploy flow takes for a cache and an optional name.
pub open spec fn cache_decision(
    entries: Seq<(String, NetContract)>,
    name: Option<Seq<char>>,
) -> CacheDecision {
    match name {
        None => CacheDecision::Deploy,
        Some(n) => match lookup(entries, n) {
            Some(c) => CacheDecision::Hit(c),
            None => CacheDecision::Deploy,
        },
    }
}

/// Decides whether a deployment can be served from the cache.
pub fn check_cache(cache: &ContractCache, name: Option<&str>) -> (d: CacheDecision)
    ensures
        d == cache_decision(cache.model(), opt_view(name)),
{
    match cache.load(name) {
        Ok(c) => CacheDecision::Hit(c),
        Err(_) => CacheDecision::Deploy,
    }
}

/// Law (round trip): saving a contract under a name and then loading by that
/// same name yields the saved contract, equal in all fields.
pub proof fn lemma_cache_round_trip(
    before: Seq<(String, NetContract)>,
    after: Seq<(String, NetContract)>,
    name: Seq<char>,
    c: NetContract,
)
    requires
        save_post(before, after, name, c),
    ensures
        load_spec(after, Some(name)) == Ok::<NetContract, CacheError>(c),
{
}

/// Law (cache miss without a name): loading without a name always fails with
/// the no-cached-contract error, whatever the cache holds; no entry is even
/// looked at.
pub proof fn lemma_load_without_name(entries: Seq<(String, NetContract)>)
    ensures
        load_spec(entries, None) == Err::<NetContract, CacheError>(CacheError::NoCachedContract),
{
}

/// Law (idempotent deployment): once a deployment has been saved under a
/// name, the deploy flow's cache check for that name is a hit carrying
/// exactly the saved contract — a second run of the flow with the same name
/// issues no store or instantiate daemon call.
pub proof fn lemma_deploy_idempotent(
    before: Seq<(String, NetContract)>,
    after: Seq<(String, NetContract)>,
    name: Seq<char>,
    c: NetContract,
)
    requires
        save_post(before, after, name, c),
    ensures
        cache_decision(after, Some(name)) == CacheDecision::Hit(c),
{
}

/// Law (isolation): saving under one name leaves what every other name loads
/// unchanged.
pub proof fn lemma_save_preserves_others(
    before: Seq<(String, NetContract)>,
    after: Seq<(String, NetContract)>,
    name: Seq<char>,
    c: NetContract,
    other: Seq<char>,
)
    requires
        save_post(before, after, name, c),
        other != name,
    ensures
        lookup(after, other) == lookup(before, other),
{
    assert(after.drop_first() =~= before);
}

/// The directory the unverified shell persists cache entries under.
pub fn contract_cache_dir() -> (r: &'static str)
    ensures
        r@ == "../cached_contracts/"@,
{
    "../cached_contracts/"
}

/// The file a contract cached under the given name is persisted in: the
/// cache directory with the name appended.
pub fn cache_file_path(name: &str) -> (r: String)
    ensures
        r@ == "../cached_contracts/"@ + name@,
{
    let mut p = contract_cache_dir().to_owned();
    p.append(name);
    p
}

} // verus!
