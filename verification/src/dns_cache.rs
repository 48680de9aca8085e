//! The DNS memo: hostname to address, bounded LRU. The upstream lookup
//! itself is asynchronous work the shell performs; this module owns the
//! cache and the decisions around it, so that the address a request was
//! routed for is the address every later step of that request sees.

use std::num::NonZeroUsize;
use vstd::prelude::*;

verus! {

#[verifier::external_type_specification]
#[verifier::external_body]
#[verifier::reject_recursive_types(K)]
#[verifier::reject_recursive_types(V)]
#[verifier::reject_recursive_types(S)]
pub struct ExLruCache<K, V, S>(lru::LruCache<K, V, S>);

/// An empty memo.
pub open spec fn no_entries() -> Map<Seq<char>, Seq<char>> {
    Map::empty()
}

/// What the cache holds, as a map from hostname to address.
pub uninterp spec fn lru_contents(c: lru::LruCache<String, String>) -> Map<Seq<char>, Seq<char>>;

/// The bound the cache was created with.
pub uninterp spec fn lru_bound(c: lru::LruCache<String, String>) -> nat;

/// Relies on lru::LruCache::new: an empty cache with the given bound.
#[verifier::external_body]
fn lru_new(cap: usize) -> (r: lru::LruCache<String, String>)
    requires
        cap >= 1,
    ensures
        lru_contents(r) == no_entries(),
        lru_contents(r).dom().finite(),
        lru_bound(r) == cap,
{
    lru::LruCache::new(NonZeroUsize::new(cap).unwrap())
}

/// Relies on lru::LruCache::get: returns the entry under this key, if
/// any, and only reorders the recency list.
#[verifier::external_body]
fn lru_get(c: &mut lru::LruCache<String, String>, k: &String) -> (r: Option<String>)
    ensures
        lru_contents(*final(c)) == lru_contents(*old(c)),
        lru_bound(*final(c)) == lru_bound(*old(c)),
        match r {
            Some(v) => lru_contents(*old(c)).contains_pair(k@, v@),
            None => !lru_contents(*old(c)).dom().contains(k@),
        },
{
    c.get(k).cloned()
}

/// Relies on lru::LruCache::put: the pair goes in; an existing key is
/// updated in place; a new key evicts at most the least-recent entry,
/// and only when the cache is full.
#[verifier::external_body]
fn lru_put(c: &mut lru::LruCache<String, String>, k: &String, v: &String)
    ensures
        lru_contents(*final(c)).contains_pair(k@, v@),
        lru_contents(*final(c)).dom().finite(),
        lru_bound(*final(c)) == lru_bound(*old(c)),
        forall|k2: Seq<char>, v2: Seq<char>|
            lru_contents(*final(c)).contains_pair(k2, v2) ==> ((k2 == k@ && v2 == v@)
                || lru_contents(*old(c)).contains_pair(k2, v2)),
        lru_contents(*old(c)).dom().len() < lru_bound(*old(c)) || lru_contents(*old(c)).dom().contains(k@)
            ==> lru_contents(*final(c)) == lru_contents(*old(c)).insert(k@, v@),
{
    c.put(k.clone(), v.clone());
}

/// How many hostnames the memo may hold.
pub const DNS_CACHE_BOUND: usize = 1000;

/// The hostname-to-address memo.
pub struct DnsCache {
    inner: lru::LruCache<String, String>,
}

impl View for DnsCache {
    type V = Map<Seq<char>, Seq<char>>;

    closed spec fn view(&self) -> Map<Seq<char>, Seq<char>> {
        lru_contents(self.inner)
    }
}

impl DnsCache {
    pub closed spec fn bound(&self) -> nat {
        lru_bound(self.inner)
    }

    pub fn new() -> (c: DnsCache)
        ensures
            c@ == no_entries(),
            c@.dom().finite(),
            c.bound() == DNS_CACHE_BOUND,
    {
        DnsCache { inner: lru_new(DNS_CACHE_BOUND) }
    }

    /// The cached address for this hostname, if one is remembered.
    /// Reading never changes what is remembered.
    pub fn lookup(&mut self, host: &String) -> (r: Option<String>)
        ensures
            final(self)@ == old(self)@,
            final(self).bound() == old(self).bound(),
            match r {
                Some(ip) => old(self)@.contains_pair(host@, ip@),
                None => !old(self)@.dom().contains(host@),
            },
    {
        lru_get(&mut self.inner, host)
    }

    /// Remember an address for a hostname. The pair is present
    /// afterwards; nothing else appears; while the memo is under its
    /// bound (or the key is already known) nothing else is lost either.
    pub fn store(&mut self, host: &String, ip: &String)
        ensures
            final(self)@.contains_pair(host@, ip@),
            final(self)@.dom().finite(),
            final(self).bound() == old(self).bound(),
            forall|k2: Seq<char>, v2: Seq<char>|
                final(self)@.contains_pair(k2, v2) ==> ((k2 == host@ && v2 == ip@)
                    || old(self)@.contains_pair(k2, v2)),
            old(self)@.dom().len() < old(self).bound() || old(self)@.dom().contains(host@)
                ==> final(self)@ == old(self)@.insert(host@, ip@),
    {
        lru_put(&mut self.inner, host, ip)
    }
}

/// Why a resolution failed; mirrors what the upstream resolver reports.
#[derive(Debug)]
pub enum DnsResolveError {
    ResolutionFailure(String),
    DnsNoRecordsFound,
    DnsUnknownError,
    InterruptedError(String),
}

/// The answer kept from an upstream lookup: its first record.
pub fn first_record(records: &Vec<String>) -> (r: Result<String, DnsResolveError>)
    ensures
        records@.len() == 0 ==> (r matches Err(e) && e is DnsNoRecordsFound),
        records@.len() > 0 ==> (r matches Ok(ip) && ip@ == records@[0]@),
{
    if records.len() == 0 {
        Err(DnsResolveError::DnsNoRecordsFound)
    } else {
        Ok(records[0].clone())
    }
}

/// Finish a cache miss: keep the lookup's first record under the
/// hostname and hand it back; an empty lookup changes nothing.
pub fn complete_miss(cache: &mut DnsCache, host: &String, records: &Vec<String>) -> (r: Result<
    String,
    DnsResolveError,
>)
    ensures
        records@.len() == 0 ==> (r matches Err(e) && e is DnsNoRecordsFound && final(cache)@
            == old(cache)@),
        records@.len() > 0 ==> (r matches Ok(ip) && ip@ == records@[0]@
            && final(cache)@.contains_pair(host@, records@[0]@)),
        final(cache).bound() == old(cache).bound(),
{
    match first_record(records) {
        Ok(ip) => {
            cache.store(host, &ip);
            Ok(ip)
        },
        Err(e) => Err(e),
    }
}

} // verus!
