//! A store of fetched key sets, keyed by their location, whose entries are
//! usable for a fixed time after they were fetched.

use vstd::prelude::*;
use crate::types::{Jwks, JwksCacheEntry};
use crate::outside::now_ts;

verus! {

/// The entry for location `u` in a sequence of (location, entry) pairs:
/// the last pair with that location.
pub open spec fn lookup(s: Seq<(String, JwksCacheEntry)>, u: Seq<char>) -> Option<JwksCacheEntry>
    decreases s.len(),
{
    if s.len() == 0 {
        None
    } else if s.last().0@ == u {
        Some(s.last().1)
    } else {
        lookup(s.drop_last(), u)
    }
}

/// Whether an entry fetched at `fetched_at` is still usable at `now`.
pub open spec fn is_fresh(fetched_at: int, ttl: int, now: int) -> bool {
    now - fetched_at <= ttl
}

/// The key set that an entry offers at `now`, if it is fresh.
pub open spec fn fresh_keys(e: Option<JwksCacheEntry>, ttl: int, now: int) -> Option<Seq<crate::types::Jwk>> {
    match e {
        Some(e) => if is_fresh(e.fetched_at as int, ttl, now) {
            Some(e.jwks@)
        } else {
            None
        },
        None => None,
    }
}

proof fn lemma_lookup_update(s: Seq<(String, JwksCacheEntry)>, i: int, x: (String, JwksCacheEntry), u: Seq<char>)
    requires
        0 <= i < s.len(),
        s[i].0@ == x.0@,
        forall|j: int| i < j < s.len() ==> (#[trigger] s[j]).0@ != x.0@,
    ensures
        lookup(s.update(i, x), u) == if u == x.0@ { Some(x.1) } else { lookup(s, u) },
    decreases s.len(),
{
    let t = s.update(i, x);
    if i == s.len() - 1 {
        assert(t.drop_last() =~= s.drop_last());
    } else {
        assert(t.drop_last() =~= s.drop_last().update(i, x));
        lemma_lookup_update(s.drop_last(), i, x, u);
    }
}

/// A time-bounded cache of key sets, keyed by key-set location.
pub struct JwksCache {
    ttl_secs: i64,
    entries: Vec<(String, JwksCacheEntry)>,
}

impl JwksCache {
    /// How long, in seconds, an entry stays fresh.
    pub closed spec fn ttl(&self) -> int {
        self.ttl_secs as int
    }

    /// The entry held for location `u`.
    pub closed spec fn entry(&self, u: Seq<char>) -> Option<JwksCacheEntry> {
        lookup(self.entries@, u)
    }

    /// An empty cache whose entries stay fresh for `ttl_secs` seconds.
    pub fn new(ttl_secs: i64) -> (r: JwksCache)
        ensures
            r.ttl() == ttl_secs,
            forall|u: Seq<char>| #[trigger] r.entry(u) is None,
    {
        JwksCache { ttl_secs, entries: Vec::new() }
    }

    /// The index of the last entry for `uri`, if any.
    fn find(&self, uri: &String) -> (r: Option<usize>)
        ensures
            r matches Some(i) ==> i < self.entries@.len() && self.entries@[i as int].0@ == uri@
                && (forall|j: int| i < j < self.entries@.len() ==> (#[trigger] self.entries@[j]).0@ != uri@)
                && self.entry(uri@) == Some(self.entries@[i as int].1),
            r is None ==> self.entry(uri@) is None,
    {
        let s = Ghost(self.entries@);
        let mut i: usize = self.entries.len();
        assert(s@.subrange(0, i as int) =~= s@);
        while i > 0
            invariant
                s@ == self.entries@,
                i <= s@.len(),
                lookup(s@, uri@) == lookup(s@.subrange(0, i as int), uri@),
                forall|j: int| i <= j < s@.len() ==> (#[trigger] s@[j]).0@ != uri@,
            decreases i,
        {
            let k = i - 1;
            assert(s@.subrange(0, i as int).drop_last() =~= s@.subrange(0, k as int));
            if self.entries[k].0.eq(uri) {
                return Some(k);
            }
            i = k;
        }
        assert(s@.subrange(0, 0) =~= Seq::<(String, JwksCacheEntry)>::empty());
        None
    }

    /// Stores `jwks` for `uri`, stamped `fetched_at`, in place of any earlier
    /// entry for `uri`.
    pub fn put_at(&mut self, uri: &str, jwks: Jwks, fetched_at: i64)
        ensures
            final(self).ttl() == old(self).ttl(),
            final(self).entry(uri@) == Some(JwksCacheEntry { jwks, fetched_at }),
            forall|u: Seq<char>| u != uri@ ==> #[trigger] final(self).entry(u) == old(self).entry(u),
    {
        let key = uri.to_owned();
        let found = self.find(&key);
        let x = (key, JwksCacheEntry { jwks, fetched_at });
        match found {
            Some(i) => {
                proof {
                    assert forall|u: Seq<char>| true implies
                        lookup(self.entries@.update(i as int, x), u)
                            == if u == x.0@ { Some(x.1) } else { lookup(self.entries@, u) } by {
                        lemma_lookup_update(self.entries@, i as int, x, u);
                    }
                }
                self.entries.set(i, x);
            },
            None => {
                let ghost s = self.entries@;
                self.entries.push(x);
                assert(self.entries@.drop_last() =~= s);
            },
        }
    }

    /// Stores `jwks` for `uri`, stamped with the current wall-clock time.
    pub fn put(&mut self, uri: &str, jwks: Jwks)
        ensures
            final(self).ttl() == old(self).ttl(),
            exists|t: i64| t >= 0 && final(self).entry(uri@) == Some(JwksCacheEntry { jwks, fetched_at: t }),
            forall|u: Seq<char>| u != uri@ ==> #[trigger] final(self).entry(u) == old(self).entry(u),
    {
        let t = now_ts();
        self.put_at(uri, jwks, t);
    }

    /// The key set held for `uri` if its entry is fresh at `now`.
    pub fn get_fresh_at(&self, uri: &str, now: i64) -> (r: Option<Jwks>)
        ensures
            r is Some <==> fresh_keys(self.entry(uri@), self.ttl(), now as int) is Some,
            r matches Some(j) ==> fresh_keys(self.entry(uri@), self.ttl(), now as int) == Some(j@),
    {
        let key = uri.to_owned();
        match self.find(&key) {
            Some(i) => {
                let e = &self.entries[i].1;
                if (now as i128) - (e.fetched_at as i128) <= self.ttl_secs as i128 {
                    Some(e.jwks.copy())
                } else {
                    None
                }
            },
            None => None,
        }
    }

    /// The key set held for `uri` if its entry is fresh at the wall-clock time.
    pub fn get_fresh(&self, uri: &str) -> (r: Option<Jwks>)
        ensures
            exists|n: i64| n >= 0 && (r is Some <==> fresh_keys(self.entry(uri@), self.ttl(), n as int) is Some)
                && (r matches Some(j) ==> fresh_keys(self.entry(uri@), self.ttl(), n as int) == Some(j@)),
    {
        let n = now_ts();
        self.get_fresh_at(uri, n)
    }
}

} // verus!
