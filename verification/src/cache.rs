//! The shared response cache: a store from request identity (method, host,
//! path) to a previously observed response. Entries are only ever added —
//! nothing in the core evicts — and a single critical section per request
//! covers the whole check / read / store sequence, so a `contains` check and
//! the `get` that follows it can never disagree.
//!
//! The model of the cache is a `Map` from [`RequestId`] to [`ResponseModel`];
//! every method's contract is stated over that map.

use vstd::prelude::*;
use crate::message::{Method, Request, RequestId, Response, ResponseModel};

verus! {

/// One stored entry: the identity components it is keyed by, and the response.
struct CacheEntry {
    method: Method,
    host: String,
    path: String,
    response: Response,
}

impl CacheEntry {
    /// The identity this entry is keyed by.
    spec fn id(&self) -> RequestId {
        RequestId { method: self.method, host: self.host@, path: self.path@ }
    }
}

/// The map an entry list denotes: entries are read in order, a later entry
/// with the same identity superseding an earlier one.
spec fn entries_map(s: Seq<CacheEntry>) -> Map<RequestId, ResponseModel>
    decreases s.len(),
{
    if s.len() == 0 {
        Map::empty()
    } else {
        entries_map(s.drop_last()).insert(s.last().id(), s.last().response@)
    }
}

/// An identity is in the map exactly when some entry carries it.
proof fn lemma_entries_map_dom(s: Seq<CacheEntry>, k: RequestId)
    ensures
        entries_map(s).contains_key(k) <==> exists|i: int|
            0 <= i < s.len() && (#[trigger] s[i].id()) == k,
    decreases s.len(),
{
    if s.len() > 0 {
        lemma_entries_map_dom(s.drop_last(), k);
        if s.last().id() == k {
            assert(s[s.len() - 1].id() == k);
        } else {
            if exists|i: int| 0 <= i < s.len() && (#[trigger] s[i].id()) == k {
                let i = choose|i: int| 0 <= i < s.len() && (#[trigger] s[i].id()) == k;
                assert(s.drop_last()[i].id() == k);
            }
            if entries_map(s.drop_last()).contains_key(k) {
                let i = choose|i: int|
                    0 <= i < s.drop_last().len() && (#[trigger] s.drop_last()[i].id()) == k;
                assert(s[i].id() == k);
            }
        }
    }
}

/// The map's value for an identity is the response of the last entry that
/// carries it.
proof fn lemma_entries_map_last_match(s: Seq<CacheEntry>, i: int)
    requires
        0 <= i < s.len(),
        forall|j: int| i < j < s.len() ==> (#[trigger] s[j].id()) != s[i].id(),
    ensures
        entries_map(s).contains_key(s[i].id()),
        entries_map(s)[s[i].id()] == s[i].response@,
    decreases s.len(),
{
    if i < s.len() - 1 {
        assert(s.drop_last()[i] == s[i]);
        assert(forall|j: int|
            i < j < s.drop_last().len() ==> (#[trigger] s.drop_last()[j].id()) != s.drop_last()[i].id());
        lemma_entries_map_last_match(s.drop_last(), i);
        assert(s.last().id() != s[i].id());
    }
}

/// The shared, lock-guarded response cache. A worker takes the lock once per
/// GET request and holds it over its whole cache interaction.
pub struct HTTPCache {
    entries: Vec<CacheEntry>,
}

impl View for HTTPCache {
    type V = Map<RequestId, ResponseModel>;

    closed spec fn view(&self) -> Map<RequestId, ResponseModel> {
        entries_map(self.entries@)
    }
}

impl HTTPCache {
    /// A fresh cache holds no entry.
    pub fn new() -> (c: Self)
        ensures
            c@ == Map::<RequestId, ResponseModel>::empty(),
    {
        HTTPCache { entries: Vec::new() }
    }

    /// The index of the entry that answers for this identity — the latest
    /// matching one — or `None` when no entry carries the identity.
    fn find_entry(&self, req: &Request) -> (r: Option<usize>)
        ensures
            match r {
                Some(i) => i < self.entries@.len() && self.entries@[i as int].id() == req@.id()
                    && forall|j: int|
                        i < j < self.entries@.len() ==> (#[trigger] self.entries@[j].id())
                            != req@.id(),
                None => forall|j: int|
                    0 <= j < self.entries@.len() ==> (#[trigger] self.entries@[j].id())
                        != req@.id(),
            },
    {
        let mut i: usize = self.entries.len();
        while i > 0
            invariant
                i <= self.entries@.len(),
                forall|j: int|
                    i <= j < self.entries@.len() ==> (#[trigger] self.entries@[j].id())
                        != req@.id(),
            decreases i,
        {
            i = i - 1;
            let e = &self.entries[i];
            if e.method == req.method && e.host == req.host && e.path == req.path {
                proof {
                    assert(self.entries@[i as int].id() == req@.id());
                }
                return Some(i);
            }
        }
        None
    }

    /// Whether the cache holds a response for this request's identity.
    pub fn contains_entry(&self, req: &Request) -> (r: bool)
        ensures
            r == self@.contains_key(req@.id()),
    {
        proof {
            lemma_entries_map_dom(self.entries@, req@.id());
        }
        match self.find_entry(req) {
            Some(_) => true,
            None => false,
        }
    }

    /// The stored response for this request's identity, exactly when the
    /// cache holds one.
    pub fn get_cached_response(&self, req: &Request) -> (r: Option<Response>)
        ensures
            match r {
                Some(res) => self@.contains_key(req@.id()) && res@ == self@[req@.id()],
                None => !self@.contains_key(req@.id()),
            },
    {
        proof {
            lemma_entries_map_dom(self.entries@, req@.id());
        }
        match self.find_entry(req) {
            Some(i) => {
                proof {
                    lemma_entries_map_last_match(self.entries@, i as int);
                }
                Some(self.entries[i].response.clone())
            },
            None => None,
        }
    }

    /// Stores the response under the request's identity: afterwards the cache
    /// maps that identity to this response and every other identity to what
    /// it mapped to before.
    pub fn add_entry(&mut self, req: &Request, res: &Response)
        ensures
            final(self)@ == old(self)@.insert(req@.id(), res@),
    {
        let entry = CacheEntry {
            method: req.method,
            host: req.host.clone(),
            path: req.path.clone(),
            response: res.clone(),
        };
        proof {
            assert(entry.id() == req@.id());
        }
        self.entries.push(entry);
        proof {
            assert(self.entries@.drop_last() =~= old(self).entries@);
            assert(self.entries@.last().id() == req@.id());
        }
    }
}

} // verus!
