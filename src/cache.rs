//! Results of remote lookups, kept for a fixed validity window.

use vstd::prelude::*;

use crate::error::CustomError;
use crate::request::{DataRequest, RequestTag};
use crate::response::{DataResponse, ResponseModel};

verus! {

/// How long a fetched result may be reused: fifteen minutes, in milliseconds.
pub const MAX_VALIDITY_OF_CACHED_LIST_MS: u64 = 900_000;

/// The key of a cached result: the kind of request and its path.
pub type RequestKey = (RequestTag, Seq<char>);

/// What the cache holds: for each key, the result and when it was fetched.
pub type CacheModel = Map<RequestKey, (ResponseModel, u64)>;

/// A result fetched at `fetched_at` may still be used at `now`. A clock that
/// went backwards makes it unusable.
pub open spec fn is_fresh(fetched_at: u64, now: u64, window: u64) -> bool {
    fetched_at <= now && now - fetched_at < window
}

/// What a lookup of `k` at `now` finds in `m`.
pub open spec fn usable(m: CacheModel, window: u64, k: RequestKey, now: u64) -> Option<
    ResponseModel,
> {
    if m.contains_key(k) && is_fresh(m[k].1, now, window) {
        Some(m[k].0)
    } else {
        None
    }
}

struct CacheEntry {
    req: DataRequest,
    resp: DataResponse,
    fetched_at: u64,
}

/// Results of remote lookups by request, each with the time it was fetched.
pub struct ResultCache {
    entries: Vec<CacheEntry>,
    window: u64,
    model: Ghost<CacheModel>,
}

impl View for ResultCache {
    type V = CacheModel;

    closed spec fn view(&self) -> CacheModel {
        self.model@
    }
}

impl ResultCache {
    /// The validity window, in milliseconds.
    pub closed spec fn window(&self) -> u64 {
        self.window
    }

    pub closed spec fn wf(&self) -> bool {
        &&& forall|i: int, j: int|
            0 <= i < j < self.entries.len() ==> #[trigger] self.entries[i].req@
                != #[trigger] self.entries[j].req@
        &&& forall|i: int|
            0 <= i < self.entries.len() ==> self.model@.contains_key(#[trigger] self.entries[i].req@)
                && self.model@[self.entries[i].req@] == (
                self.entries[i].resp@,
                self.entries[i].fetched_at,
            )
        &&& forall|k: RequestKey|
            #[trigger] self.model@.contains_key(k) ==> exists|i: int|
                0 <= i < self.entries.len() && #[trigger] self.entries[i].req@ == k
    }

    /// An empty cache whose results stay usable for `window_ms` milliseconds.
    pub fn new(window_ms: u64) -> (r: Self)
        ensures
            r.wf(),
            r@ == CacheModel::empty(),
            r.window() == window_ms,
    {
        ResultCache { entries: Vec::new(), window: window_ms, model: Ghost(CacheModel::empty()) }
    }

    /// The validity window, in milliseconds.
    pub fn window_ms(&self) -> (r: u64)
        ensures
            r == self.window(),
    {
        self.window
    }

    fn find(&self, req: &DataRequest) -> (r: Option<usize>)
        requires
            self.wf(),
        ensures
            match r {
                Some(i) => i < self.entries.len() && self.entries[i as int].req@ == req@,
                None => !self@.contains_key(req@),
            },
    {
        let mut i: usize = 0;
        while i < self.entries.len()
            invariant
                self.wf(),
                i <= self.entries.len(),
                forall|j: int| 0 <= j < i ==> self.entries[j].req@ != req@,
            decreases self.entries.len() - i,
        {
            if self.entries[i].req == *req {
                return Some(i);
            }
            i += 1;
        }
        None
    }

    /// The result stored for `req`, if it was fetched within the validity
    /// window before `now`.
    pub fn get(&self, req: &DataRequest, now: u64) -> (r: Option<DataResponse>)
        requires
            self.wf(),
        ensures
            r is Some <==> usable(self@, self.window(), req@, now) is Some,
            r is Some ==> usable(self@, self.window(), req@, now) == Some(r->0@),
    {
        match self.find(req) {
            Some(i) => {
                let e = &self.entries[i];
                if e.fetched_at <= now && now - e.fetched_at < self.window {
                    Some(e.resp.clone())
                } else {
                    None
                }
            },
            None => None,
        }
    }

    /// Stores `resp` as the result for `req`, fetched at `now`, in place of
    /// any earlier one.
    pub fn put(&mut self, req: DataRequest, resp: DataResponse, now: u64)
        requires
            old(self).wf(),
        ensures
            final(self).wf(),
            final(self)@ == old(self)@.insert(req@, (resp@, now)),
            final(self).window() == old(self).window(),
    {
        let ghost key = req@;
        let ghost value = (resp@, now);
        let found = self.find(&req);
        let ghost pos: int = match found {
            Some(i) => i as int,
            None => self.entries.len() as int,
        };
        match found {
            Some(i) => {
                self.entries.set(i, CacheEntry { req, resp, fetched_at: now });
            },
            None => {
                self.entries.push(CacheEntry { req, resp, fetched_at: now });
            },
        }
        self.model = Ghost(self.model@.insert(key, value));
        assert forall|k: RequestKey| #[trigger] self.model@.contains_key(k) implies exists|i: int|
            0 <= i < self.entries.len() && #[trigger] self.entries[i].req@ == k by {
            if k != key {
                let i = choose|i: int|
                    0 <= i < old(self).entries.len() && #[trigger] old(self).entries[i].req@ == k;
                assert(self.entries[i].req@ == k);
            } else {
                assert(self.entries[pos].req@ == key);
            }
        }
    }

    /// Hands back the outcome of a remote lookup for `req`, storing it first
    /// if it succeeded. Failures are not stored.
    pub fn record(
        &mut self,
        req: &DataRequest,
        outcome: Result<DataResponse, CustomError>,
        now: u64,
    ) -> (r: Result<DataResponse, CustomError>)
        requires
            old(self).wf(),
        ensures
            final(self).wf(),
            r == outcome,
            final(self).window() == old(self).window(),
            match outcome {
                Ok(v) => final(self)@ == old(self)@.insert(req@, (v@, now)),
                Err(_) => final(self)@ == old(self)@,
            },
    {
        if let Ok(v) = &outcome {
            self.put(req.clone(), v.clone(), now);
        }
        outcome
    }
}

/// A result stored at time `t` is found by every lookup from `t` until the
/// validity window has passed, and by none after that.
pub proof fn lemma_put_then_get(
    c: ResultCache,
    req: DataRequest,
    resp: DataResponse,
    t: u64,
    now: u64,
)
    ensures
        t <= now < t + c.window() ==> usable(
            c@.insert(req@, (resp@, t)),
            c.window(),
            req@,
            now,
        ) == Some(resp@),
        now >= t + c.window() ==> usable(c@.insert(req@, (resp@, t)), c.window(), req@, now)
            is None,
{
}

} // verus!
