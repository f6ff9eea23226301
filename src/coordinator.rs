//! Which fetch is the current one for each view.
//!
//! Every request is given a ticket, which at once becomes the current one of
//! its view. A fetch runs to completion whatever happens meanwhile; its
//! outcome is handed on only if its ticket is still current then.

use vstd::prelude::*;

use crate::request::{DataRequest, ViewId};

verus! {

/// Correlates a running fetch with the view that asked for it.
#[derive(Debug, Clone, Copy, PartialEq, Eq, Structural)]
pub struct FetchTicket {
    pub view: ViewId,
    pub id: u64,
}

/// A registered fetch: what to look up, and the ticket of the lookup.
#[derive(Debug)]
pub struct FetchJob {
    pub ticket: FetchTicket,
    pub req: DataRequest,
}

/// The current ticket of each view.
pub struct DataHandler {
    main_list: Option<u64>,
    bottom_info: Option<u64>,
    right_info_pane: Option<u64>,
    next_id: u64,
}

impl View for DataHandler {
    /// For each view with a registered fetch, the id of its current ticket.
    type V = Map<ViewId, u64>;

    closed spec fn view(&self) -> Map<ViewId, u64> {
        Map::new(|v: ViewId| self.slot(v) is Some, |v: ViewId| self.slot(v)->0)
    }
}

/// The ticket of a registered job, if any.
pub open spec fn ticket_of(r: Option<FetchJob>) -> Option<FetchTicket> {
    match r {
        Some(j) => Some(j.ticket),
        None => None,
    }
}

impl DataHandler {
    closed spec fn slot(&self, v: ViewId) -> Option<u64> {
        match v {
            ViewId::MainList => self.main_list,
            ViewId::BottomInfo => self.bottom_info,
            ViewId::RightInfoPane => self.right_info_pane,
        }
    }

    /// How many tickets have been handed out; the next one gets this id.
    pub closed spec fn issued(&self) -> u64 {
        self.next_id
    }

    /// `t` is the current ticket of its view.
    pub open spec fn holds(&self, t: FetchTicket) -> bool {
        self@.contains_key(t.view) && self@[t.view] == t.id
    }

    /// How a request for `view` that returned `r` takes `before` to `after`.
    pub open spec fn requested(
        before: DataHandler,
        view: ViewId,
        r: Option<FetchTicket>,
        after: DataHandler,
    ) -> bool {
        match r {
            Some(t) => {
                &&& t.view == view
                &&& t.id == before.issued()
                &&& after@ == before@.insert(view, t.id)
                &&& after.issued() == before.issued() + 1
            },
            None => {
                &&& before.issued() == u64::MAX
                &&& after@ == before@
                &&& after.issued() == before.issued()
            },
        }
    }

    /// A table with no fetch registered.
    pub fn new() -> (r: Self)
        ensures
            r@ == Map::<ViewId, u64>::empty(),
            r.issued() == 0,
    {
        let r = DataHandler { main_list: None, bottom_info: None, right_info_pane: None, next_id: 0 };
        assert(r@ =~= Map::<ViewId, u64>::empty());
        r
    }

    /// Registers a fetch of `req` for `view`: its ticket becomes the current
    /// one of `view`, in place of any earlier one. Fails only when every
    /// ticket id has been used.
    pub fn request(&mut self, req: DataRequest, view: ViewId) -> (r: Option<FetchJob>)
        ensures
            r is None <==> old(self).issued() == u64::MAX,
            Self::requested(*old(self), view, ticket_of(r), *final(self)),
            r is Some ==> r->0.req == req,
    {
        if self.next_id == u64::MAX {
            return None;
        }
        let id = self.next_id;
        match view {
            ViewId::MainList => self.main_list = Some(id),
            ViewId::BottomInfo => self.bottom_info = Some(id),
            ViewId::RightInfoPane => self.right_info_pane = Some(id),
        }
        self.next_id = id + 1;
        assert(self@ =~= old(self)@.insert(view, id));
        Some(FetchJob { ticket: FetchTicket { view, id }, req })
    }

    /// Whether `t` is still the current ticket of its view.
    pub fn is_current(&self, t: &FetchTicket) -> (r: bool)
        ensures
            r == self.holds(*t),
    {
        let slot = match t.view {
            ViewId::MainList => self.main_list,
            ViewId::BottomInfo => self.bottom_info,
            ViewId::RightInfoPane => self.right_info_pane,
        };
        match slot {
            Some(id) => id == t.id,
            None => false,
        }
    }

    /// The outcome of the fetch of `t`, if `t` is still current; nothing if
    /// a later request for the same view has replaced it.
    pub fn deliver<T>(&self, t: &FetchTicket, outcome: T) -> (r: Option<T>)
        ensures
            r == (if self.holds(*t) {
                Some(outcome)
            } else {
                None
            }),
    {
        if self.is_current(t) {
            Some(outcome)
        } else {
            None
        }
    }
}

/// Of two requests for one view, the later one is current and the earlier
/// one is not, whichever of their fetches ends first.
pub proof fn lemma_latest_request_wins(
    h0: DataHandler,
    h1: DataHandler,
    h2: DataHandler,
    view: ViewId,
    t1: FetchTicket,
    t2: FetchTicket,
)
    requires
        DataHandler::requested(h0, view, Some(t1), h1),
        DataHandler::requested(h1, view, Some(t2), h2),
    ensures
        !h2.holds(t1),
        h2.holds(t2),
{
}

/// A ticket that is no longer current never becomes current again, whatever
/// is requested afterwards.
pub proof fn lemma_superseded_stays_superseded(
    h0: DataHandler,
    h1: DataHandler,
    view: ViewId,
    r: Option<FetchTicket>,
    t: FetchTicket,
)
    requires
        t.id < h0.issued(),
        !h0.holds(t),
        DataHandler::requested(h0, view, r, h1),
    ensures
        t.id < h1.issued(),
        !h1.holds(t),
{
}

/// Requests for two different views are both current, whichever was made
/// first and whichever fetch ends first.
pub proof fn lemma_views_independent(
    h0: DataHandler,
    h1: DataHandler,
    h2: DataHandler,
    v1: ViewId,
    v2: ViewId,
    t1: FetchTicket,
    t2: FetchTicket,
)
    requires
        v1 != v2,
        DataHandler::requested(h0, v1, Some(t1), h1),
        DataHandler::requested(h1, v2, Some(t2), h2),
    ensures
        h2.holds(t1),
        h2.holds(t2),
{
}

} // verus!
