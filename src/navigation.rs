//! The history of listings the user has navigated through.

use vstd::prelude::*;
use vstd::string::StringExecFns;

use crate::error::CustomError;
use crate::request::{DataRequest, RequestTag, TargetUrl};
use crate::response::{copy_entries, ListEntry, PathKind};

verus! {

/// The value of a listing: its path and its entries.
pub ghost struct ListModel {
    pub base_url: Seq<char>,
    pub items: Seq<ListEntry>,
}

/// The listing of one path, as it was fetched.
#[derive(Debug, PartialEq, Eq)]
pub struct CustomList {
    items: Vec<ListEntry>,
    base_url: String,
}

impl View for CustomList {
    type V = ListModel;

    closed spec fn view(&self) -> ListModel {
        ListModel { base_url: self.base_url@, items: self.items@ }
    }
}

impl Clone for CustomList {
    fn clone(&self) -> (r: Self)
        ensures
            r@ == self@,
    {
        CustomList { items: copy_entries(&self.items), base_url: self.base_url.clone() }
    }
}

/// The path that a request for `e`, listed under `base`, is about.
pub open spec fn entry_path(base: Seq<char>, e: ListEntry) -> Seq<char> {
    base + e.name@ + seq!['/']
}

/// The request that opening `e`, listed under `base`, makes: a listing for a
/// directory, the content for a file.
pub open spec fn entry_request(base: Seq<char>, e: ListEntry) -> (RequestTag, Seq<char>) {
    (
        if e.kind == PathKind::Dir {
            RequestTag::List
        } else {
            RequestTag::Text
        },
        entry_path(base, e),
    )
}

impl CustomList {
    /// A listing of `base_url` with no entries yet.
    pub fn new(base_url: String) -> (r: Self)
        ensures
            r@ == (ListModel { base_url: base_url@, items: Seq::empty() }),
    {
        CustomList { items: Vec::new(), base_url }
    }

    /// The listing of `base_url` made of `items`.
    pub fn from_listing(items: Vec<ListEntry>, base_url: String) -> (r: Self)
        ensures
            r@ == (ListModel { base_url: base_url@, items: items@ }),
    {
        CustomList { items, base_url }
    }

    /// The number of entries.
    pub fn len(&self) -> (r: usize)
        ensures
            r == self@.items.len(),
    {
        self.items.len()
    }

    /// The names of the entries, in order.
    pub fn get_list_items(&self) -> (r: Vec<String>)
        ensures
            r@.len() == self@.items.len(),
            forall|i: int| 0 <= i < r@.len() ==> #[trigger] r@[i]@ == self@.items[i].name@,
    {
        let mut r: Vec<String> = Vec::with_capacity(self.items.len());
        let mut i: usize = 0;
        while i < self.items.len()
            invariant
                i <= self.items.len(),
                r@.len() == i,
                forall|j: int| 0 <= j < i ==> #[trigger] r@[j]@ == self.items@[j].name@,
            decreases self.items.len() - i,
        {
            r.push(self.items[i].name.clone());
            i += 1;
        }
        r
    }

    /// The entry that `state` selects, if it selects one of this listing.
    pub fn get_current_selected(&self, state: &CustomListState) -> (r: Option<ListEntry>)
        ensures
            r == (match state@.0 {
                Some(i) => if i < self@.items.len() {
                    Some(self@.items[i as int])
                } else {
                    None
                },
                None => None,
            }),
    {
        match state.get() {
            Some(i) => {
                if i < self.items.len() {
                    Some(self.items[i].clone())
                } else {
                    None
                }
            },
            None => None,
        }
    }

    /// The request that opening `e`, an entry of this listing, makes.
    pub fn request_for(&self, e: &ListEntry) -> (r: DataRequest)
        ensures
            r@ == entry_request(self@.base_url, *e),
    {
        let mut path = self.base_url.clone();
        path.append(e.name.as_str());
        path.append("/");
        proof {
            reveal_strlit("/");
        }
        if e.kind == PathKind::Dir {
            DataRequest::List(TargetUrl(path))
        } else {
            DataRequest::Text(TargetUrl(path))
        }
    }

    /// The path of this listing.
    pub fn base_url(&self) -> (r: &String)
        ensures
            r@ == self@.base_url,
    {
        &self.base_url
    }

    /// The entries of this listing.
    pub fn items(&self) -> (r: &Vec<ListEntry>)
        ensures
            r@ == self@.items,
    {
        &self.items
    }
}

/// Which entry of a listing is selected.
#[derive(Debug, PartialEq, Eq)]
pub struct CustomListState {
    selected: Option<usize>,
    list_size: usize,
}

impl View for CustomListState {
    /// The selected position, and the size of the listing.
    type V = (Option<usize>, usize);

    closed spec fn view(&self) -> (Option<usize>, usize) {
        (self.selected, self.list_size)
    }
}

/// The position after `i` in a listing of `n` entries, round to the top.
pub open spec fn next_position(i: usize, n: usize) -> usize {
    if i + 1 < n {
        (i + 1) as usize
    } else {
        0
    }
}

/// The position before `i` in a listing of `n` entries, round to the bottom.
pub open spec fn prev_position(i: usize, n: usize) -> usize {
    if i > 0 {
        (i - 1) as usize
    } else {
        (n - 1) as usize
    }
}

impl CustomListState {
    /// A selection is always within the listing.
    pub open spec fn wf(&self) -> bool {
        self@.0 is Some ==> self@.0->0 < self@.1
    }

    /// The selection of a freshly shown listing: its first entry, if it has
    /// any.
    pub fn from_list(list: &CustomList) -> (r: Self)
        ensures
            r.wf(),
            r@ == (
                if list@.items.len() > 0 {
                    Some(0usize)
                } else {
                    None
                },
                list@.items.len() as usize,
            ),
    {
        let list_size = list.len();
        let selected = if list_size > 0 {
            Some(0)
        } else {
            None
        };
        CustomListState { selected, list_size }
    }

    /// The selected position.
    pub fn get(&self) -> (r: Option<usize>)
        ensures
            r == self@.0,
    {
        self.selected
    }

    /// Moves the selection one entry down, from the last entry to the first.
    pub fn inc(&mut self)
        requires
            old(self).wf(),
        ensures
            final(self).wf(),
            final(self)@.1 == old(self)@.1,
            final(self)@.0 == (match old(self)@.0 {
                Some(i) => Some(next_position(i, old(self)@.1)),
                None => None,
            }),
    {
        if let Some(selected) = self.selected {
            if selected + 1 < self.list_size {
                self.selected = Some(selected + 1);
            } else {
                self.selected = Some(0);
            }
        }
    }

    /// Moves the selection one entry up, from the first entry to the last.
    pub fn dec(&mut self)
        requires
            old(self).wf(),
        ensures
            final(self).wf(),
            final(self)@.1 == old(self)@.1,
            final(self)@.0 == (match old(self)@.0 {
                Some(i) => Some(prev_position(i, old(self)@.1)),
                None => None,
            }),
    {
        if let Some(selected) = self.selected {
            if selected > 0 {
                self.selected = Some(selected - 1);
            } else {
                self.selected = Some(self.list_size - 1);
            }
        }
    }
}

/// The snapshot at position `i` of `s`, if there is one.
pub open spec fn at(s: Seq<ListModel>, i: int) -> Option<ListModel> {
    if 0 <= i < s.len() {
        Some(s[i])
    } else {
        None
    }
}

/// The value of an optional listing.
pub open spec fn model_of(o: Option<CustomList>) -> Option<ListModel> {
    match o {
        Some(l) => Some(l@),
        None => None,
    }
}

/// The history after opening `new` from position `index` of `s`: what lay
/// beyond `index` is dropped, and `new` follows.
pub open spec fn pushed(s: Seq<ListModel>, index: int, new: ListModel) -> Seq<ListModel> {
    if s.len() == 0 {
        seq![new]
    } else {
        s.take(index + 1).push(new)
    }
}

/// The listings around the current one: the one before it, itself, and the
/// one after it.
#[derive(Debug)]
pub struct CustomListsToDisplay {
    pub prev: Option<CustomList>,
    pub cur: Option<CustomList>,
    pub next: Option<CustomList>,
}

/// The history of listings, with the position of the one shown.
#[derive(Debug)]
pub struct CustomLists {
    lists: Vec<CustomList>,
    current: usize,
}

impl CustomLists {
    /// The listings, oldest first.
    pub closed spec fn snapshots(&self) -> Seq<ListModel> {
        self.lists@.map_values(|l: CustomList| l@)
    }

    /// The position of the listing shown.
    pub closed spec fn index(&self) -> int {
        self.current as int
    }

    /// The position is that of a listing, or 0 while there is none.
    pub open spec fn wf(&self) -> bool {
        if self.snapshots().len() == 0 {
            self.index() == 0
        } else {
            0 <= self.index() < self.snapshots().len()
        }
    }

    /// An empty history.
    pub fn new() -> (r: Self)
        ensures
            r.wf(),
            r.snapshots() == Seq::<ListModel>::empty(),
    {
        let r = CustomLists { lists: Vec::new(), current: 0 };
        assert(r.snapshots() =~= Seq::<ListModel>::empty());
        r
    }

    /// A history made of `lists`, showing the first.
    pub fn from_lists(lists: Vec<CustomList>) -> (r: Self)
        ensures
            r.wf(),
            r.snapshots() == lists@.map_values(|l: CustomList| l@),
            r.index() == 0,
    {
        CustomLists { lists, current: 0 }
    }

    /// The number of listings held.
    pub fn len(&self) -> (r: usize)
        ensures
            r == self.snapshots().len(),
    {
        self.lists.len()
    }

    /// The position of the listing shown.
    pub fn current_index(&self) -> (r: usize)
        ensures
            r == self.index(),
    {
        self.current
    }

    /// Shows `list` next to the current one: the listings beyond the current
    /// one are dropped, `list` is appended and becomes the current one.
    pub fn add_new_list(&mut self, list: CustomList)
        requires
            old(self).wf(),
        ensures
            final(self).wf(),
            final(self).snapshots() == pushed(old(self).snapshots(), old(self).index(), list@),
            final(self).index() == final(self).snapshots().len() - 1,
    {
        let ghost before = self.snapshots();
        let ghost new = list@;
        if self.lists.len() == 0 {
            self.lists.push(list);
            self.current = 0;
        } else {
            self.lists.truncate(self.current + 1);
            self.lists.push(list);
            self.current = self.current + 1;
        }
        assert(self.snapshots() =~= pushed(before, old(self).index(), new));
    }

    /// Goes one listing back, unless the first is shown, and reads the
    /// listings around the one shown then. No listing is dropped.
    pub fn go_back(&mut self) -> (r: CustomListsToDisplay)
        requires
            old(self).wf(),
        ensures
            final(self).wf(),
            final(self).snapshots() == old(self).snapshots(),
            final(self).index() == (if old(self).index() > 0 {
                old(self).index() - 1
            } else {
                0
            }),
            Self::window(final(self).snapshots(), final(self).index(), r),
    {
        if self.current > 0 {
            self.current = self.current - 1;
        }
        self.get_current()
    }

    /// `r` holds the listings of `s` before, at and after position `i`.
    pub open spec fn window(s: Seq<ListModel>, i: int, r: CustomListsToDisplay) -> bool {
        &&& model_of(r.prev) == at(s, i - 1)
        &&& model_of(r.cur) == at(s, i)
        &&& model_of(r.next) == at(s, i + 1)
    }

    fn get_at(&self, i: usize) -> (r: Option<CustomList>)
        ensures
            model_of(r) == at(self.snapshots(), i as int),
    {
        if i < self.lists.len() {
            Some(self.lists[i].clone())
        } else {
            None
        }
    }

    /// The listings before, at and after the current position, without
    /// moving.
    pub fn get_current(&self) -> (r: CustomListsToDisplay)
        requires
            self.wf(),
        ensures
            Self::window(self.snapshots(), self.index(), r),
    {
        let prev = if self.current > 0 {
            self.get_at(self.current - 1)
        } else {
            None
        };
        let cur = self.get_at(self.current);
        let n = self.lists.len();
        assert(self.snapshots().len() == n);
        let next = if self.current < n {
            self.get_at(self.current + 1)
        } else {
            None
        };
        CustomListsToDisplay { prev, cur, next }
    }

    /// The selection for the listing shown: its first entry. Fails while no
    /// listing is held.
    pub fn selection_state(&self) -> (r: Result<CustomListState, CustomError>)
        requires
            self.wf(),
        ensures
            self.snapshots().len() == 0 <==> r is Err,
            r matches Err(e) ==> e is NoDataToList,
            r matches Ok(st) ==> st.wf() && st@ == (
                if self.snapshots()[self.index()].items.len() > 0 {
                    Some(0usize)
                } else {
                    None
                },
                self.snapshots()[self.index()].items.len() as usize,
            ),
    {
        if self.current < self.lists.len() {
            Ok(CustomListState::from_list(&self.lists[self.current]))
        } else {
            Err(CustomError::NoDataToList)
        }
    }

    /// The request that opening the entry selected by `state` in the listing
    /// shown makes; none while nothing is shown or selected.
    pub fn request_for_selected(&self, state: &CustomListState) -> (r: Option<DataRequest>)
        requires
            self.wf(),
        ensures
            r is Some <==> (self.snapshots().len() > 0 && state@.0 is Some && state@.0->0
                < self.snapshots()[self.index()].items.len()),
            r is Some ==> r->0@ == entry_request(
                self.snapshots()[self.index()].base_url,
                self.snapshots()[self.index()].items[state@.0->0 as int],
            ),
    {
        if self.current < self.lists.len() {
            let list = &self.lists[self.current];
            match list.get_current_selected(state) {
                Some(e) => Some(list.request_for(&e)),
                None => None,
            }
        } else {
            None
        }
    }

    /// Shows the listing `items` that `req` fetched, next to the current one,
    /// and gives the selection for it.
    pub fn open_listing(&mut self, req: &DataRequest, items: Vec<ListEntry>) -> (r: CustomListState)
        requires
            old(self).wf(),
        ensures
            final(self).wf(),
            final(self).snapshots() == pushed(
                old(self).snapshots(),
                old(self).index(),
                ListModel { base_url: req.url(), items: items@ },
            ),
            final(self).index() == final(self).snapshots().len() - 1,
            r.wf(),
            r@ == (
                if items@.len() > 0 {
                    Some(0usize)
                } else {
                    None
                },
                items@.len() as usize,
            ),
    {
        let list = CustomList::from_listing(items, req.target().0.clone());
        let r = CustomListState::from_list(&list);
        self.add_new_list(list);
        r
    }
}

} // verus!
