use svn_browser::error::CustomError;
use svn_browser::navigation::{CustomList, CustomListState, CustomLists};
use svn_browser::request::{DataRequest, TargetUrl};
use svn_browser::response::{CommitInfo, ListEntry, PathKind};

fn entry(name: &str, kind: PathKind) -> ListEntry {
    ListEntry {
        name: name.to_string(),
        kind,
        commit: CommitInfo { revision: 1, author: "ann".to_string(), date: "d".to_string() },
    }
}

fn snap(path: &str) -> CustomList {
    CustomList::from_listing(vec![entry("x", PathKind::File)], path.to_string())
}

fn paths(l: &Option<CustomList>) -> Option<String> {
    l.as_ref().map(|c| c.base_url().clone())
}

#[test]
fn push_truncates_forward_history() {
    let mut s = CustomLists::new();
    s.add_new_list(snap("A"));
    s.add_new_list(snap("B"));
    s.add_new_list(snap("C"));
    assert_eq!(s.current_index(), 2);
    s.go_back();
    let w = s.go_back();
    assert_eq!(s.current_index(), 0);
    assert_eq!(paths(&w.cur), Some("A".to_string()));
    assert_eq!(paths(&w.next), Some("B".to_string()));
    s.add_new_list(snap("D"));
    assert_eq!(s.len(), 2);
    assert_eq!(s.current_index(), 1);
    let w = s.get_current();
    assert_eq!(paths(&w.prev), Some("A".to_string()));
    assert_eq!(paths(&w.cur), Some("D".to_string()));
    assert_eq!(paths(&w.next), None);
    let w = s.go_back();
    assert_eq!(paths(&w.cur), Some("A".to_string()));
    assert_eq!(paths(&w.next), Some("D".to_string()));
    let w = s.go_back();
    assert_eq!(paths(&w.cur), Some("A".to_string()));
}

#[test]
fn peek_on_single_listing() {
    let s = CustomLists::from_lists(vec![snap("A")]);
    let w = s.get_current();
    assert!(w.prev.is_none());
    assert_eq!(w.cur, Some(snap("A")));
    assert!(w.next.is_none());
}

#[test]
fn peek_on_empty_history() {
    let s = CustomLists::new();
    let w = s.get_current();
    assert!(w.prev.is_none() && w.cur.is_none() && w.next.is_none());
    assert_eq!(s.selection_state(), Err(CustomError::NoDataToList));
}

#[test]
fn first_push_on_empty_history() {
    let mut s = CustomLists::new();
    s.add_new_list(snap("A"));
    assert_eq!(s.len(), 1);
    assert_eq!(s.current_index(), 0);
    assert_eq!(paths(&s.get_current().cur), Some("A".to_string()));
}

#[test]
fn go_back_at_root_stays() {
    let mut s = CustomLists::from_lists(vec![snap("A"), snap("B")]);
    let w = s.go_back();
    assert_eq!(s.current_index(), 0);
    assert_eq!(s.len(), 2);
    assert_eq!(paths(&w.cur), Some("A".to_string()));
    assert_eq!(paths(&w.next), Some("B".to_string()));
}

#[test]
fn push_in_middle_of_history() {
    let mut s = CustomLists::from_lists(vec![snap("A"), snap("B"), snap("C")]);
    s.add_new_list(snap("D"));
    assert_eq!(s.len(), 2);
    assert_eq!(paths(&s.get_current().prev), Some("A".to_string()));
}

#[test]
fn selection_steps_round_both_ends() {
    let l = CustomList::from_listing(
        vec![entry("a", PathKind::Dir), entry("b", PathKind::File), entry("c", PathKind::File)],
        "/r/".to_string(),
    );
    let mut st = CustomListState::from_list(&l);
    assert_eq!(st.get(), Some(0));
    st.dec();
    assert_eq!(st.get(), Some(2));
    st.inc();
    assert_eq!(st.get(), Some(0));
    st.inc();
    st.inc();
    assert_eq!(st.get(), Some(2));
    st.dec();
    assert_eq!(st.get(), Some(1));
}

#[test]
fn selection_of_empty_listing() {
    let l = CustomList::new("/r/".to_string());
    let mut st = CustomListState::from_list(&l);
    assert_eq!(st.get(), None);
    st.inc();
    st.dec();
    assert_eq!(st.get(), None);
    assert_eq!(l.get_current_selected(&st), None);
}

#[test]
fn selected_entry_and_names() {
    let l = CustomList::from_listing(
        vec![entry("a", PathKind::Dir), entry("b", PathKind::File)],
        "/r/".to_string(),
    );
    let mut st = CustomListState::from_list(&l);
    st.inc();
    assert_eq!(l.get_current_selected(&st), Some(entry("b", PathKind::File)));
    assert_eq!(l.get_list_items(), vec!["a".to_string(), "b".to_string()]);
    assert_eq!(l.len(), 2);
    assert_eq!(l.items().len(), 2);
}

#[test]
fn opening_a_directory_lists_it() {
    let s = CustomLists::from_lists(vec![CustomList::from_listing(
        vec![entry("docs", PathKind::Dir), entry("readme.txt", PathKind::File)],
        "/repo/".to_string(),
    )]);
    let st = s.selection_state().unwrap();
    let req = s.request_for_selected(&st).unwrap();
    assert!(req == DataRequest::List(TargetUrl("/repo/docs/".to_string())));
}

#[test]
fn opening_a_file_fetches_its_content() {
    let s = CustomLists::from_lists(vec![CustomList::from_listing(
        vec![entry("docs", PathKind::Dir), entry("readme.txt", PathKind::File)],
        "/repo/".to_string(),
    )]);
    let mut st = s.selection_state().unwrap();
    st.inc();
    let req = s.request_for_selected(&st).unwrap();
    assert!(req == DataRequest::Text(TargetUrl("/repo/readme.txt/".to_string())));
}

#[test]
fn nothing_to_open_without_selection() {
    let s = CustomLists::from_lists(vec![CustomList::new("/repo/".to_string())]);
    let st = s.selection_state().unwrap();
    assert_eq!(st.get(), None);
    assert!(s.request_for_selected(&st).is_none());
    let empty = CustomLists::new();
    assert!(empty.request_for_selected(&st).is_none());
}

#[test]
fn open_listing_pushes_and_selects_first() {
    let mut s = CustomLists::from_lists(vec![snap("/repo/")]);
    let req = DataRequest::List(TargetUrl("/repo/docs/".to_string()));
    let st = s.open_listing(&req, vec![entry("intro.md", PathKind::File)]);
    assert_eq!(st.get(), Some(0));
    assert_eq!(s.current_index(), 1);
    let cur = s.get_current().cur.unwrap();
    assert_eq!(cur.base_url(), "/repo/docs/");
    assert_eq!(cur.items(), &vec![entry("intro.md", PathKind::File)]);
}
