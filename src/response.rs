//! What the remote repository answers, as plain values.

use vstd::prelude::*;

verus! {

/// Whether a listed path is a directory or a file.
#[derive(Debug, Clone, Copy, PartialEq, Eq, Structural)]
pub enum PathKind {
    Dir,
    File,
}

/// The last change of a path.
#[derive(Debug, PartialEq, Eq)]
pub struct CommitInfo {
    pub revision: u64,
    pub author: String,
    pub date: String,
}

impl Clone for CommitInfo {
    fn clone(&self) -> (r: Self)
        ensures
            r == *self,
    {
        CommitInfo { revision: self.revision, author: self.author.clone(), date: self.date.clone() }
    }
}

/// One entry of a directory listing.
#[derive(Debug, PartialEq, Eq)]
pub struct ListEntry {
    pub name: String,
    pub kind: PathKind,
    pub commit: CommitInfo,
}

impl Clone for ListEntry {
    fn clone(&self) -> (r: Self)
        ensures
            r == *self,
    {
        ListEntry { name: self.name.clone(), kind: self.kind, commit: self.commit.clone() }
    }
}

/// Metadata of a path: where it lives and its last change.
#[derive(Debug, PartialEq, Eq)]
pub struct RepoInfo {
    pub url: String,
    pub commit: CommitInfo,
}

impl Clone for RepoInfo {
    fn clone(&self) -> (r: Self)
        ensures
            r == *self,
    {
        RepoInfo { url: self.url.clone(), commit: self.commit.clone() }
    }
}

/// One revision in the history of a path.
#[derive(Debug, PartialEq, Eq)]
pub struct LogEntry {
    pub commit: CommitInfo,
    pub message: String,
}

impl Clone for LogEntry {
    fn clone(&self) -> (r: Self)
        ensures
            r == *self,
    {
        LogEntry { commit: self.commit.clone(), message: self.message.clone() }
    }
}

/// A successful answer of the remote repository.
#[derive(Debug, PartialEq, Eq)]
pub enum DataResponse {
    Info(RepoInfo),
    List(Vec<ListEntry>),
    Log(Vec<LogEntry>),
    Text(String),
}

/// The value of a `DataResponse`, with its sequences as mathematical ones.
pub ghost enum ResponseModel {
    Info(RepoInfo),
    List(Seq<ListEntry>),
    Log(Seq<LogEntry>),
    Text(Seq<char>),
}

impl View for DataResponse {
    type V = ResponseModel;

    open spec fn view(&self) -> ResponseModel {
        match self {
            DataResponse::Info(i) => ResponseModel::Info(*i),
            DataResponse::List(l) => ResponseModel::List(l@),
            DataResponse::Log(l) => ResponseModel::Log(l@),
            DataResponse::Text(t) => ResponseModel::Text(t@),
        }
    }
}

/// A copy of a listing, entry for entry.
pub fn copy_entries(v: &Vec<ListEntry>) -> (r: Vec<ListEntry>)
    ensures
        r@ == v@,
{
    let mut r: Vec<ListEntry> = Vec::with_capacity(v.len());
    let mut i: usize = 0;
    while i < v.len()
        invariant
            i <= v.len(),
            r@ == v@.subrange(0, i as int),
        decreases v.len() - i,
    {
        r.push(v[i].clone());
        i += 1;
    }
    assert(r@ =~= v@);
    r
}

fn copy_log(v: &Vec<LogEntry>) -> (r: Vec<LogEntry>)
    ensures
        r@ == v@,
{
    let mut r: Vec<LogEntry> = Vec::with_capacity(v.len());
    let mut i: usize = 0;
    while i < v.len()
        invariant
            i <= v.len(),
            r@ == v@.subrange(0, i as int),
        decreases v.len() - i,
    {
        r.push(v[i].clone());
        i += 1;
    }
    assert(r@ =~= v@);
    r
}

impl Clone for DataResponse {
    fn clone(&self) -> (r: Self)
        ensures
            r@ == self@,
    {
        match self {
            DataResponse::Info(i) => DataResponse::Info(i.clone()),
            DataResponse::List(l) => DataResponse::List(copy_entries(l)),
            DataResponse::Log(l) => DataResponse::Log(copy_log(l)),
            DataResponse::Text(t) => DataResponse::Text(t.clone()),
        }
    }
}

} // verus!
