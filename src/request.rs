//! What can be asked of the remote repository, and the views that ask.

use vstd::prelude::*;

verus! {

/// A location in the remote repository.
#[derive(Debug, PartialEq, Eq)]
pub struct TargetUrl(pub String);

impl Clone for TargetUrl {
    fn clone(&self) -> (r: Self)
        ensures
            r == *self,
    {
        TargetUrl(self.0.clone())
    }
}

/// The kind of a request, without its target.
#[derive(Debug, Clone, Copy, PartialEq, Eq, Structural)]
pub enum RequestTag {
    Info,
    List,
    Log,
    Text,
}

/// One lookup in the remote repository: a kind and the path it is about.
/// Two requests of the same kind for the same path are the same cache key.
#[derive(Debug)]
pub enum DataRequest {
    Info(TargetUrl),
    List(TargetUrl),
    Log(TargetUrl),
    Text(TargetUrl),
}

impl DataRequest {
    pub open spec fn tag(&self) -> RequestTag {
        match self {
            DataRequest::Info(_) => RequestTag::Info,
            DataRequest::List(_) => RequestTag::List,
            DataRequest::Log(_) => RequestTag::Log,
            DataRequest::Text(_) => RequestTag::Text,
        }
    }

    pub open spec fn url(&self) -> Seq<char> {
        match self {
            DataRequest::Info(u) => u.0@,
            DataRequest::List(u) => u.0@,
            DataRequest::Log(u) => u.0@,
            DataRequest::Text(u) => u.0@,
        }
    }

    /// The target of the request.
    pub fn target(&self) -> (r: &TargetUrl)
        ensures
            r.0@ == self.url(),
    {
        match self {
            DataRequest::Info(u) => u,
            DataRequest::List(u) => u,
            DataRequest::Log(u) => u,
            DataRequest::Text(u) => u,
        }
    }

    /// The kind of the request.
    pub fn kind(&self) -> (r: RequestTag)
        ensures
            r == self.tag(),
    {
        match self {
            DataRequest::Info(_) => RequestTag::Info,
            DataRequest::List(_) => RequestTag::List,
            DataRequest::Log(_) => RequestTag::Log,
            DataRequest::Text(_) => RequestTag::Text,
        }
    }
}

impl View for DataRequest {
    type V = (RequestTag, Seq<char>);

    open spec fn view(&self) -> (RequestTag, Seq<char>) {
        (self.tag(), self.url())
    }
}

impl Clone for DataRequest {
    fn clone(&self) -> (r: Self)
        ensures
            r == *self,
    {
        match self {
            DataRequest::Info(u) => DataRequest::Info(u.clone()),
            DataRequest::List(u) => DataRequest::List(u.clone()),
            DataRequest::Log(u) => DataRequest::Log(u.clone()),
            DataRequest::Text(u) => DataRequest::Text(u.clone()),
        }
    }
}

impl PartialEq for DataRequest {
    fn eq(&self, other: &DataRequest) -> (r: bool) {
        self.kind() == other.kind() && self.target().0 == other.target().0
    }
}

impl vstd::std_specs::cmp::PartialEqSpecImpl for DataRequest {
    open spec fn obeys_eq_spec() -> bool {
        true
    }

    open spec fn eq_spec(&self, other: &DataRequest) -> bool {
        self@ == other@
    }
}

/// An independent region of the screen. Each has at most one fetch whose
/// result it still wants.
#[derive(Debug, Clone, Copy, PartialEq, Eq, Structural)]
pub enum ViewId {
    MainList,
    BottomInfo,
    RightInfoPane,
}

} // verus!
