//! Requests that the build engine serves itself.


use vstd::prelude::*;

verus! {

/// A download that the engine performs with its own fetcher, verified
/// against `hash` afterwards.
#[derive(Debug, PartialEq, Eq)]
pub struct FetchUrl {
    pub name: Option<String>,
    pub url: String,
    pub hash: crate::hash::Hash,
    pub unpack: bool,
    pub executable: bool,
}

/// `FetchUrl` as a mathematical value: every string a sequence of characters,
/// every list a sequence.
pub struct FetchUrlView {
    pub name: Option<Seq<char>>,
    pub url: Seq<char>,
    pub hash: Seq<char>,
    pub unpack: bool,
    pub executable: bool,
}

impl View for FetchUrl {
    type V = FetchUrlView;

    open spec fn view(&self) -> FetchUrlView {
        FetchUrlView {
            name: self.name.deep_view(),
            url: self.url@,
            hash: self.hash@,
            unpack: self.unpack,
            executable: self.executable,
        }
    }
}

} // verus!
