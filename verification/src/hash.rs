//! Content hashes of fixed-output steps.

use vstd::prelude::*;

verus! {

/// The content hash that a fixed-output step declares, in its textual form
/// `<algorithm>:<digest>`.
#[derive(Debug, PartialEq, Eq)]
pub struct Hash {
    pub text: String,
}

impl View for Hash {
    type V = Seq<char>;

    open spec fn view(&self) -> Seq<char> {
        self.text@
    }
}

impl Hash {
    pub fn new(text: &str) -> (h: Hash)
        ensures
            h@ == text@,
    {
        Hash { text: String::from_str(text) }
    }
}

impl Clone for Hash {
    fn clone(&self) -> (h: Hash)
        ensures
            h@ == self@,
    {
        Hash { text: self.text.clone() }
    }
}

} // verus!
