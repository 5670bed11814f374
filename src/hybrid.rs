use vstd::prelude::*;

use crate::clipboard::{Clipboard, DEFAULT_RANK};
use crate::error::ClipError;

verus! {

/// A capability that reads through `getter` and writes through `setter`.
#[derive(Debug)]
pub struct HybridClipboard<G: Clipboard, S: Clipboard> {
    getter: G,
    setter: S,
}

impl<G: Clipboard, S: Clipboard> HybridClipboard<G, S> {
    /// The capability that reads and names the display.
    pub closed spec fn getter_spec(&self) -> G {
        self.getter
    }

    /// The capability that writes.
    pub closed spec fn setter_spec(&self) -> S {
        self.setter
    }

    pub fn new(getter: G, setter: S) -> (r: Self)
        ensures
            r.getter_spec() == getter,
            r.setter_spec() == setter,
    {
        HybridClipboard { getter, setter }
    }
}

impl<G: Clipboard, S: Clipboard> Clipboard for HybridClipboard<G, S> {
    open spec fn display_post(&self, r: Seq<char>) -> bool {
        self.getter_spec().display_post(r)
    }

    open spec fn rank_post(&self, r: u8) -> bool {
        r == DEFAULT_RANK
    }

    open spec fn polls_post(&self, r: bool) -> bool {
        r
    }

    open spec fn get_post(&self, r: Result<String, ClipError>) -> bool {
        self.getter_spec().get_post(r)
    }

    open spec fn set_post(&self, value: Seq<char>, r: Result<(), ClipError>) -> bool {
        self.setter_spec().set_post(value, r)
    }

    fn display(&self) -> (r: String) {
        self.getter.display()
    }

    fn get(&self) -> (r: Result<String, ClipError>) {
        self.getter.get()
    }

    fn set(&self, value: &str) -> (r: Result<(), ClipError>) {
        self.setter.set(value)
    }

    fn should_poll(&self) -> (r: bool) {
        true
    }

    fn rank(&self) -> (r: u8) {
        DEFAULT_RANK
    }
}

/// The composite's identity and read path are the getter's, and its write
/// path is the setter's: whatever the getter promises of `display` and `get`,
/// and the setter of `set(value)`, the composite promises, and nothing else.
pub proof fn lemma_hybrid_delegates<G: Clipboard, S: Clipboard>(
    h: HybridClipboard<G, S>,
    value: Seq<char>,
    shown: Seq<char>,
    got: Result<String, ClipError>,
    put: Result<(), ClipError>,
)
    ensures
        h.display_post(shown) <==> h.getter_spec().display_post(shown),
        h.get_post(got) <==> h.getter_spec().get_post(got),
        h.set_post(value, put) <==> h.setter_spec().set_post(value, put),
{
}

} // verus!
