use vstd::prelude::*;

use crate::error::ClipError;

verus! {

/// The capability every clipboard backend offers.
///
/// Each instance is bound to one display identifier. What each method
/// returns is described by a predicate that an implementation may state;
/// `get` and `set` talk to the live clipboard, so theirs say what holds of
/// every result. An implementation that states nothing promises nothing.
pub trait Clipboard {
    /// What holds of the display identifier this instance talks to.
    open spec fn display_post(&self, r: Seq<char>) -> bool {
        true
    }

    /// What holds of every result of `get`.
    open spec fn get_post(&self, r: Result<String, ClipError>) -> bool {
        true
    }

    /// What holds of every result of `set(value)`.
    open spec fn set_post(&self, value: Seq<char>, r: Result<(), ClipError>) -> bool {
        true
    }

    /// What holds of the poll hint: whether the contents may change without
    /// this process's involvement.
    open spec fn polls_post(&self, r: bool) -> bool {
        true
    }

    /// What holds of the rank: preference among usable backends, lower
    /// preferred.
    open spec fn rank_post(&self, r: u8) -> bool {
        true
    }

    fn display(&self) -> (r: String)
        ensures
            self.display_post(r@),
    ;

    fn get(&self) -> (r: Result<String, ClipError>)
        ensures
            self.get_post(r),
    ;

    fn set(&self, value: &str) -> (r: Result<(), ClipError>)
        ensures
            self.set_post(value@, r),
    ;

    fn should_poll(&self) -> (r: bool)
        ensures
            self.polls_post(r),
    ;

    fn rank(&self) -> (r: u8)
        ensures
            self.rank_post(r),
    ;
}

/// The rank a backend has unless it states another.
pub const DEFAULT_RANK: u8 = 100;

/// A boxed capability forwards every method, and every promise, unchanged.
impl<T: Clipboard> Clipboard for Box<T> {
    open spec fn display_post(&self, r: Seq<char>) -> bool {
        (**self).display_post(r)
    }

    open spec fn rank_post(&self, r: u8) -> bool {
        (**self).rank_post(r)
    }

    open spec fn polls_post(&self, r: bool) -> bool {
        (**self).polls_post(r)
    }

    open spec fn get_post(&self, r: Result<String, ClipError>) -> bool {
        (**self).get_post(r)
    }

    open spec fn set_post(&self, value: Seq<char>, r: Result<(), ClipError>) -> bool {
        (**self).set_post(value, r)
    }

    fn display(&self) -> (r: String) {
        (**self).display()
    }

    fn get(&self) -> (r: Result<String, ClipError>) {
        (**self).get()
    }

    fn set(&self, value: &str) -> (r: Result<(), ClipError>) {
        (**self).set(value)
    }

    fn should_poll(&self) -> (r: bool) {
        (**self).should_poll()
    }

    fn rank(&self) -> (r: u8) {
        (**self).rank()
    }
}

} // verus!
