use vstd::prelude::*;

use crate::clipboard::DEFAULT_RANK;
use crate::error::ClipError;
use crate::text::EnvBinding;

verus! {

/// The environment variable that selects an X11 display.
pub open spec fn x11_var() -> Seq<char> {
    seq!['D', 'I', 'S', 'P', 'L', 'A', 'Y']
}

/// The borrow state of the shared X11 handle: how many non-exclusive
/// accesses are in progress, and whether an exclusive one is.
///
/// Acquiring never blocks: an attempt that conflicts with the accesses in
/// progress is refused with `ClipError::Contention` and changes nothing.
#[derive(Debug, Clone, Copy)]
pub struct AccessState {
    readers: u64,
    writing: bool,
}

impl AccessState {
    pub closed spec fn readers(self) -> nat {
        self.readers as nat
    }

    pub closed spec fn writing(self) -> bool {
        self.writing
    }

    /// Exclusive access excludes every other access.
    pub open spec fn wf(self) -> bool {
        self.writing() ==> self.readers() == 0
    }

    pub open spec fn is_free(self) -> bool {
        self.readers() == 0 && !self.writing()
    }

    /// A non-exclusive attempt succeeds unless exclusive access is held (or
    /// the count of readers is at its limit).
    pub open spec fn can_read(self) -> bool {
        !self.writing() && self.readers() < u64::MAX
    }

    /// An exclusive attempt succeeds only when no access is in progress.
    pub open spec fn can_write(self) -> bool {
        self.is_free()
    }

    /// No access in progress.
    pub fn new() -> (r: Self)
        ensures
            r.wf(),
            r.is_free(),
    {
        AccessState { readers: 0, writing: false }
    }

    /// Attempts non-exclusive access.
    pub fn try_read(&mut self) -> (r: Result<(), ClipError>)
        requires
            old(self).wf(),
        ensures
            final(self).wf(),
            old(self).can_read() ==> r is Ok && final(self).readers() == old(self).readers() + 1
                && !final(self).writing(),
            !old(self).can_read() ==> r == Err::<(), ClipError>(ClipError::Contention)
                && final(self).readers() == old(self).readers()
                && final(self).writing() == old(self).writing(),
    {
        if self.writing || self.readers == u64::MAX {
            Err(ClipError::Contention)
        } else {
            self.readers = self.readers + 1;
            Ok(())
        }
    }

    /// Attempts exclusive access.
    pub fn try_write(&mut self) -> (r: Result<(), ClipError>)
        requires
            old(self).wf(),
        ensures
            final(self).wf(),
            old(self).can_write() ==> r is Ok && final(self).writing() && final(self).readers() == 0,
            !old(self).can_write() ==> r == Err::<(), ClipError>(ClipError::Contention)
                && final(self).readers() == old(self).readers()
                && final(self).writing() == old(self).writing(),
    {
        if self.writing || self.readers != 0 {
            Err(ClipError::Contention)
        } else {
            self.writing = true;
            Ok(())
        }
    }

    /// Ends one non-exclusive access.
    pub fn end_read(&mut self)
        requires
            old(self).wf(),
            old(self).readers() > 0,
        ensures
            final(self).wf(),
            final(self).readers() == old(self).readers() - 1,
            final(self).writing() == old(self).writing(),
    {
        self.readers = self.readers - 1;
    }

    /// Ends the exclusive access.
    pub fn end_write(&mut self)
        requires
            old(self).wf(),
            old(self).writing(),
        ensures
            final(self).wf(),
            final(self).is_free(),
    {
        self.writing = false;
    }
}

/// While exclusive access is held, a non-exclusive attempt is refused with
/// the contention error, and leaves the state as it was; once the exclusive
/// access ends, a non-exclusive attempt succeeds.
pub proof fn lemma_exclusive_then_shared(s: AccessState)
    requires
        s.wf(),
        s.writing(),
    ensures
        !s.can_read(),
        !s.can_write(),
        s.readers() == 0,
        forall|t: AccessState| t.wf() && t.is_free() ==> #[trigger] t.can_read(),
{
}

/// Clipboard access through a native X11 handle that is created once and
/// shared; this type holds the decisions, the handle is held beside it.
#[derive(Debug, Clone)]
pub struct X11Clipboard {
    display: String,
}

impl X11Clipboard {
    pub closed spec fn display_spec(&self) -> Seq<char> {
        self.display@
    }

    pub fn new(display: String) -> (r: Self)
        ensures
            r.display_spec() == display@,
    {
        X11Clipboard { display }
    }

    pub fn display(&self) -> (r: String)
        ensures
            r@ == self.display_spec(),
    {
        self.display.clone()
    }

    pub open spec fn rank_spec(&self) -> u8 {
        DEFAULT_RANK
    }

    pub fn rank(&self) -> (r: u8)
        ensures
            r == self.rank_spec(),
    {
        DEFAULT_RANK
    }

    pub fn should_poll(&self) -> (r: bool)
        ensures
            r,
    {
        true
    }

    /// The binding to set once, before the shared handle is created.
    pub fn binding(&self) -> (r: EnvBinding)
        ensures
            r.name@ == x11_var(),
            r.value@ == self.display_spec(),
    {
        let name = "DISPLAY".to_owned();
        proof {
            reveal_strlit("DISPLAY");
            assert(name@ =~= x11_var());
        }
        EnvBinding { name, value: self.display.clone() }
    }

    /// Turns what the handle read into the text of `get`: no value is empty
    /// text.
    pub fn finish_get(&self, read: Option<String>) -> (r: String)
        ensures
            read is None ==> r@ == Seq::<char>::empty(),
            read is Some ==> r@ == read->Some_0@,
    {
        match read {
            Some(s) => s,
            None => String::new(),
        }
    }

    /// Turns what the handle's write gave into the result of `set`.
    pub fn finish_set(&self, written: Result<(), String>) -> (r: Result<(), ClipError>)
        ensures
            written is Ok <==> r is Ok,
            written is Err ==> r == Err::<(), ClipError>(ClipError::Protocol(written->Err_0)),
    {
        match written {
            Ok(()) => Ok(()),
            Err(m) => Err(ClipError::Protocol(m)),
        }
    }
}

} // verus!
