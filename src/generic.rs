use vstd::prelude::*;

use crate::clipboard::DEFAULT_RANK;
use crate::error::ClipError;
use crate::text::{text_view, wayland_binding, wayland_var, EnvBinding};

verus! {

/// What a read through a freshly opened platform clipboard handle gave.
#[derive(Debug, Clone, PartialEq, Eq)]
pub enum TextRead {
    /// The handle could not be opened.
    OpenFailed(String),
    /// The clipboard held this text.
    Text(String),
    /// The clipboard held no text, or it could not be read as text.
    Unavailable,
}

/// What a write through a freshly opened platform clipboard handle gave.
#[derive(Debug, Clone, PartialEq, Eq)]
pub enum TextWrite {
    OpenFailed(String),
    Written,
    WriteFailed(String),
}

/// The result `get` owes for a read: absent text is empty text.
pub open spec fn text_read_result(o: TextRead) -> Result<Seq<char>, ClipError> {
    match o {
        TextRead::OpenFailed(m) => Err(ClipError::Init(m)),
        TextRead::Text(s) => Ok(s@),
        TextRead::Unavailable => Ok(Seq::empty()),
    }
}

/// The result `set` owes for a write: a failed write is a real error.
pub open spec fn text_write_result(o: TextWrite) -> Result<(), ClipError> {
    match o {
        TextWrite::OpenFailed(m) => Err(ClipError::Init(m)),
        TextWrite::Written => Ok(()),
        TextWrite::WriteFailed(m) => Err(ClipError::Protocol(m)),
    }
}

/// Clipboard access through the generic cross-platform clipboard library,
/// opening a fresh handle for each operation.
#[derive(Debug, Clone)]
pub struct ArClipboard {
    display: String,
}

impl ArClipboard {
    pub closed spec fn display_spec(&self) -> Seq<char> {
        self.display@
    }

    pub fn new(display: String) -> (r: Self)
        ensures
            r.display_spec() == display@,
    {
        ArClipboard { display }
    }

    pub fn display(&self) -> (r: String)
        ensures
            r@ == self.display_spec(),
    {
        self.display.clone()
    }

    pub open spec fn rank_spec(&self) -> u8 {
        DEFAULT_RANK
    }

    pub fn rank(&self) -> (r: u8)
        ensures
            r == self.rank_spec(),
    {
        DEFAULT_RANK
    }

    pub fn should_poll(&self) -> (r: bool)
        ensures
            r,
    {
        true
    }

    /// The binding to set before each `get` and `set`.
    pub fn binding(&self) -> (r: EnvBinding)
        ensures
            r.name@ == wayland_var(),
            r.value@ == self.display_spec(),
    {
        wayland_binding(&self.display)
    }

    /// Turns a read into the result of `get`.
    pub fn finish_get(&self, read: TextRead) -> (r: Result<String, ClipError>)
        ensures
            text_view(r) == text_read_result(read),
    {
        match read {
            TextRead::OpenFailed(m) => Err(ClipError::Init(m)),
            TextRead::Text(s) => Ok(s),
            TextRead::Unavailable => Ok(String::new()),
        }
    }

    /// Turns a write into the result of `set`.
    pub fn finish_set(&self, written: TextWrite) -> (r: Result<(), ClipError>)
        ensures
            r == text_write_result(written),
    {
        match written {
            TextWrite::OpenFailed(m) => Err(ClipError::Init(m)),
            TextWrite::Written => Ok(()),
            TextWrite::WriteFailed(m) => Err(ClipError::Protocol(m)),
        }
    }
}

} // verus!
