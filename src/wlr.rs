use vstd::prelude::*;

use crate::error::ClipError;
use crate::text::{decode_lossy, lossy_utf8, text_view, wayland_binding, wayland_var, EnvBinding};

verus! {

/// Rank of the native Wayland protocol backend: the most direct path.
pub const WLR_RANK: u8 = 10;

/// What a request for the plain-text contents of the regular clipboard
/// came back with, once its pipe was read to the end.
#[derive(Debug, Clone, PartialEq, Eq)]
pub enum PasteOutcome {
    /// The bytes read from the pipe.
    Contents(Vec<u8>),
    NoSeats,
    ClipboardEmpty,
    NoMimeType,
    /// The request succeeded but reading its pipe failed.
    ReadFailed(String),
    /// Any other failure of the request.
    Failed(String),
}

/// What an attempt to publish text as the clipboard source came back with.
#[derive(Debug, Clone, PartialEq, Eq)]
pub enum PublishOutcome {
    Published,
    /// The publish call returned an error.
    Failed(String),
    /// The publish call aborted internally instead of returning.
    Aborted(String),
}

/// The result `get` owes for a paste outcome: the lossily decoded bytes;
/// empty text for the three benign absences; an error otherwise.
pub open spec fn paste_result(o: PasteOutcome) -> Result<Seq<char>, ClipError> {
    match o {
        PasteOutcome::Contents(b) => Ok(lossy_utf8(b@)),
        PasteOutcome::NoSeats => Ok(Seq::empty()),
        PasteOutcome::ClipboardEmpty => Ok(Seq::empty()),
        PasteOutcome::NoMimeType => Ok(Seq::empty()),
        PasteOutcome::ReadFailed(m) => Err(ClipError::Io(m)),
        PasteOutcome::Failed(m) => Err(ClipError::Protocol(m)),
    }
}

/// The result `set` owes for a publish outcome; an abort is an error value.
pub open spec fn publish_result(o: PublishOutcome) -> Result<(), ClipError> {
    match o {
        PublishOutcome::Published => Ok(()),
        PublishOutcome::Failed(m) => Err(ClipError::Protocol(m)),
        PublishOutcome::Aborted(m) => Err(ClipError::Aborted(m)),
    }
}

/// Clipboard access through the Wayland data-control protocol itself.
#[derive(Debug, Clone)]
pub struct WlrClipboard {
    pub display: String,
}

impl WlrClipboard {
    pub fn new(display: String) -> (r: Self)
        ensures
            r.display@ == display@,
    {
        WlrClipboard { display }
    }

    pub fn display(&self) -> (r: String)
        ensures
            r@ == self.display@,
    {
        self.display.clone()
    }

    pub open spec fn rank_spec(&self) -> u8 {
        WLR_RANK
    }

    pub fn rank(&self) -> (r: u8)
        ensures
            r == self.rank_spec(),
    {
        WLR_RANK
    }

    pub fn should_poll(&self) -> (r: bool)
        ensures
            r,
    {
        true
    }

    /// The binding to set before each `get` and `set`.
    pub fn binding(&self) -> (r: EnvBinding)
        ensures
            r.name@ == wayland_var(),
            r.value@ == self.display@,
    {
        wayland_binding(&self.display)
    }

    /// Turns what the paste request gave into the result of `get`.
    pub fn finish_get(&self, outcome: PasteOutcome) -> (r: Result<String, ClipError>)
        ensures
            text_view(r) == paste_result(outcome),
    {
        match outcome {
            PasteOutcome::Contents(b) => Ok(decode_lossy(&b)),
            PasteOutcome::NoSeats | PasteOutcome::ClipboardEmpty | PasteOutcome::NoMimeType => {
                Ok(String::new())
            },
            PasteOutcome::ReadFailed(m) => Err(ClipError::Io(m)),
            PasteOutcome::Failed(m) => Err(ClipError::Protocol(m)),
        }
    }

    /// Turns what the publish attempt gave into the result of `set`.
    pub fn finish_set(&self, outcome: PublishOutcome) -> (r: Result<(), ClipError>)
        ensures
            r == publish_result(outcome),
    {
        match outcome {
            PublishOutcome::Published => Ok(()),
            PublishOutcome::Failed(m) => Err(ClipError::Protocol(m)),
            PublishOutcome::Aborted(m) => Err(ClipError::Aborted(m)),
        }
    }
}

} // verus!
