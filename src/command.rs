use vstd::prelude::*;

use crate::error::ClipError;
use crate::text::{
    decode_lossy, lossy_utf8, text_view, trim_text, trimmed, wayland_binding, wayland_var, EnvBinding,
};

verus! {

/// Rank of the subprocess backend: a fallback, for its spawn overhead.
pub const COMMAND_RANK: u8 = 200;

pub open spec fn paste_program() -> Seq<char> {
    seq!['w', 'l', '-', 'p', 'a', 's', 't', 'e']
}

pub open spec fn copy_program() -> Seq<char> {
    seq!['w', 'l', '-', 'c', 'o', 'p', 'y']
}

/// A program to run, its arguments, and the variable bound in its environment.
#[derive(Debug, Clone, PartialEq, Eq)]
pub struct CommandPlan {
    pub program: String,
    pub args: Vec<String>,
    pub env: EnvBinding,
}

/// The result `get` owes for what the paste program wrote to its standard
/// output (or for the message of a failure to run it).
pub open spec fn command_paste_result(output: Result<Vec<u8>, String>) -> Result<Seq<char>, ClipError> {
    match output {
        Ok(b) => Ok(trimmed(lossy_utf8(b@))),
        Err(m) => Err(ClipError::Io(m)),
    }
}

/// Clipboard access through the command-line paste and copy programs.
#[derive(Debug, Clone)]
pub struct WlCommandClipboard {
    pub display: String,
}

impl WlCommandClipboard {
    pub fn new(display: String) -> (r: Self)
        ensures
            r.display@ == display@,
    {
        WlCommandClipboard { display }
    }

    pub fn display(&self) -> (r: String)
        ensures
            r@ == self.display@,
    {
        self.display.clone()
    }

    pub open spec fn rank_spec(&self) -> u8 {
        COMMAND_RANK
    }

    pub fn rank(&self) -> (r: u8)
        ensures
            r == self.rank_spec(),
    {
        COMMAND_RANK
    }

    /// A copy only becomes visible once the spawned program has run, and
    /// nothing stays behind to observe, so this backend is not polled.
    pub fn should_poll(&self) -> (r: bool)
        ensures
            !r,
    {
        false
    }

    /// The paste program, run to completion with its output captured.
    pub fn paste_command(&self) -> (r: CommandPlan)
        ensures
            r.program@ == paste_program(),
            r.args@.len() == 0,
            r.env.name@ == wayland_var(),
            r.env.value@ == self.display@,
    {
        let program = "wl-paste".to_owned();
        proof {
            reveal_strlit("wl-paste");
            assert(program@ =~= paste_program());
        }
        CommandPlan { program, args: Vec::new(), env: wayland_binding(&self.display) }
    }

    /// The copy program with `value` as its one argument; it is spawned and
    /// not waited for.
    pub fn copy_command(&self, value: &str) -> (r: CommandPlan)
        ensures
            r.program@ == copy_program(),
            r.args@.len() == 1,
            r.args@[0]@ == value@,
            r.env.name@ == wayland_var(),
            r.env.value@ == self.display@,
    {
        let program = "wl-copy".to_owned();
        proof {
            reveal_strlit("wl-copy");
            assert(program@ =~= copy_program());
        }
        let mut args: Vec<String> = Vec::new();
        args.push(value.to_owned());
        CommandPlan { program, args, env: wayland_binding(&self.display) }
    }

    /// Turns the paste program's output into the result of `get`: decoded
    /// lossily, with surrounding white space trimmed.
    pub fn finish_get(&self, output: Result<Vec<u8>, String>) -> (r: Result<String, ClipError>)
        ensures
            text_view(r) == command_paste_result(output),
    {
        match output {
            Ok(b) => {
                let text = decode_lossy(&b);
                Ok(trim_text(text.as_str()))
            },
            Err(m) => Err(ClipError::Io(m)),
        }
    }

    /// Turns the outcome of spawning the copy program into the result of `set`.
    pub fn finish_set(&self, spawned: Result<(), String>) -> (r: Result<(), ClipError>)
        ensures
            spawned is Ok <==> r is Ok,
            spawned is Err ==> r == Err::<(), ClipError>(ClipError::Io(spawned->Err_0)),
    {
        match spawned {
            Ok(()) => Ok(()),
            Err(m) => Err(ClipError::Io(m)),
        }
    }
}

} // verus!
