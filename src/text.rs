use vstd::prelude::*;

use crate::error::ClipError;

verus! {

/// What `String::from_utf8_lossy` makes of a byte sequence.
pub uninterp spec fn lossy_utf8(b: Seq<u8>) -> Seq<char>;

/// What `str::trim` keeps of a text.
pub uninterp spec fn trimmed(s: Seq<char>) -> Seq<char>;

/// Bytes below 0x80, read one character each.
pub open spec fn is_ascii_bytes(b: Seq<u8>) -> bool {
    forall|i: int| 0 <= i < b.len() ==> #[trigger] b[i] < 128u8
}

pub open spec fn ascii_text(b: Seq<u8>) -> Seq<char> {
    b.map_values(|x: u8| x as char)
}

/// `part` is one contiguous stretch of `whole`.
pub open spec fn is_stretch_of(part: Seq<char>, whole: Seq<char>) -> bool {
    exists|i: int, j: int| 0 <= i <= j <= whole.len() && part == whole.subrange(i, j)
}

/// The text view of a text result.
pub open spec fn text_view(r: Result<String, ClipError>) -> Result<Seq<char>, ClipError> {
    match r {
        Ok(s) => Ok(s@),
        Err(e) => Err(e),
    }
}

/// Relies on `String::from_utf8_lossy`: invalid sequences become U+FFFD,
/// never an error; valid UTF-8 (ASCII in particular) is kept as it is.
#[verifier::external_body]
pub(crate) fn decode_lossy(b: &Vec<u8>) -> (r: String)
    ensures
        r@ == lossy_utf8(b@),
        b@.len() == 0 ==> r@.len() == 0,
        is_ascii_bytes(b@) ==> r@ == ascii_text(b@),
{
    String::from_utf8_lossy(b.as_slice()).into_owned()
}

/// Relies on `str::trim`: leading and trailing white space is removed, so
/// what is left is one contiguous stretch of the text.
#[verifier::external_body]
pub(crate) fn trim_text(s: &str) -> (r: String)
    ensures
        r@ == trimmed(s@),
        is_stretch_of(r@, s@),
{
    s.trim().to_owned()
}

/// The environment variable that selects a Wayland display.
pub open spec fn wayland_var() -> Seq<char> {
    seq!['W', 'A', 'Y', 'L', 'A', 'N', 'D', '_', 'D', 'I', 'S', 'P', 'L', 'A', 'Y']
}

/// An environment variable to set, and its value, before an operation
/// whose underlying mechanism selects its display from the environment.
#[derive(Debug, Clone, PartialEq, Eq)]
pub struct EnvBinding {
    pub name: String,
    pub value: String,
}

/// Binds `display` as the Wayland display.
pub fn wayland_binding(display: &String) -> (r: EnvBinding)
    ensures
        r.name@ == wayland_var(),
        r.value@ == display@,
{
    let name = "WAYLAND_DISPLAY".to_owned();
    proof {
        reveal_strlit("WAYLAND_DISPLAY");
        assert(name@ =~= wayland_var());
    }
    EnvBinding { name, value: display.clone() }
}

} // verus!
