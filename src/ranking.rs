use vstd::prelude::*;

use crate::command::WlCommandClipboard;
use crate::generic::ArClipboard;
use crate::wlr::WlrClipboard;
use crate::x11::X11Clipboard;

verus! {

/// Ordered by rank, the four backends come as: the native Wayland protocol
/// backend (10), then the generic and X11 backends (100, tied), then the
/// subprocess backend (200).
pub proof fn lemma_rank_order(
    native: WlrClipboard,
    generic: ArClipboard,
    x11: X11Clipboard,
    command: WlCommandClipboard,
)
    ensures
        native.rank_spec() == 10,
        generic.rank_spec() == 100,
        x11.rank_spec() == 100,
        command.rank_spec() == 200,
        native.rank_spec() < generic.rank_spec(),
        native.rank_spec() < x11.rank_spec(),
        generic.rank_spec() < command.rank_spec(),
        x11.rank_spec() < command.rank_spec(),
{
}

} // verus!
