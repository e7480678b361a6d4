//! Laws of the session, each proved over the mathematical session model that
//! every executable operation is specified against.

use vstd::prelude::*;
use crate::session::DroppedFileModel;
use crate::session::SessionModel;

verus! {

/// After any run of successful opens, the tab count has grown by exactly the
/// number of files opened, and the most recently opened tab is the active
/// one. In particular, N successful opens from an empty session leave N tabs
/// with the last one active.
pub proof fn lemma_opens_append_and_focus(s: SessionModel, files: Seq<DroppedFileModel>)
    ensures
        s.after_opens(files).tabs.len() == s.tabs.len() + files.len(),
        files.len() > 0 ==> s.after_opens(files).active_index == Some(
            s.tabs.len() + files.len() - 1,
        ),
    decreases files.len(),
{
    if files.len() > 0 {
        lemma_opens_append_and_focus(s, files.drop_last());
    }
}

/// Closing the active tab always leaves no tab active.
pub proof fn lemma_close_active(s: SessionModel, a: int)
    requires
        s.inv(),
        s.active_index == Some(a),
    ensures
        s.after_close(a).active_index is None,
{
}

/// Closing a tab left of the active one shifts the active index down by
/// exactly one, and it still refers to the same tab.
pub proof fn lemma_close_before_active(s: SessionModel, a: int, i: int)
    requires
        s.inv(),
        s.active_index == Some(a),
        0 <= i < a,
    ensures
        s.after_close(i).active_index == Some(a - 1),
        s.after_close(i).tabs[a - 1] == s.tabs[a],
{
}

/// Closing a tab right of the active one never changes the active index.
pub proof fn lemma_close_after_active(s: SessionModel, a: int, i: int)
    requires
        s.inv(),
        s.active_index == Some(a),
        i > a,
    ensures
        s.after_close(i).active_index == Some(a),
{
}

/// Round trip: opening a file and immediately saving it, with no edits in
/// between, asks to write exactly the text that was read back to exactly the
/// path it came from — the file on disk stays byte-identical — and the tab is
/// saved both before and after the save succeeds.
pub proof fn lemma_open_then_save_round_trip(s: SessionModel, path: Seq<char>, content: Seq<char>)
    ensures
        s.after_open(path, content).save_payload() == Some((path, content)),
        s.after_open(path, content).tabs.last().is_saved,
        s.after_open(path, content).after_save(true).tabs.last().is_saved,
{
}

} // verus!
