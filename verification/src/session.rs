//! The document session: an ordered list of open tabs, the active tab, and the
//! state transitions one rendered frame drives. Every transition is stated
//! twice: as a spec function over [`SessionModel`], the mathematical image of a
//! session, and as an executable method proved to realize it.

use vstd::prelude::*;
use vstd::string::StrSliceExecFns;
use vstd::string::StringExecFns;
use crate::label::base_name;
use crate::label::base_name_of;
use crate::label::rendered_label_of;

verus! {

/// One open document: its tab label, its full text, whether the text matches
/// what disk last held, and where on disk it came from (absent for content
/// with no on-disk origin).
pub struct Tab {
    pub display_label: String,
    pub content: String,
    pub is_saved: bool,
    pub backing_path: Option<String>,
}

/// Mathematical image of a [`Tab`]: each field as a plain value.
#[verifier::ext_equal]
pub struct TabModel {
    pub display_label: Seq<char>,
    pub content: Seq<char>,
    pub is_saved: bool,
    pub backing_path: Option<Seq<char>>,
}

impl View for Tab {
    type V = TabModel;

    open spec fn view(&self) -> TabModel {
        TabModel {
            display_label: self.display_label@,
            content: self.content@,
            is_saved: self.is_saved,
            backing_path: match self.backing_path {
                Some(p) => Some(p@),
                None => None,
            },
        }
    }
}

/// A failure that the session surfaces on its status line: a dropped file that
/// could not be read, or a save that could not be written.
#[derive(Clone, Copy, PartialEq, Eq, Structural, Debug)]
pub enum IoFailure {
    ReadFailure,
    WriteFailure,
}

/// One dropped file after the caller has read it: its path and its full text.
pub struct DroppedFile {
    pub path: String,
    pub content: String,
}

/// Mathematical image of a [`DroppedFile`].
#[verifier::ext_equal]
pub struct DroppedFileModel {
    pub path: Seq<char>,
    pub content: Seq<char>,
}

impl View for DroppedFile {
    type V = DroppedFileModel;

    open spec fn view(&self) -> DroppedFileModel {
        DroppedFileModel { path: self.path@, content: self.content@ }
    }
}

/// What a save of the active tab must write: the tab's backing path and its
/// full text. The caller performs the write and reports the outcome back
/// through [`Session::apply_save_result`].
pub struct SaveRequest {
    pub path: String,
    pub content: String,
}

/// The whole editor state: the open tabs in open order, which one is active,
/// whether close affordances are offered this frame, and the most recent
/// surfaced failure.
pub struct Session {
    pub tabs: Vec<Tab>,
    pub active_index: Option<usize>,
    pub close_buttons_visible: bool,
    pub last_failure: Option<IoFailure>,
}

/// Mathematical image of a [`Session`].
#[verifier::ext_equal]
pub struct SessionModel {
    pub tabs: Seq<TabModel>,
    pub active_index: Option<int>,
    pub close_buttons_visible: bool,
    pub last_failure: Option<IoFailure>,
}

impl View for Session {
    type V = SessionModel;

    open spec fn view(&self) -> SessionModel {
        SessionModel {
            tabs: self.tabs@.map_values(|t: Tab| t@),
            active_index: match self.active_index {
                Some(i) => Some(i as int),
                None => None,
            },
            close_buttons_visible: self.close_buttons_visible,
            last_failure: self.last_failure,
        }
    }
}

/// True exactly when a pointer is present and its vertical coordinate lies
/// within the tab bar's band.
pub open spec fn close_visible(pointer_y: Option<int>, tab_bar_height: int) -> bool {
    match pointer_y {
        Some(y) => y <= tab_bar_height,
        None => false,
    }
}

/// The mathematical image of an optional vertical pointer coordinate.
pub open spec fn pointer_view(pointer_y: Option<i64>) -> Option<int> {
    match pointer_y {
        Some(y) => Some(y as int),
        None => None,
    }
}

/// Everything one rendered frame reports to the session: the pointer's
/// vertical position, which tab label was clicked, which close affordance was
/// clicked, the active tab's text when the editor changed it, the files
/// dropped this frame (already read: path and full text), how many dropped
/// files could not be read, and whether the save shortcut fired.
pub struct FrameInput {
    pub pointer_y: Option<i64>,
    pub tab_bar_height: i64,
    pub select_clicked: Option<usize>,
    pub close_clicked: Option<usize>,
    pub edited: Option<String>,
    pub dropped: Vec<DroppedFile>,
    pub unreadable_drops: usize,
    pub save: bool,
}

/// Mathematical image of a [`FrameInput`].
#[verifier::ext_equal]
pub struct FrameInputModel {
    pub pointer_y: Option<int>,
    pub tab_bar_height: int,
    pub select_clicked: Option<int>,
    pub close_clicked: Option<int>,
    pub edited: Option<Seq<char>>,
    pub dropped: Seq<DroppedFileModel>,
    pub unreadable_drops: int,
    pub save: bool,
}

impl View for FrameInput {
    type V = FrameInputModel;

    open spec fn view(&self) -> FrameInputModel {
        FrameInputModel {
            pointer_y: pointer_view(self.pointer_y),
            tab_bar_height: self.tab_bar_height as int,
            select_clicked: match self.select_clicked {
                Some(i) => Some(i as int),
                None => None,
            },
            close_clicked: match self.close_clicked {
                Some(i) => Some(i as int),
                None => None,
            },
            edited: match self.edited {
                Some(c) => Some(c@),
                None => None,
            },
            dropped: self.dropped@.map_values(|f: DroppedFile| f@),
            unreadable_drops: self.unreadable_drops as int,
            save: self.save,
        }
    }
}

impl Tab {
    /// The label this tab renders: the raw label, with `" *"` appended while
    /// the tab is dirty.
    pub fn rendered_label(&self) -> (r: String)
        ensures
            r@ == rendered_label_of(self.display_label@, self.is_saved),
    {
        if self.is_saved {
            self.display_label.clone()
        } else {
            let mut marked = self.display_label.clone();
            marked.append(" *");
            marked
        }
    }
}

/// The status line the session renders: ready, or the most recent surfaced
/// failure.
pub open spec fn status_text_of(failure: Option<IoFailure>) -> Seq<char> {
    match failure {
        None => "Status: Ready"@,
        Some(IoFailure::ReadFailure) => "Status: could not read a dropped file"@,
        Some(IoFailure::WriteFailure) => "Status: save failed"@,
    }
}

impl SessionModel {
    /// The session invariant: the active index, when present, points into
    /// `tabs`.
    pub open spec fn inv(self) -> bool {
        match self.active_index {
            Some(a) => 0 <= a < self.tabs.len(),
            None => true,
        }
    }

    /// The session after recomputing whether close affordances are offered.
    pub open spec fn after_hover(self, pointer_y: Option<int>, tab_bar_height: int) -> SessionModel {
        SessionModel { close_buttons_visible: close_visible(pointer_y, tab_bar_height), ..self }
    }

    /// The session after a click on the tab label at `i`: it becomes active
    /// when it exists; an invalid index changes nothing.
    pub open spec fn after_select(self, i: int) -> SessionModel {
        if 0 <= i < self.tabs.len() {
            SessionModel { active_index: Some(i), ..self }
        } else {
            self
        }
    }

    /// The session after closing the tab at `i`, when it exists: the tab
    /// leaves the sequence; an active index equal to `i` becomes absent, one
    /// past `i` shifts down by one, one before `i` stays. An invalid index
    /// changes nothing.
    pub open spec fn after_close(self, i: int) -> SessionModel {
        if 0 <= i < self.tabs.len() {
            SessionModel {
                tabs: self.tabs.remove(i),
                active_index: match self.active_index {
                    Some(a) => if a == i {
                        None
                    } else if a > i {
                        Some(a - 1)
                    } else {
                        Some(a)
                    },
                    None => None,
                },
                ..self
            }
        } else {
            self
        }
    }

    /// The session after replacing the active tab's text: the tab turns dirty
    /// exactly when the new text differs from what it held. With no active
    /// tab nothing changes.
    pub open spec fn after_edit(self, new_content: Seq<char>) -> SessionModel {
        match self.active_index {
            Some(a) => if 0 <= a < self.tabs.len() {
                SessionModel {
                    tabs: self.tabs.update(a, TabModel {
                        content: new_content,
                        is_saved: self.tabs[a].is_saved && new_content == self.tabs[a].content,
                        ..self.tabs[a]
                    }),
                    ..self
                }
            } else {
                self
            },
            None => self,
        }
    }

    /// The session after opening one read file: a fresh saved tab, labelled
    /// with the path's base name and backed by the path, appended at the end
    /// and made active.
    pub open spec fn after_open(self, path: Seq<char>, content: Seq<char>) -> SessionModel {
        SessionModel {
            tabs: self.tabs.push(TabModel {
                display_label: base_name_of(path),
                content: content,
                is_saved: true,
                backing_path: Some(path),
            }),
            active_index: Some(self.tabs.len() as int),
            ..self
        }
    }

    /// The session after opening a run of read files, in delivery order.
    pub open spec fn after_opens(self, files: Seq<DroppedFileModel>) -> SessionModel
        decreases files.len(),
    {
        if files.len() == 0 {
            self
        } else {
            self.after_opens(files.drop_last()).after_open(files.last().path, files.last().content)
        }
    }

    /// What a save of the active tab must write: its backing path and its
    /// text; absent when no tab is active or the active tab has no on-disk
    /// origin.
    pub open spec fn save_payload(self) -> Option<(Seq<char>, Seq<char>)> {
        match self.active_index {
            Some(a) => if 0 <= a < self.tabs.len() {
                match self.tabs[a].backing_path {
                    Some(p) => Some((p, self.tabs[a].content)),
                    None => None,
                }
            } else {
                None
            },
            None => None,
        }
    }

    /// The session after the outcome of a save: on success the active tab is
    /// marked saved; on failure only the surfaced failure changes.
    pub open spec fn after_save(self, ok: bool) -> SessionModel {
        if ok {
            match self.active_index {
                Some(a) => if 0 <= a < self.tabs.len() && self.tabs[a].backing_path is Some {
                    SessionModel {
                        tabs: self.tabs.update(a, TabModel { is_saved: true, ..self.tabs[a] }),
                        ..self
                    }
                } else {
                    self
                },
                None => self,
            }
        } else {
            SessionModel { last_failure: Some(IoFailure::WriteFailure), ..self }
        }
    }

    /// The session after reporting how many dropped files could not be read:
    /// any unreadable file surfaces a read failure and opens no tab.
    pub open spec fn after_drop_report(self, unreadable: int) -> SessionModel {
        if unreadable > 0 {
            SessionModel { last_failure: Some(IoFailure::ReadFailure), ..self }
        } else {
            self
        }
    }

    /// The session after one whole frame, in the order the frame runs: the
    /// surfaced failure is cleared, the close affordance is recomputed from
    /// the pointer, a clicked tab label becomes active, a clicked close
    /// affordance (offered only while the close affordance is visible) closes
    /// its tab, an editor change replaces the active text, and each readable
    /// dropped file opens as the new active tab, with unreadable ones
    /// surfaced. The save shortcut changes nothing here: its payload is
    /// [`SessionModel::frame_save_payload`], and its outcome arrives later
    /// through [`SessionModel::after_save`].
    pub open spec fn after_frame(self, input: FrameInputModel) -> SessionModel {
        let cleared = SessionModel { last_failure: None, ..self };
        let hovered = cleared.after_hover(input.pointer_y, input.tab_bar_height);
        let selected = match input.select_clicked {
            Some(i) => hovered.after_select(i),
            None => hovered,
        };
        let shut = if hovered.close_buttons_visible {
            match input.close_clicked {
                Some(i) => selected.after_close(i),
                None => selected,
            }
        } else {
            selected
        };
        let edited = match input.edited {
            Some(c) => shut.after_edit(c),
            None => shut,
        };
        edited.after_opens(input.dropped).after_drop_report(input.unreadable_drops)
    }

    /// What the save shortcut asks to write after one whole frame: the active
    /// tab's backing path and text, when the shortcut fired and such a tab
    /// exists.
    pub open spec fn frame_save_payload(self, input: FrameInputModel) -> Option<(Seq<char>, Seq<char>)> {
        if input.save {
            self.after_frame(input).save_payload()
        } else {
            None
        }
    }
}

/// Opening a run of files preserves the session invariant.
proof fn lemma_inv_after_opens(s: SessionModel, files: Seq<DroppedFileModel>)
    requires
        s.inv(),
    ensures
        s.after_opens(files).inv(),
    decreases files.len(),
{
    if files.len() > 0 {
        lemma_inv_after_opens(s, files.drop_last());
    }
}

/// The session invariant holds in every state one frame can reach from a
/// state that satisfies it: the active index, when present, always points
/// into `tabs`.
pub proof fn lemma_inv_after_frame(s: SessionModel, input: FrameInputModel)
    requires
        s.inv(),
    ensures
        s.after_frame(input).inv(),
{
    let cleared = SessionModel { last_failure: None, ..s };
    let hovered = cleared.after_hover(input.pointer_y, input.tab_bar_height);
    let selected = match input.select_clicked {
        Some(i) => hovered.after_select(i),
        None => hovered,
    };
    let shut = if hovered.close_buttons_visible {
        match input.close_clicked {
            Some(i) => selected.after_close(i),
            None => selected,
        }
    } else {
        selected
    };
    let edited = match input.edited {
        Some(c) => shut.after_edit(c),
        None => shut,
    };
    lemma_inv_after_opens(edited, input.dropped);
}

impl Session {
    /// A fresh session: no tabs, nothing active, no close affordance, no
    /// surfaced failure.
    pub fn new() -> (s: Session)
        ensures
            s@.tabs.len() == 0,
            s@.active_index is None,
            !s@.close_buttons_visible,
            s@.last_failure is None,
            s.inv(),
    {
        Session { tabs: Vec::new(), active_index: None, close_buttons_visible: false, last_failure: None }
    }

    /// The session invariant: the active index, when present, points into
    /// `tabs`.
    pub open spec fn inv(&self) -> bool {
        self@.inv()
    }

    /// True exactly when a pointer is present and its vertical coordinate lies
    /// within the tab bar's band: only then are close affordances offered.
    pub fn compute_close_buttons_visible(pointer_y: Option<i64>, tab_bar_height: i64) -> (r: bool)
        ensures
            r == close_visible(pointer_view(pointer_y), tab_bar_height as int),
    {
        match pointer_y {
            Some(y) => y <= tab_bar_height,
            None => false,
        }
    }

    /// Recomputes whether close affordances are offered from this frame's
    /// pointer position.
    pub fn update_close_buttons(&mut self, pointer_y: Option<i64>, tab_bar_height: i64)
        ensures
            final(self)@ == old(self)@.after_hover(pointer_view(pointer_y), tab_bar_height as int),
            old(self).inv() ==> final(self).inv(),
    {
        self.close_buttons_visible = Session::compute_close_buttons_visible(pointer_y, tab_bar_height);
        proof {
            assert(final(self)@ =~= old(self)@.after_hover(
                pointer_view(pointer_y),
                tab_bar_height as int,
            ));
        }
    }

    /// Appends one freshly read document as a new tab and focuses it. The
    /// caller has already read the file at `path`; `content` is its full text.
    /// A file that cannot be read opens no tab: the caller does not call this.
    pub fn open_tab(&mut self, path: &str, content: &str)
        ensures
            final(self)@ == old(self)@.after_open(path@, content@),
            final(self).inv(),
    {
        let label = base_name(path);
        self.tabs.push(Tab {
            display_label: label,
            content: content.to_owned(),
            is_saved: true,
            backing_path: Some(path.to_owned()),
        });
        let n = self.tabs.len();
        self.active_index = Some(n - 1);
        proof {
            assert(final(self)@.tabs =~= old(self)@.after_open(path@, content@).tabs);
            assert(final(self)@ =~= old(self)@.after_open(path@, content@));
        }
    }

    /// Closes the tab at `index` when it exists, shifting the active index per
    /// the removal rule; an invalid index is ignored.
    pub fn close_tab(&mut self, index: usize)
        ensures
            final(self)@ == old(self)@.after_close(index as int),
            old(self).inv() ==> final(self).inv(),
    {
        if index < self.tabs.len() {
            self.tabs.remove(index);
            match self.active_index {
                Some(a) => {
                    if a == index {
                        self.active_index = None;
                    } else if a > index {
                        self.active_index = Some(a - 1);
                    }
                },
                None => {},
            }
            proof {
                assert(final(self)@.tabs =~= old(self)@.after_close(index as int).tabs);
                assert(final(self)@ =~= old(self)@.after_close(index as int));
            }
        }
    }

    /// Makes the tab at `index` active when it exists; an invalid index is
    /// ignored.
    pub fn select_tab(&mut self, index: usize)
        ensures
            final(self)@ == old(self)@.after_select(index as int),
            old(self).inv() ==> final(self).inv(),
    {
        if index < self.tabs.len() {
            self.active_index = Some(index);
        }
        proof {
            assert(final(self)@ =~= old(self)@.after_select(index as int));
        }
    }
}

impl Session {
    /// Replaces the active tab's text: the tab turns dirty exactly when the
    /// new text differs from what it held. With no active tab nothing changes.
    pub fn edit_active(&mut self, new_content: String)
        ensures
            final(self)@ == old(self)@.after_edit(new_content@),
            old(self).inv() ==> final(self).inv(),
    {
        match self.active_index {
            Some(a) => {
                if a < self.tabs.len() {
                    if !(new_content == self.tabs[a].content) {
                        self.tabs[a].is_saved = false;
                    }
                    self.tabs[a].content = new_content;
                    proof {
                        assert(final(self)@.tabs =~= old(self)@.after_edit(final(self).tabs@[a as int].content@).tabs);
                        assert(final(self)@ =~= old(self)@.after_edit(final(self).tabs@[a as int].content@));
                    }
                }
            },
            None => {},
        }
    }

    /// What a save of the active tab must write: its backing path and its
    /// text. Absent when no tab is active or the active tab has no on-disk
    /// origin, in which case a save is a no-op.
    pub fn save_request(&self) -> (r: Option<SaveRequest>)
        ensures
            match r {
                Some(req) => self@.save_payload() == Some((req.path@, req.content@)),
                None => self@.save_payload() is None,
            },
    {
        match self.active_index {
            Some(a) => {
                if a < self.tabs.len() {
                    match &self.tabs[a].backing_path {
                        Some(p) => Some(SaveRequest {
                            path: p.clone(),
                            content: self.tabs[a].content.clone(),
                        }),
                        None => None,
                    }
                } else {
                    None
                }
            },
            None => None,
        }
    }

    /// Records the outcome of writing a save request: on success the active
    /// tab is marked saved; on failure the failure is surfaced and the tab
    /// stays dirty.
    pub fn apply_save_result(&mut self, ok: bool)
        ensures
            final(self)@ == old(self)@.after_save(ok),
            old(self).inv() ==> final(self).inv(),
    {
        if ok {
            match self.active_index {
                Some(a) => {
                    if a < self.tabs.len() {
                        if self.tabs[a].backing_path.is_some() {
                            self.tabs[a].is_saved = true;
                        }
                    }
                },
                None => {},
            }
            proof {
                assert(final(self)@.tabs =~= old(self)@.after_save(ok).tabs);
                assert(final(self)@ =~= old(self)@.after_save(ok));
            }
        } else {
            self.last_failure = Some(IoFailure::WriteFailure);
            proof {
                assert(final(self)@ =~= old(self)@.after_save(ok));
            }
        }
    }
}

impl Session {
    /// Runs one whole frame of the session, in the order the render loop
    /// drives it: clear the surfaced failure, recompute the close affordance
    /// from the pointer, apply a tab-label click, apply a close click (only
    /// while the affordance is offered), apply an editor change, open each
    /// readable dropped file, surface unreadable ones, then answer the save
    /// shortcut. Returns what the shortcut asks to write, if anything; the
    /// caller performs the write and reports back through
    /// [`Session::apply_save_result`].
    pub fn tick(&mut self, input: FrameInput) -> (r: Option<SaveRequest>)
        ensures
            final(self)@ == old(self)@.after_frame(input@),
            old(self).inv() ==> final(self).inv(),
            match r {
                Some(req) => old(self)@.frame_save_payload(input@) == Some((req.path@, req.content@)),
                None => old(self)@.frame_save_payload(input@) is None,
            },
    {
        self.last_failure = None;
        self.update_close_buttons(input.pointer_y, input.tab_bar_height);
        let offer_close = self.close_buttons_visible;
        match input.select_clicked {
            Some(i) => self.select_tab(i),
            None => {},
        }
        if offer_close {
            match input.close_clicked {
                Some(i) => self.close_tab(i),
                None => {},
            }
        }
        match input.edited {
            Some(c) => self.edit_active(c),
            None => {},
        }
        let ghost before_opens = self@;
        let ghost files = input.dropped@.map_values(|f: DroppedFile| f@);
        let mut k: usize = 0;
        while k < input.dropped.len()
            invariant
                k <= input.dropped.len(),
                files == input.dropped@.map_values(|f: DroppedFile| f@),
                self@ == before_opens.after_opens(files.take(k as int)),
            decreases input.dropped.len() - k,
        {
            let f = &input.dropped[k];
            self.open_tab(f.path.as_str(), f.content.as_str());
            k = k + 1;
            proof {
                assert(files.take(k as int).drop_last() =~= files.take(k as int - 1));
                assert(files.take(k as int).last() == files[k as int - 1]);
            }
        }
        proof {
            assert(files.take(input.dropped@.len() as int) =~= files);
        }
        if input.unreadable_drops > 0 {
            self.last_failure = Some(IoFailure::ReadFailure);
        }
        proof {
            assert(self@ =~= old(self)@.after_frame(input@));
            if old(self).inv() {
                lemma_inv_after_frame(old(self)@, input@);
            }
        }
        if input.save {
            self.save_request()
        } else {
            None
        }
    }

    /// The status line to render this frame.
    pub fn status_text(&self) -> (r: String)
        ensures
            r@ == status_text_of(self@.last_failure),
    {
        match self.last_failure {
            None => "Status: Ready".to_owned(),
            Some(IoFailure::ReadFailure) => "Status: could not read a dropped file".to_owned(),
            Some(IoFailure::WriteFailure) => "Status: save failed".to_owned(),
        }
    }
}

impl Default for Session {
    /// Same as [`Session::new`]: an empty session.
    fn default() -> (s: Session)
        ensures
            s@.tabs.len() == 0,
            s@.active_index is None,
            !s@.close_buttons_visible,
            s@.last_failure is None,
            s.inv(),
    {
        Session::new()
    }
}

} // verus!
