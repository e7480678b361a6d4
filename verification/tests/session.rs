use vienna::session::{DroppedFile, FrameInput, IoFailure, Session, Tab};

fn quiet_frame() -> FrameInput {
    FrameInput {
        pointer_y: None,
        tab_bar_height: 40,
        select_clicked: None,
        close_clicked: None,
        edited: None,
        dropped: Vec::new(),
        unreadable_drops: 0,
        save: false,
    }
}

#[test]
fn new_session_is_empty() {
    let s = Session::new();
    assert_eq!(s.tabs.len(), 0);
    assert_eq!(s.active_index, None);
    assert!(!s.close_buttons_visible);
    assert_eq!(s.last_failure, None);
    assert_eq!(s.status_text().as_str(), "Status: Ready");
}

#[test]
fn default_matches_new() {
    let s = Session::default();
    assert_eq!(s.tabs.len(), 0);
    assert_eq!(s.active_index, None);
}

#[test]
fn opens_count_and_focus_last() {
    let mut s = Session::new();
    s.open_tab("a.txt", "alpha");
    assert_eq!(s.tabs.len(), 1);
    assert_eq!(s.active_index, Some(0));
    s.open_tab("dir/b.txt", "beta");
    assert_eq!(s.tabs.len(), 2);
    assert_eq!(s.active_index, Some(1));
    s.open_tab("dir/sub/c.txt", "gamma");
    assert_eq!(s.tabs.len(), 3);
    assert_eq!(s.active_index, Some(2));
    assert_eq!(s.tabs[0].display_label.as_str(), "a.txt");
    assert_eq!(s.tabs[1].display_label.as_str(), "b.txt");
    assert_eq!(s.tabs[2].display_label.as_str(), "c.txt");
    assert!(s.tabs.iter().all(|t| t.is_saved));
}

#[test]
fn close_active_clears_selection() {
    let mut s = Session::new();
    s.open_tab("a.txt", "alpha");
    s.open_tab("b.txt", "beta");
    assert_eq!(s.active_index, Some(1));
    s.close_tab(1);
    assert_eq!(s.active_index, None);
    assert_eq!(s.tabs.len(), 1);
    assert_eq!(s.tabs[0].display_label.as_str(), "a.txt");
}

#[test]
fn close_before_active_shifts_down() {
    let mut s = Session::new();
    s.open_tab("a.txt", "alpha");
    s.open_tab("b.txt", "beta");
    s.open_tab("c.txt", "gamma");
    assert_eq!(s.active_index, Some(2));
    s.close_tab(0);
    assert_eq!(s.active_index, Some(1));
    assert_eq!(s.tabs[1].display_label.as_str(), "c.txt");
    assert_eq!(s.tabs[1].content.as_str(), "gamma");
}

#[test]
fn close_after_active_keeps_selection() {
    let mut s = Session::new();
    s.open_tab("a.txt", "alpha");
    s.open_tab("b.txt", "beta");
    s.select_tab(0);
    s.close_tab(1);
    assert_eq!(s.active_index, Some(0));
    assert_eq!(s.tabs[0].display_label.as_str(), "a.txt");
}

#[test]
fn close_invalid_index_is_ignored() {
    let mut s = Session::new();
    s.open_tab("a.txt", "alpha");
    s.close_tab(5);
    assert_eq!(s.tabs.len(), 1);
    assert_eq!(s.active_index, Some(0));
}

#[test]
fn select_invalid_index_is_ignored() {
    let mut s = Session::new();
    s.open_tab("a.txt", "alpha");
    s.select_tab(3);
    assert_eq!(s.active_index, Some(0));
}

#[test]
fn open_then_save_round_trip() {
    let mut s = Session::new();
    s.open_tab("notes.txt", "hello world");
    let req = s.save_request().expect("a freshly opened tab has a backing path");
    assert_eq!(req.path.as_str(), "notes.txt");
    assert_eq!(req.content.as_str(), "hello world");
    assert!(s.tabs[0].is_saved);
    s.apply_save_result(true);
    assert!(s.tabs[0].is_saved);
}

#[test]
fn save_request_absent_without_backing_path() {
    let s = Session {
        tabs: vec![Tab {
            display_label: String::from("scratch"),
            content: String::from("text"),
            is_saved: false,
            backing_path: None,
        }],
        active_index: Some(0),
        close_buttons_visible: false,
        last_failure: None,
    };
    assert!(s.save_request().is_none());
}

#[test]
fn save_request_absent_without_active_tab() {
    let mut s = Session::new();
    s.open_tab("a.txt", "alpha");
    s.close_tab(0);
    assert!(s.save_request().is_none());
}

#[test]
fn edit_marks_dirty_and_save_clears_it() {
    let mut s = Session::new();
    s.open_tab("a.txt", "alpha");
    s.edit_active(String::from("alpha!"));
    assert!(!s.tabs[0].is_saved);
    assert_eq!(s.tabs[0].content.as_str(), "alpha!");
    let req = s.save_request().expect("backing path is present");
    assert_eq!(req.content.as_str(), "alpha!");
    s.apply_save_result(true);
    assert!(s.tabs[0].is_saved);
}

#[test]
fn edit_with_identical_text_stays_saved() {
    let mut s = Session::new();
    s.open_tab("a.txt", "alpha");
    s.edit_active(String::from("alpha"));
    assert!(s.tabs[0].is_saved);
}

#[test]
fn rendered_label_marks_dirty_tabs() {
    let saved = Tab {
        display_label: String::from("notes.txt"),
        content: String::new(),
        is_saved: true,
        backing_path: None,
    };
    assert_eq!(saved.rendered_label().as_str(), "notes.txt");
    let dirty = Tab {
        display_label: String::from("notes.txt"),
        content: String::new(),
        is_saved: false,
        backing_path: None,
    };
    assert_eq!(dirty.rendered_label().as_str(), "notes.txt *");
}

#[test]
fn close_buttons_follow_pointer_band() {
    assert!(Session::compute_close_buttons_visible(Some(10), 40));
    assert!(!Session::compute_close_buttons_visible(Some(50), 40));
    assert!(!Session::compute_close_buttons_visible(None, 40));
    assert!(Session::compute_close_buttons_visible(Some(40), 40));
}

#[test]
fn failed_save_surfaces_write_failure() {
    let mut s = Session::new();
    s.open_tab("a.txt", "alpha");
    s.edit_active(String::from("changed"));
    s.apply_save_result(false);
    assert!(!s.tabs[0].is_saved);
    assert_eq!(s.last_failure, Some(IoFailure::WriteFailure));
    assert_eq!(s.status_text().as_str(), "Status: save failed");
}

#[test]
fn two_dropped_files_in_one_frame() {
    let mut s = Session::new();
    let mut input = quiet_frame();
    input.dropped = vec![
        DroppedFile { path: String::from("a.txt"), content: String::from("alpha") },
        DroppedFile { path: String::from("b.txt"), content: String::from("beta") },
    ];
    let req = s.tick(input);
    assert!(req.is_none());
    assert_eq!(s.tabs.len(), 2);
    assert_eq!(s.active_index, Some(1));
    assert_eq!(s.tabs[1].display_label.as_str(), "b.txt");
}

#[test]
fn unreadable_drop_surfaces_read_failure() {
    let mut s = Session::new();
    let mut input = quiet_frame();
    input.unreadable_drops = 1;
    s.tick(input);
    assert_eq!(s.tabs.len(), 0);
    assert_eq!(s.last_failure, Some(IoFailure::ReadFailure));
    assert_eq!(s.status_text().as_str(), "Status: could not read a dropped file");
}

#[test]
fn next_frame_clears_surfaced_failure() {
    let mut s = Session::new();
    s.open_tab("a.txt", "alpha");
    s.apply_save_result(false);
    assert_eq!(s.last_failure, Some(IoFailure::WriteFailure));
    s.tick(quiet_frame());
    assert_eq!(s.last_failure, None);
    assert_eq!(s.status_text().as_str(), "Status: Ready");
}

#[test]
fn save_shortcut_returns_request_through_tick() {
    let mut s = Session::new();
    s.open_tab("dir/a.txt", "alpha");
    let mut input = quiet_frame();
    input.save = true;
    let req = s.tick(input).expect("active tab has a backing path");
    assert_eq!(req.path.as_str(), "dir/a.txt");
    assert_eq!(req.content.as_str(), "alpha");
}

#[test]
fn close_click_needs_visible_close_buttons() {
    let mut s = Session::new();
    s.open_tab("a.txt", "alpha");
    s.open_tab("b.txt", "beta");

    let mut hidden = quiet_frame();
    hidden.pointer_y = Some(80);
    hidden.close_clicked = Some(0);
    s.tick(hidden);
    assert_eq!(s.tabs.len(), 2);

    let mut offered = quiet_frame();
    offered.pointer_y = Some(10);
    offered.close_clicked = Some(0);
    s.tick(offered);
    assert_eq!(s.tabs.len(), 1);
    assert_eq!(s.tabs[0].display_label.as_str(), "b.txt");
    assert_eq!(s.active_index, Some(0));
}

#[test]
fn frame_applies_select_then_close_then_edit() {
    let mut s = Session::new();
    s.open_tab("a.txt", "alpha");
    s.open_tab("b.txt", "beta");
    s.open_tab("c.txt", "gamma");

    let mut input = quiet_frame();
    input.pointer_y = Some(5);
    input.select_clicked = Some(2);
    input.close_clicked = Some(0);
    input.edited = Some(String::from("gamma2"));
    s.tick(input);

    assert_eq!(s.tabs.len(), 2);
    assert_eq!(s.active_index, Some(1));
    assert_eq!(s.tabs[1].display_label.as_str(), "c.txt");
    assert_eq!(s.tabs[1].content.as_str(), "gamma2");
    assert!(!s.tabs[1].is_saved);
}
