use ropey::Rope;
use woocraft::editor::EditorBackendEditResult;
use woocraft::editor_state::{split_runs_at_marked, InputState, TextRunSpan};
use woocraft::input::Selection;

fn editor(text: &str) -> InputState {
    InputState::new().default_value(text)
}

#[test]
fn default_value_sets_the_text_only() {
    let st = editor("hello\nworld");
    assert_eq!(st.value(), "hello\nworld");
    assert_eq!(st.text().to_string(), "hello\nworld");
    assert_eq!(st.selected_range(), Selection::new(0, 0));
    assert_eq!(st.top_row(), 0);
}

#[test]
fn an_edit_replaces_the_range_and_can_be_undone_and_redone() {
    let mut st = editor("hello world");
    let mut st2 = editor("hello world").code_editor("rust");
    assert!(st2.replace_text_in_range(Some(0..5), "bye", false));
    assert_eq!(st2.value(), "bye world");
    assert_eq!(st2.selected_range(), Selection::new(3, 3));

    let steps = st2.undo().unwrap();
    assert_eq!(steps.len(), 1);
    assert_eq!(steps[0].old_range, 0..5);
    assert_eq!(steps[0].old_text, "hello");
    assert_eq!(steps[0].new_range, 0..3);
    assert_eq!(steps[0].new_text, "bye");
    assert!(st2.undo_change(&steps[0], true));
    assert_eq!(st2.value(), "hello world");
    assert!(st2.undo().is_none());

    let again = st2.redo().unwrap();
    assert_eq!(again.len(), 1);
    assert!(st2.redo_change(&again[0], true));
    assert_eq!(st2.value(), "bye world");
    assert!(st2.redo().is_none());

    // outside the code-editor mode a refused text changes nothing
    assert!(!st.replace_text_in_range(Some(0..5), "bye", false));
    assert_eq!(st.value(), "hello world");
    assert!(st.replace_text_in_range(Some(0..5), "bye", true));
    assert_eq!(st.value(), "bye world");
}

#[test]
fn edits_are_refused_when_read_only_or_disabled() {
    let mut st = editor("abc").read_only(true);
    assert!(st.is_read_only());
    assert!(!st.replace_text_in_range(None, "x", true));
    assert_eq!(st.value(), "abc");
    st.set_read_only(false);
    let mut st = st.disabled(true);
    assert!(!st.replace_text_in_range(None, "x", true));
    assert_eq!(st.value(), "abc");
    // inserting works on a disabled editor
    assert!(st.insert("x", true));
    assert_eq!(st.value(), "xabc");
    assert_eq!(st.selected_range(), Selection::new(1, 1));
}

#[test]
fn utf16_offsets_convert_to_bytes() {
    let st = editor("a\u{1F600}b");
    assert_eq!(st.offset_to_utf16(5), 3);
    assert_eq!(st.offset_to_utf16(100), 4);
    assert_eq!(st.offset_from_utf16(2), 1);
    assert_eq!(st.offset_from_utf16(3), 5);
    assert_eq!(st.offset_from_utf16(100), 6);
    assert_eq!(st.range_to_utf16(&(1..6)), 1..4);
}

#[test]
fn set_value_replaces_everything_without_history() {
    let mut st = editor("old text");
    assert!(st.replace_text_in_range(Some(0..3), "new", true));
    st.set_value("fresh", true);
    assert_eq!(st.value(), "fresh");
    assert_eq!(st.selected_range(), Selection::new(0, 0));
    assert_eq!(st.top_row(), 0);
    // only the earlier edit is in the history
    let steps = st.undo().unwrap();
    assert_eq!(steps[0].old_text, "old");
    assert!(st.undo().is_none());

    let mut ro = editor("kept").read_only(true);
    ro.set_value("lost", true);
    assert_eq!(ro.value(), "kept");
}

#[test]
fn a_composition_is_one_undo_step() {
    let mut st = editor("").code_editor("text");
    assert!(st.replace_and_mark_text_in_range(None, "n", None, true));
    assert_eq!(st.ime_marked_range(), Some(Selection::new(0, 1)));
    assert_eq!(st.selected_range(), Selection::new(1, 1));
    assert!(st.replace_and_mark_text_in_range(None, "ni", None, true));
    assert_eq!(st.ime_marked_range(), Some(Selection::new(0, 2)));
    assert!(st.replace_text_in_range(None, "\u{4F60}", true));
    assert_eq!(st.value(), "\u{4F60}");
    assert_eq!(st.ime_marked_range(), None);
    assert_eq!(st.selected_range(), Selection::new(3, 3));

    let steps = st.undo().unwrap();
    assert_eq!(steps.len(), 3);
    for step in &steps {
        assert!(st.undo_change(step, true));
    }
    assert_eq!(st.value(), "");
}

#[test]
fn an_empty_composition_ends_it_at_the_start() {
    let mut st = editor("ab").code_editor("text");
    assert!(st.replace_and_mark_text_in_range(Some(1..1), "xy", Some(1..1), true));
    // the selection is read in the new text and shifted by the range's ends
    assert_eq!(st.selected_range(), Selection::new(2, 2));
    assert!(st.replace_and_mark_text_in_range(None, "", None, true));
    assert_eq!(st.value(), "ab");
    assert_eq!(st.selected_range(), Selection::new(1, 1));
    assert_eq!(st.ime_marked_range(), None);
}

#[test]
fn a_backend_answer_sets_text_and_selection() {
    let mut st = editor("abc");
    let refused = EditorBackendEditResult { accepted: false, selection: None, cursor: None };
    assert!(!st.apply_backend_response(&(0..1), "x", &refused, &Rope::from("zzz")));
    assert_eq!(st.value(), "abc");

    let backwards = EditorBackendEditResult { accepted: true, selection: Some(5..2), cursor: None };
    assert!(st.apply_backend_response(&(0..1), "x", &backwards, &Rope::from("xbcdef")));
    assert_eq!(st.value(), "xbcdef");
    assert_eq!(st.selected_range(), Selection::new(2, 5));
    assert_eq!(st.cursor(), 2);

    let far = EditorBackendEditResult { accepted: true, selection: None, cursor: Some(99) };
    assert!(st.apply_backend_response(&(0..1), "x", &far, &Rope::from("xy")));
    assert_eq!(st.selected_range(), Selection::new(2, 2));

    let plain = EditorBackendEditResult { accepted: true, selection: None, cursor: None };
    assert!(st.apply_backend_response(&(1..1), "q", &plain, &Rope::from("xqy")));
    assert_eq!(st.selected_range(), Selection::new(2, 2));
}

#[test]
fn a_backend_answer_to_a_composition_marks_text() {
    let mut st = editor("");
    let plain = EditorBackendEditResult { accepted: true, selection: None, cursor: None };
    assert!(st.apply_backend_mark_response(&(0..0), "ni", None, &plain, &Rope::from("ni")));
    assert_eq!(st.ime_marked_range(), Some(Selection::new(2, 2)));
    assert_eq!(st.selected_range(), Selection::new(2, 2));
    let chosen = EditorBackendEditResult { accepted: true, selection: Some(0..2), cursor: None };
    assert!(st.apply_backend_mark_response(&(0..2), "ni", None, &chosen, &Rope::from("ni")));
    assert_eq!(st.ime_marked_range(), Some(Selection::new(0, 2)));
    assert!(st.apply_backend_mark_response(&(0..2), "", None, &plain, &Rope::from("")));
    assert_eq!(st.ime_marked_range(), None);
    assert_eq!(st.selected_range(), Selection::new(0, 0));
}

#[test]
fn clean_empties_the_text_and_unselect_collapses() {
    let mut st = editor("some text");
    assert!(st.replace_text_in_range(Some(0..4), "more", true));
    assert_eq!(st.edit_range(&None), 4..4);
    assert!(st.clean());
    assert_eq!(st.value(), "");
    assert_eq!(st.selected_range(), Selection::new(0, 0));
    let steps = st.undo().unwrap();
    assert!(st.undo_change(&steps[0], true));
    assert_eq!(st.value(), "more text");
    st.unselect();
    assert_eq!(st.selected_range(), Selection::new(9, 9));
}

#[test]
fn masked_text_keeps_line_breaks() {
    let st = editor("ab\r\nc").masked(true);
    assert_eq!(st.display_text("type here"), "**\r\n*");
    let mut st = st;
    st.set_masked(false);
    assert_eq!(st.display_text("type here"), "ab\r\nc");
    assert_eq!(editor("").masked(true).display_text("type here"), "type here");
}

#[test]
fn runs_split_around_the_marked_text() {
    let runs = split_runs_at_marked(10, Selection::new(2, 5));
    assert_eq!(
        runs,
        vec![
            TextRunSpan { len: 2, marked: false },
            TextRunSpan { len: 3, marked: true },
            TextRunSpan { len: 5, marked: false },
        ]
    );
    assert_eq!(split_runs_at_marked(4, Selection::new(0, 4)), vec![TextRunSpan { len: 4, marked: true }]);
    assert_eq!(split_runs_at_marked(0, Selection::new(0, 0)), vec![]);
}

#[test]
fn selecting_moves_the_free_end_and_swaps_when_crossing() {
    let mut st = editor("hello world");
    st.select_all();
    assert_eq!(st.selected_range(), Selection::new(0, 11));
    assert!(st.replace_text_in_range(Some(6..6), "", true));
    assert_eq!(st.selected_range(), Selection::new(6, 6));
    st.select_to(2);
    assert_eq!(st.selected_range(), Selection::new(2, 6));
    assert_eq!(st.cursor(), 2);
    st.select_to(100);
    assert_eq!(st.selected_range(), Selection::new(6, 11));
    assert_eq!(st.cursor(), 11);

    st.unselect();
    st.select_to(6);
    st.set_selected_word_range(Some(Selection::new(6, 11)));
    st.select_to(8);
    assert_eq!(st.selected_range(), Selection::new(6, 11));
    st.select_to_start();
    assert_eq!(st.selected_range(), Selection::new(0, 11));
    st.set_selected_word_range(None);
    st.select_to_end();
    assert_eq!(st.selected_range(), Selection::new(11, 11));
}

fn with_caret(text: &str, caret: usize, code: bool) -> InputState {
    let mut st = if code { editor(text).code_editor("rust") } else { editor(text) };
    assert!(st.replace_text_in_range(Some(caret..caret), "", true));
    st
}

#[test]
fn enter_breaks_the_line_and_keeps_the_indent_in_code() {
    let mut plain = with_caret("    ab", 5, false);
    assert!(plain.enter(true));
    assert_eq!(plain.value(), "    a\nb");
    assert_eq!(plain.selected_range(), Selection::new(6, 6));

    let mut code = with_caret("    foo", 7, true);
    assert_eq!(code.start_of_line(), 0);
    assert_eq!(code.end_of_line(), 7);
    assert_eq!(code.indent_of_next_line(), "    ");
    assert!(code.enter(true));
    assert_eq!(code.value(), "    foo\n    ");
    assert_eq!(code.selected_range(), Selection::new(12, 12));

    let mut tab = with_caret("\tx\ny", 2, true);
    assert!(tab.enter(true));
    assert_eq!(tab.value(), "\tx\n\t\ny");
}

#[test]
fn deleting_to_the_line_start_and_end() {
    let mut st = with_caret("hello\nworld", 8, false);
    assert_eq!(st.start_of_line(), 6);
    assert_eq!(st.end_of_line(), 11);
    assert!(st.delete_to_beginning_of_line(true));
    assert_eq!(st.value(), "hello\nrld");
    assert_eq!(st.selected_range(), Selection::new(6, 6));
    assert!(st.delete_to_beginning_of_line(true));
    assert_eq!(st.value(), "hellorld");

    let mut st = with_caret("hello\nworld", 2, false);
    assert!(st.delete_to_end_of_line(true));
    assert_eq!(st.value(), "he\nworld");
    assert!(st.delete_to_end_of_line(true));
    assert_eq!(st.value(), "heworld");

    let mut all = editor("gone");
    all.select_all();
    assert!(all.delete_to_beginning_of_line(true));
    assert_eq!(all.value(), "");
}
