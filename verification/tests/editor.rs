use ropey::Rope;
use woocraft::editor::{
    DisplayPoint, EditorBackendCapabilities, EditorBackendEditRequest, EditorBackendEditResult,
    EditorEditError, RopeBufferBackend, RopeEditorSnapshot,
};

#[test]
fn rope_buffer_backend_edits_and_updates_revision() {
    let mut backend = RopeBufferBackend::new("alpha\nbeta").with_language("rust".to_string());

    assert_eq!(backend.revision(), 0);
    let result = backend
        .apply_edit(EditorBackendEditRequest {
            range: 0..5,
            new_text: "omega".to_string(),
            marked: false,
        })
        .unwrap();

    assert!(result.accepted);
    assert_eq!(backend.revision(), 1);
    assert_eq!(backend.text().to_string(), "omega\nbeta");
    assert_eq!(backend.language(), "rust");
}

#[test]
fn rope_buffer_backend_can_be_read_only() {
    let mut backend = RopeBufferBackend::new("alpha").with_read_only(true);

    let result = backend.apply_edit(EditorBackendEditRequest {
        range: 0..5,
        new_text: "beta".to_string(),
        marked: false,
    });

    assert!(matches!(result, Err(EditorEditError::Unsupported)));
    assert_eq!(backend.text().to_string(), "alpha");
    assert!(!backend.capabilities().editable);
}

#[test]
fn edits_are_clamped_to_the_text_and_put_the_cursor_after_the_insert() {
    let mut backend = RopeBufferBackend::new("héllo");
    let result = backend
        .apply_edit(EditorBackendEditRequest { range: 1..3, new_text: "e".to_string(), marked: false })
        .unwrap();
    assert_eq!(backend.text().to_string(), "hello");
    assert_eq!(result.cursor, Some(2));
    let result = backend
        .apply_edit(EditorBackendEditRequest { range: 10..20, new_text: "!".to_string(), marked: false })
        .unwrap();
    assert_eq!(backend.text().to_string(), "hello!");
    assert_eq!(result.cursor, Some(6));
    assert_eq!(result.selection, None);
    assert_eq!(backend.revision(), 2);
}

#[test]
fn a_byte_inside_a_character_edits_from_that_character() {
    let mut backend = RopeBufferBackend::new("aé");
    backend
        .apply_edit(EditorBackendEditRequest { range: 2..3, new_text: "x".to_string(), marked: false })
        .unwrap();
    assert_eq!(backend.text().to_string(), "ax");
}

#[test]
fn switching_language_advances_the_revision() {
    let mut backend = RopeBufferBackend::new("");
    assert_eq!(backend.language(), "text");
    backend.set_language("zig".to_string());
    assert_eq!(backend.revision(), 1);
    backend.set_read_only(true);
    assert_eq!(backend.capabilities(), EditorBackendCapabilities { editable: false, custom_line_numbers: false, custom_highlighter: true });
}

#[test]
fn capabilities_and_results_default_to_the_editor_behaviour() {
    let caps = EditorBackendCapabilities::default();
    assert!(caps.editable && !caps.custom_line_numbers && !caps.custom_highlighter);
    assert!(!EditorBackendCapabilities::read_only().editable);
    let result = EditorBackendEditResult::default();
    assert!(result.accepted);
    assert_eq!(result.cursor, None);
    assert_eq!(DisplayPoint::new(1, 2, 3), DisplayPoint { row: 1, local_row: 2, column: 3 });
}

#[test]
fn rope_snapshot_exposes_lines_and_offsets() {
    let snapshot = RopeEditorSnapshot::new(7, Rope::from("alpha\nbeta\n"));

    assert_eq!(snapshot.revision(), 7);
    assert_eq!(snapshot.line_count(), 3);
    assert_eq!(snapshot.byte_len(), "alpha\nbeta\n".len() as u64);
    assert_eq!(snapshot.line(0).unwrap().text, "alpha");
    assert_eq!(snapshot.line(1).unwrap().text, "beta");
}

#[test]
fn snapshot_lines_carry_ranges_and_numbers() {
    let snapshot = RopeEditorSnapshot::new(1, Rope::from("ab\ncde\nf"));
    let line = snapshot.line(1).unwrap();
    assert_eq!(line.row, 1);
    assert_eq!(line.byte_range, 3..6);
    assert_eq!(line.line_number, "2");
    assert_eq!(snapshot.line(3), None);
    assert_eq!(snapshot.line_range(2), Some(7..8));
    assert_eq!(snapshot.max_line_number_text(), "3");
    let rows: Vec<u64> = snapshot.lines(1..10).iter().map(|l| l.row).collect();
    assert_eq!(rows, vec![1, 2]);
    assert!(snapshot.lines(5..2).is_empty());
}

#[test]
fn backend_snapshot_follows_edits() {
    let mut backend = RopeBufferBackend::new("one\ntwo");
    backend
        .apply_edit(EditorBackendEditRequest { range: 0..3, new_text: "1".to_string(), marked: false })
        .unwrap();
    let snapshot = backend.snapshot();
    assert_eq!(snapshot.revision(), 1);
    assert_eq!(snapshot.line(0).unwrap().text, "1");
    assert_eq!(snapshot.line_count(), 2);
}
