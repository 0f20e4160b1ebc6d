use woocraft::list::ListItem;

#[test]
fn a_row_carries_its_semantic_states() {
    let row = ListItem::new("row".to_string()).selected(true).disabled(false);
    assert!(row.is_selected());
    let row = row.selected(false);
    assert!(!row.is_selected());
    let row = row.disabled(true);
    assert!(row.is_disabled());
}

#[test]
fn only_enabled_unselected_rows_show_hover() {
    let row = ListItem::new("row".to_string());
    assert!(row.shows_hover());
    let row = row.selected(true);
    assert!(!row.shows_hover());
    let row = row.selected(false).disabled(true);
    assert!(!row.shows_hover());
}
