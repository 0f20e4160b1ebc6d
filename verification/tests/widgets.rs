use woocraft::widgets::{DividerStyle, DockEvent, LayoutChangeGate, ListItemMode, Loading};

#[test]
fn small_widget_values() {
    assert!(ListItemMode::Separator.is_separator());
    assert!(!ListItemMode::default().is_separator());
    assert_eq!(DividerStyle::default(), DividerStyle::Solid);
    let event: DockEvent<u8> = DockEvent::DragDrop(3);
    assert_eq!(event, DockEvent::DragDrop(3));
    assert_ne!(DockEvent::<u8>::LayoutChanged, event);
    assert_eq!(Loading, Loading);
}

#[test]
fn test_pending_layout_change_prevents_reentrant_update() {
    let mut gate = LayoutChangeGate::new();
    assert!(!gate.pending_layout_change(), "pending_layout_change should be false initially");
    assert!(gate.on_layout_changed());
    assert!(gate.pending_layout_change(), "pending_layout_change should be true after LayoutChanged event");
    assert!(!gate.on_layout_changed());
    gate.on_refreshed();
    assert!(!gate.pending_layout_change(), "pending_layout_change should be reset after spawned task completes");
    assert!(gate.on_layout_changed());
}
