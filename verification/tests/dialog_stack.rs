use woocraft::dialog_stack::{DialogStack, LayerConfig};

#[test]
fn dialogs_stack_in_open_order_with_fresh_ids() {
    let mut stack: DialogStack<&str> = DialogStack::new();
    assert!(stack.is_empty());
    assert_eq!(stack.open(Some("editor")), 0);
    assert_eq!(stack.open(Some("first dialog")), 1);
    assert_eq!(stack.ids(), vec![0, 1]);
    assert_eq!(stack.len(), 2);
}

#[test]
fn closing_the_top_returns_focus_to_the_previous_holder() {
    let mut stack: DialogStack<&str> = DialogStack::new();
    stack.open(Some("editor"));
    stack.open(Some("first dialog"));
    assert_eq!(stack.close_top(), Some("first dialog"));
    assert_eq!(stack.ids(), vec![0]);
    assert_eq!(stack.close_top(), Some("editor"));
    assert_eq!(stack.close_top(), None);
    assert!(stack.is_empty());
}

#[test]
fn close_all_returns_focus_held_before_the_bottom_dialog() {
    let mut stack: DialogStack<u32> = DialogStack::new();
    stack.open(Some(7));
    stack.open(Some(8));
    stack.open(None);
    assert_eq!(stack.close_all(), Some(7));
    assert!(stack.is_empty());
    assert_eq!(stack.close_all(), None);
}

#[test]
fn removing_returns_focus_only_for_the_top_dialog() {
    let mut stack: DialogStack<u32> = DialogStack::new();
    let a = stack.open(Some(1));
    let b = stack.open(Some(2));
    let c = stack.open(Some(3));
    assert_eq!(stack.remove(b), None);
    assert_eq!(stack.ids(), vec![a, c]);
    assert_eq!(stack.remove(c), Some(3));
    assert_eq!(stack.remove(c), None);
    assert_eq!(stack.ids(), vec![a]);
    let d = stack.open(None);
    assert_eq!(d, 3);
}

#[test]
fn stacked_dialogs_layer_in_open_order() {
    let mut stack: DialogStack<&str> = DialogStack::new();
    assert!(stack.layer_configs().is_empty());
    stack.open(None);
    stack.open(None);
    assert_eq!(
        stack.layer_configs(),
        vec![
            LayerConfig { id: 0, layer: 0, topmost: false },
            LayerConfig { id: 1, layer: 1, topmost: true },
        ]
    );
    stack.close_top();
    assert_eq!(stack.layer_configs(), vec![LayerConfig { id: 0, layer: 0, topmost: true }]);
}
