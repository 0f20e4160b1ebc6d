use woocraft::collapsible::Collapsible;

#[test]
fn default_state_is_closed() {
    let collapsible = Collapsible::new("test".to_string());
    assert!(!collapsible.is_open());
}

#[test]
fn open_setter_stores_the_boolean_value() {
    assert!(Collapsible::new("test".to_string()).open(true).is_open());
    assert!(!Collapsible::new("test".to_string()).open(true).open(false).is_open());
}
