use woocraft::button::{Button, ButtonVariant, ButtonVariants};

#[test]
fn default_variant_is_neutral() {
    let button = Button::new("test".to_string());
    assert_eq!(button.variant(), ButtonVariant::Default);
}

#[test]
fn variant_setters_select_the_requested_variant() {
    let button = Button::new("test".to_string()).primary();
    assert_eq!(button.variant(), ButtonVariant::Primary);

    let button = Button::new("test".to_string()).danger().warning();
    assert_eq!(button.variant(), ButtonVariant::Warning);
}

#[test]
fn each_variant_setter_sets_its_variant() {
    let b = || Button::new("b".to_string());
    assert_eq!(b().success().variant(), ButtonVariant::Success);
    assert_eq!(b().info().variant(), ButtonVariant::Info);
    assert_eq!(b().flat().variant(), ButtonVariant::Flat);
    assert_eq!(b().link().variant(), ButtonVariant::Link);
    assert_eq!(b().primary().default().variant(), ButtonVariant::Default);
    assert_eq!(ButtonVariant::default(), ButtonVariant::Default);
}

#[test]
fn setters_keep_the_other_switches() {
    let button = Button::new("b".to_string()).disabled(true).loading(true).danger().outline(true).selected(true);
    assert!(button.is_disabled() && button.is_loading() && button.is_outline() && button.is_selected());
    assert_eq!(button.variant(), ButtonVariant::Danger);
    assert_eq!(button.element_id(), "b");
}
