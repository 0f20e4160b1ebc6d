use woocraft::checkbox::{Checkbox, CheckboxState};

#[test]
fn default_state_is_unchecked() {
    let checkbox = Checkbox::new("test".to_string());
    assert_eq!(checkbox.current_state(), CheckboxState::Unchecked);
}

#[test]
fn checked_setter_selects_the_boolean_state() {
    assert_eq!(
        Checkbox::new("test".to_string()).checked(true).current_state(),
        CheckboxState::Checked
    );
    assert_eq!(
        Checkbox::new("test".to_string()).checked(false).current_state(),
        CheckboxState::Unchecked
    );
}

#[test]
fn indeterminate_setter_round_trips_through_unchecked() {
    assert_eq!(
        Checkbox::new("test".to_string()).indeterminate(true).current_state(),
        CheckboxState::Indeterminate
    );
    assert_eq!(
        Checkbox::new("test".to_string())
            .indeterminate(true)
            .indeterminate(false)
            .current_state(),
        CheckboxState::Unchecked
    );
}

#[test]
fn checked_overrides_indeterminate() {
    assert_eq!(
        Checkbox::new("test".to_string())
            .indeterminate(true)
            .checked(false)
            .current_state(),
        CheckboxState::Unchecked
    );
}

#[test]
fn checkbox_disabled_flag_is_stored() {
    let checkbox = Checkbox::new("test".to_string()).disabled(true);
    assert!(checkbox.is_disabled());
}

#[test]
fn clearing_indeterminate_keeps_a_checked_box_checked() {
    let checkbox = Checkbox::new("test".to_string()).checked(true).indeterminate(false);
    assert_eq!(checkbox.current_state(), CheckboxState::Checked);
}
