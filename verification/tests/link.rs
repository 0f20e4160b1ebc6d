use woocraft::link::Link;

#[test]
fn default_link_is_enabled() {
    let link = Link::new("test".to_string());
    assert!(!link.is_disabled());
    assert_eq!(link.target_on_activate(), None);
}

#[test]
fn link_disabled_flag_is_stored() {
    assert!(Link::new("test".to_string()).disabled(true).is_disabled());
}

#[test]
fn disabled_links_open_nothing() {
    let link = Link::new("docs".to_string()).href("https://example.com".to_string());
    assert_eq!(link.target_on_activate(), Some("https://example.com"));
    assert_eq!(link.disabled(true).target_on_activate(), None);
}
