use woocraft::notification::{
    Notification, NotificationIcon, NotificationPlacement, NotificationState, NotificationType, Progress,
    TimerTick,
};

#[test]
fn ids_are_fresh_and_the_queue_keeps_arrival_order() {
    let mut state = NotificationState::new();
    assert_eq!(state.push(None, false, 1000, 0), 1);
    assert_eq!(state.push(None, false, 1000, 0), 2);
    assert_eq!(state.push(None, false, 1000, 0), 3);
    assert_eq!(state.ids(), vec![1, 2, 3]);
}

#[test]
fn a_key_replaces_the_pending_notification_with_that_key() {
    let mut state = NotificationState::new();
    state.push(Some("save".to_string()), false, 1000, 0);
    state.push(Some("other".to_string()), false, 1000, 0);
    let id = state.push(Some("save".to_string()), false, 1000, 0);
    assert_eq!(id, 3);
    assert_eq!(state.ids(), vec![2, 3]);
}

#[test]
fn the_oldest_are_dropped_beyond_the_limit() {
    let mut state = NotificationState::new().max_items(2);
    state.push(None, false, 1000, 0);
    state.push(None, false, 1000, 0);
    state.push(None, false, 1000, 0);
    assert_eq!(state.ids(), vec![2, 3]);
    let mut one = NotificationState::new().max_items(0);
    one.push(None, false, 1000, 0);
    one.push(None, false, 1000, 0);
    assert_eq!(one.ids(), vec![2]);
}

#[test]
fn the_default_limit_is_ten() {
    let mut state = NotificationState::new();
    for _ in 0..12 {
        state.push(None, false, 1000, 0);
    }
    assert_eq!(state.len(), 10);
    assert_eq!(state.ids()[0], 3);
}

#[test]
fn close_and_clear_remove_notifications() {
    let mut state = NotificationState::new();
    state.push(None, false, 1000, 0);
    state.push(None, false, 1000, 0);
    state.close(1);
    assert_eq!(state.ids(), vec![2]);
    state.close(42);
    assert_eq!(state.ids(), vec![2]);
    state.clear();
    assert_eq!(state.len(), 0);
}

#[test]
fn an_autohide_timer_closes_the_notification_when_time_is_up() {
    let mut state = NotificationState::new();
    let id = state.push(None, true, 1000, 5000);
    assert_eq!(state.progress(id, 5250), Some(Progress::Running { elapsed_ms: 250, duration_ms: 1000 }));
    assert_eq!(state.timer_tick(id, 1, 5500), TimerTick::Continue);
    assert_eq!(state.timer_tick(id, 1, 6000), TimerTick::Closed);
    assert_eq!(state.len(), 0);
    assert_eq!(state.timer_tick(id, 1, 6100), TimerTick::Stop);
}

#[test]
fn pausing_makes_the_running_timer_stale() {
    let mut state = NotificationState::new();
    let id = state.push(None, true, 1000, 0);
    state.pause_and_reset_timer(id);
    assert_eq!(state.progress(id, 10), Some(Progress::Full));
    assert_eq!(state.timer_tick(id, 1, 5000), TimerTick::Stop);
    assert_eq!(state.len(), 1);
    assert_eq!(state.restart_timer(id, 7000), Some((1000, 3)));
    assert_eq!(state.timer_tick(id, 3, 7999), TimerTick::Continue);
    assert_eq!(state.timer_tick(id, 3, 8000), TimerTick::Closed);
}

#[test]
fn notifications_that_stay_have_no_timer() {
    let mut state = NotificationState::new();
    let id = state.push(None, false, 1000, 0);
    assert_eq!(state.restart_timer(id, 10), None);
    assert_eq!(state.progress(id, 10), None);
    assert_eq!(state.timer_tick(id, 0, 99999), TimerTick::Stop);
    assert_eq!(state.progress(99, 10), None);
}

#[test]
fn a_zero_duration_has_run_down() {
    let mut state = NotificationState::new();
    let id = state.push(None, true, 0, 0);
    assert_eq!(state.progress(id, 0), Some(Progress::Empty));
}

#[test]
fn placements_and_types() {
    assert!(NotificationPlacement::BottomCenter.is_bottom());
    assert!(!NotificationPlacement::TopLeft.is_bottom());
    assert_eq!(NotificationPlacement::default(), NotificationPlacement::TopRight);
    assert_eq!(NotificationType::default(), NotificationType::Info);
    assert_eq!(NotificationType::Error.icon(), NotificationIcon::DismissCircle);
    assert_eq!(NotificationType::Success.icon(), NotificationIcon::CheckmarkCircle);
}

#[test]
fn an_action_turns_autohide_off() {
    let n = Notification::success("Saved").title("Files").action("Undo");
    assert_eq!(n.kind(), NotificationType::Success);
    assert_eq!(n.message_text().map(|s| s.as_str()), Some("Saved"));
    assert_eq!(n.action_label().map(|s| s.as_str()), Some("Undo"));
    assert!(!n.is_autohide());
    assert!(Notification::new().is_autohide());
    assert!(!Notification::error("x").autohide(false).is_autohide());
    assert_eq!(Notification::default().kind(), NotificationType::Info);
}
