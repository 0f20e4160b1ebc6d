use woocraft::calendar::{
    month_key, month_keys, CalendarDay, CalendarEvent, CalendarState, Date, DatePickerEvent,
    DatePickerState, DateRangePreset, DateRangePresetValue, ViewMode,
};

fn day(year: i32, month: u8, day: u8) -> CalendarDay {
    CalendarDay { year, month, day }
}

#[test]
fn a_new_calendar_shows_today_and_pages_fifty_years_either_side() {
    let state = CalendarState::new(day(2024, 5, 17));
    assert_eq!(state.current_year(), 2024);
    assert_eq!(state.current_month(), 5);
    assert_eq!(state.view_mode(), ViewMode::Day);
    assert_eq!(state.date(), Date::Single(None));
    assert_eq!(state.number_of_months(), 1);
    // 1974..=2074 in pages of twenty; 2024 is on the third page.
    assert_eq!(state.page_years(), (2014..2034).collect::<Vec<i32>>());
    assert!(state.has_prev_year_page());
    assert!(state.has_next_year_page());
}

#[test]
fn year_pages_hold_twenty_years_and_the_last_the_rest() {
    let mut state = CalendarState::new(day(2024, 5, 17)).year_range((2000, 2045));
    assert_eq!(state.page_years(), (2020..2040).collect::<Vec<i32>>());
    state.next_year_page();
    assert_eq!(state.page_years(), (2040..=2045).collect::<Vec<i32>>());
    assert!(!state.has_next_year_page());
    state.next_year_page();
    assert_eq!(state.page_years(), (2040..=2045).collect::<Vec<i32>>());
    state.prev_year_page();
    state.prev_year_page();
    assert_eq!(state.page_years(), (2000..2020).collect::<Vec<i32>>());
    assert!(!state.has_prev_year_page());
    state.prev_year_page();
    assert_eq!(state.page_years(), (2000..2020).collect::<Vec<i32>>());
}

#[test]
fn a_year_outside_the_range_opens_on_the_first_page() {
    let state = CalendarState::new(day(2024, 5, 17)).year_range((1900, 1950));
    assert_eq!(state.page_years(), (1900..1920).collect::<Vec<i32>>());
    let empty = CalendarState::new(day(2024, 5, 17)).year_range((10, 9));
    assert_eq!(empty.page_years(), Vec::<i32>::new());
    assert!(!empty.has_next_year_page());
}

#[test]
fn the_year_range_includes_its_last_year() {
    let single = CalendarState::new(day(2000, 5, 17)).year_range((2000, 2000));
    assert_eq!(single.page_years(), vec![2000]);
    assert!(!single.has_next_year_page());
    let twenty = CalendarState::new(day(2019, 5, 17)).year_range((2000, 2019));
    assert_eq!(twenty.page_years(), (2000..=2019).collect::<Vec<i32>>());
    assert!(!twenty.has_next_year_page());
    let twenty_one = CalendarState::new(day(2020, 5, 17)).year_range((2000, 2020));
    assert_eq!(twenty_one.page_years(), vec![2020]);
}

#[test]
fn months_wrap_around_the_year() {
    let mut state = CalendarState::new(day(2024, 1, 10));
    state.prev_month();
    assert_eq!((state.current_year(), state.current_month()), (2023, 12));
    state.next_month();
    assert_eq!((state.current_year(), state.current_month()), (2024, 1));
    let mut state = CalendarState::new(day(2024, 12, 10));
    state.next_month();
    assert_eq!((state.current_year(), state.current_month()), (2025, 1));
    state.prev_month();
    assert_eq!((state.current_year(), state.current_month()), (2024, 12));
}

#[test]
fn offset_months_carry_into_years() {
    let state = CalendarState::new(day(2024, 11, 1));
    assert_eq!(state.offset_year_month(0), (2024, 11));
    assert_eq!(state.offset_year_month(1), (2024, 12));
    assert_eq!(state.offset_year_month(2), (2025, 1));
    assert_eq!(state.offset_year_month(26), (2027, 1));
}

#[test]
fn single_mode_clicks_select_and_report_the_day() {
    let mut state = CalendarState::new(day(2024, 5, 17));
    let event = state.click_day(day(2024, 6, 2), false);
    assert_eq!(event, Some(CalendarEvent::Selected(Date::Single(Some(day(2024, 6, 2))))));
    assert_eq!((state.current_year(), state.current_month()), (2024, 6));
}

#[test]
fn a_rejected_day_is_not_selected_but_single_mode_still_reports() {
    let mut state = CalendarState::new(day(2024, 5, 17));
    let event = state.click_day(day(2024, 6, 2), true);
    assert_eq!(event, Some(CalendarEvent::Selected(Date::Single(None))));
    assert_eq!(state.current_month(), 5);
}

#[test]
fn range_clicks_set_start_then_end() {
    let mut state = CalendarState::new(day(2024, 5, 17));
    state.set_date(Date::Range(None, None), false);
    assert_eq!(state.click_day(day(2024, 5, 10), false), None);
    assert_eq!(state.date(), Date::Range(Some(day(2024, 5, 10)), None));
    // An earlier day restarts the range.
    assert_eq!(state.click_day(day(2024, 5, 3), false), None);
    assert_eq!(state.date(), Date::Range(Some(day(2024, 5, 3)), None));
    let done = Date::Range(Some(day(2024, 5, 3)), Some(day(2024, 5, 20)));
    assert_eq!(state.click_day(day(2024, 5, 20), false), Some(CalendarEvent::Selected(done)));
    assert!(done.is_in_range(&day(2024, 5, 3)));
    assert!(done.is_in_range(&day(2024, 5, 12)));
    assert!(!done.is_in_range(&day(2024, 5, 21)));
    assert!(done.is_active(&day(2024, 5, 20)));
    assert!(!done.is_active(&day(2024, 5, 12)));
    // A complete range starts over.
    assert_eq!(state.click_day(day(2024, 7, 1), false), None);
    assert_eq!(state.date(), Date::Range(Some(day(2024, 7, 1)), None));
    assert_eq!(state.current_month(), 7);
}

#[test]
fn a_range_with_only_an_end_ignores_clicks() {
    let mut state = CalendarState::new(day(2024, 5, 17));
    let odd = Date::Range(None, Some(day(2024, 5, 9)));
    state.set_date(odd, false);
    assert_eq!(state.next_selection(day(2024, 5, 1)), None);
    assert_eq!(state.click_day(day(2024, 5, 1), false), None);
    assert_eq!(state.date(), odd);
}

#[test]
fn view_toggles_and_picks() {
    let mut state = CalendarState::new(day(2024, 5, 17));
    state.toggle_month_view();
    assert_eq!(state.view_mode(), ViewMode::Month);
    state.toggle_month_view();
    assert_eq!(state.view_mode(), ViewMode::Day);
    state.toggle_year_view();
    assert!(state.view_mode().is_year());
    state.pick_year(1999);
    assert_eq!(state.current_year(), 1999);
    assert!(state.view_mode().is_day());
    state.toggle_month_view();
    state.pick_month(1);
    assert_eq!(state.current_month(), 2);
    assert!(state.view_mode().is_day());
    assert!(!state.view_mode().is_month());
}

#[test]
fn month_keys_are_in_calendar_order() {
    assert_eq!(month_key(0), "calendar.month.january");
    assert_eq!(month_key(11), "calendar.month.december");
    let keys = month_keys();
    assert_eq!(keys.len(), 12);
    assert_eq!(keys[4], "calendar.month.may");
}

#[test]
fn date_queries() {
    let single = Date::Single(Some(day(2024, 1, 2)));
    assert!(single.is_single() && single.is_complete() && single.is_some());
    assert_eq!(single.start(), Some(day(2024, 1, 2)));
    assert_eq!(single.end(), None);
    let half = Date::Range(Some(day(2024, 1, 2)), None);
    assert!(!half.is_complete() && half.is_some() && !half.is_single());
    assert!(!Date::Range(None, Some(day(2024, 1, 2))).is_some());
    assert!(day(2023, 12, 31).is_before(&day(2024, 1, 1)));
    assert!(!day(2024, 1, 1).is_before(&day(2024, 1, 1)));
}

#[test]
fn the_picker_reports_calendar_picks_and_closes() {
    let mut picker = DatePickerState::new(day(2024, 5, 17));
    assert_eq!(picker.date(), Date::Single(None));
    picker.on_enter();
    assert!(picker.is_open());
    let picked = Date::Single(Some(day(2024, 5, 20)));
    let event = picker.on_calendar_event(CalendarEvent::Selected(picked), false);
    assert_eq!(event, Some(DatePickerEvent::Change(picked)));
    assert!(!picker.is_open());
    assert_eq!(picker.calendar().date(), picked);
    assert_eq!(picker.clean(false), Some(DatePickerEvent::Change(Date::Single(None))));
}

#[test]
fn the_picker_escape_closes_only_an_open_popover() {
    let mut picker = DatePickerState::range(day(2024, 5, 17));
    assert!(!picker.on_escape());
    assert!(picker.set_open(true));
    assert!(!picker.set_open(true));
    assert!(picker.on_escape());
    assert!(!picker.is_open());
}

#[test]
fn the_picker_applies_presets() {
    let mut picker = DatePickerState::range(day(2024, 5, 17));
    let preset = DateRangePresetValue::Range(day(2024, 1, 1), day(2024, 1, 31));
    let range = Date::Range(Some(day(2024, 1, 1)), Some(day(2024, 1, 31)));
    assert_eq!(picker.select_preset(preset, false), Some(DatePickerEvent::Change(range)));
    assert_eq!(picker.date(), range);
    assert_eq!(picker.clean(false), Some(DatePickerEvent::Change(Date::Range(None, None))));
    picker.set_date(Date::Single(Some(day(2024, 2, 2))), false);
    assert_eq!(picker.date(), Date::Single(Some(day(2024, 2, 2))));
}

#[test]
fn the_picker_keeps_its_date_format() {
    let picker = DatePickerState::new(day(2024, 5, 17));
    assert_eq!(picker.format(), "%Y/%m/%d");
    let picker = picker.date_format("%d.%m.%Y".to_string()).number_of_months(2);
    assert_eq!(picker.format(), "%d.%m.%Y");
}

#[test]
fn presets_keep_their_label_and_days() {
    let today = DateRangePreset::single("Today".to_string(), day(2024, 5, 17));
    assert_eq!(today.label(), "Today");
    assert_eq!(today.value(), DateRangePresetValue::Single(day(2024, 5, 17)));
    let week = DateRangePreset::range("Week".to_string(), day(2024, 5, 13), day(2024, 5, 19));
    assert_eq!(week.value(), DateRangePresetValue::Range(day(2024, 5, 13), day(2024, 5, 19)));
    let mut picker = DatePickerState::range(day(2024, 5, 17));
    assert_eq!(
        picker.select_preset(week.value(), false),
        Some(DatePickerEvent::Change(Date::Range(Some(day(2024, 5, 13)), Some(day(2024, 5, 19)))))
    );
}
