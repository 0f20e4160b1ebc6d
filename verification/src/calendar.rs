//! Calendar navigation: the shown month and year, the pages of years, and
//! what a click on a day selects.
use vstd::prelude::*;

verus! {

/// A calendar day.
#[derive(Debug, Clone, Copy, PartialEq, Eq, Hash, Structural)]
pub struct CalendarDay {
    pub year: i32,
    pub month: u8,
    pub day: u8,
}

/// Whether a day names a month of the year and a day of a month.
pub open spec fn day_valid(d: CalendarDay) -> bool {
    1 <= d.month <= 12 && 1 <= d.day <= 31
}

/// Days are ordered by year, then month, then day.
pub open spec fn day_before(a: CalendarDay, b: CalendarDay) -> bool {
    a.year < b.year || (a.year == b.year && (a.month < b.month || (a.month == b.month && a.day
        < b.day)))
}

impl CalendarDay {
    /// Whether `self` comes before `other`.
    pub fn is_before(&self, other: &CalendarDay) -> (r: bool)
        ensures
            r == day_before(*self, *other),
    {
        if self.year != other.year {
            self.year < other.year
        } else if self.month != other.month {
            self.month < other.month
        } else {
            self.day < other.day
        }
    }
}

/// A selection: one day, or a range of days, either end possibly unset.
#[derive(Debug, Clone, Copy, PartialEq, Eq, Structural)]
pub enum Date {
    Single(Option<CalendarDay>),
    Range(Option<CalendarDay>, Option<CalendarDay>),
}

/// The first selected day.
pub open spec fn date_start(d: Date) -> Option<CalendarDay> {
    match d {
        Date::Single(s) => s,
        Date::Range(s, _) => s,
    }
}

/// The last day of a range; a single selection has none.
pub open spec fn date_end(d: Date) -> Option<CalendarDay> {
    match d {
        Date::Single(_) => None,
        Date::Range(_, e) => e,
    }
}

/// Whether every end of the selection is set.
pub open spec fn date_complete(d: Date) -> bool {
    match d {
        Date::Single(s) => s is Some,
        Date::Range(s, e) => s is Some && e is Some,
    }
}

/// Whether the days the selection names are valid.
pub open spec fn date_valid(d: Date) -> bool {
    &&& (date_start(d) matches Some(s) ==> day_valid(s))
    &&& (date_end(d) matches Some(e) ==> day_valid(e))
}

impl Date {
    /// Whether this is a single-day selection.
    pub fn is_single(&self) -> (r: bool)
        ensures
            r == (*self is Single),
    {
        match self {
            Date::Single(_) => true,
            Date::Range(..) => false,
        }
    }

    /// Whether every end of the selection is set.
    pub fn is_complete(&self) -> (r: bool)
        ensures
            r == date_complete(*self),
    {
        match self {
            Date::Single(s) => s.is_some(),
            Date::Range(s, e) => s.is_some() && e.is_some(),
        }
    }

    /// Whether a first day is selected.
    pub fn is_some(&self) -> (r: bool)
        ensures
            r == (date_start(*self) is Some),
    {
        match self {
            Date::Single(s) => s.is_some(),
            Date::Range(s, _) => s.is_some(),
        }
    }

    /// The first selected day.
    pub fn start(&self) -> (r: Option<CalendarDay>)
        ensures
            r == date_start(*self),
    {
        match self {
            Date::Single(s) => *s,
            Date::Range(s, _) => *s,
        }
    }

    /// The last day of a range.
    pub fn end(&self) -> (r: Option<CalendarDay>)
        ensures
            r == date_end(*self),
    {
        match self {
            Date::Single(_) => None,
            Date::Range(_, e) => *e,
        }
    }

    /// Whether `day` is the selected day or an end of the range.
    pub fn is_active(&self, day: &CalendarDay) -> (r: bool)
        ensures
            r == match *self {
                Date::Single(s) => s == Some(*day),
                Date::Range(s, e) => s == Some(*day) || e == Some(*day),
            },
    {
        match self {
            Date::Single(s) => match s {
                Some(d) => *d == *day,
                None => false,
            },
            Date::Range(s, e) => {
                let at_start = match s {
                    Some(d) => *d == *day,
                    None => false,
                };
                let at_end = match e {
                    Some(d) => *d == *day,
                    None => false,
                };
                at_start || at_end
            },
        }
    }

    /// Whether `day` lies within a complete range, ends included.
    pub fn is_in_range(&self, day: &CalendarDay) -> (r: bool)
        ensures
            r == match *self {
                Date::Range(Some(s), Some(e)) => !day_before(*day, s) && !day_before(e, *day),
                _ => false,
            },
    {
        match self {
            Date::Range(Some(s), Some(e)) => !day.is_before(s) && !e.is_before(day),
            _ => false,
        }
    }
}

/// What a calendar reports.
#[derive(Debug, Clone, Copy, PartialEq, Eq, Structural)]
pub enum CalendarEvent {
    /// The user selected or changed the selection.
    Selected(Date),
}

/// What a date picker reports.
#[derive(Debug, Clone, Copy, PartialEq, Eq, Structural)]
pub enum DatePickerEvent {
    /// The picked date changed.
    Change(Date),
}

/// What the calendar shows: the days of a month, the months, or a page of
/// years.
#[derive(Debug, Clone, Copy, PartialEq, Eq, Structural)]
pub enum ViewMode {
    Day,
    Month,
    Year,
}

impl ViewMode {
    pub fn is_day(&self) -> (r: bool)
        ensures
            r == (*self is Day),
    {
        match self {
            ViewMode::Day => true,
            _ => false,
        }
    }

    pub fn is_month(&self) -> (r: bool)
        ensures
            r == (*self is Month),
    {
        match self {
            ViewMode::Month => true,
            _ => false,
        }
    }

    pub fn is_year(&self) -> (r: bool)
        ensures
            r == (*self is Year),
    {
        match self {
            ViewMode::Year => true,
            _ => false,
        }
    }
}

/// Years per page of the year view.
pub const YEARS_PER_PAGE: i32 = 20;

/// Number of pages of twenty years that cover the years `start..=end`.
pub open spec fn page_count(start: int, end: int) -> int {
    if end < start {
        0
    } else {
        (end - start + 20) / 20
    }
}

/// The years of page `k` of `start..=end`.
pub open spec fn page_years(start: int, end: int, k: int) -> Seq<i32> {
    let first = start + 20 * k;
    let len = if end - first + 1 < 20 {
        end - first + 1
    } else {
        20
    };
    Seq::new(len as nat, |j: int| (first + j) as i32)
}

/// The page of `start..=end` that holds `year`; the first page when none
/// does.
pub open spec fn page_of(start: int, end: int, year: int) -> int {
    if start <= year <= end {
        (year - start) / 20
    } else {
        0
    }
}

/// The month after (`year`, `month`).
pub open spec fn month_after(year: int, month: int) -> (int, int) {
    if month == 12 {
        (year + 1, 1)
    } else {
        (year, month + 1)
    }
}

/// The month before (`year`, `month`).
pub open spec fn month_before(year: int, month: int) -> (int, int) {
    if month == 1 {
        (year - 1, 12)
    } else {
        (year, month - 1)
    }
}

/// The day selection a click on `day` proposes: the day itself in single
/// mode; in range mode a new start, or the end when it does not come
/// before the start; nothing when a range has an end but no start.
pub open spec fn proposed_selection(date: Date, day: CalendarDay) -> Option<Date> {
    match date {
        Date::Single(_) => Some(Date::Single(Some(day))),
        Date::Range(None, None) => Some(Date::Range(Some(day), None)),
        Date::Range(Some(start), None) => if day_before(day, start) {
            Some(Date::Range(Some(day), None))
        } else {
            Some(Date::Range(Some(start), Some(day)))
        },
        Date::Range(Some(_), Some(_)) => Some(Date::Range(Some(day), None)),
        Date::Range(None, Some(_)) => None,
    }
}

/// The i18n key of the month at `index` (0 for January).
pub open spec fn month_key_spec(index: int) -> Seq<char> {
    if index == 0 {
        "calendar.month.january"@
    } else if index == 1 {
        "calendar.month.february"@
    } else if index == 2 {
        "calendar.month.march"@
    } else if index == 3 {
        "calendar.month.april"@
    } else if index == 4 {
        "calendar.month.may"@
    } else if index == 5 {
        "calendar.month.june"@
    } else if index == 6 {
        "calendar.month.july"@
    } else if index == 7 {
        "calendar.month.august"@
    } else if index == 8 {
        "calendar.month.september"@
    } else if index == 9 {
        "calendar.month.october"@
    } else if index == 10 {
        "calendar.month.november"@
    } else {
        "calendar.month.december"@
    }
}

/// The i18n key of the month at `index` (0 for January).
pub fn month_key(index: usize) -> (r: &'static str)
    requires
        index < 12,
    ensures
        r@ == month_key_spec(index as int),
{
    match index {
        0 => "calendar.month.january",
        1 => "calendar.month.february",
        2 => "calendar.month.march",
        3 => "calendar.month.april",
        4 => "calendar.month.may",
        5 => "calendar.month.june",
        6 => "calendar.month.july",
        7 => "calendar.month.august",
        8 => "calendar.month.september",
        9 => "calendar.month.october",
        10 => "calendar.month.november",
        _ => "calendar.month.december",
    }
}

/// The i18n keys of the twelve months, January first.
pub fn month_keys() -> (r: Vec<&'static str>)
    ensures
        r@.len() == 12,
        forall|i: int| 0 <= i < 12 ==> (#[trigger] r@[i])@ == month_key_spec(i),
{
    let mut keys: Vec<&'static str> = Vec::new();
    let mut i: usize = 0;
    while i < 12
        invariant
            i <= 12,
            keys@.len() == i,
            forall|k: int| 0 <= k < i ==> (#[trigger] keys@[k])@ == month_key_spec(k),
        decreases 12 - i,
    {
        keys.push(month_key(i));
        i += 1;
    }
    keys
}

/// The navigation state of a calendar.
pub struct CalendarState {
    view_mode: ViewMode,
    date: Date,
    current_year: i32,
    current_month: u8,
    years: Vec<Vec<i32>>,
    year_page: i32,
    number_of_months: usize,
}

impl CalendarState {
    /// The shown month is a month of the year, the selection names valid
    /// days, and the year page is one of the pages (0 when there is none).
    pub closed spec fn wf(&self) -> bool {
        &&& 1 <= self.current_month <= 12
        &&& date_valid(self.date)
        &&& self.years@.len() < i32::MAX
        &&& 0 <= self.year_page
        &&& (self.years@.len() == 0 ==> self.year_page == 0)
        &&& (self.years@.len() > 0 ==> self.year_page < self.years@.len())
    }

    pub closed spec fn view_mode_spec(&self) -> ViewMode {
        self.view_mode
    }

    pub closed spec fn date_spec(&self) -> Date {
        self.date
    }

    pub closed spec fn year(&self) -> int {
        self.current_year as int
    }

    pub closed spec fn month(&self) -> int {
        self.current_month as int
    }

    pub closed spec fn year_pages(&self) -> Seq<Seq<i32>> {
        self.years@.map_values(|v: Vec<i32>| v@)
    }

    pub closed spec fn page(&self) -> int {
        self.year_page as int
    }

    pub closed spec fn months_shown(&self) -> usize {
        self.number_of_months
    }

    /// A calendar that shows the month of `today`, selects nothing, and
    /// pages through the fifty years either side of `today`.
    pub fn new(today: CalendarDay) -> (r: Self)
        requires
            day_valid(today),
            i32::MIN + 50 <= today.year <= i32::MAX - 50,
        ensures
            r.wf(),
            r.view_mode_spec() == ViewMode::Day,
            r.date_spec() == Date::Single(None),
            r.year() == today.year,
            r.month() == today.month,
            r.months_shown() == 1,
            r.year_pages() == Seq::new(
                page_count(today.year - 50, today.year + 50) as nat,
                |k: int| page_years(today.year - 50, today.year + 50, k),
            ),
            r.page() == page_of(today.year - 50, today.year + 50, today.year as int),
    {
        let state = CalendarState {
            view_mode: ViewMode::Day,
            date: Date::Single(None),
            current_year: today.year,
            current_month: today.month,
            years: Vec::new(),
            year_page: 0,
            number_of_months: 1,
        };
        state.year_range((today.year - 50, today.year + 50))
    }

    /// The same calendar paging through the years `range.0..=range.1`, both
    /// ends included, in pages of twenty, on the page that holds the shown
    /// year (the first page when none does).
    pub fn year_range(self, range: (i32, i32)) -> (r: Self)
        requires
            self.wf(),
        ensures
            r.wf(),
            r.year_pages() == Seq::new(
                page_count(range.0 as int, range.1 as int) as nat,
                |k: int| page_years(range.0 as int, range.1 as int, k),
            ),
            r.page() == page_of(range.0 as int, range.1 as int, self.year()),
            range.0 <= self.year() <= range.1 ==> r.year_pages()[r.page()].contains(
                self.year() as i32,
            ),
            r.view_mode_spec() == self.view_mode_spec(),
            r.date_spec() == self.date_spec(),
            r.year() == self.year(),
            r.month() == self.month(),
            r.months_shown() == self.months_shown(),
    {
        let (start, end) = range;
        let ghost n = page_count(start as int, end as int);
        let mut years: Vec<Vec<i32>> = Vec::new();
        if start <= end {
            let mut first: i64 = start as i64;
            let mut k: usize = 0;
            while first <= end as i64
                invariant
                    start <= end,
                    first == start + 20 * k,
                    first <= end + 20,
                    years@.len() == k,
                    forall|i: int|
                        0 <= i < k ==> (#[trigger] years@[i])@ == page_years(
                            start as int,
                            end as int,
                            i,
                        ),
                decreases end as int + 21 - first as int,
            {
                let last: i64 = if end as i64 - first + 1 < 20 {
                    end as i64 + 1
                } else {
                    first + 20
                };
                let mut chunk: Vec<i32> = Vec::new();
                let mut y: i64 = first;
                while y < last
                    invariant
                        first <= y <= last,
                        last <= end + 1,
                        first <= end,
                        first == start + 20 * k,
                        i32::MIN <= first,
                        chunk@.len() == y - first,
                        forall|j: int| 0 <= j < chunk@.len() ==> #[trigger] chunk@[j] == (first
                            + j) as i32,
                    decreases last - y,
                {
                    chunk.push(y as i32);
                    y += 1;
                }
                assert(chunk@ =~= page_years(start as int, end as int, k as int));
                years.push(chunk);
                first = first + 20;
                k += 1;
            }
            assert(k == n) by (nonlinear_arith)
                requires
                    start <= end,
                    first == start + 20 * k,
                    end < first,
                    first - 20 <= end,
                    n == (end - start + 20) / 20,
            ;
        }
        let page: i32 = if start <= self.current_year && self.current_year <= end {
            ((self.current_year as i64 - start as i64) / 20) as i32
        } else {
            0
        };
        proof {
            if start <= self.current_year <= end {
                let p = (self.current_year - start) / 20;
                assert(0 <= p < n) by (nonlinear_arith)
                    requires
                        start <= self.current_year <= end,
                        p == (self.current_year - start) / 20,
                        n == (end - start + 20) / 20,
                ;
                let j = self.current_year - start - 20 * p;
                assert(0 <= j < 20) by (nonlinear_arith)
                    requires
                        p == (self.current_year - start) / 20,
                        j == self.current_year - start - 20 * p,
                ;
                let pg = page_years(start as int, end as int, p);
                assert(j < pg.len());
                assert(pg[j] == self.current_year);
            }
        }
        let r = CalendarState { years, year_page: page, ..self };
        assert(r.year_pages() =~= Seq::new(
            page_count(start as int, end as int) as nat,
            |k: int| page_years(start as int, end as int, k),
        ));
        r
    }

    /// The year and month `offset_month` months after the shown one.
    pub fn offset_year_month(&self, offset_month: usize) -> (r: (i32, u32))
        requires
            self.wf(),
            offset_month <= i32::MAX - 12,
            self.year() * 12 + self.month() + offset_month <= i32::MAX * 12 + 12,
        ensures
            1 <= r.1 <= 12,
            r.0 * 12 + r.1 == self.year() * 12 + self.month() + offset_month,
    {
        let mut month: i32 = self.current_month as i32 + offset_month as i32;
        let mut year: i32 = self.current_year;
        let ghost total = self.year() * 12 + self.month() + offset_month;
        while month < 1
            invariant
                year * 12 + month == total,
                month >= 1,
            decreases 1 - month,
        {
            month += 12;
            year -= 1;
        }
        while month > 12
            invariant
                year * 12 + month == total,
                month >= 1,
                total <= i32::MAX * 12 + 12,
            decreases month,
        {
            month -= 12;
            year += 1;
        }
        (year, month as u32)
    }

    /// Whether there is a page of years before the shown one.
    pub fn has_prev_year_page(&self) -> (r: bool)
        ensures
            r == (self.page() > 0),
    {
        self.year_page > 0
    }

    /// Whether there is a page of years after the shown one.
    pub fn has_next_year_page(&self) -> (r: bool)
        requires
            self.wf(),
        ensures
            r == (self.page() < self.year_pages().len() - 1),
    {
        self.year_page < self.years.len() as i32 - 1
    }

    /// Shows the previous page of years, if there is one.
    pub fn prev_year_page(&mut self)
        requires
            old(self).wf(),
        ensures
            final(self).wf(),
            final(self).page() == if old(self).page() > 0 {
                old(self).page() - 1
            } else {
                old(self).page()
            },
            final(self).year_pages() == old(self).year_pages(),
            final(self).year() == old(self).year(),
            final(self).month() == old(self).month(),
            final(self).date_spec() == old(self).date_spec(),
            final(self).view_mode_spec() == old(self).view_mode_spec(),
    {
        if !self.has_prev_year_page() {
            return;
        }
        self.year_page = self.year_page - 1;
    }

    /// Shows the next page of years, if there is one.
    pub fn next_year_page(&mut self)
        requires
            old(self).wf(),
        ensures
            final(self).wf(),
            final(self).page() == if old(self).page() < old(self).year_pages().len() - 1 {
                old(self).page() + 1
            } else {
                old(self).page()
            },
            final(self).year_pages() == old(self).year_pages(),
            final(self).year() == old(self).year(),
            final(self).month() == old(self).month(),
            final(self).date_spec() == old(self).date_spec(),
            final(self).view_mode_spec() == old(self).view_mode_spec(),
    {
        if !self.has_next_year_page() {
            return;
        }
        self.year_page = self.year_page + 1;
    }

    /// Shows the previous month.
    pub fn prev_month(&mut self)
        requires
            old(self).wf(),
            !(old(self).month() == 1 && old(self).year() == i32::MIN),
        ensures
            final(self).wf(),
            (final(self).year(), final(self).month()) == month_before(
                old(self).year(),
                old(self).month(),
            ),
            final(self).page() == old(self).page(),
            final(self).year_pages() == old(self).year_pages(),
            final(self).date_spec() == old(self).date_spec(),
            final(self).view_mode_spec() == old(self).view_mode_spec(),
    {
        self.current_month = if self.current_month == 1 {
            12
        } else {
            self.current_month - 1
        };
        self.current_year = if self.current_month == 12 {
            self.current_year - 1
        } else {
            self.current_year
        };
    }

    /// Shows the next month.
    pub fn next_month(&mut self)
        requires
            old(self).wf(),
            !(old(self).month() == 12 && old(self).year() == i32::MAX),
        ensures
            final(self).wf(),
            (final(self).year(), final(self).month()) == month_after(
                old(self).year(),
                old(self).month(),
            ),
            final(self).page() == old(self).page(),
            final(self).year_pages() == old(self).year_pages(),
            final(self).date_spec() == old(self).date_spec(),
            final(self).view_mode_spec() == old(self).view_mode_spec(),
    {
        self.current_month = if self.current_month == 12 {
            1
        } else {
            self.current_month + 1
        };
        self.current_year = if self.current_month == 1 {
            self.current_year + 1
        } else {
            self.current_year
        };
    }

    /// The shown year.
    pub fn current_year(&self) -> (r: i32)
        ensures
            r == self.year(),
    {
        self.current_year
    }

    /// The shown month (1 for January).
    pub fn current_month(&self) -> (r: u8)
        ensures
            r == self.month(),
    {
        self.current_month
    }

    /// The years of the shown page; none when there are no pages.
    pub fn page_years(&self) -> (r: Vec<i32>)
        requires
            self.wf(),
        ensures
            self.year_pages().len() > 0 ==> r@ == self.year_pages()[self.page()],
            self.year_pages().len() == 0 ==> r@.len() == 0,
    {
        if self.years.len() == 0 {
            return Vec::new();
        }
        let ix = self.year_page as usize;
        let page = &self.years[ix];
        let mut out: Vec<i32> = Vec::new();
        let mut i: usize = 0;
        while i < page.len()
            invariant
                i <= page@.len(),
                out@ == page@.take(i as int),
            decreases page@.len() - i,
        {
            out.push(page[i]);
            assert(page@.take(i + 1) =~= page@.take(i as int).push(page@[i as int]));
            i += 1;
        }
        assert(page@.take(page@.len() as int) =~= page@);
        out
    }

    /// The view shown.
    pub fn view_mode(&self) -> (r: ViewMode)
        ensures
            r == self.view_mode_spec(),
    {
        self.view_mode
    }

    /// Shows `mode`.
    pub fn set_view_mode(&mut self, mode: ViewMode)
        requires
            old(self).wf(),
        ensures
            final(self).wf(),
            final(self).view_mode_spec() == mode,
            final(self).year() == old(self).year(),
            final(self).month() == old(self).month(),
            final(self).page() == old(self).page(),
            final(self).year_pages() == old(self).year_pages(),
            final(self).months_shown() == old(self).months_shown(),
            final(self).date_spec() == old(self).date_spec(),
    {
        self.view_mode = mode;
    }

    /// The month button: switches between the month view and the day view.
    pub fn toggle_month_view(&mut self)
        requires
            old(self).wf(),
        ensures
            final(self).wf(),
            final(self).view_mode_spec() == if old(self).view_mode_spec() is Month {
                ViewMode::Day
            } else {
                ViewMode::Month
            },
            final(self).year() == old(self).year(),
            final(self).month() == old(self).month(),
            final(self).page() == old(self).page(),
            final(self).year_pages() == old(self).year_pages(),
            final(self).months_shown() == old(self).months_shown(),
            final(self).date_spec() == old(self).date_spec(),
    {
        if self.view_mode.is_month() {
            self.set_view_mode(ViewMode::Day);
        } else {
            self.set_view_mode(ViewMode::Month);
        }
    }

    /// The year button: switches between the year view and the day view.
    pub fn toggle_year_view(&mut self)
        requires
            old(self).wf(),
        ensures
            final(self).wf(),
            final(self).view_mode_spec() == if old(self).view_mode_spec() is Year {
                ViewMode::Day
            } else {
                ViewMode::Year
            },
            final(self).year() == old(self).year(),
            final(self).month() == old(self).month(),
            final(self).page() == old(self).page(),
            final(self).year_pages() == old(self).year_pages(),
            final(self).months_shown() == old(self).months_shown(),
            final(self).date_spec() == old(self).date_spec(),
    {
        if self.view_mode.is_year() {
            self.set_view_mode(ViewMode::Day);
        } else {
            self.set_view_mode(ViewMode::Year);
        }
    }

    /// A click on the month at `index` (0 for January) of the month view:
    /// shows the days of that month.
    pub fn pick_month(&mut self, index: usize)
        requires
            old(self).wf(),
            index < 12,
        ensures
            final(self).wf(),
            final(self).month() == index + 1,
            final(self).view_mode_spec() == ViewMode::Day,
            final(self).year() == old(self).year(),
            final(self).date_spec() == old(self).date_spec(),
    {
        self.current_month = (index + 1) as u8;
        self.set_view_mode(ViewMode::Day);
    }

    /// A click on `year` in the year view: shows the days of that year.
    pub fn pick_year(&mut self, year: i32)
        requires
            old(self).wf(),
        ensures
            final(self).wf(),
            final(self).year() == year,
            final(self).view_mode_spec() == ViewMode::Day,
            final(self).month() == old(self).month(),
            final(self).date_spec() == old(self).date_spec(),
    {
        self.current_year = year;
        self.set_view_mode(ViewMode::Day);
    }

    /// The selection.
    pub fn date(&self) -> (r: Date)
        ensures
            r == self.date_spec(),
    {
        self.date
    }

    /// Number of months shown side by side.
    pub fn number_of_months(&self) -> (r: usize)
        ensures
            r == self.months_shown(),
    {
        self.number_of_months
    }

    /// Shows `number_of_months` months side by side.
    pub fn set_number_of_months(&mut self, number_of_months: usize)
        requires
            old(self).wf(),
        ensures
            final(self).wf(),
            final(self).months_shown() == number_of_months,
            final(self).date_spec() == old(self).date_spec(),
            final(self).year() == old(self).year(),
            final(self).month() == old(self).month(),
    {
        self.number_of_months = number_of_months;
    }

    /// Selects `date` and shows the month of its first day, unless the
    /// disabled-date rule `rejected` it, which leaves the calendar as it was.
    pub fn set_date(&mut self, date: Date, rejected: bool)
        requires
            old(self).wf(),
            date_valid(date),
        ensures
            final(self).wf(),
            rejected ==> *final(self) == *old(self),
            !rejected ==> final(self).date_spec() == date,
            !rejected ==> match date_start(date) {
                Some(d) => final(self).year() == d.year && final(self).month() == d.month,
                None => final(self).year() == old(self).year() && final(self).month() == old(
                    self,
                ).month(),
            },
            final(self).view_mode_spec() == old(self).view_mode_spec(),
            final(self).page() == old(self).page(),
            final(self).year_pages() == old(self).year_pages(),
    {
        if rejected {
            return;
        }
        self.date = date;
        match date {
            Date::Single(Some(d)) => {
                self.current_month = d.month;
                self.current_year = d.year;
            },
            Date::Range(Some(start), _) => {
                self.current_month = start.month;
                self.current_year = start.year;
            },
            _ => {},
        }
    }

    /// The selection a click on `day` proposes, if any.
    pub fn next_selection(&self, day: CalendarDay) -> (r: Option<Date>)
        ensures
            r == proposed_selection(self.date_spec(), day),
    {
        if self.date.is_single() {
            return Some(Date::Single(Some(day)));
        }
        let start = self.date.start();
        let end = self.date.end();
        match (start, end) {
            (None, None) => Some(Date::Range(Some(day), None)),
            (Some(s), None) => if day.is_before(&s) {
                Some(Date::Range(Some(day), None))
            } else {
                Some(Date::Range(Some(s), Some(day)))
            },
            (Some(_), Some(_)) => Some(Date::Range(Some(day), None)),
            (None, Some(_)) => None,
        }
    }

    /// A click on an enabled `day`: the proposed selection is applied unless
    /// the disabled-date rule `rejected` it; reports the selection in single
    /// mode, and in range mode once both ends are set.
    pub fn click_day(&mut self, day: CalendarDay, rejected: bool) -> (r: Option<CalendarEvent>)
        requires
            old(self).wf(),
            day_valid(day),
        ensures
            final(self).wf(),
            match proposed_selection(old(self).date_spec(), day) {
                Some(d) => if rejected {
                    *final(self) == *old(self)
                } else {
                    final(self).date_spec() == d && final(self).year() == date_start(d)->0.year
                        && final(self).month() == date_start(d)->0.month
                },
                None => *final(self) == *old(self),
            },
            r == if old(self).date_spec() is Single || date_complete(final(self).date_spec()) {
                Some(CalendarEvent::Selected(final(self).date_spec()))
            } else {
                None
            },
    {
        let was_single = self.date.is_single();
        match self.next_selection(day) {
            Some(d) => self.set_date(d, rejected),
            None => {},
        }
        if was_single || self.date.is_complete() {
            Some(CalendarEvent::Selected(self.date))
        } else {
            None
        }
    }
}

/// A preset a date picker offers: one day, or a range of days.
#[derive(Debug, Clone, Copy, PartialEq, Eq, Structural)]
pub enum DateRangePresetValue {
    Single(CalendarDay),
    Range(CalendarDay, CalendarDay),
}

/// The date a preset picks.
pub open spec fn preset_date(v: DateRangePresetValue) -> Date {
    match v {
        DateRangePresetValue::Single(d) => Date::Single(Some(d)),
        DateRangePresetValue::Range(s, e) => Date::Range(Some(s), Some(e)),
    }
}

/// Whether the days a preset names are valid.
pub open spec fn preset_valid(v: DateRangePresetValue) -> bool {
    date_valid(preset_date(v))
}

/// A preset a date picker lists: its label and what it picks.
pub struct DateRangePreset {
    label: String,
    value: DateRangePresetValue,
}

impl DateRangePreset {
    pub closed spec fn label_spec(&self) -> Seq<char> {
        self.label@
    }

    pub closed spec fn value_spec(&self) -> DateRangePresetValue {
        self.value
    }

    /// A preset that picks the day `date`.
    pub fn single(label: String, date: CalendarDay) -> (r: Self)
        ensures
            r.label_spec() == label@,
            r.value_spec() == DateRangePresetValue::Single(date),
    {
        DateRangePreset { label, value: DateRangePresetValue::Single(date) }
    }

    /// A preset that picks the days from `start` to `end`.
    pub fn range(label: String, start: CalendarDay, end: CalendarDay) -> (r: Self)
        ensures
            r.label_spec() == label@,
            r.value_spec() == DateRangePresetValue::Range(start, end),
    {
        DateRangePreset { label, value: DateRangePresetValue::Range(start, end) }
    }

    /// The label shown for the preset.
    pub fn label(&self) -> (r: &str)
        ensures
            r@ == self.label_spec(),
    {
        self.label.as_str()
    }

    /// What the preset picks.
    pub fn value(&self) -> (r: DateRangePresetValue)
        ensures
            r == self.value_spec(),
    {
        self.value
    }
}

/// The state of a date picker: the picked date, whether its popover is
/// open, and the calendar it shows.
pub struct DatePickerState {
    date: Date,
    open: bool,
    number_of_months: usize,
    date_format: String,
    calendar: CalendarState,
}

impl DatePickerState {
    pub closed spec fn wf(&self) -> bool {
        &&& self.calendar.wf()
        &&& date_valid(self.date)
    }

    pub closed spec fn date_spec(&self) -> Date {
        self.date
    }

    pub closed spec fn open_spec(&self) -> bool {
        self.open
    }

    pub closed spec fn months_spec(&self) -> usize {
        self.number_of_months
    }

    pub closed spec fn calendar_spec(&self) -> CalendarState {
        self.calendar
    }

    pub closed spec fn format_spec(&self) -> Seq<char> {
        self.date_format@
    }

    /// A closed single-day picker with nothing picked, over a calendar
    /// opened on `today`.
    pub fn new(today: CalendarDay) -> (r: Self)
        requires
            day_valid(today),
            i32::MIN + 50 <= today.year <= i32::MAX - 50,
        ensures
            r.wf(),
            r.date_spec() == Date::Single(None),
            !r.open_spec(),
            r.months_spec() == 1,
            r.format_spec() == "%Y/%m/%d"@,
            r.calendar_spec().date_spec() == r.date_spec(),
            r.calendar_spec().year() == today.year,
            r.calendar_spec().month() == today.month,
    {
        Self::new_with_range(today, false)
    }

    /// A closed range picker with nothing picked, over a calendar opened on
    /// `today`.
    pub fn range(today: CalendarDay) -> (r: Self)
        requires
            day_valid(today),
            i32::MIN + 50 <= today.year <= i32::MAX - 50,
        ensures
            r.wf(),
            r.date_spec() == Date::Range(None, None),
            !r.open_spec(),
            r.months_spec() == 1,
            r.format_spec() == "%Y/%m/%d"@,
            r.calendar_spec().date_spec() == r.date_spec(),
            r.calendar_spec().year() == today.year,
            r.calendar_spec().month() == today.month,
    {
        Self::new_with_range(today, true)
    }

    fn new_with_range(today: CalendarDay, is_range: bool) -> (r: Self)
        requires
            day_valid(today),
            i32::MIN + 50 <= today.year <= i32::MAX - 50,
        ensures
            r.wf(),
            r.date_spec() == if is_range {
                Date::Range(None, None)
            } else {
                Date::Single(None)
            },
            !r.open_spec(),
            r.months_spec() == 1,
            r.format_spec() == "%Y/%m/%d"@,
            r.calendar_spec().date_spec() == r.date_spec(),
            r.calendar_spec().year() == today.year,
            r.calendar_spec().month() == today.month,
    {
        let date = if is_range {
            Date::Range(None, None)
        } else {
            Date::Single(None)
        };
        let mut calendar = CalendarState::new(today);
        calendar.set_date(date, false);
        DatePickerState {
            date,
            open: false,
            number_of_months: 1,
            date_format: String::from_str("%Y/%m/%d"),
            calendar,
        }
    }

    /// The same picker showing dates in `format` (a chrono format string).
    pub fn date_format(self, format: String) -> (r: Self)
        requires
            self.wf(),
        ensures
            r.wf(),
            r.format_spec() == format@,
            r.date_spec() == self.date_spec(),
            r.open_spec() == self.open_spec(),
            r.months_spec() == self.months_spec(),
    {
        DatePickerState { date_format: format, ..self }
    }

    /// The format dates are shown in.
    pub fn format(&self) -> (r: &String)
        ensures
            r@ == self.format_spec(),
    {
        &self.date_format
    }

    /// The picked date.
    pub fn date(&self) -> (r: Date)
        ensures
            r == self.date_spec(),
    {
        self.date
    }

    /// Whether the popover is open.
    pub fn is_open(&self) -> (r: bool)
        ensures
            r == self.open_spec(),
    {
        self.open
    }

    /// The calendar the picker shows.
    pub fn calendar(&self) -> (r: &CalendarState)
        ensures
            *r == self.calendar_spec(),
    {
        &self.calendar
    }

    /// Number of months the calendar shows.
    pub fn number_of_months(self, number_of_months: usize) -> (r: Self)
        requires
            self.wf(),
        ensures
            r.wf(),
            r.months_spec() == number_of_months,
            r.date_spec() == self.date_spec(),
            r.open_spec() == self.open_spec(),
    {
        DatePickerState { number_of_months, ..self }
    }

    /// Picks `date`, shows it in the calendar (unless the calendar's
    /// disabled-date rule `rejected` it) and closes the popover; reports
    /// the change when `emit` is set.
    pub fn update_date(&mut self, date: Date, emit: bool, rejected: bool) -> (r: Option<
        DatePickerEvent,
    >)
        requires
            old(self).wf(),
            date_valid(date),
        ensures
            final(self).wf(),
            final(self).date_spec() == date,
            !final(self).open_spec(),
            final(self).months_spec() == old(self).months_spec(),
            !rejected ==> final(self).calendar_spec().date_spec() == date,
            rejected ==> final(self).calendar_spec() == old(self).calendar_spec(),
            r == if emit {
                Some(DatePickerEvent::Change(date))
            } else {
                None
            },
    {
        self.date = date;
        self.calendar.set_date(date, rejected);
        self.open = false;
        if emit {
            Some(DatePickerEvent::Change(date))
        } else {
            None
        }
    }

    /// Sets the date without reporting it.
    pub fn set_date(&mut self, date: Date, rejected: bool)
        requires
            old(self).wf(),
            date_valid(date),
        ensures
            final(self).wf(),
            final(self).date_spec() == date,
            !final(self).open_spec(),
            !rejected ==> final(self).calendar_spec().date_spec() == date,
    {
        let _ = self.update_date(date, false, rejected);
    }

    /// The calendar picked a date: take it and report it.
    pub fn on_calendar_event(&mut self, event: CalendarEvent, rejected: bool) -> (r: Option<
        DatePickerEvent,
    >)
        requires
            old(self).wf(),
            date_valid(event->Selected_0),
        ensures
            final(self).wf(),
            final(self).date_spec() == event->Selected_0,
            !final(self).open_spec(),
            r == Some(DatePickerEvent::Change(event->Selected_0)),
    {
        match event {
            CalendarEvent::Selected(date) => self.update_date(date, true, rejected),
        }
    }

    /// Escape: closes an open popover and returns true; with the popover
    /// closed it does nothing and returns false, passing the key on.
    pub fn on_escape(&mut self) -> (r: bool)
        requires
            old(self).wf(),
        ensures
            final(self).wf(),
            r == old(self).open_spec(),
            !final(self).open_spec(),
            final(self).date_spec() == old(self).date_spec(),
    {
        if !self.open {
            return false;
        }
        self.open = false;
        true
    }

    /// Enter: opens the popover.
    pub fn on_enter(&mut self)
        requires
            old(self).wf(),
        ensures
            final(self).wf(),
            final(self).open_spec(),
            final(self).date_spec() == old(self).date_spec(),
    {
        if !self.open {
            self.open = true;
        }
    }

    /// Opens or closes the popover; returns whether that changed anything.
    pub fn set_open(&mut self, open: bool) -> (r: bool)
        requires
            old(self).wf(),
        ensures
            final(self).wf(),
            final(self).open_spec() == open,
            r == (old(self).open_spec() != open),
            final(self).date_spec() == old(self).date_spec(),
    {
        if self.open == open {
            return false;
        }
        self.open = open;
        true
    }

    /// Clears the date, keeping its kind, and reports it.
    pub fn clean(&mut self, rejected: bool) -> (r: Option<DatePickerEvent>)
        requires
            old(self).wf(),
        ensures
            final(self).wf(),
            final(self).date_spec() == match old(self).date_spec() {
                Date::Single(_) => Date::Single(None),
                Date::Range(..) => Date::Range(None, None),
            },
            r == Some(DatePickerEvent::Change(final(self).date_spec())),
            !final(self).open_spec(),
    {
        match self.date {
            Date::Single(_) => self.update_date(Date::Single(None), true, rejected),
            Date::Range(..) => self.update_date(Date::Range(None, None), true, rejected),
        }
    }

    /// Picks the date of a preset and reports it.
    pub fn select_preset(&mut self, preset: DateRangePresetValue, rejected: bool) -> (r: Option<
        DatePickerEvent,
    >)
        requires
            old(self).wf(),
            preset_valid(preset),
        ensures
            final(self).wf(),
            final(self).date_spec() == preset_date(preset),
            r == Some(DatePickerEvent::Change(preset_date(preset))),
            !final(self).open_spec(),
    {
        match preset {
            DateRangePresetValue::Single(d) => self.update_date(Date::Single(Some(d)), true, rejected),
            DateRangePresetValue::Range(s, e) => self.update_date(
                Date::Range(Some(s), Some(e)),
                true,
                rejected,
            ),
        }
    }
}

/// Showing the next month after the previous one shows the month shown
/// before, and the other way round.
pub proof fn law_month_navigation_round_trips(year: int, month: int)
    requires
        1 <= month <= 12,
    ensures
        month_after(month_before(year, month).0, month_before(year, month).1) == (year, month),
        month_before(month_after(year, month).0, month_after(year, month).1) == (year, month),
{
}

/// The page of years a calendar opens on holds the shown year whenever
/// the range of years does.
pub proof fn law_page_holds_year(start: int, end: int, year: int)
    requires
        start <= year <= end,
    ensures
        0 <= page_of(start, end, year) < page_count(start, end),
        page_years(start, end, page_of(start, end, year)).contains(year as i32),
{
    let p = (year - start) / 20;
    assert(0 <= p < (end - start + 20) / 20) by (nonlinear_arith)
        requires
            start <= year <= end,
            p == (year - start) / 20,
    ;
    let j = year - start - 20 * p;
    assert(0 <= j < 20) by (nonlinear_arith)
        requires
            p == (year - start) / 20,
            j == year - start - 20 * p,
    ;
    let pg = page_years(start, end, p);
    assert(j < pg.len());
    assert(pg[j] == year as i32);
}

} // verus!
