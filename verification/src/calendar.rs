use vstd::prelude::*;
use crate::date::{Date, days_in_month};

verus! {

/// Whether the `time` crate can represent the calendar date with this year,
/// month and day: a day the month has, in a year of its range. That range
/// is -9999 to 9999, or -999999 to 999999 when the crate is built with its
/// `large-dates` feature, which the build decides.
pub uninterp spec fn time_accepts(year: i32, month: u32, day: u32) -> bool;

/// The years that the `time` crate accepts however it is built.
pub open spec fn time_year_in_range(year: int) -> bool {
    -9999 <= year <= 9999
}

/// `time::Date::from_calendar_date`, with the month given by its number:
/// whether it accepts the date. It accepts every day of a month in the
/// years -9999 to 9999, and refuses a day the month does not have and a
/// year beyond -999999 to 999999; between those bounds its answer depends
/// on how the crate was built, which is not stated.
#[verifier::external_body]
fn time_date_exists(year: i32, month: u32, day: u32) -> (r: bool)
    requires
        1 <= month <= 12,
        1 <= day <= 31,
    ensures
        r == time_accepts(year, month, day),
        time_year_in_range(year as int) && day <= days_in_month(year as int, month as int) ==> r,
        r ==> day <= days_in_month(year as int, month as int) && -999999 <= year <= 999999,
{
    let m = time::Month::try_from(month as u8).unwrap();
    time::Date::from_calendar_date(year, m, day as u8).is_ok()
}

/// How a day of the calendar is marked.
#[derive(Debug, Clone, Copy, PartialEq, Eq, Structural)]
pub enum MarkKind {
    Holiday,
    Season,
    /// The day the calendar's cursor stands on.
    Selected,
}

/// A marked day of the calendar.
#[derive(Debug, Clone, Copy, PartialEq, Eq, Structural)]
pub struct CalendarMark {
    pub date: Date,
    pub kind: MarkKind,
}

/// A marked day that the `time` crate cannot represent.
#[derive(Debug, Clone, Copy, PartialEq, Eq, Structural)]
pub enum CalendarError {
    ComponentRange,
}

/// The mark of kind `kind` on the day `day` of month `month` of `year`.
pub open spec fn mark(year: int, month: u32, day: u32, kind: MarkKind) -> CalendarMark {
    CalendarMark { date: Date { year: year as i32, month, day }, kind }
}

/// The marks of the calendar when `sel` is selected: the holidays of its
/// year (and the next new year's day, shown among the surrounding days),
/// the solstices and equinoxes, then the selected day.
pub open spec fn marks_of(sel: Date) -> Seq<CalendarMark> {
    let y = sel.year as int;
    seq![
        mark(y, 1, 1, MarkKind::Holiday),
        mark(y + 1, 1, 1, MarkKind::Holiday),
        mark(y, 2, 2, MarkKind::Holiday),
        mark(y, 4, 1, MarkKind::Holiday),
        mark(y, 4, 22, MarkKind::Holiday),
        mark(y, 5, 4, MarkKind::Holiday),
        mark(y, 12, 23, MarkKind::Holiday),
        mark(y, 12, 31, MarkKind::Holiday),
        mark(y, 3, 22, MarkKind::Season),
        mark(y, 6, 21, MarkKind::Season),
        mark(y, 9, 22, MarkKind::Season),
        mark(y, 12, 21, MarkKind::Season),
        CalendarMark { date: sel, kind: MarkKind::Selected },
    ]
}

/// Whether the `time` crate can represent the date.
pub open spec fn representable(d: Date) -> bool {
    time_accepts(d.year, d.month, d.day)
}

/// Whether every holiday and season day of the marks of `sel` can be
/// represented.
pub open spec fn marks_representable(sel: Date) -> bool {
    forall|i: int| 0 <= i < 12 ==> #[trigger] representable(marks_of(sel)[i].date)
}

/// Appends the mark if its day can be represented; says whether it could.
fn add_mark(list: &mut Vec<CalendarMark>, year: i32, month: u32, day: u32, kind: MarkKind) -> (r: bool)
    requires
        1 <= month <= 12,
        1 <= day <= 31,
    ensures
        r == time_accepts(year, month, day),
        time_year_in_range(year as int) && day <= days_in_month(year as int, month as int) ==> r,
        r ==> final(list)@ == old(list)@.push(mark(year as int, month, day, kind)),
{
    if time_date_exists(year, month, day) {
        list.push(CalendarMark { date: Date { year, month, day }, kind });
        true
    } else {
        false
    }
}

/// The marked days of the calendar when `selected_date` is selected, or an
/// error when one of them cannot be represented.
#[verifier::rlimit(30)]
pub fn events(selected_date: Date) -> (r: Result<Vec<CalendarMark>, CalendarError>)
    requires
        selected_date.valid(),
        representable(selected_date),
    ensures
        match r {
            Ok(v) => marks_representable(selected_date) && v@ == marks_of(selected_date),
            Err(_) => !marks_representable(selected_date),
        },
        -9999 <= selected_date.year < 9999 ==> r is Ok,
{
    let y = selected_date.year;
    let ghost m = marks_of(selected_date);
    let mut list: Vec<CalendarMark> = Vec::new();
    if !add_mark(&mut list, y, 1, 1, MarkKind::Holiday) {
        assert(!representable(m[0].date));
        return Err(CalendarError::ComponentRange);
    }
    if !add_mark(&mut list, y + 1, 1, 1, MarkKind::Holiday) {
        assert(!representable(m[1].date));
        return Err(CalendarError::ComponentRange);
    }
    if !add_mark(&mut list, y, 2, 2, MarkKind::Holiday) {
        assert(!representable(m[2].date));
        return Err(CalendarError::ComponentRange);
    }
    if !add_mark(&mut list, y, 4, 1, MarkKind::Holiday) {
        assert(!representable(m[3].date));
        return Err(CalendarError::ComponentRange);
    }
    if !add_mark(&mut list, y, 4, 22, MarkKind::Holiday) {
        assert(!representable(m[4].date));
        return Err(CalendarError::ComponentRange);
    }
    if !add_mark(&mut list, y, 5, 4, MarkKind::Holiday) {
        assert(!representable(m[5].date));
        return Err(CalendarError::ComponentRange);
    }
    if !add_mark(&mut list, y, 12, 23, MarkKind::Holiday) {
        assert(!representable(m[6].date));
        return Err(CalendarError::ComponentRange);
    }
    if !add_mark(&mut list, y, 12, 31, MarkKind::Holiday) {
        assert(!representable(m[7].date));
        return Err(CalendarError::ComponentRange);
    }
    if !add_mark(&mut list, y, 3, 22, MarkKind::Season) {
        assert(!representable(m[8].date));
        return Err(CalendarError::ComponentRange);
    }
    if !add_mark(&mut list, y, 6, 21, MarkKind::Season) {
        assert(!representable(m[9].date));
        return Err(CalendarError::ComponentRange);
    }
    if !add_mark(&mut list, y, 9, 22, MarkKind::Season) {
        assert(!representable(m[10].date));
        return Err(CalendarError::ComponentRange);
    }
    if !add_mark(&mut list, y, 12, 21, MarkKind::Season) {
        assert(!representable(m[11].date));
        return Err(CalendarError::ComponentRange);
    }
    list.push(CalendarMark { date: selected_date, kind: MarkKind::Selected });
    assert(list@ =~= m);
    assert forall|i: int| 0 <= i < 12 implies #[trigger] representable(m[i].date) by {
        assert(representable(list@[i].date));
    }
    Ok(list)
}

/// The marked days of the calendar when `selected_date` is selected, as
/// `events` gives them, or `None` when the selected day itself cannot be
/// represented.
pub fn events_checked(selected_date: Date) -> (r: Option<Result<Vec<CalendarMark>, CalendarError>>)
    requires
        selected_date.valid(),
    ensures
        r is None <==> !representable(selected_date),
        time_year_in_range(selected_date.year as int) ==> r is Some,
        -9999 <= selected_date.year < 9999 ==> r matches Some(Ok(_)),
        r is Some ==> -999999 <= selected_date.year <= 999999,
        match r {
            Some(Ok(v)) => marks_representable(selected_date) && v@ == marks_of(selected_date),
            Some(Err(_)) => !marks_representable(selected_date),
            None => true,
        },
{
    if time_date_exists(selected_date.year, selected_date.month, selected_date.day) {
        Some(events(selected_date))
    } else {
        None
    }
}

} // verus!
