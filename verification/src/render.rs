//! Human-readable rendering of courses, schedules and check-in results
//! for display.

use vstd::prelude::*;

use crate::checkin::CheckInResult;
use crate::codec::date_chars_hyphen;
use crate::codec::date_valid;
use crate::codec::datetime_chars;
use crate::codec::datetime_valid;
use crate::codec::format_date_to_hyphen_str;
use crate::codec::format_datetime_to_str;
use crate::query::Course;
use crate::query::DailySchedule;
use crate::query::Schedule;

verus! {

/// The display text of a course: name, id, teacher and classroom.
pub open spec fn course_display(c: Course) -> Seq<char> {
    c.course_name@ + " ("@ + c.course_id@ + ") - "@ + c.teacher_name@ + " @ "@
        + c.classroom_name@
}

/// Renders a course for display.
pub fn display_course(c: &Course) -> (r: String)
    ensures
        r@ == course_display(*c),
{
    let mut out = String::new();
    out.append(c.course_name.as_str());
    out.append(" (");
    out.append(c.course_id.as_str());
    out.append(") - ");
    out.append(c.teacher_name.as_str());
    out.append(" @ ");
    out.append(c.classroom_name.as_str());
    proof {
        assert(out@ =~= course_display(*c));
    }
    out
}

/// The display text of a schedule entry: check-in indicator, time range,
/// both identifiers, and the course name.
pub open spec fn schedule_display(s: Schedule) -> Seq<char> {
    (if s.checked_in {
        "[\u{2713}] ["@
    } else {
        "[ ] ["@
    }) + datetime_chars(s.begin_time) + " ~ "@ + datetime_chars(s.end_time) + "] id="@ + s.id@
        + " uuid="@ + s.uuid@ + " "@ + s.course.course_name@
}

/// Renders a schedule entry for display.
pub fn display_schedule(s: &Schedule) -> (r: String)
    requires
        datetime_valid(s.begin_time),
        datetime_valid(s.end_time),
    ensures
        r@ == schedule_display(*s),
{
    let mut out = String::new();
    if s.checked_in {
        out.append("[\u{2713}] [");
    } else {
        out.append("[ ] [");
    }
    let begin = format_datetime_to_str(&s.begin_time);
    out.append(begin.as_str());
    out.append(" ~ ");
    let end = format_datetime_to_str(&s.end_time);
    out.append(end.as_str());
    out.append("] id=");
    out.append(s.id.as_str());
    out.append(" uuid=");
    out.append(s.uuid.as_str());
    out.append(" ");
    out.append(s.course.course_name.as_str());
    proof {
        assert(out@ =~= schedule_display(*s));
    }
    out
}

/// One indented line of a day's rendering: time range, identifiers, and
/// the course name.
pub open spec fn daily_line(s: Schedule) -> Seq<char> {
    "  ["@ + datetime_chars(s.begin_time) + " ~ "@ + datetime_chars(s.end_time) + "] id="@ + s.id@
        + " uuid="@ + s.uuid@ + " "@ + s.course.course_name@ + "\n"@
}

/// The lines of a day's schedule entries, in order.
pub open spec fn daily_lines(ss: Seq<Schedule>) -> Seq<char>
    decreases ss.len(),
{
    if ss.len() == 0 {
        Seq::<char>::empty()
    } else {
        daily_lines(ss.drop_last()) + daily_line(ss.last())
    }
}

fn daily_line_string(s: &Schedule) -> (r: String)
    requires
        datetime_valid(s.begin_time),
        datetime_valid(s.end_time),
    ensures
        r@ == daily_line(*s),
{
    let mut out = String::from_str("  [");
    let begin = format_datetime_to_str(&s.begin_time);
    out.append(begin.as_str());
    out.append(" ~ ");
    let end = format_datetime_to_str(&s.end_time);
    out.append(end.as_str());
    out.append("] id=");
    out.append(s.id.as_str());
    out.append(" uuid=");
    out.append(s.uuid.as_str());
    out.append(" ");
    out.append(s.course.course_name.as_str());
    out.append("\n");
    proof {
        assert(out@ =~= daily_line(*s));
    }
    out
}

/// The display text of a daily schedule: a dated header line, then one
/// line per entry.
pub open spec fn daily_schedule_display(d: DailySchedule) -> Seq<char> {
    "Schedule on "@ + date_chars_hyphen(d.date) + ":\n"@ + daily_lines(d.schedules@)
}

/// Every entry of the day has valid times.
pub open spec fn daily_schedule_times_valid(d: DailySchedule) -> bool {
    forall|i: int|
        0 <= i < d.schedules@.len() ==> datetime_valid(#[trigger] d.schedules@[i].begin_time)
            && datetime_valid(d.schedules@[i].end_time)
}

/// Renders a daily schedule for display: a dated header, then one line
/// per entry, in order.
pub fn display_daily_schedule(d: &DailySchedule) -> (r: String)
    requires
        date_valid(d.date),
        daily_schedule_times_valid(*d),
    ensures
        r@ == daily_schedule_display(*d),
{
    let mut out = String::from_str("Schedule on ");
    let date_str = format_date_to_hyphen_str(&d.date);
    out.append(date_str.as_str());
    out.append(":\n");
    let ghost header = out@;
    let mut i: usize = 0;
    while i < d.schedules.len()
        invariant
            i <= d.schedules@.len(),
            daily_schedule_times_valid(*d),
            header == "Schedule on "@ + date_chars_hyphen(d.date) + ":\n"@,
            out@ == header + daily_lines(d.schedules@.subrange(0, i as int)),
        decreases d.schedules@.len() - i,
    {
        let s = &d.schedules[i];
        let line = daily_line_string(s);
        out.append(line.as_str());
        proof {
            let pre = d.schedules@.subrange(0, i as int);
            let ext = d.schedules@.subrange(0, i + 1);
            assert(ext.drop_last() =~= pre);
            assert(ext.last() == d.schedules@[i as int]);
            assert(out@ =~= header + daily_lines(ext));
        }
        i = i + 1;
    }
    proof {
        assert(d.schedules@.subrange(0, d.schedules@.len() as int) =~= d.schedules@);
    }
    out
}

/// The display text of a check-in result.
pub open spec fn check_in_display(c: CheckInResult) -> Seq<char> {
    (if c.status {
        "Success (#"@
    } else {
        "Failed (#"@
    }) + c.id@ + ")"@
}

/// Renders a check-in result for display.
pub fn display_check_in_result(c: &CheckInResult) -> (r: String)
    ensures
        r@ == check_in_display(*c),
{
    let mut out = String::new();
    if c.status {
        out.append("Success (#");
    } else {
        out.append("Failed (#");
    }
    out.append(c.id.as_str());
    out.append(")");
    proof {
        assert(out@ =~= check_in_display(*c));
    }
    out
}

} // verus!
