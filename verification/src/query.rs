//! Course and schedule queries: the entities the service returns, the
//! decoding of their string-encoded fields, and the request builders.

use vstd::prelude::*;

use crate::codec::bool_str_value;
use crate::codec::date_chars;
use crate::codec::date_valid;
use crate::codec::datetime_chars;
use crate::codec::datetime_valid;
use crate::codec::decode_bool;
use crate::codec::decode_date;
use crate::codec::decode_datetime;
use crate::codec::format_date_to_str;
use crate::codec::is_bool_str;
use crate::codec::is_date_str;
use crate::codec::is_datetime_str;
use crate::codec::Date;
use crate::codec::DateTime;
use crate::request::HttpRequest;
use crate::request::Method;
use crate::request::QueryParam;
use crate::IClass;
use crate::IClassError;

verus! {

/// A semester, as the semester query returns it.
#[derive(Clone, Debug, PartialEq, Eq)]
pub struct Semester {
    /// Semester code.
    pub code: String,
    /// Semester name.
    pub name: String,
    /// Semester begin date.
    pub begin_date: String,
    /// Semester end date.
    pub end_date: String,
    /// Whether it is the current semester.
    pub is_current: bool,
}

/// A semester as it comes off the wire, before its boolean field is
/// decoded.
#[derive(Clone, Debug)]
pub struct RawSemester {
    /// Semester code.
    pub code: String,
    /// Semester name.
    pub name: String,
    /// Semester begin date.
    pub begin_date: String,
    /// Semester end date.
    pub end_date: String,
    /// Whether it is the current semester, as the string the service
    /// sent.
    pub year_status: String,
}

/// A course.
#[derive(Clone, Debug, PartialEq, Eq)]
pub struct Course {
    /// Course ID as we all know.
    pub course_id: String,
    /// Course name. There may be courses with the same name.
    pub course_name: String,
    /// Classroom name.
    pub classroom_name: String,
    /// Teacher name.
    pub teacher_name: String,
}

/// A single schedule entry.
#[derive(Clone, Debug, PartialEq, Eq)]
pub struct Schedule {
    /// The course scheduled.
    pub course: Course,
    /// Id of this schedule.
    pub id: String,
    /// Unique id of this schedule.
    pub uuid: String,
    /// Check-in status. Populated meaningfully only by the daily
    /// schedule query; weekly results carry no meaningful value here.
    pub checked_in: bool,
    /// Begin time, in the fixed UTC+8 offset.
    pub begin_time: DateTime,
    /// End time, in the fixed UTC+8 offset.
    pub end_time: DateTime,
}

/// A schedule entry as it comes off the wire, before its string-encoded
/// fields are decoded.
#[derive(Clone, Debug)]
pub struct RawSchedule {
    /// The course scheduled.
    pub course: Course,
    /// Id of this schedule.
    pub id: String,
    /// Unique id of this schedule.
    pub uuid: String,
    /// Check-in status, as the string the service sent.
    pub sign_status: String,
    /// Begin time, as the string the service sent.
    pub class_begin_time: String,
    /// End time, as the string the service sent.
    pub class_end_time: String,
}

/// A daily schedule: one day within a week, produced by the weekly
/// query.
#[derive(Clone, Debug, PartialEq, Eq)]
pub struct DailySchedule {
    /// Date of this schedule.
    pub date: Date,
    /// Schedules in this day, in the order the service returned them.
    pub schedules: Vec<Schedule>,
}

/// A daily schedule as it comes off the wire.
#[derive(Clone, Debug)]
pub struct RawDailySchedule {
    /// Date of this schedule, as the string the service sent.
    pub date_str: String,
    /// Schedules in this day.
    pub schedules: Vec<RawSchedule>,
}

/// The raw fields of a semester decode without error.
pub open spec fn semester_raw_ok(raw: RawSemester) -> bool {
    is_bool_str(raw.year_status@)
}

/// `s` is the decoding of the wire semester `raw`.
pub open spec fn semester_decodes_to(raw: RawSemester, s: Semester) -> bool {
    &&& s.code == raw.code
    &&& s.name == raw.name
    &&& s.begin_date == raw.begin_date
    &&& s.end_date == raw.end_date
    &&& is_bool_str(raw.year_status@)
    &&& s.is_current == bool_str_value(raw.year_status@)
}

/// The raw fields of a schedule entry decode without error.
pub open spec fn schedule_raw_ok(raw: RawSchedule) -> bool {
    &&& is_bool_str(raw.sign_status@)
    &&& is_datetime_str(raw.class_begin_time@)
    &&& is_datetime_str(raw.class_end_time@)
}

/// `s` is the decoding of the wire schedule entry `raw`.
pub open spec fn schedule_decodes_to(raw: RawSchedule, s: Schedule) -> bool {
    &&& s.course == raw.course
    &&& s.id == raw.id
    &&& s.uuid == raw.uuid
    &&& is_bool_str(raw.sign_status@)
    &&& s.checked_in == bool_str_value(raw.sign_status@)
    &&& datetime_valid(s.begin_time) && raw.class_begin_time@ == datetime_chars(s.begin_time)
    &&& datetime_valid(s.end_time) && raw.class_end_time@ == datetime_chars(s.end_time)
}

/// The raw fields of a daily schedule decode without error.
pub open spec fn daily_schedule_raw_ok(raw: RawDailySchedule) -> bool {
    &&& is_date_str(raw.date_str@)
    &&& forall|i: int| 0 <= i < raw.schedules@.len() ==> schedule_raw_ok(
        #[trigger] raw.schedules@[i],
    )
}

/// `d` is the decoding of the wire daily schedule `raw`.
pub open spec fn daily_schedule_decodes_to(raw: RawDailySchedule, d: DailySchedule) -> bool {
    &&& date_valid(d.date) && raw.date_str@ == date_chars(d.date)
    &&& d.schedules@.len() == raw.schedules@.len()
    &&& forall|i: int| 0 <= i < raw.schedules@.len() ==> schedule_decodes_to(
        raw.schedules@[i],
        #[trigger] d.schedules@[i],
    )
}

fn clone_course(c: &Course) -> (r: Course)
    ensures
        r == *c,
{
    Course {
        course_id: c.course_id.clone(),
        course_name: c.course_name.clone(),
        classroom_name: c.classroom_name.clone(),
        teacher_name: c.teacher_name.clone(),
    }
}

/// Decodes a wire semester. Fails with a format error exactly when its
/// boolean field is malformed.
pub fn decode_semester(raw: &RawSemester) -> (r: Result<Semester, IClassError>)
    ensures
        match r {
            Ok(s) => semester_decodes_to(*raw, s),
            Err(e) => e == IClassError::FormatError && !semester_raw_ok(*raw),
        },
{
    let is_current = match decode_bool(raw.year_status.as_str()) {
        Ok(b) => b,
        Err(e) => {
            return Err(e);
        },
    };
    Ok(
        Semester {
            code: raw.code.clone(),
            name: raw.name.clone(),
            begin_date: raw.begin_date.clone(),
            end_date: raw.end_date.clone(),
            is_current,
        },
    )
}

/// Decodes a list of wire semesters. A single malformed field aborts the
/// whole list.
pub fn decode_semesters(raws: &Vec<RawSemester>) -> (r: Result<Vec<Semester>, IClassError>)
    ensures
        match r {
            Ok(v) => v@.len() == raws@.len() && forall|i: int|
                0 <= i < raws@.len() ==> semester_decodes_to(raws@[i], #[trigger] v@[i]),
            Err(e) => e == IClassError::FormatError && exists|i: int|
                0 <= i < raws@.len() && !semester_raw_ok(#[trigger] raws@[i]),
        },
{
    let mut out: Vec<Semester> = Vec::new();
    let mut i: usize = 0;
    while i < raws.len()
        invariant
            i <= raws@.len(),
            out@.len() == i,
            forall|j: int| 0 <= j < i ==> semester_decodes_to(raws@[j], #[trigger] out@[j]),
        decreases raws@.len() - i,
    {
        match decode_semester(&raws[i]) {
            Ok(s) => out.push(s),
            Err(e) => {
                return Err(e);
            },
        }
        i = i + 1;
    }
    Ok(out)
}

/// Decodes a wire schedule entry. Fails with a format error exactly when
/// one of its string-encoded fields is malformed.
pub fn decode_schedule(raw: &RawSchedule) -> (r: Result<Schedule, IClassError>)
    ensures
        match r {
            Ok(s) => schedule_decodes_to(*raw, s),
            Err(e) => e == IClassError::FormatError && !schedule_raw_ok(*raw),
        },
{
    let checked_in = match decode_bool(raw.sign_status.as_str()) {
        Ok(b) => b,
        Err(e) => {
            return Err(e);
        },
    };
    let begin_time = match decode_datetime(raw.class_begin_time.as_str()) {
        Ok(t) => t,
        Err(e) => {
            return Err(e);
        },
    };
    let end_time = match decode_datetime(raw.class_end_time.as_str()) {
        Ok(t) => t,
        Err(e) => {
            return Err(e);
        },
    };
    Ok(
        Schedule {
            course: clone_course(&raw.course),
            id: raw.id.clone(),
            uuid: raw.uuid.clone(),
            checked_in,
            begin_time,
            end_time,
        },
    )
}

/// Decodes a list of wire schedule entries. A single malformed field
/// aborts the whole list: the response fails as a whole, not per item.
pub fn decode_schedules(raws: &Vec<RawSchedule>) -> (r: Result<Vec<Schedule>, IClassError>)
    ensures
        match r {
            Ok(v) => v@.len() == raws@.len() && forall|i: int|
                0 <= i < raws@.len() ==> schedule_decodes_to(raws@[i], #[trigger] v@[i]),
            Err(e) => e == IClassError::FormatError && exists|i: int|
                0 <= i < raws@.len() && !schedule_raw_ok(#[trigger] raws@[i]),
        },
{
    let mut out: Vec<Schedule> = Vec::new();
    let mut i: usize = 0;
    while i < raws.len()
        invariant
            i <= raws@.len(),
            out@.len() == i,
            forall|j: int| 0 <= j < i ==> schedule_decodes_to(raws@[j], #[trigger] out@[j]),
        decreases raws@.len() - i,
    {
        match decode_schedule(&raws[i]) {
            Ok(s) => out.push(s),
            Err(e) => {
                return Err(e);
            },
        }
        i = i + 1;
    }
    Ok(out)
}

/// Decodes a wire daily schedule. A single malformed field anywhere in
/// the day aborts the whole day.
pub fn decode_daily_schedule(raw: &RawDailySchedule) -> (r: Result<DailySchedule, IClassError>)
    ensures
        match r {
            Ok(d) => daily_schedule_decodes_to(*raw, d),
            Err(e) => e == IClassError::FormatError && !daily_schedule_raw_ok(*raw),
        },
{
    let date = match decode_date(raw.date_str.as_str()) {
        Ok(d) => d,
        Err(e) => {
            return Err(e);
        },
    };
    let schedules = match decode_schedules(&raw.schedules) {
        Ok(v) => v,
        Err(e) => {
            return Err(e);
        },
    };
    Ok(DailySchedule { date, schedules })
}

/// Decodes a week of wire daily schedules. A single malformed field
/// anywhere in the week aborts the whole response.
pub fn decode_daily_schedules(raws: &Vec<RawDailySchedule>) -> (r: Result<
    Vec<DailySchedule>,
    IClassError,
>)
    ensures
        match r {
            Ok(v) => v@.len() == raws@.len() && forall|i: int|
                0 <= i < raws@.len() ==> daily_schedule_decodes_to(raws@[i], #[trigger] v@[i]),
            Err(e) => e == IClassError::FormatError && exists|i: int|
                0 <= i < raws@.len() && !daily_schedule_raw_ok(#[trigger] raws@[i]),
        },
{
    let mut out: Vec<DailySchedule> = Vec::new();
    let mut i: usize = 0;
    while i < raws.len()
        invariant
            i <= raws@.len(),
            out@.len() == i,
            forall|j: int| 0 <= j < i ==> daily_schedule_decodes_to(raws@[j], #[trigger] out@[j]),
        decreases raws@.len() - i,
    {
        match decode_daily_schedule(&raws[i]) {
            Ok(d) => out.push(d),
            Err(e) => {
                return Err(e);
            },
        }
        i = i + 1;
    }
    Ok(out)
}

impl IClass {
    /// Builds the semester query request. The semester endpoint is the
    /// one operation the service serves without a session.
    pub fn query_semester_request(&self) -> (r: HttpRequest)
        ensures
            r.method == Method::Get,
            r.url@ == self.spec_api_root() + "app/course/get_base_school_year.action"@,
            r.session_header is None,
            r.query@.len() == 0,
    {
        let url = self.endpoint_url("app/course/get_base_school_year.action");
        HttpRequest { method: Method::Get, url, session_header: None, query: Vec::new() }
    }

    /// Builds the course list request. Fails with
    /// [`IClassError::NotLoggedIn`] when no session is active, before
    /// any request exists to send.
    pub fn query_courses_request(&self) -> (r: Result<HttpRequest, IClassError>)
        ensures
            self.user_session is None ==> r == Err::<HttpRequest, IClassError>(
                IClassError::NotLoggedIn,
            ),
            self.user_session matches Some(session) ==> r matches Ok(q) && {
                &&& q.method == Method::Get
                &&& q.url@ == self.spec_api_root() + "app/my/get_my_course.action"@
                &&& q.session_header matches Some(h) && h@ == session.session_id@
                &&& q.query@.len() == 1
                &&& q.query@[0].key@ == "id"@ && q.query@[0].value@ == session.id@
            },
    {
        let session = match self.get_user_session() {
            Ok(s) => s,
            Err(e) => {
                return Err(e);
            },
        };
        let url = self.endpoint_url("app/my/get_my_course.action");
        let mut query: Vec<QueryParam> = Vec::new();
        query.push(QueryParam { key: String::from_str("id"), value: session.id.clone() });
        Ok(
            HttpRequest {
                method: Method::Get,
                url,
                session_header: Some(session.session_id.clone()),
                query,
            },
        )
    }

    /// Builds the daily schedule request for `date`. Fails with
    /// [`IClassError::NotLoggedIn`] when no session is active, before
    /// any request exists to send.
    pub fn query_daily_schedule_request(&self, date: &Date) -> (r: Result<
        HttpRequest,
        IClassError,
    >)
        requires
            date_valid(*date),
        ensures
            self.user_session is None ==> r == Err::<HttpRequest, IClassError>(
                IClassError::NotLoggedIn,
            ),
            self.user_session matches Some(session) ==> r matches Ok(q) && {
                &&& q.method == Method::Get
                &&& q.url@ == self.spec_api_root() + "app/course/get_stu_course_sched.action"@
                &&& q.session_header matches Some(h) && h@ == session.session_id@
                &&& q.query@.len() == 2
                &&& q.query@[0].key@ == "id"@ && q.query@[0].value@ == session.id@
                &&& q.query@[1].key@ == "dateStr"@ && q.query@[1].value@ == date_chars(*date)
            },
    {
        let session = match self.get_user_session() {
            Ok(s) => s,
            Err(e) => {
                return Err(e);
            },
        };
        let url = self.endpoint_url("app/course/get_stu_course_sched.action");
        let date_str = format_date_to_str(date);
        let mut query: Vec<QueryParam> = Vec::new();
        query.push(QueryParam { key: String::from_str("id"), value: session.id.clone() });
        query.push(QueryParam { key: String::from_str("dateStr"), value: date_str });
        Ok(
            HttpRequest {
                method: Method::Get,
                url,
                session_header: Some(session.session_id.clone()),
                query,
            },
        )
    }

    /// Builds the weekly schedule request for the week of `date`. Fails
    /// with [`IClassError::NotLoggedIn`] when no session is active,
    /// before any request exists to send.
    pub fn query_weekly_schedule_request(&self, date: &Date) -> (r: Result<
        HttpRequest,
        IClassError,
    >)
        requires
            date_valid(*date),
        ensures
            self.user_session is None ==> r == Err::<HttpRequest, IClassError>(
                IClassError::NotLoggedIn,
            ),
            self.user_session matches Some(session) ==> r matches Ok(q) && {
                &&& q.method == Method::Get
                &&& q.url@ == self.spec_api_root()
                    + "app/course/get_stu_course_sched_week.action"@
                &&& q.session_header matches Some(h) && h@ == session.session_id@
                &&& q.query@.len() == 2
                &&& q.query@[0].key@ == "id"@ && q.query@[0].value@ == session.id@
                &&& q.query@[1].key@ == "dateStr"@ && q.query@[1].value@ == date_chars(*date)
            },
    {
        let session = match self.get_user_session() {
            Ok(s) => s,
            Err(e) => {
                return Err(e);
            },
        };
        let url = self.endpoint_url("app/course/get_stu_course_sched_week.action");
        let date_str = format_date_to_str(date);
        let mut query: Vec<QueryParam> = Vec::new();
        query.push(QueryParam { key: String::from_str("id"), value: session.id.clone() });
        query.push(QueryParam { key: String::from_str("dateStr"), value: date_str });
        Ok(
            HttpRequest {
                method: Method::Get,
                url,
                session_header: Some(session.session_id.clone()),
                query,
            },
        )
    }
}

/// Wall-clock order on datetimes in the shared fixed offset:
/// lexicographic on the civil fields.
pub open spec fn datetime_le(a: DateTime, b: DateTime) -> bool {
    if a.date.year != b.date.year {
        a.date.year < b.date.year
    } else if a.date.month != b.date.month {
        a.date.month < b.date.month
    } else if a.date.day != b.date.day {
        a.date.day < b.date.day
    } else if a.hour != b.hour {
        a.hour < b.hour
    } else if a.minute != b.minute {
        a.minute < b.minute
    } else {
        a.second <= b.second
    }
}

/// The schedule entry is in progress at instant `now`.
pub open spec fn schedule_covers(s: Schedule, now: DateTime) -> bool {
    datetime_le(s.begin_time, now) && datetime_le(now, s.end_time)
}

/// Decides [`datetime_le`].
pub fn check_datetime_le(a: &DateTime, b: &DateTime) -> (r: bool)
    ensures
        r == datetime_le(*a, *b),
{
    if a.date.year != b.date.year {
        a.date.year < b.date.year
    } else if a.date.month != b.date.month {
        a.date.month < b.date.month
    } else if a.date.day != b.date.day {
        a.date.day < b.date.day
    } else if a.hour != b.hour {
        a.hour < b.hour
    } else if a.minute != b.minute {
        a.minute < b.minute
    } else {
        a.second <= b.second
    }
}

/// Finds the first schedule entry that is in progress at instant `now`,
/// if any: the index of the first entry whose begin and end times
/// enclose `now`.
pub fn find_current_schedule(schedules: &Vec<Schedule>, now: &DateTime) -> (r: Option<usize>)
    ensures
        match r {
            Some(i) => {
                &&& i < schedules@.len()
                &&& schedule_covers(schedules@[i as int], *now)
                &&& forall|j: int| 0 <= j < i ==> !schedule_covers(#[trigger] schedules@[j], *now)
            },
            None => forall|j: int|
                0 <= j < schedules@.len() ==> !schedule_covers(#[trigger] schedules@[j], *now),
        },
{
    let mut i: usize = 0;
    while i < schedules.len()
        invariant
            i <= schedules@.len(),
            forall|j: int| 0 <= j < i ==> !schedule_covers(#[trigger] schedules@[j], *now),
        decreases schedules@.len() - i,
    {
        let s = &schedules[i];
        if check_datetime_le(&s.begin_time, now) && check_datetime_le(now, &s.end_time) {
            return Some(i);
        }
        i = i + 1;
    }
    None
}

} // verus!
