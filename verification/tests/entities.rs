//! Tests for entity decoding, the current-schedule search, and display
//! rendering.

use ucas_iclass::codec::Date;
use ucas_iclass::codec::DateTime;
use ucas_iclass::display_check_in_result;
use ucas_iclass::display_course;
use ucas_iclass::display_daily_schedule;
use ucas_iclass::display_schedule;
use ucas_iclass::query::decode_daily_schedule;
use ucas_iclass::query::decode_daily_schedules;
use ucas_iclass::query::decode_schedule;
use ucas_iclass::query::decode_schedules;
use ucas_iclass::query::decode_semester;
use ucas_iclass::query::decode_semesters;
use ucas_iclass::query::find_current_schedule;
use ucas_iclass::query::RawDailySchedule;
use ucas_iclass::CheckInResult;
use ucas_iclass::Course;
use ucas_iclass::IClassError;
use ucas_iclass::RawCheckInResult;
use ucas_iclass::RawSchedule;
use ucas_iclass::RawSemester;
use ucas_iclass::Schedule;

fn course() -> Course {
    Course {
        course_id: String::from("B01GB001Y"),
        course_name: String::from("Algorithms"),
        classroom_name: String::from("Teaching Building 101"),
        teacher_name: String::from("Prof. Li"),
    }
}

fn raw_schedule(sign: &str, begin: &str, end: &str) -> RawSchedule {
    RawSchedule {
        course: course(),
        id: String::from("41254913"),
        uuid: String::from("0123456789abcdef0123456789abcdef"),
        sign_status: String::from(sign),
        class_begin_time: String::from(begin),
        class_end_time: String::from(end),
    }
}

fn dt(y: u32, mo: u32, d: u32, h: u32, mi: u32, s: u32) -> DateTime {
    DateTime { date: Date { year: y, month: mo, day: d }, hour: h, minute: mi, second: s }
}

#[test]
fn schedule_decodes() {
    let raw = raw_schedule("1", "2025-10-17 08:30:00", "2025-10-17 10:10:00");
    let s = decode_schedule(&raw).unwrap();
    assert_eq!(s.course, course());
    assert_eq!(s.id.as_str(), "41254913");
    assert_eq!(s.uuid.as_str(), "0123456789abcdef0123456789abcdef");
    assert!(s.checked_in);
    assert_eq!(s.begin_time, dt(2025, 10, 17, 8, 30, 0));
    assert_eq!(s.end_time, dt(2025, 10, 17, 10, 10, 0));
}

#[test]
fn schedule_bad_fields_fail() {
    let bad_sign = raw_schedule("yes", "2025-10-17 08:30:00", "2025-10-17 10:10:00");
    assert_eq!(decode_schedule(&bad_sign).unwrap_err(), IClassError::FormatError);
    let bad_begin = raw_schedule("0", "2025-10-17", "2025-10-17 10:10:00");
    assert_eq!(decode_schedule(&bad_begin).unwrap_err(), IClassError::FormatError);
    let bad_end = raw_schedule("0", "2025-10-17 08:30:00", "2025-13-17 10:10:00");
    assert_eq!(decode_schedule(&bad_end).unwrap_err(), IClassError::FormatError);
}

#[test]
fn schedule_list_aborts_on_first_error() {
    let raws = vec![
        raw_schedule("1", "2025-10-17 08:30:00", "2025-10-17 10:10:00"),
        raw_schedule("2", "2025-10-17 10:30:00", "2025-10-17 12:10:00"),
    ];
    assert_eq!(decode_schedules(&raws).unwrap_err(), IClassError::FormatError);
}

#[test]
fn schedule_list_keeps_order() {
    let raws = vec![
        raw_schedule("0", "2025-10-17 08:30:00", "2025-10-17 10:10:00"),
        raw_schedule("1", "2025-10-17 10:30:00", "2025-10-17 12:10:00"),
    ];
    let v = decode_schedules(&raws).unwrap();
    assert_eq!(v.len(), 2);
    assert!(!v[0].checked_in);
    assert!(v[1].checked_in);
    assert_eq!(v[0].begin_time.hour, 8);
    assert_eq!(v[1].begin_time.hour, 10);
}

#[test]
fn daily_schedule_on_one_day() {
    // A day with exactly one scheduled session: the entry's begin and
    // end times fall on that date in the fixed offset.
    let raw = RawDailySchedule {
        date_str: String::from("20251017"),
        schedules: vec![raw_schedule("0", "2025-10-17 08:30:00", "2025-10-17 10:10:00")],
    };
    let day = decode_daily_schedule(&raw).unwrap();
    assert_eq!(day.date, Date { year: 2025, month: 10, day: 17 });
    assert_eq!(day.schedules.len(), 1);
    let entry = &day.schedules[0];
    assert_eq!(entry.begin_time.date, day.date);
    assert_eq!(entry.end_time.date, day.date);
}

#[test]
fn weekly_schedule_decodes_days_in_order() {
    let raws = vec![
        RawDailySchedule { date_str: String::from("20251013"), schedules: vec![] },
        RawDailySchedule {
            date_str: String::from("20251014"),
            schedules: vec![raw_schedule("0", "2025-10-14 08:30:00", "2025-10-14 10:10:00")],
        },
    ];
    let days = decode_daily_schedules(&raws).unwrap();
    assert_eq!(days.len(), 2);
    assert_eq!(days[0].date, Date { year: 2025, month: 10, day: 13 });
    assert_eq!(days[0].schedules.len(), 0);
    assert_eq!(days[1].date, Date { year: 2025, month: 10, day: 14 });
    assert_eq!(days[1].schedules.len(), 1);
}

#[test]
fn weekly_schedule_bad_date_fails() {
    let raws = vec![RawDailySchedule { date_str: String::from("2025-10-13"), schedules: vec![] }];
    assert_eq!(decode_daily_schedules(&raws).unwrap_err(), IClassError::FormatError);
}

#[test]
fn semester_decodes() {
    let raw = RawSemester {
        code: String::from("2025A"),
        name: String::from("Autumn 2025"),
        begin_date: String::from("2025-09-01"),
        end_date: String::from("2026-01-18"),
        year_status: String::from("1"),
    };
    let s = decode_semester(&raw).unwrap();
    assert!(s.is_current);
    assert_eq!(s.code.as_str(), "2025A");
    assert_eq!(s.name.as_str(), "Autumn 2025");

    let bad = RawSemester { year_status: String::from("current"), ..raw };
    assert_eq!(decode_semester(&bad).unwrap_err(), IClassError::FormatError);
}

#[test]
fn semesters_decode_as_list() {
    let raws = vec![
        RawSemester {
            code: String::from("2025A"),
            name: String::from("Autumn 2025"),
            begin_date: String::from("2025-09-01"),
            end_date: String::from("2026-01-18"),
            year_status: String::from("0"),
        },
    ];
    let v = decode_semesters(&raws).unwrap();
    assert_eq!(v.len(), 1);
    assert!(!v[0].is_current);
}

#[test]
fn check_in_result_decodes() {
    let raw = RawCheckInResult { id: String::from("41254913"), status: String::from("1") };
    let c = ucas_iclass::checkin::decode_check_in_result(&raw).unwrap();
    assert_eq!(c.id.as_str(), "41254913");
    assert!(c.status);
    let bad = RawCheckInResult { id: String::from("41254913"), status: String::from("ok") };
    assert_eq!(
        ucas_iclass::checkin::decode_check_in_result(&bad).unwrap_err(),
        IClassError::FormatError
    );
}

fn schedule(begin: DateTime, end: DateTime) -> Schedule {
    Schedule {
        course: course(),
        id: String::from("1"),
        uuid: String::from("0123456789abcdef0123456789abcdef"),
        checked_in: false,
        begin_time: begin,
        end_time: end,
    }
}

#[test]
fn current_schedule_found_in_window() {
    let schedules = vec![
        schedule(dt(2025, 10, 17, 8, 30, 0), dt(2025, 10, 17, 10, 10, 0)),
        schedule(dt(2025, 10, 17, 10, 30, 0), dt(2025, 10, 17, 12, 10, 0)),
    ];
    let now = dt(2025, 10, 17, 11, 0, 0);
    assert_eq!(find_current_schedule(&schedules, &now), Some(1));
    let before = dt(2025, 10, 17, 7, 0, 0);
    assert_eq!(find_current_schedule(&schedules, &before), None);
    let boundary = dt(2025, 10, 17, 8, 30, 0);
    assert_eq!(find_current_schedule(&schedules, &boundary), Some(0));
}

#[test]
fn display_course_text() {
    let s = display_course(&course());
    assert_eq!(s.as_str(), "Algorithms (B01GB001Y) - Prof. Li @ Teaching Building 101");
}

#[test]
fn display_schedule_text() {
    let mut s = schedule(dt(2025, 10, 17, 8, 30, 0), dt(2025, 10, 17, 10, 10, 0));
    let text = display_schedule(&s);
    assert_eq!(
        text.as_str(),
        "[ ] [2025-10-17 08:30:00 ~ 2025-10-17 10:10:00] id=1 uuid=0123456789abcdef0123456789abcdef Algorithms"
    );
    s.checked_in = true;
    let text2 = display_schedule(&s);
    assert!(text2.as_str().starts_with("[\u{2713}] ["));
}

#[test]
fn display_daily_schedule_text() {
    let raw = RawDailySchedule {
        date_str: String::from("20251017"),
        schedules: vec![raw_schedule("0", "2025-10-17 08:30:00", "2025-10-17 10:10:00")],
    };
    let day = decode_daily_schedule(&raw).unwrap();
    let text = display_daily_schedule(&day);
    assert_eq!(
        text.as_str(),
        "Schedule on 2025-10-17:\n  [2025-10-17 08:30:00 ~ 2025-10-17 10:10:00] id=41254913 uuid=0123456789abcdef0123456789abcdef Algorithms\n"
    );
}

#[test]
fn display_check_in_text() {
    let ok = CheckInResult { id: String::from("7"), status: true };
    assert_eq!(display_check_in_result(&ok).as_str(), "Success (#7)");
    let failed = CheckInResult { id: String::from("8"), status: false };
    assert_eq!(display_check_in_result(&failed).as_str(), "Failed (#8)");
}
