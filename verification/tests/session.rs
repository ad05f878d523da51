//! Tests for session state: login application, the session gate on
//! authenticated operations, and the end-to-end login/courses flow.

use ucas_iclass::codec::Date;
use ucas_iclass::decode_envelope;
use ucas_iclass::request::Method;
use ucas_iclass::Course;
use ucas_iclass::IClass;
use ucas_iclass::IClassError;
use ucas_iclass::RawResponse;
use ucas_iclass::Response;
use ucas_iclass::UserSessionInfo;
use ucas_iclass::API_ROOT;

fn session() -> UserSessionInfo {
    UserSessionInfo {
        id: String::from("12345"),
        session_id: String::from("test-session-token"),
        real_name: String::from("A Student"),
        student_no: String::from("2025012345"),
    }
}

#[test]
fn new_client_has_no_session() {
    let c = IClass::new();
    assert!(c.user_session.is_none());
    assert_eq!(c.api_root.as_str(), API_ROOT);
}

#[test]
fn with_api_root_keeps_url() {
    let c = IClass::with_api_root(String::from("https://example.invalid/"));
    assert_eq!(c.api_root.as_str(), "https://example.invalid/");
    assert!(c.user_session.is_none());
}

#[test]
fn get_user_session_fails_when_absent() {
    let c = IClass::new();
    assert_eq!(c.get_user_session().unwrap_err(), IClassError::NotLoggedIn);
}

#[test]
fn operations_without_session_are_not_logged_in() {
    let c = IClass::new();
    let date = Date { year: 2025, month: 10, day: 17 };
    assert_eq!(c.query_courses_request().unwrap_err(), IClassError::NotLoggedIn);
    assert_eq!(c.query_daily_schedule_request(&date).unwrap_err(), IClassError::NotLoggedIn);
    assert_eq!(c.query_weekly_schedule_request(&date).unwrap_err(), IClassError::NotLoggedIn);
    assert_eq!(c.check_in_by_uuid_request("0123456789abcdef0123456789abcdef", 0).unwrap_err(), IClassError::NotLoggedIn);
    assert_eq!(c.check_in_by_id_request("123456", 0).unwrap_err(), IClassError::NotLoggedIn);
}

#[test]
fn successful_login_stores_session() {
    let mut c = IClass::new();
    let resp = Response { status: 0, err_code: None, err_msg: None, result: Some(session()) };
    assert!(c.apply_login_response(resp).is_ok());
    let s = c.get_user_session().unwrap();
    assert_eq!(s.session_id.as_str(), "test-session-token");
    assert_eq!(s.id.as_str(), "12345");
}

#[test]
fn failed_login_keeps_prior_session() {
    let mut c = IClass::new();
    c.store_session(session());
    let resp = Response::<UserSessionInfo> {
        status: 107,
        err_code: None,
        err_msg: None,
        result: None,
    };
    assert_eq!(c.apply_login_response(resp).unwrap_err(), IClassError::AuthenticationFailed);
    assert!(c.user_session.is_some());
    assert_eq!(c.user_session.as_ref().unwrap().id.as_str(), "12345");
}

#[test]
fn new_login_replaces_session_wholesale() {
    let mut c = IClass::new();
    c.store_session(session());
    let other = UserSessionInfo {
        id: String::from("67890"),
        session_id: String::from("test-session-token"),
        real_name: String::from("Someone Else"),
        student_no: String::from("2025067890"),
    };
    let resp = Response { status: 0, err_code: None, err_msg: None, result: Some(other) };
    assert!(c.apply_login_response(resp).is_ok());
    assert_eq!(c.user_session.as_ref().unwrap().id.as_str(), "67890");
}

#[test]
fn login_request_carries_credentials() {
    let c = IClass::new();
    let q = c.login_request("myuser", "mypass");
    assert_eq!(q.method, Method::Post);
    assert_eq!(q.url.as_str(), "https://iclass.ucas.edu.cn:8181/app/user/login.action");
    assert!(q.session_header.is_none());
    assert_eq!(q.query.len(), 2);
    assert_eq!(q.query[0].key.as_str(), "phone");
    assert_eq!(q.query[0].value.as_str(), "myuser");
    assert_eq!(q.query[1].key.as_str(), "password");
    assert_eq!(q.query[1].value.as_str(), "mypass");
}

#[test]
fn login_then_courses_end_to_end() {
    // Login reply with valid credentials populates the session with a
    // non-empty token.
    let mut c = IClass::new();
    let raw_login = RawResponse {
        status: String::from("0"),
        err_code: None,
        err_msg: None,
        result: Some(session()),
    };
    let resp = decode_envelope(raw_login).unwrap();
    c.apply_login_response(resp).unwrap();
    assert!(!c.get_user_session().unwrap().session_id.is_empty());

    // The course query is now buildable, and a well-formed reply decodes
    // into courses whose every element has a non-empty name.
    let q = c.query_courses_request().unwrap();
    assert_eq!(q.session_header.as_deref(), Some("test-session-token"));
    let raw_courses = RawResponse {
        status: String::from("0"),
        err_code: None,
        err_msg: None,
        result: Some(vec![
            Course {
                course_id: String::from("B01GB001Y"),
                course_name: String::from("Algorithms"),
                classroom_name: String::from("Teaching Building 101"),
                teacher_name: String::from("Prof. Li"),
            },
            Course {
                course_id: String::from("B01GB002Y"),
                course_name: String::from("Operating Systems"),
                classroom_name: String::from("Teaching Building 202"),
                teacher_name: String::from("Prof. Wang"),
            },
        ]),
    };
    let courses = decode_envelope(raw_courses).unwrap().into_result().unwrap();
    assert_eq!(courses.len(), 2);
    for course in &courses {
        assert!(!course.course_name.is_empty());
    }
}
