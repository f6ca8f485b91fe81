use task_backend::db::{check_status, email_taken, page_offset};
use task_backend::error::{AppError, ErrorKind};
use task_backend::handlers::{
    auth_response, login_lookup, login_password, reject_taken_email, validate_login,
    validate_new_task, validate_registration, PaginationQuery,
};
use task_backend::models::{
    task_responses, ApiResponse, CreateTaskRequest, LoginRequest, RegisterRequest, Task,
    TaskStatus, User,
};
use task_backend::text::{is_blank, same_text, starts_with};

fn bad_request(r: Result<(), AppError>) -> String {
    match r {
        Err(AppError::BadRequest(m)) => m,
        other => panic!("expected a bad request, got {:?}", other),
    }
}

fn user(id: &str) -> User {
    User {
        id: id.to_string(),
        username: "ana".to_string(),
        email: "ana@example.com".to_string(),
        password: "hash".to_string(),
        created_at: "2024-01-01T00:00:00+00:00".to_string(),
        updated_at: "2024-01-02T00:00:00+00:00".to_string(),
    }
}

#[test]
fn blank_follows_unicode_white_space() {
    assert!(is_blank(""));
    assert!(is_blank(" \t\n\r\u{0B}\u{0C}"));
    assert!(is_blank("\u{85}\u{A0}\u{1680}\u{2000}\u{200A}\u{2028}\u{2029}\u{202F}\u{205F}\u{3000}"));
    assert!(!is_blank(" a "));
    assert!(!is_blank("\u{200B}"));
    assert!(!is_blank("\u{FEFF}"));
    for s in [" x", "\u{200B}", "\u{3000}", "\t\u{85}", "ok"] {
        assert_eq!(is_blank(s), s.trim().is_empty());
    }
}

#[test]
fn text_helpers() {
    assert!(same_text("pending", "pending"));
    assert!(!same_text("pending", "Pending"));
    assert!(!same_text("pend", "pending"));
    assert!(starts_with("Bearer x", "Bearer "));
    assert!(!starts_with("Bear", "Bearer "));
}

#[test]
fn status_spellings_round_trip() {
    for s in [TaskStatus::Pending, TaskStatus::InProgress, TaskStatus::Completed] {
        assert_eq!(TaskStatus::from_str(s.as_str()), Some(s));
    }
    assert_eq!(TaskStatus::Pending.as_str(), "pending");
    assert_eq!(TaskStatus::InProgress.as_str(), "in_progress");
    assert_eq!(TaskStatus::Completed.as_str(), "completed");
    assert_eq!(TaskStatus::from_str("Pending"), None);
    assert_eq!(TaskStatus::from_str("done"), None);
    assert_eq!(TaskStatus::from_str(""), None);
}

#[test]
fn check_status_refuses_unknown_values() {
    assert!(matches!(check_status("completed"), Ok(TaskStatus::Completed)));
    match check_status("archived") {
        Err(AppError::BadRequest(m)) => assert_eq!(m, "Invalid status value"),
        other => panic!("{:?}", other),
    }
}

#[test]
fn page_defaults_and_offsets() {
    let q = PaginationQuery { page: None, page_size: None };
    assert_eq!(q.page_or_default(), 0);
    assert_eq!(q.page_size_or_default(), 5);
    let q = PaginationQuery { page: Some(3), page_size: Some(20) };
    assert_eq!(q.page_or_default(), 3);
    assert_eq!(q.page_size_or_default(), 20);
    assert_eq!(page_offset(2, 5), Some(10));
    assert_eq!(page_offset(3, 5), Some(15));
    assert_eq!(page_offset(0, 5), Some(0));
    assert_eq!(page_offset(-1, 5), Some(-5));
    assert_eq!(page_offset(i64::MAX, 2), None);
    assert_eq!(page_offset(i64::MIN, -1), None);
}

#[test]
fn email_taken_reads_the_count() {
    assert!(!email_taken(0));
    assert!(email_taken(1));
    assert!(email_taken(3));
}

#[test]
fn new_task_validation() {
    let ok = CreateTaskRequest { title: "t".to_string(), description: "d".to_string() };
    assert!(validate_new_task(&ok).is_ok());
    let r = CreateTaskRequest { title: "  ".to_string(), description: "".to_string() };
    assert_eq!(bad_request(validate_new_task(&r)), "Title is required");
    let r = CreateTaskRequest { title: "t".to_string(), description: "\n\t".to_string() };
    assert_eq!(bad_request(validate_new_task(&r)), "Description is required");
}

#[test]
fn registration_validation() {
    let req = |u: &str, e: &str, p: &str| RegisterRequest {
        username: u.to_string(),
        email: e.to_string(),
        password: p.to_string(),
    };
    assert!(validate_registration(&req("ana", "a@b.c", "secret")).is_ok());
    assert_eq!(bad_request(validate_registration(&req(" ", "", ""))), "Username is required");
    assert_eq!(bad_request(validate_registration(&req("ana", " ", ""))), "Email is required");
    assert_eq!(
        bad_request(validate_registration(&req("ana", "a@b.c", "12345"))),
        "Password must be at least 6 characters"
    );
    // six bytes of UTF-8, three characters
    assert!(validate_registration(&req("ana", "a@b.c", "ééé")).is_ok());
}

#[test]
fn taken_email_is_a_conflict() {
    assert!(reject_taken_email(false).is_ok());
    match reject_taken_email(true) {
        Err(AppError::Conflict(m)) => assert_eq!(m, "Email already registered"),
        other => panic!("{:?}", other),
    }
}

#[test]
fn login_validation() {
    let req = |e: &str, p: &str| LoginRequest { email: e.to_string(), password: p.to_string() };
    assert!(validate_login(&req("a@b.c", "x")).is_ok());
    assert_eq!(bad_request(validate_login(&req(" ", "x"))), "Email is required");
    assert_eq!(bad_request(validate_login(&req("a@b.c", ""))), "Password is required");
    // a password of spaces is not empty
    assert!(validate_login(&req("a@b.c", "  ")).is_ok());
}

#[test]
fn login_failures_look_alike() {
    let unknown = login_lookup(Err(AppError::NotFound("Resource not found".to_string())));
    let wrong = login_password(false);
    let m1 = match unknown {
        Err(AppError::BadRequest(m)) => m,
        other => panic!("{:?}", other),
    };
    let m2 = bad_request(wrong);
    assert_eq!(m1, "Invalid email or password");
    assert_eq!(m1, m2);
}

#[test]
fn login_lookup_passes_other_results_on() {
    match login_lookup(Ok(user("u1"))) {
        Ok(u) => assert_eq!(u.id, "u1"),
        other => panic!("{:?}", other),
    }
    match login_lookup(Err(AppError::Internal("db down".to_string()))) {
        Err(AppError::Internal(m)) => assert_eq!(m, "db down"),
        other => panic!("{:?}", other),
    }
    assert!(login_password(true).is_ok());
}

#[test]
fn auth_response_hides_the_hash() {
    let r = auth_response("tok".to_string(), user("u1"));
    assert_eq!(r.token, "tok");
    assert_eq!(r.user.id, "u1");
    assert_eq!(r.user.email, "ana@example.com");
    assert_eq!(r.user.created_at, "2024-01-01T00:00:00+00:00");
    assert_eq!(r.user.updated_at, "2024-01-02T00:00:00+00:00");
}

#[test]
fn task_responses_keep_order() {
    let task = |id: &str| Task {
        id: id.to_string(),
        user_id: "u".to_string(),
        slug: "TBD-001".to_string(),
        title: format!("title {}", id),
        description: "d".to_string(),
        status: "pending".to_string(),
        created_at: "c".to_string(),
        updated_at: "u".to_string(),
    };
    let r = task_responses(vec![task("a"), task("b"), task("c")]);
    let ids: Vec<&str> = r.iter().map(|t| t.id.as_str()).collect();
    assert_eq!(ids, vec!["a", "b", "c"]);
    assert_eq!(r[1].title, "title b");
    assert!(task_responses(vec![]).is_empty());
    let env = ApiResponse::ok(r);
    assert!(env.success);
    assert_eq!(env.data.len(), 3);
}

#[test]
fn error_statuses() {
    let cases = [
        (ErrorKind::BadRequest, 400),
        (ErrorKind::Conflict, 409),
        (ErrorKind::NotFound, 404),
        (ErrorKind::Unauthorized, 401),
        (ErrorKind::Internal, 500),
    ];
    for (k, code) in cases {
        let e = AppError::new(k, "m");
        assert_eq!(e.status_code(), code);
        assert_eq!(e.error_kind(), k);
        assert_eq!(e.message(), "m");
    }
}
