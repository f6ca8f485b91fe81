use task_backend::error::AppError;
use task_backend::middleware::{get_user_id, AuthMiddleware};

fn unauthorized<T: std::fmt::Debug>(r: Result<T, AppError>) -> String {
    match r {
        Err(AppError::Unauthorized(m)) => m,
        other => panic!("expected unauthorized, got {:?}", other),
    }
}

#[test]
fn bearer_header_rules() {
    let svc = AuthMiddleware.new_transform(());
    assert_eq!(unauthorized(svc.bearer_token(None)), "Missing authorization header");
    assert_eq!(unauthorized(svc.bearer_token(Some("Basic abc"))), "Invalid authorization header");
    assert_eq!(unauthorized(svc.bearer_token(Some("bearer abc"))), "Invalid authorization header");
    assert_eq!(unauthorized(svc.bearer_token(Some("Bearer"))), "Invalid authorization header");
    assert_eq!(unauthorized(svc.bearer_token(Some(""))), "Invalid authorization header");
    assert_eq!(svc.bearer_token(Some("Bearer abc.def")).unwrap(), "abc.def");
    assert_eq!(svc.bearer_token(Some("Bearer ")).unwrap(), "");
    assert_eq!(svc.bearer_token(Some("Bearer  two")).unwrap(), " two");
    assert_eq!(svc.bearer_token(Some("Bearer tøken")).unwrap(), "tøken");
}

#[test]
fn decoded_subject_is_admitted() {
    let svc = AuthMiddleware.new_transform(7u8);
    assert_eq!(**svc.service(), 7u8);
    assert_eq!(svc.accept_subject(Some("user-9".to_string())).unwrap(), "user-9");
    assert_eq!(unauthorized(svc.accept_subject(None)), "Invalid or expired token");
}

#[test]
fn handlers_find_the_admitted_user() {
    assert_eq!(get_user_id(Some("user-9".to_string())).unwrap(), "user-9");
    match get_user_id(None) {
        Err(AppError::Internal(m)) => assert_eq!(m, "User ID not found"),
        other => panic!("{:?}", other),
    }
}
