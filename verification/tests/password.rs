use task_backend::error::AppError;
use task_backend::password::{hash_password, verify_password};
use task_backend::text::{char_is_whitespace, is_blank};

#[test]
fn a_password_matches_its_own_hash() {
    let h = hash_password("correct horse").unwrap();
    assert_eq!(h.len(), 60);
    assert!(h.starts_with("$2b$12$"));
    assert_eq!(verify_password("correct horse", &h).unwrap(), true);
    assert_eq!(verify_password("correct horsE", &h).unwrap(), false);
}

#[test]
fn verify_against_a_low_cost_hash() {
    let h = bcrypt::hash("pässwörd", 4).unwrap();
    assert!(verify_password("pässwörd", &h).unwrap());
    assert!(!verify_password("passwort", &h).unwrap());
}

#[test]
fn verify_refuses_text_that_is_no_hash() {
    match verify_password("x", "plain") {
        Err(AppError::Internal(m)) => assert_eq!(m, "Failed to verify password"),
        other => panic!("{:?}", other),
    }
}

#[test]
fn white_space_agrees_with_std_on_every_char() {
    for v in 0u32..=0x10FFFF {
        if let Some(c) = char::from_u32(v) {
            assert_eq!(char_is_whitespace(c), c.is_whitespace(), "U+{:04X}", v);
        }
    }
    assert!(is_blank("\u{2003}\u{3000}"));
}
