use task_backend::db::{new_task_row, new_user_row};
use task_backend::models::{CreateTaskRequest, RegisterRequest};
use task_backend::utils::{format_slug, generate_slug, new_id};

#[test]
fn slug_pads_small_numbers_to_three_digits() {
    assert_eq!(format_slug(0), "TBD-000");
    assert_eq!(format_slug(7), "TBD-007");
    assert_eq!(format_slug(42), "TBD-042");
    assert_eq!(format_slug(999), "TBD-999");
}

#[test]
fn slug_keeps_every_digit_of_large_numbers() {
    assert_eq!(format_slug(1000), "TBD-1000");
    assert_eq!(format_slug(4294967295), "TBD-4294967295");
}

#[test]
fn generated_slugs_have_three_digits() {
    for _ in 0..200 {
        let s = generate_slug();
        assert_eq!(s.len(), 7);
        assert!(s.starts_with("TBD-"));
        assert!(s[4..].chars().all(|c| c.is_ascii_digit()));
    }
}

fn is_lower_hex(c: char) -> bool {
    c.is_ascii_digit() || ('a'..='f').contains(&c)
}

#[test]
fn ids_are_hyphenated_version_four_uuids() {
    for _ in 0..100 {
        let id = new_id();
        let chars: Vec<char> = id.chars().collect();
        assert_eq!(chars.len(), 36);
        for (i, c) in chars.iter().enumerate() {
            if i == 8 || i == 13 || i == 18 || i == 23 {
                assert_eq!(*c, '-');
            } else {
                assert!(is_lower_hex(*c), "{} in {}", c, id);
            }
        }
        assert_eq!(chars[14], '4');
        assert!(matches!(chars[19], '8' | '9' | 'a' | 'b'));
        let parsed = uuid::Uuid::parse_str(&id).unwrap();
        assert_eq!(parsed.get_version_num(), 4);
        assert_eq!(parsed.to_string(), id);
    }
}

#[test]
fn ids_differ_between_calls() {
    let a = new_id();
    let b = new_id();
    assert_ne!(a, b);
}

fn is_utc_rfc3339(t: &str) -> bool {
    let c: Vec<char> = t.chars().collect();
    let digits = |lo: usize, hi: usize| c[lo..hi].iter().all(|x| x.is_ascii_digit());
    if c.len() < 25 || c.len() > 38 || !t.ends_with("+00:00") {
        return false;
    }
    let y = if c[0] == '+' { (1..c.len()).find(|&i| c[i] == '-').unwrap() } else { 4 };
    let year_ok = if y == 4 { digits(0, 4) } else { (y == 6 || y == 7) && digits(1, y) };
    let f = c.len() - 6 - (y + 15);
    let frac_ok = f == 0 || ([4, 7, 10].contains(&f) && c[y + 15] == '.' && digits(y + 16, y + 15 + f));
    year_ok
        && c[y] == '-'
        && digits(y + 1, y + 3)
        && c[y + 3] == '-'
        && digits(y + 4, y + 6)
        && c[y + 6] == 'T'
        && digits(y + 7, y + 9)
        && c[y + 9] == ':'
        && digits(y + 10, y + 12)
        && c[y + 12] == ':'
        && digits(y + 13, y + 15)
        && frac_ok
}

#[test]
fn timestamps_have_the_rfc3339_utc_layout() {
    assert!(is_utc_rfc3339("2024-05-01T10:00:00+00:00"));
    assert!(is_utc_rfc3339("2024-05-01T10:00:00.123456789+00:00"));
    assert!(is_utc_rfc3339("+262143-12-31T23:59:59.999+00:00"));
    assert!(!is_utc_rfc3339("abcdefghijklmnopqrs+00:00"));
    let req = CreateTaskRequest { title: "t".to_string(), description: "d".to_string() };
    for _ in 0..20 {
        let t = new_task_row(&req, "u");
        assert!(is_utc_rfc3339(&t.created_at), "{}", t.created_at);
    }
}

#[test]
fn new_task_row_starts_pending_with_equal_times() {
    let req = CreateTaskRequest { title: "Write report".to_string(), description: "Quarterly numbers".to_string() };
    let t = new_task_row(&req, "user-1");
    assert_eq!(t.user_id, "user-1");
    assert_eq!(t.title, "Write report");
    assert_eq!(t.description, "Quarterly numbers");
    assert_eq!(t.status, "pending");
    assert_eq!(t.created_at, t.updated_at);
    assert!(t.created_at.ends_with("+00:00"));
    assert_eq!(t.id.len(), 36);
    assert_eq!(t.slug.len(), 7);
    assert!(t.slug.starts_with("TBD-"));
}

#[test]
fn new_user_row_stores_the_hash() {
    let req = RegisterRequest {
        username: "ana".to_string(),
        email: "ana@example.com".to_string(),
        password: "secret123".to_string(),
    };
    let u = new_user_row(&req, "$2b$12$hash");
    assert_eq!(u.username, "ana");
    assert_eq!(u.email, "ana@example.com");
    assert_eq!(u.password, "$2b$12$hash");
    assert_eq!(u.created_at, u.updated_at);
    assert_eq!(u.id.len(), 36);
}
