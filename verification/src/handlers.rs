//! The decisions of the HTTP handlers: defaults of the page query, the
//! validation of request bodies, and how registration and login answer what
//! the storage layer and the password check report.

use vstd::prelude::*;
use vstd::utf8::encode_utf8;
use crate::error::{AppError, ErrorKind};
use crate::models::{
    AuthResponse, CreateTaskRequest, LoginRequest, RegisterRequest, User, UserResponse,
};
use crate::text::{blank, is_blank, is_white_space};

verus! {

/// The query string of the task list: an optional page number and page size.
#[derive(Debug)]
pub struct PaginationQuery {
    pub page: Option<i64>,
    pub page_size: Option<i64>,
}

/// The page shown when none is asked for.
pub const DEFAULT_PAGE: i64 = 0;

/// The number of tasks on a page when no size is asked for.
pub const DEFAULT_PAGE_SIZE: i64 = 5;

impl PaginationQuery {
    /// The page asked for, or the first page (0).
    pub fn page_or_default(&self) -> (p: i64)
        ensures
            p == match self.page {
                Some(p) => p,
                None => DEFAULT_PAGE,
            },
    {
        match self.page {
            Some(p) => p,
            None => DEFAULT_PAGE,
        }
    }

    /// The page size asked for, or 5.
    pub fn page_size_or_default(&self) -> (s: i64)
        ensures
            s == match self.page_size {
                Some(s) => s,
                None => DEFAULT_PAGE_SIZE,
            },
    {
        match self.page_size {
            Some(s) => s,
            None => DEFAULT_PAGE_SIZE,
        }
    }
}

/// The first problem with a request to create a task, if any: a blank
/// title, then a blank description.
pub open spec fn new_task_problem(title: Seq<char>, description: Seq<char>) -> Option<Seq<char>> {
    if blank(title) {
        Some("Title is required"@)
    } else if blank(description) {
        Some("Description is required"@)
    } else {
        None
    }
}

/// Validates a request to create a task: the title and the description must
/// each hold a character that is not white space.
pub fn validate_new_task(req: &CreateTaskRequest) -> (r: Result<(), AppError>)
    ensures
        match new_task_problem(req.title@, req.description@) {
            None => r is Ok,
            Some(m) => r matches Err(e) && e.is(ErrorKind::BadRequest, m),
        },
{
    if is_blank(req.title.as_str()) {
        return Err(AppError::new(ErrorKind::BadRequest, "Title is required"));
    }
    if is_blank(req.description.as_str()) {
        return Err(AppError::new(ErrorKind::BadRequest, "Description is required"));
    }
    Ok(())
}

/// The least length of a password, in bytes of UTF-8.
pub const MIN_PASSWORD_BYTES: usize = 6;

/// The first problem with a registration request, if any: a blank user
/// name, a blank email, then a password shorter than six bytes.
pub open spec fn registration_problem(
    username: Seq<char>,
    email: Seq<char>,
    password: Seq<char>,
) -> Option<Seq<char>> {
    if blank(username) {
        Some("Username is required"@)
    } else if blank(email) {
        Some("Email is required"@)
    } else if encode_utf8(password).len() < MIN_PASSWORD_BYTES {
        Some("Password must be at least 6 characters"@)
    } else {
        None
    }
}

/// Validates a registration request.
pub fn validate_registration(req: &RegisterRequest) -> (r: Result<(), AppError>)
    ensures
        match registration_problem(req.username@, req.email@, req.password@) {
            None => r is Ok,
            Some(m) => r matches Err(e) && e.is(ErrorKind::BadRequest, m),
        },
{
    if is_blank(req.username.as_str()) {
        return Err(AppError::new(ErrorKind::BadRequest, "Username is required"));
    }
    if is_blank(req.email.as_str()) {
        return Err(AppError::new(ErrorKind::BadRequest, "Email is required"));
    }
    if req.password.as_str().as_bytes().len() < MIN_PASSWORD_BYTES {
        return Err(
            AppError::new(ErrorKind::BadRequest, "Password must be at least 6 characters"),
        );
    }
    Ok(())
}

/// The message of the conflict that refuses an email already registered.
pub open spec fn email_taken_message() -> Seq<char> {
    "Email already registered"@
}

/// Refuses a registration whose email is already registered.
pub fn reject_taken_email(exists: bool) -> (r: Result<(), AppError>)
    ensures
        r is Ok <==> !exists,
        r matches Err(e) ==> e.is(ErrorKind::Conflict, email_taken_message()),
{
    if exists {
        Err(AppError::new(ErrorKind::Conflict, "Email already registered"))
    } else {
        Ok(())
    }
}

/// The first problem with a login request, if any: a blank email, then an
/// empty password.
pub open spec fn login_problem(email: Seq<char>, password: Seq<char>) -> Option<Seq<char>> {
    if blank(email) {
        Some("Email is required"@)
    } else if password.len() == 0 {
        Some("Password is required"@)
    } else {
        None
    }
}

/// Validates a login request.
pub fn validate_login(req: &LoginRequest) -> (r: Result<(), AppError>)
    ensures
        match login_problem(req.email@, req.password@) {
            None => r is Ok,
            Some(m) => r matches Err(e) && e.is(ErrorKind::BadRequest, m),
        },
{
    if is_blank(req.email.as_str()) {
        return Err(AppError::new(ErrorKind::BadRequest, "Email is required"));
    }
    if req.password.as_str().is_empty() {
        return Err(AppError::new(ErrorKind::BadRequest, "Password is required"));
    }
    Ok(())
}

/// The message that answers a login with unknown email or wrong password.
pub open spec fn invalid_credentials_message() -> Seq<char> {
    "Invalid email or password"@
}

/// How a login answers a failed lookup of the user by email: an unknown
/// email is a bad request with the invalid-credentials message; any other
/// failure is passed on.
pub open spec fn lookup_failure_answer(failure: (ErrorKind, Seq<char>)) -> (ErrorKind, Seq<char>) {
    if failure.0 == ErrorKind::NotFound {
        (ErrorKind::BadRequest, invalid_credentials_message())
    } else {
        failure
    }
}

/// How a login answers a password that does not match the stored hash.
pub open spec fn wrong_password_answer() -> (ErrorKind, Seq<char>) {
    (ErrorKind::BadRequest, invalid_credentials_message())
}

/// Decides a login on the result of looking the user up by email.
pub fn login_lookup(found: Result<User, AppError>) -> (r: Result<User, AppError>)
    ensures
        match found {
            Ok(u) => r == Ok::<User, AppError>(u),
            Err(e) => r matches Err(e2) && e2.report() == lookup_failure_answer(e.report()),
        },
{
    match found {
        Ok(u) => Ok(u),
        Err(e) => {
            if e.error_kind() == ErrorKind::NotFound {
                Err(AppError::new(ErrorKind::BadRequest, "Invalid email or password"))
            } else {
                Err(e)
            }
        },
    }
}

/// Decides a login on the result of checking the password against the
/// stored hash.
pub fn login_password(valid: bool) -> (r: Result<(), AppError>)
    ensures
        r is Ok <==> valid,
        r matches Err(e) ==> e.report() == wrong_password_answer(),
{
    if valid {
        Ok(())
    } else {
        Err(AppError::new(ErrorKind::BadRequest, "Invalid email or password"))
    }
}

/// The answer to a successful registration or login: the token and the user
/// without the password hash.
pub fn auth_response(token: String, user: User) -> (r: AuthResponse)
    ensures
        r.token@ == token@,
        r.user.shows(&user),
{
    AuthResponse { token, user: UserResponse::from_user(user) }
}

/// Whether some character of `s` is not white space, so that `s.trim()` is
/// not empty.
pub open spec fn has_content(s: Seq<char>) -> bool {
    exists|i: int| 0 <= i < s.len() && !is_white_space(#[trigger] s[i])
}

proof fn lemma_blank_iff_no_content(s: Seq<char>)
    ensures
        blank(s) <==> !has_content(s),
{
}

/// A request to create a task is refused for its title exactly when every
/// character of the title is white space; refused for its description
/// exactly when the title has content and every character of the
/// description is white space; and accepted exactly when both have content.
/// In particular a title with spaces inside it is accepted for the title.
pub proof fn lemma_new_task_validation(title: Seq<char>, description: Seq<char>)
    ensures
        new_task_problem(title, description) == Some("Title is required"@) <==> (forall|i: int|
            0 <= i < title.len() ==> is_white_space(#[trigger] title[i])),
        new_task_problem(title, description) == Some("Description is required"@) <==> has_content(
            title,
        ) && (forall|i: int| 0 <= i < description.len() ==> is_white_space(#[trigger] description[i])),
        new_task_problem(title, description) is None <==> has_content(title) && has_content(
            description,
        ),
{
    reveal_strlit("Title is required");
    reveal_strlit("Description is required");
    assert("Title is required"@.len() != "Description is required"@.len());
    lemma_blank_iff_no_content(title);
    lemma_blank_iff_no_content(description);
}

/// A registration request is refused for its user name exactly when every
/// character of the name is white space; for its email exactly when the name
/// has content and every character of the email is white space; for its
/// password exactly when name and email have content and the password has
/// fewer than six bytes of UTF-8; and accepted otherwise.  No other rule
/// bears on the password: any password of six bytes or more passes.
pub proof fn lemma_registration_validation(
    username: Seq<char>,
    email: Seq<char>,
    password: Seq<char>,
)
    ensures
        registration_problem(username, email, password) == Some("Username is required"@)
            <==> (forall|i: int| 0 <= i < username.len() ==> is_white_space(#[trigger] username[i])),
        registration_problem(username, email, password) == Some("Email is required"@)
            <==> has_content(username) && (forall|i: int|
            0 <= i < email.len() ==> is_white_space(#[trigger] email[i])),
        registration_problem(username, email, password) == Some(
            "Password must be at least 6 characters"@,
        ) <==> has_content(username) && has_content(email) && encode_utf8(password).len() < 6,
        registration_problem(username, email, password) is None <==> has_content(username)
            && has_content(email) && encode_utf8(password).len() >= 6,
{
    reveal_strlit("Username is required");
    reveal_strlit("Email is required");
    reveal_strlit("Password must be at least 6 characters");
    assert("Username is required"@.len() == 20);
    assert("Email is required"@.len() == 17);
    assert("Password must be at least 6 characters"@.len() == 38);
    lemma_blank_iff_no_content(username);
    lemma_blank_iff_no_content(email);
}

/// A login request is refused for its email exactly when every character of
/// the email is white space; refused for its password exactly when the email
/// has content and the password is empty; and accepted exactly when the
/// email has content and the password is not empty, whatever its length or
/// characters.
pub proof fn lemma_login_validation(email: Seq<char>, password: Seq<char>)
    ensures
        login_problem(email, password) == Some("Email is required"@) <==> (forall|i: int|
            0 <= i < email.len() ==> is_white_space(#[trigger] email[i])),
        login_problem(email, password) == Some("Password is required"@) <==> has_content(email)
            && password.len() == 0,
        login_problem(email, password) is None <==> has_content(email) && password.len() > 0,
{
    reveal_strlit("Email is required");
    reveal_strlit("Password is required");
    assert("Email is required"@.len() != "Password is required"@.len());
    lemma_blank_iff_no_content(email);
}

} // verus!
