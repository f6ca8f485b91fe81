//! What the storage layer computes around its queries: the rows it inserts,
//! the offset of a page, the reading of a count, and the check of a new
//! status.  The queries themselves run in the application.

use vstd::prelude::*;
use crate::error::{AppError, ErrorKind};
use crate::models::{CreateTaskRequest, RegisterRequest, Task, TaskStatus, User};
use crate::utils::{generate_slug, is_slug, is_utc_rfc3339, is_uuid_v4_text, new_id, now_rfc3339};

verus! {

/// Whether `t` is a row that creating a task inserts for the user
/// `user_id`: a fresh identifier, a generated slug, the requested title and
/// description, the status `pending`, and the same UTC time as creation and
/// last update.
pub open spec fn is_new_task_row(t: Task, req: CreateTaskRequest, user_id: Seq<char>) -> bool {
    &&& is_uuid_v4_text(t.id@)
    &&& t.id@.len() == 36
    &&& is_slug(t.slug@)
    &&& t.user_id@ == user_id
    &&& t.title@ == req.title@
    &&& t.description@ == req.description@
    &&& t.status@ == TaskStatus::Pending.text()
    &&& is_utc_rfc3339(t.created_at@)
    &&& t.created_at@ == t.updated_at@
}

/// Whether `u` is a row that registering inserts: a fresh identifier, the
/// requested user name and email, the given password hash, and the same UTC
/// time as creation and last update.
pub open spec fn is_new_user_row(u: User, req: RegisterRequest, hashed_password: Seq<char>) -> bool {
    &&& is_uuid_v4_text(u.id@)
    &&& u.id@.len() == 36
    &&& u.username@ == req.username@
    &&& u.email@ == req.email@
    &&& u.password@ == hashed_password
    &&& is_utc_rfc3339(u.created_at@)
    &&& u.created_at@ == u.updated_at@
}

/// The row that creating a task inserts for the user `user_id`.
pub fn new_task_row(req: &CreateTaskRequest, user_id: &str) -> (t: Task)
    ensures
        is_new_task_row(t, *req, user_id@),
{
    let id = new_id();
    let slug = generate_slug();
    let status = TaskStatus::Pending.as_str();
    let now = now_rfc3339();
    Task {
        id,
        user_id: user_id.to_owned(),
        slug,
        title: req.title.clone(),
        description: req.description.clone(),
        status: status.to_owned(),
        created_at: now.clone(),
        updated_at: now,
    }
}

/// The row that registering inserts, with the password hash
/// `hashed_password`.
pub fn new_user_row(req: &RegisterRequest, hashed_password: &str) -> (u: User)
    ensures
        is_new_user_row(u, *req, hashed_password@),
{
    let id = new_id();
    let now = now_rfc3339();
    User {
        id,
        username: req.username.clone(),
        email: req.email.clone(),
        password: hashed_password.to_owned(),
        created_at: now.clone(),
        updated_at: now,
    }
}

/// The number of rows to skip for page `page` of `page_size` rows:
/// `page * page_size`, or `None` where that product does not fit an `i64`.
pub fn page_offset(page: i64, page_size: i64) -> (r: Option<i64>)
    ensures
        r matches Some(o) ==> o == page * page_size,
        r is None <==> !(i64::MIN <= page * page_size <= i64::MAX),
{
    page.checked_mul(page_size)
}

/// Consecutive pages are adjacent: page `p + 1` starts `page_size` rows after
/// page `p`.
pub proof fn lemma_pages_adjacent(page: int, page_size: int)
    ensures
        (page + 1) * page_size == page * page_size + page_size,
{
    assert((page + 1) * page_size == page * page_size + page_size) by (nonlinear_arith);
}

/// Whether a count of rows with a given email means that the email is
/// taken: it is when the count is positive.
pub fn email_taken(count: i64) -> (b: bool)
    ensures
        b == (count > 0),
{
    count > 0
}

/// The message of the error that refuses an unknown status.
pub open spec fn invalid_status_message() -> Seq<char> {
    "Invalid status value"@
}

/// Checks a requested status: the status it names, or a bad request with
/// the message `Invalid status value` when it names none.
pub fn check_status(status: &str) -> (r: Result<TaskStatus, AppError>)
    ensures
        match TaskStatus::parse(status@) {
            Some(s) => r == Ok::<TaskStatus, AppError>(s),
            None => r matches Err(e) && e.is(ErrorKind::BadRequest, invalid_status_message()),
        },
{
    match TaskStatus::from_str(status) {
        Some(s) => Ok(s),
        None => Err(AppError::new(ErrorKind::BadRequest, "Invalid status value")),
    }
}

/// A checked change of a task's status: the new status and the time of the
/// change.
#[derive(Debug)]
pub struct StatusChange {
    pub status: TaskStatus,
    pub updated_at: String,
}

/// Prepares a change of status: the status named by `status` with the
/// current UTC time, or a bad request with the message `Invalid status value`
/// when `status` names none.
pub fn status_change(status: &str) -> (r: Result<StatusChange, AppError>)
    ensures
        match TaskStatus::parse(status@) {
            Some(s) => r matches Ok(c) && c.status == s && is_utc_rfc3339(c.updated_at@),
            None => r matches Err(e) && e.is(ErrorKind::BadRequest, invalid_status_message()),
        },
{
    match check_status(status) {
        Err(e) => Err(e),
        Ok(s) => Ok(StatusChange { status: s, updated_at: now_rfc3339() }),
    }
}

} // verus!
