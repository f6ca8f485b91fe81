//! The service's data: stored rows, request bodies, response bodies, and the
//! vocabulary of task statuses.

use vstd::prelude::*;
use crate::text::same_text;

verus! {

/// The lifecycle state of a task.
#[derive(Clone, Copy, PartialEq, Eq, Debug, Structural)]
pub enum TaskStatus {
    Pending,
    InProgress,
    Completed,
}

impl TaskStatus {
    /// The stored spelling of a status.
    pub open spec fn text(self) -> Seq<char> {
        match self {
            TaskStatus::Pending => "pending"@,
            TaskStatus::InProgress => "in_progress"@,
            TaskStatus::Completed => "completed"@,
        }
    }

    /// The status whose stored spelling is `s`, if there is one.
    pub open spec fn parse(s: Seq<char>) -> Option<TaskStatus> {
        if s == "pending"@ {
            Some(TaskStatus::Pending)
        } else if s == "in_progress"@ {
            Some(TaskStatus::InProgress)
        } else if s == "completed"@ {
            Some(TaskStatus::Completed)
        } else {
            None
        }
    }

    /// The stored spelling of this status.
    pub fn as_str(&self) -> (s: &'static str)
        ensures
            s@ == self.text(),
    {
        match self {
            TaskStatus::Pending => "pending",
            TaskStatus::InProgress => "in_progress",
            TaskStatus::Completed => "completed",
        }
    }

    /// The status spelled `s`, or `None` when `s` names no status.
    pub fn from_str(s: &str) -> (r: Option<TaskStatus>)
        ensures
            r == Self::parse(s@),
    {
        if same_text(s, "pending") {
            Some(TaskStatus::Pending)
        } else if same_text(s, "in_progress") {
            Some(TaskStatus::InProgress)
        } else if same_text(s, "completed") {
            Some(TaskStatus::Completed)
        } else {
            None
        }
    }
}

/// Spelling a status and reading the spelling back gives the same status, and
/// a spelling that is read as a status is that status's spelling.
pub proof fn lemma_status_round_trip(status: TaskStatus, s: Seq<char>)
    ensures
        TaskStatus::parse(status.text()) == Some(status),
        TaskStatus::parse(s) == Some(status) ==> status.text() == s,
{
    reveal_strlit("pending");
    reveal_strlit("in_progress");
    reveal_strlit("completed");
    assert("pending"@.len() == 7);
    assert("in_progress"@.len() == 11);
    assert("completed"@.len() == 9);
}

/// A task as stored: every column of the `tasks` table.
#[derive(Debug)]
pub struct Task {
    pub id: String,
    pub user_id: String,
    pub slug: String,
    pub title: String,
    pub description: String,
    pub status: String,
    pub created_at: String,
    pub updated_at: String,
}

/// A user as stored: every column of the `users` table; `password` holds the
/// password hash.
#[derive(Debug)]
pub struct User {
    pub id: String,
    pub username: String,
    pub email: String,
    pub password: String,
    pub created_at: String,
    pub updated_at: String,
}

/// The body of a request that creates a task.
#[derive(Debug)]
pub struct CreateTaskRequest {
    pub title: String,
    pub description: String,
}

/// The body of a request that changes a task's status.
#[derive(Debug)]
pub struct UpdateTaskStatusRequest {
    pub status: String,
}

/// The body of a registration request.
#[derive(Debug)]
pub struct RegisterRequest {
    pub username: String,
    pub email: String,
    pub password: String,
}

/// The body of a login request.
#[derive(Debug)]
pub struct LoginRequest {
    pub email: String,
    pub password: String,
}

/// A task as shown to its owner.
#[derive(Debug)]
pub struct TaskResponse {
    pub id: String,
    pub slug: String,
    pub title: String,
    pub description: String,
    pub status: String,
    pub created_at: String,
    pub updated_at: String,
}

/// A user as shown to clients: every stored field but the password hash.
#[derive(Debug)]
pub struct UserResponse {
    pub id: String,
    pub username: String,
    pub email: String,
    pub created_at: String,
    pub updated_at: String,
}

/// The answer to a successful registration or login.
#[derive(Debug)]
pub struct AuthResponse {
    pub token: String,
    pub user: UserResponse,
}

/// The envelope of every successful answer.
#[derive(Debug)]
pub struct ApiResponse<T> {
    pub success: bool,
    pub data: T,
}

impl<T> ApiResponse<T> {
    /// A successful answer carrying `data`.
    pub fn ok(data: T) -> (r: ApiResponse<T>)
        ensures
            r.success,
            r.data == data,
    {
        ApiResponse { success: true, data }
    }
}

impl TaskResponse {
    /// Whether this response shows the task `t`.
    pub open spec fn shows(&self, t: &Task) -> bool {
        &&& self.id@ == t.id@
        &&& self.slug@ == t.slug@
        &&& self.title@ == t.title@
        &&& self.description@ == t.description@
        &&& self.status@ == t.status@
        &&& self.created_at@ == t.created_at@
        &&& self.updated_at@ == t.updated_at@
    }

    /// The response that shows the task `t`.
    pub fn from_task(t: Task) -> (r: TaskResponse)
        ensures
            r.shows(&t),
    {
        TaskResponse {
            id: t.id,
            slug: t.slug,
            title: t.title,
            description: t.description,
            status: t.status,
            created_at: t.created_at,
            updated_at: t.updated_at,
        }
    }
}

impl UserResponse {
    /// Whether this response shows the user `u`.
    pub open spec fn shows(&self, u: &User) -> bool {
        &&& self.id@ == u.id@
        &&& self.username@ == u.username@
        &&& self.email@ == u.email@
        &&& self.created_at@ == u.created_at@
        &&& self.updated_at@ == u.updated_at@
    }

    /// The response that shows the user `u`, without the password hash.
    pub fn from_user(u: User) -> (r: UserResponse)
        ensures
            r.shows(&u),
    {
        UserResponse {
            id: u.id,
            username: u.username,
            email: u.email,
            created_at: u.created_at,
            updated_at: u.updated_at,
        }
    }
}

/// The responses that show `tasks`, in the same order.
pub fn task_responses(tasks: Vec<Task>) -> (r: Vec<TaskResponse>)
    ensures
        r@.len() == tasks@.len(),
        forall|i: int| 0 <= i < tasks@.len() ==> (#[trigger] r@[i]).shows(&tasks@[i]),
{
    let ghost original = tasks@;
    let mut rest = tasks;
    let mut out: Vec<TaskResponse> = Vec::new();
    let mut reversed: Vec<Task> = Vec::new();
    while rest.len() > 0
        invariant
            reversed@.len() + rest@.len() == original.len(),
            forall|i: int| 0 <= i < rest@.len() ==> #[trigger] rest@[i] == original[i],
            forall|i: int|
                0 <= i < reversed@.len() ==> #[trigger] reversed@[i] == original[original.len()
                    - 1 - i],
        decreases rest@.len(),
    {
        let t = rest.pop().unwrap();
        reversed.push(t);
    }
    while reversed.len() > 0
        invariant
            reversed@.len() + out@.len() == original.len(),
            forall|i: int|
                0 <= i < reversed@.len() ==> #[trigger] reversed@[i] == original[original.len()
                    - 1 - i],
            forall|i: int| 0 <= i < out@.len() ==> (#[trigger] out@[i]).shows(&original[i]),
        decreases reversed@.len(),
    {
        let t = reversed.pop().unwrap();
        let ghost k = out@.len() as int;
        out.push(TaskResponse::from_task(t));
        assert(out@[k].shows(&original[k]));
    }
    out
}

} // verus!
