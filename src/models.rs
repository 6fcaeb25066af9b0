use vstd::prelude::*;

verus! {

/// Role of a user: a closed set of two.
#[derive(Clone, Copy, Debug, PartialEq, Eq, Structural)]
pub enum Role {
    Admin,
    Member,
}

impl Role {
    /// The name under which the role is stored and carried in tokens.
    pub open spec fn spec_name(self) -> Seq<char> {
        match self {
            Role::Admin => "admin"@,
            Role::Member => "member"@,
        }
    }

    /// The role a stored name stands for, if any.
    pub open spec fn spec_parse(s: Seq<char>) -> Option<Role> {
        if s == "admin"@ {
            Some(Role::Admin)
        } else if s == "member"@ {
            Some(Role::Member)
        } else {
            None
        }
    }

    pub fn as_str(&self) -> (r: &'static str)
        ensures
            r@ == self.spec_name(),
    {
        match self {
            Role::Admin => "admin",
            Role::Member => "member",
        }
    }

    pub fn to_name(&self) -> (r: String)
        ensures
            r@ == self.spec_name(),
    {
        String::from_str(self.as_str())
    }

    pub fn parse(s: &str) -> (r: Option<Role>)
        ensures
            r == Role::spec_parse(s@),
    {
        if crate::text::same_text(s, "admin") {
            Some(Role::Admin)
        } else if crate::text::same_text(s, "member") {
            Some(Role::Member)
        } else {
            None
        }
    }
}

/// Every role's name parses back to that role.
pub proof fn lemma_role_name_parses(role: Role)
    ensures
        Role::spec_parse(role.spec_name()) == Some(role),
{
    reveal_strlit("admin");
    reveal_strlit("member");
    assert("admin"@.len() != "member"@.len());
}

/// Status of a task. Any status may follow any other: only membership is checked.
#[derive(Clone, Copy, Debug, PartialEq, Eq, Structural)]
pub enum TaskStatus {
    Todo,
    InProgress,
    Done,
}

impl TaskStatus {
    pub open spec fn spec_name(self) -> Seq<char> {
        match self {
            TaskStatus::Todo => "todo"@,
            TaskStatus::InProgress => "in_progress"@,
            TaskStatus::Done => "done"@,
        }
    }

    pub open spec fn spec_parse(s: Seq<char>) -> Option<TaskStatus> {
        if s == "todo"@ {
            Some(TaskStatus::Todo)
        } else if s == "in_progress"@ {
            Some(TaskStatus::InProgress)
        } else if s == "done"@ {
            Some(TaskStatus::Done)
        } else {
            None
        }
    }

    pub fn as_str(&self) -> (r: &'static str)
        ensures
            r@ == self.spec_name(),
    {
        match self {
            TaskStatus::Todo => "todo",
            TaskStatus::InProgress => "in_progress",
            TaskStatus::Done => "done",
        }
    }

    pub fn parse(s: &str) -> (r: Option<TaskStatus>)
        ensures
            r == TaskStatus::spec_parse(s@),
    {
        if crate::text::same_text(s, "todo") {
            Some(TaskStatus::Todo)
        } else if crate::text::same_text(s, "in_progress") {
            Some(TaskStatus::InProgress)
        } else if crate::text::same_text(s, "done") {
            Some(TaskStatus::Done)
        } else {
            None
        }
    }
}

/// Every status name parses back to that status.
pub proof fn lemma_status_name_parses(status: TaskStatus)
    ensures
        TaskStatus::spec_parse(status.spec_name()) == Some(status),
{
    reveal_strlit("todo");
    reveal_strlit("in_progress");
    reveal_strlit("done");
    assert("todo"@.len() != "in_progress"@.len());
    assert("in_progress"@.len() != "done"@.len());
    assert("todo"@[0] != "done"@[0]);
}

/// A duration in hours, held as the IEEE-754 bit pattern of a 64-bit float.
/// The rules here only store, carry and replace durations, never compute with them,
/// so the pattern is kept exactly as it was received.
#[derive(Clone, Copy, Debug, PartialEq, Eq, Structural)]
pub struct Hours {
    pub bits: u64,
}

/// One field of a partial update: left as it is, cleared, or replaced.
#[derive(Clone, Copy, Debug, PartialEq, Eq)]
pub enum Patch<T> {
    Keep,
    Clear,
    Replace(T),
}

impl<T> Patch<T> {
    pub open spec fn spec_apply(self, current: Option<T>) -> Option<T> {
        match self {
            Patch::Keep => current,
            Patch::Clear => None,
            Patch::Replace(v) => Some(v),
        }
    }

    pub fn apply(self, current: Option<T>) -> (r: Option<T>)
        ensures
            r == self.spec_apply(current),
    {
        match self {
            Patch::Keep => current,
            Patch::Clear => None,
            Patch::Replace(v) => Some(v),
        }
    }
}

/// A stored user. Timestamps are Unix seconds.
#[derive(Debug)]
pub struct User {
    pub id: i64,
    pub email: String,
    /// PHC string of the password; never sent to clients.
    pub password_hash: String,
    pub name: String,
    pub role: Role,
    pub created_at: i64,
}

/// A user about to be inserted; the store assigns id and creation time.
#[derive(Debug)]
pub struct NewUser {
    pub email: String,
    pub password_hash: String,
    pub name: String,
    pub role: Role,
}

/// Registration request; `role` is the stored name of a role.
#[derive(Debug)]
pub struct CreateUserRequest {
    pub email: String,
    pub password: String,
    pub name: String,
    pub role: String,
}

/// The role name a registration gets when it names none.
pub fn default_role() -> (r: String)
    ensures
        r@ == Role::Member.spec_name(),
{
    Role::Member.to_name()
}

#[derive(Debug)]
pub struct LoginRequest {
    pub email: String,
    pub password: String,
}

#[derive(Debug)]
pub struct ChangePasswordRequest {
    pub current_password: String,
    pub new_password: String,
}

/// Answer to a successful login.
#[derive(Debug)]
pub struct AuthResponse {
    pub token: String,
    pub user: User,
}

/// A stored task. Timestamps are Unix seconds.
#[derive(Debug)]
pub struct Task {
    pub id: i64,
    pub title: String,
    pub description: Option<String>,
    pub status: TaskStatus,
    /// Set by the system at creation only.
    pub predicted_hours: Option<Hours>,
    pub actual_hours: Option<Hours>,
    /// Weak reference to a user: its existence is not checked.
    pub assignee_id: Option<i64>,
    pub created_by: i64,
    pub created_at: i64,
    pub updated_at: i64,
}

impl Task {
    /// A stored task always has a non-empty title.
    pub open spec fn wf(&self) -> bool {
        self.title@.len() > 0
    }
}

/// A task about to be inserted; the store assigns its id.
#[derive(Debug)]
pub struct NewTask {
    pub title: String,
    pub description: Option<String>,
    pub status: TaskStatus,
    pub predicted_hours: Option<Hours>,
    pub assignee_id: Option<i64>,
    pub created_by: i64,
    pub created_at: i64,
    pub updated_at: i64,
}

impl NewTask {
    pub open spec fn wf(&self) -> bool {
        self.title@.len() > 0
    }
}

#[derive(Debug)]
pub struct CreateTaskRequest {
    pub title: String,
    pub description: Option<String>,
    pub assignee_id: Option<i64>,
}

/// Partial update of a task. `predicted_hours` cannot be patched.
#[derive(Debug)]
pub struct UpdateTaskRequest {
    pub title: Option<String>,
    pub description: Patch<String>,
    /// Stored name of the new status; checked against the enumeration.
    pub status: Option<String>,
    pub assignee_id: Patch<i64>,
    pub actual_hours: Patch<Hours>,
}

impl UpdateTaskRequest {
    /// A patch that changes nothing.
    pub open spec fn spec_is_empty(&self) -> bool {
        &&& self.title is None
        &&& self.description is Keep
        &&& self.status is None
        &&& self.assignee_id is Keep
        &&& self.actual_hours is Keep
    }
}

} // verus!
