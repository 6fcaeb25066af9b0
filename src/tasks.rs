use vstd::prelude::*;

use crate::errors::{AppError, ErrorKind};
use crate::estimate::{is_success, prediction_or_none, spec_prediction_or_none, EstimateReply};
use crate::models::{CreateTaskRequest, NewTask, Task, TaskStatus, UpdateTaskRequest};

verus! {

/// The task that a valid creation request stores: status `todo`, the creator set
/// once, the estimate if one came, and `updated_at` equal to `created_at`.
pub open spec fn spec_new_task(
    req: CreateTaskRequest,
    created_by: i64,
    reply: EstimateReply,
    now: i64,
) -> NewTask {
    NewTask {
        title: req.title,
        description: req.description,
        status: TaskStatus::Todo,
        predicted_hours: spec_prediction_or_none(reply),
        assignee_id: req.assignee_id,
        created_by,
        created_at: now,
        updated_at: now,
    }
}

/// Outcome of a creation request: only an empty title is refused.
pub open spec fn spec_create_task(
    req: CreateTaskRequest,
    created_by: i64,
    reply: EstimateReply,
    now: i64,
) -> Result<NewTask, ErrorKind> {
    if req.title@.len() == 0 {
        Err(ErrorKind::BadRequest)
    } else {
        Ok(spec_new_task(req, created_by, reply, now))
    }
}

/// The record that a valid patch makes of `current` at `now`: each field the patch
/// names is replaced (or cleared), every other field is kept, `predicted_hours`,
/// the creator and the creation time never change, and `updated_at` becomes `now`.
pub open spec fn spec_patched(current: Task, req: UpdateTaskRequest, now: i64) -> Task {
    Task {
        id: current.id,
        title: match req.title {
            Some(t) => t,
            None => current.title,
        },
        description: req.description.spec_apply(current.description),
        status: match req.status {
            Some(s) => match TaskStatus::spec_parse(s@) {
                Some(st) => st,
                None => current.status,
            },
            None => current.status,
        },
        predicted_hours: current.predicted_hours,
        actual_hours: req.actual_hours.spec_apply(current.actual_hours),
        assignee_id: req.assignee_id.spec_apply(current.assignee_id),
        created_by: current.created_by,
        created_at: current.created_at,
        updated_at: now,
    }
}

/// The patch names a status outside the enumeration.
pub open spec fn has_unknown_status(req: UpdateTaskRequest) -> bool {
    req.status matches Some(s) && TaskStatus::spec_parse(s@) is None
}

/// The patch would empty the title.
pub open spec fn has_empty_title(req: UpdateTaskRequest) -> bool {
    req.title matches Some(t) && t@.len() == 0
}

/// Outcome of patching the stored record `current` (`None`: no such task) at `now`.
/// A missing task is reported before the patch is looked at. Any status may replace any other; only membership in the enumeration is checked.
pub open spec fn spec_update_task(current: Option<Task>, req: UpdateTaskRequest, now: i64) -> Result<
    Task,
    ErrorKind,
> {
    match current {
        None => Err(ErrorKind::NotFound),
        Some(c) => if has_unknown_status(req) || has_empty_title(req) {
            Err(ErrorKind::BadRequest)
        } else {
            Ok(spec_patched(c, req, now))
        },
    }
}

/// The message that a refused patch carries.
pub open spec fn update_failure_message(current: Option<Task>, req: UpdateTaskRequest) -> Seq<
    char,
> {
    if current is None {
        "Task not found"@
    } else if has_unknown_status(req) {
        "Status must be: todo, in_progress, done"@
    } else {
        "Title must not be empty"@
    }
}

/// What the store holds after an update: the new record when it succeeded, the old
/// one (or nothing) otherwise.
pub open spec fn stored_after_update(current: Option<Task>, outcome: Result<Task, ErrorKind>) -> Option<
    Task,
> {
    match outcome {
        Ok(t) => Some(t),
        Err(_) => current,
    }
}

/// Builds the task to insert for `req`, created by `created_by` at `now`. The
/// estimation reply is read best-effort: a failed call leaves `predicted_hours` empty
/// and never fails the creation.
pub fn create_task(req: CreateTaskRequest, created_by: i64, reply: EstimateReply, now: i64) -> (r:
    Result<NewTask, AppError>)
    ensures
        match spec_create_task(req, created_by, reply, now) {
            Ok(t) => r matches Ok(x) && x == t,
            Err(k) => r matches Err(e) && e.spec_kind() == k && e.spec_message()
                == "Title must not be empty"@,
        },
        r matches Ok(t) ==> t.wf(),
{
    if req.title.as_str().is_empty() {
        return Err(AppError::BadRequest(String::from_str("Title must not be empty")));
    }
    let predicted_hours = prediction_or_none(reply);
    let CreateTaskRequest { title, description, assignee_id } = req;
    Ok(
        NewTask {
            title,
            description,
            status: TaskStatus::Todo,
            predicted_hours,
            assignee_id,
            created_by,
            created_at: now,
            updated_at: now,
        },
    )
}

/// Applies a partial update to the stored record `current` (`None` when no task has
/// the requested id) at `now`. A missing task is `NotFound`; then the patch is
/// checked. The record to write back is the `Ok` value, and nothing is written on an
/// error.
pub fn update_task(current: Option<Task>, req: UpdateTaskRequest, now: i64) -> (r: Result<
    Task,
    AppError,
>)
    ensures
        match spec_update_task(current, req, now) {
            Ok(t) => r matches Ok(x) && x == t,
            Err(k) => r matches Err(e) && e.spec_kind() == k && e.spec_message()
                == update_failure_message(current, req),
        },
        current matches Some(c) ==> (c.wf() ==> (r matches Ok(t) ==> t.wf())),
{
    let c = match current {
        Some(c) => c,
        None => return Err(AppError::NotFound(String::from_str("Task not found"))),
    };
    let new_status = match &req.status {
        Some(s) => match TaskStatus::parse(s.as_str()) {
            Some(st) => Some(st),
            None => {
                return Err(
                    AppError::BadRequest(
                        String::from_str("Status must be: todo, in_progress, done"),
                    ),
                );
            },
        },
        None => None,
    };
    if let Some(t) = &req.title {
        if t.as_str().is_empty() {
            return Err(AppError::BadRequest(String::from_str("Title must not be empty")));
        }
    }
    let UpdateTaskRequest { title, description, status: _, assignee_id, actual_hours } = req;
    let Task {
        id,
        title: old_title,
        description: old_description,
        status: old_status,
        predicted_hours,
        actual_hours: old_actual_hours,
        assignee_id: old_assignee_id,
        created_by,
        created_at,
        updated_at: _,
    } = c;
    Ok(
        Task {
            id,
            title: match title {
                Some(t) => t,
                None => old_title,
            },
            description: description.apply(old_description),
            status: match new_status {
                Some(s) => s,
                None => old_status,
            },
            predicted_hours,
            actual_hours: actual_hours.apply(old_actual_hours),
            assignee_id: assignee_id.apply(old_assignee_id),
            created_by,
            created_at,
            updated_at: now,
        },
    )
}

/// The task read by id, or `NotFound` when the store had no such row.
pub fn get_task_by_id(row: Option<Task>) -> (r: Result<Task, AppError>)
    ensures
        match row {
            Some(t) => r matches Ok(x) && x == t,
            None => r matches Err(e) && e is NotFound && e.spec_message() == "Task not found"@,
        },
{
    match row {
        Some(t) => Ok(t),
        None => Err(AppError::NotFound(String::from_str("Task not found"))),
    }
}

/// Outcome of a delete that removed `rows_affected` rows: `NotFound` when none matched.
pub fn delete_task(rows_affected: u64) -> (r: Result<(), AppError>)
    ensures
        rows_affected > 0 ==> r is Ok,
        rows_affected == 0 ==> (r matches Err(e) && e is NotFound && e.spec_message()
            == "Task not found"@),
{
    if rows_affected == 0 {
        Err(AppError::NotFound(String::from_str("Task not found")))
    } else {
        Ok(())
    }
}

/// A patch that names no field changes nothing but the update time.
pub proof fn lemma_empty_patch_keeps_record(current: Task, req: UpdateTaskRequest, now: i64)
    requires
        req.spec_is_empty(),
    ensures
        spec_update_task(Some(current), req, now) == Ok::<Task, ErrorKind>(
            Task { updated_at: now, ..current },
        ),
{
    assert(spec_patched(current, req, now) == Task { updated_at: now, ..current });
}

/// A patch with a status outside the enumeration is refused (as a bad request when the
/// task exists), and the stored record (or its absence) stays as it was.
pub proof fn lemma_unknown_status_changes_nothing(
    current: Option<Task>,
    req: UpdateTaskRequest,
    now: i64,
)
    requires
        has_unknown_status(req),
    ensures
        spec_update_task(current, req, now) is Err,
        current is Some ==> spec_update_task(current, req, now) == Err::<Task, ErrorKind>(
            ErrorKind::BadRequest,
        ),
        stored_after_update(current, spec_update_task(current, req, now)) == current,
{
}

/// Creating a task with a valid title succeeds without an estimate when the
/// estimation call timed out, failed to connect, or answered with a non-2xx status.
pub proof fn lemma_creation_survives_estimation_failure(
    req: CreateTaskRequest,
    created_by: i64,
    reply: EstimateReply,
    now: i64,
)
    requires
        req.title@.len() > 0,
        reply is Unreachable || (reply matches EstimateReply::Answered { status, .. } && !is_success(
            status,
        )),
    ensures
        spec_create_task(req, created_by, reply, now) matches Ok(t) && t.predicted_hours is None,
{
}

} // verus!
