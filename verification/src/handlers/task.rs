//! Decisions of the task endpoints. Access to a task is access to its
//! calendar (see `handlers::calendar::check_view`); deleting it is for its
//! creator or the calendar's owner.

use vstd::prelude::*;
use crate::encoding::{uuid_text, uuid_to_string};
use crate::errors::{AppError, is_not_found, is_forbidden, is_bad_request};
use crate::handlers::calendar::CalendarAccess;
use crate::models::calendar::Calendar;
use crate::models::task::{
    AddLabelRequest, CreateTaskRequest, Task, UpdateTaskRequest, UpdateTaskStatusRequest,
    is_task_priority, is_task_status, task_priority_allowed, task_status_allowed,
};
use crate::text::{join2, join3, owned};
use crate::time::Timestamp;

verus! {

/// `Task <id> not found`.
pub open spec fn task_not_found_message(id: u128) -> Seq<char> {
    "Task "@ + uuid_text(id) + " not found"@
}

/// The task that a lookup or update of `task_id` returned, or a 404
/// naming the id.
pub fn found_task(task_id: u128, found: Option<Task>) -> (res: Result<Task, AppError>)
    ensures
        match res {
            Ok(t) => found == Some(t),
            Err(e) => found is None && is_not_found(e, task_not_found_message(task_id)),
        },
{
    match found {
        Some(t) => Ok(t),
        None => {
            let id = uuid_to_string(task_id);
            Err(AppError::NotFound(join3("Task ", id.as_str(), " not found")))
        },
    }
}

/// The first step of every endpoint on an existing task: the lookup of
/// `task_id` returned `found`. A missing task is a 404 naming it, before
/// anything else is asked; an existing one continues with the check of
/// read access to its own calendar, for the same caller.
pub fn task_access(task_id: u128, user_id: u128, found: Option<Task>) -> (res: Result<
    (Task, CalendarAccess),
    AppError,
>)
    ensures
        match found {
            None => res matches Err(e) && is_not_found(e, task_not_found_message(task_id)),
            Some(t) => res matches Ok((u, next)) && u == t && next == (
            CalendarAccess::AwaitingCalendar { calendar_id: t.calendar_id, user_id }),
        },
{
    match found_task(task_id, found) {
        Ok(t) => {
            let calendar_id = t.calendar_id;
            Ok((t, CalendarAccess::start(calendar_id, user_id)))
        },
        Err(e) => Err(e),
    }
}

/// Whether a user may delete a task: its creator or the owner of its
/// calendar.
pub open spec fn may_delete_task(task: Task, calendar: Calendar, user_id: u128) -> bool {
    task.creator_id == user_id || calendar.owner_id == user_id
}

/// The refusal to delete a task, naming who may.
pub open spec fn delete_task_refusal() -> Seq<char> {
    "Only the task creator or calendar owner can delete this "@ + "task"@
}

/// Permission to delete a task, given the lookup of its calendar; a
/// missing calendar is an internal error.
pub fn check_delete_task(task: &Task, calendar: Option<Calendar>, user_id: u128) -> (res: Result<
    (),
    AppError,
>)
    ensures
        match calendar {
            None => res matches Err(e) && e is InternalServerError,
            Some(c) => (res is Ok <==> may_delete_task(*task, c, user_id)) && (res is Ok <==> (
            task.creator_id == user_id || c.owner_id == user_id)) && (res matches Err(e)
                ==> is_forbidden(
                e,
                delete_task_refusal(),
            )),
        },
{
    let calendar = match calendar {
        Some(c) => c,
        None => return Err(AppError::InternalServerError),
    };
    if task.creator_id != user_id && calendar.owner_id != user_id {
        return Err(
            AppError::Forbidden(
                join2("Only the task creator or calendar owner can delete this ", "task"),
            ),
        );
    }
    Ok(())
}

/// A status change names one of the four statuses; it is checked before
/// the task is looked up.
pub fn check_status_request(body: &UpdateTaskStatusRequest) -> (res: Result<(), AppError>)
    ensures
        res is Ok <==> is_task_status(body.status@),
        res matches Err(e) ==> is_bad_request(
            e,
            "Status must be: todo | in_progress | done | cancelled"@,
        ),
{
    if !body.is_valid() {
        return Err(
            AppError::BadRequest(owned("Status must be: todo | in_progress | done | cancelled")),
        );
    }
    Ok(())
}

/// The refusal of a status outside the four task statuses.
pub open spec fn status_refusal() -> Seq<char> {
    "Status must be: todo | in_progress | done | cancelled"@
}

/// The refusal of a priority outside the four task priorities.
pub open spec fn priority_refusal() -> Seq<char> {
    "Priority must be: low | medium | high | urgent"@
}

/// An optional status is absent or one of the task statuses.
pub open spec fn status_given_ok(s: Option<String>) -> bool {
    match s {
        Some(t) => is_task_status(t@),
        None => true,
    }
}

/// An optional priority is absent or one of the task priorities.
pub open spec fn priority_given_ok(p: Option<String>) -> bool {
    match p {
        Some(t) => is_task_priority(t@),
        None => true,
    }
}

/// A task creation names, where it names them, one of the documented
/// statuses and priorities: else 400, the status checked first. It is
/// checked before the calendar is looked up.
pub fn check_create_request(body: &CreateTaskRequest) -> (res: Result<(), AppError>)
    ensures
        res is Ok <==> status_given_ok(body.status) && priority_given_ok(body.priority),
        res matches Err(e) ==> if !status_given_ok(body.status) {
            is_bad_request(e, status_refusal())
        } else {
            is_bad_request(e, priority_refusal())
        },
{
    if let Some(st) = &body.status {
        if !task_status_allowed(st.as_str()) {
            return Err(
                AppError::BadRequest(owned("Status must be: todo | in_progress | done | cancelled")),
            );
        }
    }
    if let Some(p) = &body.priority {
        if !task_priority_allowed(p.as_str()) {
            return Err(AppError::BadRequest(owned("Priority must be: low | medium | high | urgent")));
        }
    }
    Ok(())
}

/// A task update names, where it names one, a documented priority: else
/// 400. It is checked before the task is looked up.
pub fn check_update_request(body: &UpdateTaskRequest) -> (res: Result<(), AppError>)
    ensures
        res is Ok <==> priority_given_ok(body.priority),
        res matches Err(e) ==> is_bad_request(e, priority_refusal()),
{
    if let Some(p) = &body.priority {
        if !task_priority_allowed(p.as_str()) {
            return Err(AppError::BadRequest(owned("Priority must be: low | medium | high | urgent")));
        }
    }
    Ok(())
}

/// What a new task is stored with.
#[derive(Debug)]
pub struct NewTask {
    pub calendar_id: u128,
    pub creator_id: u128,
    pub title: String,
    pub description: Option<String>,
    pub status: String,
    pub priority: String,
    pub due_date: Option<Timestamp>,
    pub start_date: Option<Timestamp>,
    pub all_day: bool,
}

/// The task to store for a creation request by `creator_id` in
/// `calendar_id`: status `todo`, priority `medium` and not all-day unless
/// given.
pub fn new_task(calendar_id: u128, creator_id: u128, body: &CreateTaskRequest) -> (res: NewTask)
    ensures
        res.calendar_id == calendar_id,
        res.creator_id == creator_id,
        res.title@ == body.title@,
        res.description == body.description,
        res.status@ == match body.status {
            Some(s) => s@,
            None => "todo"@,
        },
        res.priority@ == match body.priority {
            Some(p) => p@,
            None => "medium"@,
        },
        res.due_date == body.due_date,
        res.start_date == body.start_date,
        res.all_day == match body.all_day {
            Some(b) => b,
            None => false,
        },
        status_given_ok(body.status) ==> is_task_status(res.status@),
        priority_given_ok(body.priority) ==> is_task_priority(res.priority@),
{
    let status = match &body.status {
        Some(s) => s.clone(),
        None => owned("todo"),
    };
    let priority = match &body.priority {
        Some(p) => p.clone(),
        None => owned("medium"),
    };
    let all_day = match body.all_day {
        Some(b) => b,
        None => false,
    };
    NewTask {
        calendar_id,
        creator_id,
        title: body.title.clone(),
        description: body.description.clone(),
        status,
        priority,
        due_date: body.due_date,
        start_date: body.start_date,
        all_day,
    }
}

/// The color a new label is stored with: the requested one, else
/// `#808080`.
pub fn label_color(body: &AddLabelRequest) -> (res: String)
    ensures
        res@ == match body.color {
            Some(c) => c@,
            None => "#808080"@,
        },
{
    match &body.color {
        Some(c) => c.clone(),
        None => owned("#808080"),
    }
}

/// A task's creator, and its calendar's owner, may delete it; nobody
/// else may.
pub proof fn lemma_creator_and_owner_may_delete(task: Task, calendar: Calendar, user_id: u128)
    ensures
        may_delete_task(task, calendar, task.creator_id),
        may_delete_task(task, calendar, calendar.owner_id),
        task.creator_id != user_id && calendar.owner_id != user_id ==> !may_delete_task(
            task,
            calendar,
            user_id,
        ),
{
}

} // verus!
