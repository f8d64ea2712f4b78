//! Tasks, their assignees, labels and comments, and the bodies of the task
//! endpoints.

use vstd::prelude::*;
use crate::text::str_equal;
use crate::time::Timestamp;
use crate::validation::{
    ValidationErrors, rule, length_within, optional_length_within, validate_length,
    validate_optional_length,
};

verus! {

/// A stored task of a calendar.
#[derive(Debug, Clone)]
pub struct Task {
    pub id: u128,
    pub calendar_id: u128,
    pub creator_id: u128,
    pub title: String,
    pub description: Option<String>,
    /// `todo`, `in_progress`, `done` or `cancelled`.
    pub status: String,
    /// `low`, `medium`, `high` or `urgent`.
    pub priority: String,
    pub due_date: Option<Timestamp>,
    pub start_date: Option<Timestamp>,
    pub all_day: bool,
    pub created_at: Timestamp,
    pub updated_at: Timestamp,
}

/// A user assigned to a task.
#[derive(Debug, Clone)]
pub struct TaskAssignee {
    pub task_id: u128,
    pub user_id: u128,
    pub assigned_at: Timestamp,
}

/// A label on a task.
#[derive(Debug, Clone)]
pub struct TaskLabel {
    pub task_id: u128,
    pub label: String,
    pub color: Option<String>,
}

/// A comment on a task.
#[derive(Debug, Clone)]
pub struct TaskComment {
    pub id: u128,
    pub task_id: u128,
    pub user_id: u128,
    pub content: String,
    pub created_at: Timestamp,
    pub updated_at: Timestamp,
}

/// `POST /calendars/{id}/tasks` body.
#[derive(Debug)]
pub struct CreateTaskRequest {
    pub title: String,
    pub description: Option<String>,
    pub status: Option<String>,
    pub priority: Option<String>,
    pub due_date: Option<Timestamp>,
    pub start_date: Option<Timestamp>,
    pub all_day: Option<bool>,
}

/// The rules a task creation body fails.
pub open spec fn create_task_failures(r: CreateTaskRequest) -> Seq<
    (Seq<char>, Seq<char>, Seq<char>),
> {
    rule(
        "title"@,
        "length"@,
        "Title must be 1-500 characters"@,
        length_within(r.title@.len(), Some(1), Some(500)),
    )
}

impl CreateTaskRequest {
    /// Checks a title of 1 to 500 characters.
    pub fn validate(&self) -> (res: Result<(), ValidationErrors>)
        ensures
            res is Ok <==> create_task_failures(*self).len() == 0,
            res is Ok <==> 1 <= self.title@.len() <= 500,
            res matches Err(e) ==> e@ == create_task_failures(*self),
    {
        let mut errors = ValidationErrors::new();
        errors.check(
            validate_length(self.title.as_str(), Some(1), Some(500)),
            "title",
            "length",
            "Title must be 1-500 characters",
        );
        errors.into_result()
    }
}

/// `PUT /tasks/{id}` body: every field optional.
#[derive(Debug)]
pub struct UpdateTaskRequest {
    pub title: Option<String>,
    pub description: Option<String>,
    pub priority: Option<String>,
    pub due_date: Option<Timestamp>,
    pub start_date: Option<Timestamp>,
    pub all_day: Option<bool>,
}

/// The rules a task update body fails.
pub open spec fn update_task_failures(r: UpdateTaskRequest) -> Seq<
    (Seq<char>, Seq<char>, Seq<char>),
> {
    rule(
        "title"@,
        "length"@,
        "Title must be 1-500 characters"@,
        optional_length_within(r.title, Some(1), Some(500)),
    )
}

impl UpdateTaskRequest {
    /// Checks, where given, a title of 1 to 500 characters.
    pub fn validate(&self) -> (res: Result<(), ValidationErrors>)
        ensures
            res is Ok <==> update_task_failures(*self).len() == 0,
            res is Ok <==> (self.title is None || 1 <= self.title->0@.len() <= 500),
            res matches Err(e) ==> e@ == update_task_failures(*self),
    {
        let mut errors = ValidationErrors::new();
        errors.check(
            validate_optional_length(&self.title, Some(1), Some(500)),
            "title",
            "length",
            "Title must be 1-500 characters",
        );
        errors.into_result()
    }
}

/// `PATCH /tasks/{id}/status` body.
#[derive(Debug)]
pub struct UpdateTaskStatusRequest {
    /// `todo`, `in_progress`, `done` or `cancelled`.
    pub status: String,
}

/// The statuses a task can have.
pub open spec fn is_task_status(s: Seq<char>) -> bool {
    s == "todo"@ || s == "in_progress"@ || s == "done"@ || s == "cancelled"@
}

/// The priorities a task can have.
pub open spec fn is_task_priority(s: Seq<char>) -> bool {
    s == "low"@ || s == "medium"@ || s == "high"@ || s == "urgent"@
}

/// Whether a text is one of the task statuses `todo`, `in_progress`,
/// `done` and `cancelled`.
pub fn task_status_allowed(s: &str) -> (res: bool)
    ensures
        res == is_task_status(s@),
        res <==> (s@ == "todo"@ || s@ == "in_progress"@ || s@ == "done"@ || s@ == "cancelled"@),
{
    str_equal(s, "todo") || str_equal(s, "in_progress") || str_equal(s, "done") || str_equal(
        s,
        "cancelled",
    )
}

/// Whether a text is one of the task priorities `low`, `medium`, `high`
/// and `urgent`.
pub fn task_priority_allowed(s: &str) -> (res: bool)
    ensures
        res == is_task_priority(s@),
        res <==> (s@ == "low"@ || s@ == "medium"@ || s@ == "high"@ || s@ == "urgent"@),
{
    str_equal(s, "low") || str_equal(s, "medium") || str_equal(s, "high") || str_equal(
        s,
        "urgent",
    )
}

/// The task statuses are exactly `todo`, `in_progress`, `done` and
/// `cancelled`: each of the four is accepted, and nothing else.
pub proof fn lemma_task_statuses(s: Seq<char>)
    ensures
        is_task_status("todo"@),
        is_task_status("in_progress"@),
        is_task_status("done"@),
        is_task_status("cancelled"@),
        is_task_status(s) ==> s == "todo"@ || s == "in_progress"@ || s == "done"@ || s
            == "cancelled"@,
{
}

/// The task priorities are exactly `low`, `medium`, `high` and `urgent`:
/// each of the four is accepted, and nothing else.
pub proof fn lemma_task_priorities(s: Seq<char>)
    ensures
        is_task_priority("low"@),
        is_task_priority("medium"@),
        is_task_priority("high"@),
        is_task_priority("urgent"@),
        is_task_priority(s) ==> s == "low"@ || s == "medium"@ || s == "high"@ || s == "urgent"@,
{
}

impl UpdateTaskStatusRequest {
    /// Whether the status is `todo`, `in_progress`, `done` or `cancelled`.
    pub fn is_valid(&self) -> (res: bool)
        ensures
            res == is_task_status(self.status@),
    {
        task_status_allowed(self.status.as_str())
    }
}

/// `POST /tasks/{id}/assignees` body.
#[derive(Debug)]
pub struct AssignUserRequest {
    pub user_id: u128,
}

/// `POST /tasks/{id}/labels` body.
#[derive(Debug)]
pub struct AddLabelRequest {
    pub label: String,
    pub color: Option<String>,
}

/// The rules a label body fails, in field order.
pub open spec fn add_label_failures(r: AddLabelRequest) -> Seq<(Seq<char>, Seq<char>, Seq<char>)> {
    rule(
        "label"@,
        "length"@,
        "Label must be 1-100 characters"@,
        length_within(r.label@.len(), Some(1), Some(100)),
    ) + rule(
        "color"@,
        "length"@,
        "Color must be at most 20 characters"@,
        optional_length_within(r.color, None, Some(20)),
    )
}

impl AddLabelRequest {
    /// Checks a label of 1 to 100 characters and, when given, a color of at
    /// most 20 characters.
    pub fn validate(&self) -> (res: Result<(), ValidationErrors>)
        ensures
            res is Ok <==> add_label_failures(*self).len() == 0,
            res is Ok <==> (1 <= self.label@.len() <= 100 && (self.color is None || self.color->0@.len()
                <= 20)),
            res matches Err(e) ==> e@ == add_label_failures(*self),
    {
        let mut errors = ValidationErrors::new();
        errors.check(
            validate_length(self.label.as_str(), Some(1), Some(100)),
            "label",
            "length",
            "Label must be 1-100 characters",
        );
        errors.check(
            validate_optional_length(&self.color, None, Some(20)),
            "color",
            "length",
            "Color must be at most 20 characters",
        );
        errors.into_result()
    }
}

/// `POST /tasks/{id}/comments` body.
#[derive(Debug)]
pub struct AddCommentRequest {
    pub content: String,
}

/// The rules a comment body fails.
pub open spec fn add_comment_failures(r: AddCommentRequest) -> Seq<
    (Seq<char>, Seq<char>, Seq<char>),
> {
    rule(
        "content"@,
        "length"@,
        "Comment cannot be empty"@,
        length_within(r.content@.len(), Some(1), None),
    )
}

/// A comment is refused exactly when it is empty, with the single failure
/// `content`/`length`/`Comment cannot be empty`; a comment of any length
/// of one character or more passes.
pub proof fn lemma_comment_refused_only_when_empty(r: AddCommentRequest)
    ensures
        add_comment_failures(r).len() == 0 <==> r.content@.len() >= 1,
        r.content@.len() == 0 ==> add_comment_failures(r) == seq![
            ("content"@, "length"@, "Comment cannot be empty"@),
        ],
{
}

/// A task title is accepted exactly when it has 1 to 500 characters, on
/// creation and, where given, on update; a label exactly when it has 1 to
/// 100 characters and its color, if any, at most 20.
pub proof fn lemma_task_bodies_accepted(
    c: CreateTaskRequest,
    u: UpdateTaskRequest,
    l: AddLabelRequest,
)
    ensures
        create_task_failures(c).len() == 0 <==> 1 <= c.title@.len() <= 500,
        update_task_failures(u).len() == 0 <==> (u.title is None || 1 <= u.title->0@.len() <= 500),
        add_label_failures(l).len() == 0 <==> (1 <= l.label@.len() <= 100 && (l.color is None
            || l.color->0@.len() <= 20)),
{
}

impl AddCommentRequest {
    /// Checks that the comment is not empty.
    pub fn validate(&self) -> (res: Result<(), ValidationErrors>)
        ensures
            res is Ok <==> add_comment_failures(*self).len() == 0,
            res is Ok <==> self.content@.len() >= 1,
            res matches Err(e) ==> e@ == add_comment_failures(*self),
    {
        let mut errors = ValidationErrors::new();
        errors.check(
            validate_length(self.content.as_str(), Some(1), None),
            "content",
            "length",
            "Comment cannot be empty",
        );
        errors.into_result()
    }
}

/// Filters of `GET /calendars/{id}/tasks`.
#[derive(Debug)]
pub struct TaskQuery {
    pub date_from: Option<Timestamp>,
    pub date_to: Option<Timestamp>,
    pub status: Option<String>,
    pub priority: Option<String>,
    pub assignee: Option<u128>,
}

} // verus!
