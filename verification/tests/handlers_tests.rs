use calendar_task_api::errors::AppError;
use calendar_task_api::handlers::calendar::{
    AccessStep, CalendarAccess, check_add_member, check_delete, check_edit, check_remove_member, check_view, found_calendar,
    needs_membership, new_calendar,
};
use calendar_task_api::handlers::task::{
    check_create_request, check_delete_task, check_status_request, check_update_request, found_task, label_color, new_task,
    task_access,
};
use calendar_task_api::models::calendar::{AddMemberRequest, Calendar, CalendarMember, CreateCalendarRequest};
use calendar_task_api::models::task::{AddLabelRequest, CreateTaskRequest, Task, UpdateTaskRequest, UpdateTaskStatusRequest};
use calendar_task_api::time::Timestamp;

const T0: Timestamp = Timestamp { secs: 1_700_000_000, nanos: 0 };
const OWNER: u128 = 0x11111111_1111_1111_1111_111111111111;
const OTHER: u128 = 0x22222222_2222_2222_2222_222222222222;
const CAL: u128 = 0xa1b2c3d4_0000_0000_0000_000000000001;
const TASK: u128 = 0x7a5c0000_0000_0000_0000_000000000002;

fn calendar(is_public: bool) -> Calendar {
    Calendar {
        id: CAL,
        owner_id: OWNER,
        name: "Work".to_string(),
        description: None,
        color: "#4285F4".to_string(),
        is_public,
        created_at: T0,
        updated_at: T0,
    }
}

fn member(role: &str) -> Option<CalendarMember> {
    Some(CalendarMember { calendar_id: CAL, user_id: OTHER, role: role.to_string(), joined_at: T0 })
}

fn msg(r: Result<(), AppError>) -> String {
    match r {
        Ok(()) => String::new(),
        Err(e) => e.to_string(),
    }
}

#[test]
fn calendar_not_found_names_the_id() {
    match found_calendar(CAL, None) {
        Err(AppError::NotFound(m)) => assert_eq!(m, "Calendar a1b2c3d4-0000-0000-0000-000000000001 not found"),
        _ => panic!("expected 404"),
    }
    assert!(found_calendar(CAL, Some(calendar(false))).is_ok());
    match found_task(TASK, None) {
        Err(AppError::NotFound(m)) => assert_eq!(m, "Task 7a5c0000-0000-0000-0000-000000000002 not found"),
        _ => panic!("expected 404"),
    }
}

#[test]
fn view_access() {
    let private = calendar(false);
    assert!(needs_membership(&private));
    assert!(!needs_membership(&calendar(true)));
    assert!(check_view(&private, OWNER, &None).is_ok());
    assert!(check_view(&private, OTHER, &member("viewer")).is_ok());
    assert_eq!(msg(check_view(&private, OTHER, &None)), "Forbidden: You do not have access to this calendar");
    assert!(check_view(&calendar(true), OTHER, &None).is_ok());
}

#[test]
fn edit_access() {
    let c = calendar(true);
    assert!(check_edit(&c, OWNER, &None).is_ok());
    assert!(check_edit(&c, OTHER, &member("editor")).is_ok());
    assert!(check_edit(&c, OTHER, &member("owner")).is_ok());
    assert_eq!(
        msg(check_edit(&c, OTHER, &member("viewer"))),
        "Forbidden: Only the owner or editors can update this calendar"
    );
    assert!(check_edit(&c, OTHER, &None).is_err());
}

#[test]
fn owner_only_actions() {
    let c = calendar(false);
    assert!(check_delete(&c, OWNER).is_ok());
    assert_eq!(msg(check_delete(&c, OTHER)), "Forbidden: Only the owner can delete this calendar");
    let add = |role: &str| AddMemberRequest { user_id: OTHER, role: role.to_string() };
    assert!(check_add_member(&c, OWNER, &add("viewer")).is_ok());
    assert_eq!(msg(check_add_member(&c, OWNER, &add("owner"))), "Bad request: Role must be 'editor' or 'viewer'");
    // ownership is checked before the role
    assert_eq!(msg(check_add_member(&c, OTHER, &add("owner"))), "Forbidden: Only the owner can manage members");
    assert!(check_remove_member(&c, OWNER, OTHER).is_ok());
    assert!(check_remove_member(&c, OTHER, OTHER).is_ok());
    assert_eq!(
        msg(check_remove_member(&c, OTHER, OWNER)),
        "Forbidden: Only the owner can remove other members"
    );
}

#[test]
fn calendar_creation_defaults() {
    let body = CreateCalendarRequest { name: "Work".to_string(), description: None, color: None, is_public: None };
    let n = new_calendar(OWNER, &body);
    assert_eq!(n.owner_id, OWNER);
    assert_eq!(n.color, "#4285F4");
    assert!(!n.is_public);
    let body = CreateCalendarRequest {
        name: "Home".to_string(),
        description: Some("d".to_string()),
        color: Some("#FF5733".to_string()),
        is_public: Some(true),
    };
    let n = new_calendar(OWNER, &body);
    assert_eq!(n.color, "#FF5733");
    assert!(n.is_public);
    assert_eq!(n.description, Some("d".to_string()));
}

fn task(creator: u128) -> Task {
    Task {
        id: TASK,
        calendar_id: CAL,
        creator_id: creator,
        title: "t".to_string(),
        description: None,
        status: "todo".to_string(),
        priority: "medium".to_string(),
        due_date: None,
        start_date: None,
        all_day: false,
        created_at: T0,
        updated_at: T0,
    }
}

#[test]
fn task_deletion() {
    let third: u128 = 3;
    assert!(check_delete_task(&task(OTHER), Some(calendar(false)), OTHER).is_ok());
    assert!(check_delete_task(&task(OTHER), Some(calendar(false)), OWNER).is_ok());
    assert_eq!(
        msg(check_delete_task(&task(OTHER), Some(calendar(false)), third)),
        format!("Forbidden: Only the task creator or calendar owner can delete this {}", "task")
    );
    assert!(matches!(check_delete_task(&task(OTHER), None, OTHER), Err(AppError::InternalServerError)));
}

#[test]
fn task_status_and_defaults() {
    assert!(check_status_request(&UpdateTaskStatusRequest { status: "done".to_string() }).is_ok());
    assert_eq!(
        msg(check_status_request(&UpdateTaskStatusRequest { status: "finished".to_string() })),
        "Bad request: Status must be: todo | in_progress | done | cancelled"
    );
    let body = CreateTaskRequest {
        title: "Design".to_string(),
        description: None,
        status: None,
        priority: None,
        due_date: Some(T0),
        start_date: None,
        all_day: None,
    };
    let n = new_task(CAL, OWNER, &body);
    assert_eq!(n.status, "todo");
    assert_eq!(n.priority, "medium");
    assert!(!n.all_day);
    assert_eq!(n.due_date, Some(T0));
    let body = CreateTaskRequest { status: Some("done".to_string()), priority: Some("high".to_string()), all_day: Some(true), ..body };
    let n = new_task(CAL, OWNER, &body);
    assert_eq!((n.status.as_str(), n.priority.as_str(), n.all_day), ("done", "high", true));
    assert_eq!(label_color(&AddLabelRequest { label: "x".to_string(), color: None }), "#808080");
    assert_eq!(label_color(&AddLabelRequest { label: "x".to_string(), color: Some("#3498DB".to_string()) }), "#3498DB");
}

#[test]
fn calendar_access_check_steps() {
    // missing calendar
    match CalendarAccess::start(CAL, OTHER).calendar_loaded(None) {
        AccessStep::Refused(e) => assert_eq!(e.to_string(), "Not found: Calendar a1b2c3d4-0000-0000-0000-000000000001 not found"),
        _ => panic!("expected a refusal"),
    }
    // public calendar: granted without looking up the membership
    assert!(matches!(CalendarAccess::start(CAL, OTHER).calendar_loaded(Some(calendar(true))), AccessStep::Granted(_)));
    // private calendar: membership needed
    let next = match CalendarAccess::start(CAL, OTHER).calendar_loaded(Some(calendar(false))) {
        AccessStep::LoadMembership(n) => n,
        _ => panic!("expected a membership lookup"),
    };
    match next.membership_loaded(None) {
        AccessStep::Refused(e) => assert_eq!(e.to_string(), "Forbidden: You do not have access to this calendar"),
        _ => panic!("expected a refusal"),
    }
    let next = match CalendarAccess::start(CAL, OTHER).calendar_loaded(Some(calendar(false))) {
        AccessStep::LoadMembership(n) => n,
        _ => panic!("expected a membership lookup"),
    };
    assert!(matches!(next.membership_loaded(member("viewer")), AccessStep::Granted(_)));
    let next = match CalendarAccess::start(CAL, OWNER).calendar_loaded(Some(calendar(false))) {
        AccessStep::LoadMembership(n) => n,
        _ => panic!("expected a membership lookup"),
    };
    assert!(matches!(next.membership_loaded(None), AccessStep::Granted(_)));
}

#[test]
fn task_status_and_priority_must_be_documented_values() {
    let body = CreateTaskRequest {
        title: "Design".to_string(),
        description: None,
        status: None,
        priority: None,
        due_date: None,
        start_date: None,
        all_day: None,
    };
    assert!(check_create_request(&body).is_ok());
    let ok = CreateTaskRequest { status: Some("in_progress".to_string()), priority: Some("urgent".to_string()), ..body };
    assert!(check_create_request(&ok).is_ok());
    let bad_status = CreateTaskRequest { status: Some("finished".to_string()), priority: Some("nope".to_string()), ..ok };
    assert_eq!(msg(check_create_request(&bad_status)), "Bad request: Status must be: todo | in_progress | done | cancelled");
    let bad_priority = CreateTaskRequest { status: Some("done".to_string()), priority: Some("critical".to_string()), ..bad_status };
    assert_eq!(msg(check_create_request(&bad_priority)), "Bad request: Priority must be: low | medium | high | urgent");
    let update = UpdateTaskRequest { title: None, description: None, priority: Some("LOW".to_string()), due_date: None, start_date: None, all_day: None };
    assert_eq!(msg(check_update_request(&update)), "Bad request: Priority must be: low | medium | high | urgent");
    let update = UpdateTaskRequest { priority: Some("low".to_string()), ..update };
    assert!(check_update_request(&update).is_ok());
    let update = UpdateTaskRequest { priority: None, ..update };
    assert!(check_update_request(&update).is_ok());
}

#[test]
fn task_endpoints_find_the_task_before_checking_its_calendar() {
    match task_access(TASK, OTHER, None) {
        Err(e) => assert_eq!(e.to_string(), "Not found: Task 7a5c0000-0000-0000-0000-000000000002 not found"),
        Ok(_) => panic!("expected 404"),
    }
    match task_access(TASK, OTHER, Some(task(OWNER))) {
        Ok((t, CalendarAccess::AwaitingCalendar { calendar_id, user_id })) => {
            assert_eq!(t.id, TASK);
            assert_eq!((calendar_id, user_id), (CAL, OTHER));
        }
        _ => panic!("expected the calendar check to start"),
    }
}
