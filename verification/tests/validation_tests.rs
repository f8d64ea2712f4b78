use calendar_task_api::models::auth::{LoginRequest, RegisterRequest};
use calendar_task_api::models::calendar::{AddMemberRequest, CreateCalendarRequest, UpdateCalendarRequest};
use calendar_task_api::models::task::{
    AddCommentRequest, AddLabelRequest, CreateTaskRequest, UpdateTaskRequest, UpdateTaskStatusRequest,
};
use calendar_task_api::validation::{validate_optional_length, ValidationErrors};

fn fields(r: Result<(), ValidationErrors>) -> Vec<(String, String, String)> {
    match r {
        Ok(()) => vec![],
        Err(e) => e.errors.into_iter().map(|f| (f.field, f.code, f.message)).collect(),
    }
}

fn register(email: &str, name: &str, password: &str) -> RegisterRequest {
    RegisterRequest { email: email.to_string(), name: name.to_string(), password: password.to_string() }
}

#[test]
fn register_request_rules() {
    assert!(register("user@example.com", "John Doe", "securepassword123").validate().is_ok());
    let f = fields(register("not-an-email", "J", "short").validate());
    assert_eq!(
        f,
        vec![
            ("email".to_string(), "email".to_string(), "Invalid email format".to_string()),
            ("name".to_string(), "length".to_string(), "Name must be 2-100 characters".to_string()),
            (
                "password".to_string(),
                "length".to_string(),
                "Password must be at least 8 characters".to_string()
            ),
        ]
    );
    // lengths count characters, not bytes
    assert!(register("a@b.cz", "éé", "ééééééé\u{e9}").validate().is_ok());
    assert_eq!(fields(register("a@b.cz", &"x".repeat(101), "12345678").validate()).len(), 1);
    assert!(register("a@b.cz", &"x".repeat(100), "12345678").validate().is_ok());
    assert_eq!(fields(register("a@b.cz", "Jo", "1234567").validate())[0].0, "password");
}

#[test]
fn login_request_rules() {
    let ok = LoginRequest { email: "a@b.cz".to_string(), password: "x".to_string() };
    assert!(ok.validate().is_ok());
    let bad = LoginRequest { email: "abc@".to_string(), password: "".to_string() };
    let f = fields(bad.validate());
    assert_eq!(f.len(), 2);
    assert_eq!(f[1].2, "Password is required");
}

#[test]
fn email_rule_follows_validator() {
    let ok = |e: &str| LoginRequest { email: e.to_string(), password: "x".to_string() }.validate().is_ok();
    assert!(ok("email@here.com"));
    assert!(ok("abc@bar"));
    assert!(!ok("abc"));
    assert!(!ok(""));
    assert!(!ok("a @x.cz"));
    assert!(validate_optional_length(&Some("ab".to_string()), Some(2), Some(3)));
    assert!(!validate_optional_length(&Some("a".to_string()), Some(2), None));
    assert!(!validate_optional_length(&Some("abcd".to_string()), None, Some(3)));
    assert!(validate_optional_length(&None, Some(2), Some(3)));
}

#[test]
fn calendar_request_rules() {
    let ok = CreateCalendarRequest { name: "Work".to_string(), description: None, color: None, is_public: None };
    assert!(ok.validate().is_ok());
    let bad = CreateCalendarRequest {
        name: "".to_string(),
        description: None,
        color: Some("x".repeat(21)),
        is_public: Some(true),
    };
    let f = fields(bad.validate());
    assert_eq!(f.len(), 2);
    assert_eq!(f[0].2, "Name must be 1-255 characters");
    assert_eq!(f[1].2, "Color must be at most 20 characters");
    let upd = UpdateCalendarRequest { name: None, description: None, color: None, is_public: None };
    assert!(upd.validate().is_ok());
    let upd = UpdateCalendarRequest { name: Some(String::new()), description: None, color: None, is_public: None };
    assert_eq!(fields(upd.validate())[0].0, "name");
}

#[test]
fn member_roles() {
    let r = |role: &str| AddMemberRequest { user_id: 1, role: role.to_string() };
    assert!(r("editor").is_valid_role());
    assert!(r("viewer").is_valid_role());
    assert!(!r("owner").is_valid_role());
    assert!(!r("Editor").is_valid_role());
    assert!(!r("").is_valid_role());
}

#[test]
fn task_request_rules() {
    let t = |title: &str| CreateTaskRequest {
        title: title.to_string(),
        description: None,
        status: None,
        priority: None,
        due_date: None,
        start_date: None,
        all_day: None,
    };
    assert!(t("Design mockups").validate().is_ok());
    assert_eq!(fields(t("").validate())[0].2, "Title must be 1-500 characters");
    assert!(fields(t(&"y".repeat(501)).validate()).len() == 1);
    let u = UpdateTaskRequest { title: None, description: None, priority: None, due_date: None, start_date: None, all_day: None };
    assert!(u.validate().is_ok());
    let l = AddLabelRequest { label: "frontend".to_string(), color: Some("#3498DB".to_string()) };
    assert!(l.validate().is_ok());
    let l = AddLabelRequest { label: "".to_string(), color: None };
    assert_eq!(fields(l.validate())[0].2, "Label must be 1-100 characters");
    let c = AddCommentRequest { content: "".to_string() };
    assert_eq!(fields(c.validate())[0].2, "Comment cannot be empty");
}

#[test]
fn task_statuses() {
    for (st, ok) in [("todo", true), ("in_progress", true), ("done", true), ("cancelled", true), ("canceled", false), ("", false), ("DONE", false)] {
        assert_eq!(UpdateTaskStatusRequest { status: st.to_string() }.is_valid(), ok);
    }
}
