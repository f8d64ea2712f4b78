use calendar_task_api::errors::AppError;
use calendar_task_api::validation::ValidationErrors;

fn s(x: &str) -> String {
    x.to_string()
}

#[test]
fn status_codes_follow_the_error_kind() {
    assert_eq!(AppError::NotFound(s("x")).status_code(), 404);
    assert_eq!(AppError::Unauthorized(s("x")).status_code(), 401);
    assert_eq!(AppError::Forbidden(s("x")).status_code(), 403);
    assert_eq!(AppError::BadRequest(s("x")).status_code(), 400);
    assert_eq!(AppError::Conflict(s("x")).status_code(), 409);
    assert_eq!(AppError::Validation(ValidationErrors::new()).status_code(), 422);
    assert_eq!(AppError::Database(s("x")).status_code(), 500);
    assert_eq!(AppError::InternalServerError.status_code(), 500);
}

#[test]
fn error_keys_and_texts() {
    let e = AppError::NotFound(s("Task 1 not found"));
    assert_eq!(e.error_key(), "NOT_FOUND");
    assert_eq!(e.to_string(), "Not found: Task 1 not found");
    assert_eq!(AppError::Unauthorized(s("no")).to_string(), "Unauthorized: no");
    assert_eq!(AppError::Forbidden(s("no")).to_string(), "Forbidden: no");
    assert_eq!(AppError::BadRequest(s("no")).to_string(), "Bad request: no");
    assert_eq!(AppError::Conflict(s("no")).to_string(), "Conflict: no");
    assert_eq!(AppError::Validation(ValidationErrors::new()).to_string(), "Validation error");
    assert_eq!(AppError::Database(s("boom")).to_string(), "Database error");
    assert_eq!(AppError::InternalServerError.to_string(), "Internal server error");
    assert_eq!(AppError::Validation(ValidationErrors::new()).error_key(), "VALIDATION_ERROR");
    assert_eq!(AppError::Database(s("boom")).error_key(), "INTERNAL_SERVER_ERROR");
    assert_eq!(AppError::InternalServerError.error_key(), "INTERNAL_SERVER_ERROR");
    assert_eq!(AppError::Conflict(s("c")).error_key(), "CONFLICT");
    assert_eq!(AppError::BadRequest(s("c")).error_key(), "BAD_REQUEST");
    assert_eq!(AppError::Forbidden(s("c")).error_key(), "FORBIDDEN");
    assert_eq!(AppError::Unauthorized(s("c")).error_key(), "UNAUTHORIZED");
}

#[test]
fn error_response_body_carries_status_key_and_message() {
    let body = AppError::Forbidden(s("Only the owner can delete this calendar")).error_response();
    assert_eq!(body.code, 403);
    assert_eq!(body.error, "FORBIDDEN");
    assert_eq!(body.message, "Forbidden: Only the owner can delete this calendar");
    let body = AppError::Validation(ValidationErrors::new()).error_response();
    assert_eq!(body.code, 422);
    assert_eq!(body.message, "Validation error");
}

#[test]
fn internal_errors_hide_their_details() {
    let a = AppError::Database(s("connection refused to 10.0.0.1")).error_response();
    let b = AppError::InternalServerError.error_response();
    assert_eq!(a.code, 500);
    assert_eq!(b.code, 500);
    assert_eq!(a.message, "An internal error occurred");
    assert_eq!(b.message, "An internal error occurred");
    assert!(!a.message.contains("10.0.0.1"));
    assert_eq!(a.error, "INTERNAL_SERVER_ERROR");
    assert_eq!(b.error, "INTERNAL_SERVER_ERROR");
}
