use finance_tracker::utils::errors::AppError;
use finance_tracker::utils::errors::DatabaseError;
use finance_tracker::utils::errors::Severity;
use finance_tracker::utils::errors::ValidationDetail;
use finance_tracker::utils::not_found::not_found;

fn store_failure(code: Option<&str>, constraint: Option<&str>, message: &str) -> DatabaseError {
    DatabaseError {
        code: code.map(|code| code.to_string()),
        constraint: constraint.map(|name| name.to_string()),
        message: message.to_string(),
        description: format!("error returned from database: {}", message),
    }
}

fn answer(error: &AppError) -> (u16, Option<String>, String) {
    let response = error.error_response();
    (response.status, response.data, response.message)
}

#[test]
fn every_failure_has_its_one_status() {
    let text = || "why".to_string();
    assert_eq!(answer(&AppError::MissingCredentials).0, 401);
    assert_eq!(answer(&AppError::InvalidCredentials(text())).0, 401);
    assert_eq!(answer(&AppError::Unauthorized(text())).0, 401);
    assert_eq!(answer(&AppError::Forbidden(text())).0, 403);
    assert_eq!(answer(&AppError::ResourceExists(text())).0, 409);
    assert_eq!(answer(&AppError::InternalServerError(text())).0, 500);
    let detail = ValidationDetail { summary: text(), fields: "{}".to_string() };
    assert_eq!(answer(&AppError::Validation(detail)).0, 400);
    assert_eq!(answer(&AppError::Database(store_failure(None, None, "gone"))).0, 500);
    assert_eq!(answer(&AppError::Database(store_failure(Some("23505"), None, "twice"))).0, 409);
}

#[test]
fn message_failures_answer_with_their_message_and_no_payload() {
    let text = || "the reason".to_string();
    assert_eq!(
        answer(&AppError::MissingCredentials),
        (401, None, "Missing Authorization header".to_string())
    );
    assert_eq!(answer(&AppError::InvalidCredentials(text())), (401, None, text()));
    assert_eq!(answer(&AppError::Unauthorized(text())), (401, None, text()));
    assert_eq!(answer(&AppError::Forbidden(text())), (403, None, text()));
    assert_eq!(answer(&AppError::ResourceExists(text())), (409, None, text()));
    assert_eq!(answer(&AppError::InternalServerError(text())), (500, None, text()));
    assert_eq!(answer(&AppError::Forbidden(String::new())), (403, None, String::new()));
}

#[test]
fn validation_failure_answers_with_the_findings() {
    let detail = ValidationDetail {
        summary: "username: Username must be between 3 and 50 characters".to_string(),
        fields: "{\"username\":[{\"code\":\"length\"}]}".to_string(),
    };
    assert_eq!(
        answer(&AppError::Validation(detail)),
        (
            400,
            Some("{\"username\":[{\"code\":\"length\"}]}".to_string()),
            "Validation error: username: Username must be between 3 and 50 characters".to_string()
        )
    );
}

#[test]
fn store_failure_answers_with_its_description() {
    let failure = store_failure(Some("42P01"), None, "relation \"users\" does not exist");
    assert_eq!(
        answer(&AppError::Database(failure)),
        (
            500,
            None,
            "Database error: error returned from database: relation \"users\" does not exist"
                .to_string()
        )
    );
    let unreachable = DatabaseError {
        code: None,
        constraint: None,
        message: String::new(),
        description: "pool timed out while waiting for an open connection".to_string(),
    };
    assert_eq!(
        answer(&AppError::Database(unreachable)),
        (
            500,
            None,
            "Database error: pool timed out while waiting for an open connection".to_string()
        )
    );
}

#[test]
fn uniqueness_violation_names_the_field() {
    let name = store_failure(Some("23505"), Some("users_username_key"), "duplicate key");
    assert_eq!(
        answer(&AppError::Database(name)),
        (409, None, "Username is already taken".to_string())
    );
    let address = store_failure(Some("23505"), Some("users_email_key"), "duplicate key");
    assert_eq!(
        answer(&AppError::Database(address)),
        (409, None, "Email is already taken".to_string())
    );
    let other = store_failure(Some("23505"), Some("transactions_pkey"), "duplicate key");
    assert_eq!(
        answer(&AppError::Database(other)),
        (409, None, "Resource already exists".to_string())
    );
}

#[test]
fn constraint_is_found_in_the_message_where_the_store_names_none() {
    let name = store_failure(
        Some("23505"),
        None,
        "duplicate key value violates unique constraint \"users_username_key\"",
    );
    assert_eq!(name.describe_conflict(), "Username is already taken");
    let address = store_failure(
        Some("23505"),
        None,
        "duplicate key value violates unique constraint \"users_email_key\"",
    );
    assert_eq!(address.describe_conflict(), "Email is already taken");
    let neither = store_failure(Some("23505"), None, "duplicate key value");
    assert_eq!(neither.describe_conflict(), "Resource already exists");
}

#[test]
fn named_constraint_goes_before_the_message() {
    let failure = store_failure(
        Some("23505"),
        Some("users_email_key"),
        "duplicate key value violates unique constraint \"users_username_key\"",
    );
    assert_eq!(failure.describe_conflict(), "Email is already taken");
    let both = store_failure(Some("23505"), Some("users_username_key users_email_key"), "");
    assert_eq!(both.describe_conflict(), "Username is already taken");
}

#[test]
fn only_the_uniqueness_code_makes_a_conflict() {
    assert!(store_failure(Some("23505"), None, "").is_unique_violation());
    assert!(!store_failure(Some("23503"), Some("users_username_key"), "").is_unique_violation());
    assert!(!store_failure(Some("2350"), None, "").is_unique_violation());
    assert!(!store_failure(Some(""), None, "").is_unique_violation());
    assert!(!store_failure(None, Some("users_username_key"), "users_username_key")
        .is_unique_violation());
    let foreign = store_failure(Some("23503"), Some("users_username_key"), "no such user");
    assert_eq!(
        answer(&AppError::Database(foreign)),
        (500, None, "Database error: error returned from database: no such user".to_string())
    );
}

#[test]
fn failures_are_logged_by_who_caused_them() {
    let text = || "why".to_string();
    assert_eq!(AppError::MissingCredentials.severity(), Severity::Warn);
    assert_eq!(AppError::InvalidCredentials(text()).severity(), Severity::Warn);
    assert_eq!(AppError::Unauthorized(text()).severity(), Severity::Warn);
    assert_eq!(AppError::Forbidden(text()).severity(), Severity::Warn);
    let detail = ValidationDetail { summary: text(), fields: text() };
    assert_eq!(AppError::Validation(detail).severity(), Severity::Warn);
    assert_eq!(AppError::ResourceExists(text()).severity(), Severity::Info);
    assert_eq!(AppError::InternalServerError(text()).severity(), Severity::Error);
    assert_eq!(AppError::Database(store_failure(None, None, "")).severity(), Severity::Error);
    assert_eq!(
        AppError::Database(store_failure(Some("23505"), None, "")).severity(),
        Severity::Error
    );
}

#[test]
fn plain_values_become_failures() {
    assert!(matches!(
        AppError::from("broken".to_string()),
        AppError::InternalServerError(message) if message == "broken"
    ));
    let detail = ValidationDetail { summary: "s".to_string(), fields: "f".to_string() };
    assert!(matches!(
        AppError::from(detail),
        AppError::Validation(kept) if kept.summary == "s" && kept.fields == "f"
    ));
    assert!(matches!(
        AppError::from(store_failure(Some("23505"), None, "twice")),
        AppError::Database(kept) if kept.message == "twice"
    ));
}

#[test]
fn unknown_path_is_not_found() {
    let response = not_found();
    assert_eq!(response.status, 404);
    assert_eq!(response.data, None);
    assert_eq!(response.message, "The requested resource was not found");
}
