use finance_tracker::middleware::context::ClaimsContext;
use finance_tracker::modules::transactions::routes::caller_claims;
use finance_tracker::modules::users::models::User;
use finance_tracker::modules::users::routes::get_profile;
use finance_tracker::modules::users::services::check_user_exists;
use finance_tracker::modules::users::services::claims_for;
use finance_tracker::modules::users::services::login_reply;
use finance_tracker::modules::users::services::login_user;
use finance_tracker::modules::users::services::new_account;
use finance_tracker::modules::users::services::password_failure;
use finance_tracker::modules::users::services::password_verdict;
use finance_tracker::modules::users::services::register_new_user;
use finance_tracker::modules::users::services::stored;
use finance_tracker::utils::bcrypt::verify_password;
use finance_tracker::utils::bcrypt::PasswordError;
use finance_tracker::utils::constants::JWT_EXPIRY_SECONDS;
use finance_tracker::utils::errors::AppError;
use finance_tracker::utils::errors::DatabaseError;
use finance_tracker::utils::jwt::validate_token;
use finance_tracker::utils::jwt::Claims;
use finance_tracker::utils::jwt::TokenError;
use finance_tracker::utils::roles::Role;

const NOW: usize = 1700000000;

const SECRET: &[u8] = b"secret";

fn carol(role: Role) -> User {
    User {
        id: 42,
        username: "carol".to_string(),
        email: "carol@example.com".to_string(),
        password_hash: "$2b$04$EGdrhbKUv8Oc9vGiXX0HQOxSg445d458Muh7DAHskb6QbtCvdxcie".to_string(),
        role,
        created_at: 1700000000000000,
        updated_at: 1700000000000000,
    }
}

fn outage() -> DatabaseError {
    DatabaseError {
        code: None,
        constraint: None,
        message: String::new(),
        description: "pool timed out".to_string(),
    }
}

#[test]
fn validity_window_is_a_day() {
    assert_eq!(JWT_EXPIRY_SECONDS, 86400);
}

#[test]
fn login_claims_come_from_the_account() {
    let claims = claims_for(&carol(Role::ADMIN), NOW);
    assert_eq!(claims.sub, "carol");
    assert_eq!(claims.user_id, 42);
    assert_eq!(claims.role, "ADMIN");
    assert_eq!(claims.exp, NOW + 86400);
    assert_eq!(claims_for(&carol(Role::USER), 0).role, "USER");
    assert_eq!(claims_for(&carol(Role::USER), 0).exp, 86400);
}

#[test]
fn login_issues_a_token_for_the_account() {
    let token =
        login_user(Ok(Some(carol(Role::USER))), "correctbatteryhorsestapler", NOW, SECRET).unwrap();
    let claims = validate_token(&token, SECRET, NOW).unwrap();
    assert_eq!(claims.sub, "carol");
    assert_eq!(claims.user_id, 42);
    assert_eq!(claims.role, "USER");
    assert_eq!(claims.exp, NOW + 86400);
    assert!(validate_token(&token, SECRET, NOW + 86399).is_ok());
    assert_eq!(validate_token(&token, SECRET, NOW + 86400).err(), Some(TokenError::Expired));
}

#[test]
fn login_of_an_unknown_user_is_rejected() {
    match login_user(Ok(None), "correctbatteryhorsestapler", NOW, SECRET) {
        Err(AppError::InvalidCredentials(message)) => assert_eq!(message, "User not found"),
        other => panic!("unexpected reply {:?}", other),
    }
}

#[test]
fn login_with_a_wrong_password_is_rejected() {
    match login_user(Ok(Some(carol(Role::USER))), "wrong", NOW, SECRET) {
        Err(AppError::InvalidCredentials(message)) => assert_eq!(message, "Invalid password"),
        other => panic!("unexpected reply {:?}", other),
    }
}

#[test]
fn login_passes_a_failure_of_the_store_on() {
    match login_user(Err(outage()), "correctbatteryhorsestapler", NOW, SECRET) {
        Err(AppError::Database(failure)) => assert_eq!(failure.description, "pool timed out"),
        other => panic!("unexpected reply {:?}", other),
    }
}

#[test]
fn login_against_a_broken_hash_is_an_internal_failure() {
    let mut user = carol(Role::USER);
    user.password_hash = "plain".to_string();
    match login_user(Ok(Some(user)), "correctbatteryhorsestapler", NOW, SECRET) {
        Err(AppError::InternalServerError(message)) => {
            assert_eq!(message, "Password hashing error: Invalid hash: plain")
        },
        other => panic!("unexpected reply {:?}", other),
    }
}

#[test]
fn password_check_decides_how_login_goes_on() {
    assert!(password_verdict(Ok(true)).is_ok());
    match password_verdict(Ok(false)) {
        Err(AppError::InvalidCredentials(message)) => assert_eq!(message, "Invalid password"),
        other => panic!("unexpected verdict {:?}", other),
    }
    match password_verdict(Err(PasswordError { reason: "Invalid Cost: x".to_string() })) {
        Err(AppError::InternalServerError(message)) => {
            assert_eq!(message, "Password hashing error: Invalid Cost: x")
        },
        other => panic!("unexpected verdict {:?}", other),
    }
    match password_failure(PasswordError { reason: String::new() }) {
        AppError::InternalServerError(message) => assert_eq!(message, "Password hashing error: "),
        other => panic!("unexpected failure {:?}", other),
    }
}

#[test]
fn token_that_was_not_issued_is_an_internal_failure() {
    assert_eq!(login_reply(Ok("token".to_string())).unwrap(), "token");
    for reason in [TokenError::SigningFailure, TokenError::Malformed] {
        match login_reply(Err(reason)) {
            Err(AppError::InternalServerError(message)) => {
                assert_eq!(message, "Failed to generate authentication token")
            },
            other => panic!("unexpected reply {:?}", other),
        }
    }
}

#[test]
fn existing_account_is_told_by_its_name() {
    assert_eq!(check_user_exists(None, "carol"), None);
    assert_eq!(
        check_user_exists(Some("carol"), "carol"),
        Some("Username is already taken".to_string())
    );
    assert_eq!(check_user_exists(Some("dave"), "carol"), Some("Email is already taken".to_string()));
    assert_eq!(check_user_exists(Some("Carol"), "carol"), Some("Email is already taken".to_string()));
}

#[test]
fn registration_ends_at_an_existing_account() {
    match register_new_user(Some("Email is already taken".to_string()), "password", None) {
        Err(AppError::ResourceExists(message)) => assert_eq!(message, "Email is already taken"),
        other => panic!("unexpected decision {:?}", other),
    }
}

#[test]
fn registration_hashes_the_password_and_picks_the_role() {
    let account = register_new_user(None, "a long password", None).unwrap();
    assert_eq!(account.role, "USER");
    assert_ne!(account.password_hash, "a long password");
    assert_eq!(verify_password("a long password", &account.password_hash).unwrap(), true);
    assert_eq!(verify_password("another password", &account.password_hash).unwrap(), false);
}

#[test]
fn registration_keeps_the_role_asked_for() {
    assert_eq!(register_new_user(None, "password", Some(&Role::ADMIN)).unwrap().role, "ADMIN");
    assert_eq!(register_new_user(None, "password", Some(&Role::USER)).unwrap().role, "USER");
}

#[test]
fn answer_of_the_store_becomes_record_or_failure() {
    assert_eq!(stored(Ok(5)).unwrap(), 5);
    match stored::<u8>(Err(outage())) {
        Err(AppError::Database(failure)) => assert_eq!(failure.description, "pool timed out"),
        other => panic!("unexpected outcome {:?}", other),
    }
}

#[test]
fn profile_shows_the_claims() {
    let mut context = ClaimsContext::new();
    context.set(Claims {
        sub: "carol".to_string(),
        user_id: 42,
        role: "ADMIN".to_string(),
        exp: NOW,
    });
    let response = get_profile(&context).unwrap();
    assert_eq!(response.status, 200);
    assert_eq!(response.message, "Profile retrieved successfully");
    let profile = response.data.unwrap();
    assert_eq!(profile.username, "carol");
    assert_eq!(profile.user_id, 42);
    assert_eq!(profile.role, "ADMIN");
}

#[test]
fn profile_without_claims_is_unauthorized() {
    match get_profile(&ClaimsContext::new()) {
        Err(AppError::Unauthorized(message)) => assert_eq!(message, "Unauthorized"),
        other => panic!("unexpected reply {:?}", other),
    }
}

#[test]
fn transaction_routes_need_the_claims_of_the_caller() {
    let mut context = ClaimsContext::new();
    context.set(Claims { sub: "carol".to_string(), user_id: 42, role: "USER".to_string(), exp: 1 });
    let claims = caller_claims(&context).unwrap();
    assert_eq!(claims.sub, "carol");
    assert_eq!(claims.user_id, 42);
    assert_eq!(claims.role, "USER");
    assert_eq!(claims.exp, 1);
    match caller_claims(&ClaimsContext::new()) {
        Err(AppError::InternalServerError(message)) => {
            assert_eq!(message, "Authentication state error")
        },
        other => panic!("unexpected claims {:?}", other),
    }
}

#[test]
fn new_account_takes_the_hash_as_it_is() {
    let account = new_account(Ok("$2b$12$hash".to_string()), Some(&Role::ADMIN)).unwrap();
    assert_eq!(account.password_hash, "$2b$12$hash");
    assert_eq!(account.role, "ADMIN");
    assert_eq!(new_account(Ok(String::new()), None).unwrap().role, "USER");
    match new_account(Err(PasswordError { reason: "Rand error: none".to_string() }), None) {
        Err(AppError::InternalServerError(message)) => {
            assert_eq!(message, "Password hashing error: Rand error: none")
        },
        other => panic!("unexpected decision {:?}", other),
    }
}
