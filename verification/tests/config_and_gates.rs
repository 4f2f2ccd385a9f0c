use newsletter_auth::account::{login_gate, register_gate, LoginModel, RegisterModel, UserRecord};
use newsletter_auth::api_response::ApiResponse;
use newsletter_auth::article::send_email_flag;
use newsletter_auth::claims::Claims;
use newsletter_auth::config::{
    resolve_config, set_database_url, set_host_address, set_port, set_secret,
};
use newsletter_auth::errors::AuthError;
use newsletter_auth::jwt::decode_jwt;
use newsletter_auth::main_error::MainError;
use newsletter_auth::numbers::{parse_i32, parse_u16};
use newsletter_auth::subscription::{
    collect_subscription_responses, subscribe_gate, subscriber_id_from_query, unsubscribe_gate,
};
use newsletter_auth::user::{get_all_users_gate, user_gate};

fn record(id: i32, name: &str, email: &str, password: &str) -> UserRecord {
    UserRecord {
        id,
        name: name.to_string(),
        email: email.to_string(),
        password: password.to_string(),
    }
}

#[test]
fn test_parse_u16_values() {
    assert_eq!(parse_u16("0"), Some(0));
    assert_eq!(parse_u16("8080"), Some(8080));
    assert_eq!(parse_u16("+123"), Some(123));
    assert_eq!(parse_u16("65535"), Some(65535));
    assert_eq!(parse_u16("65536"), None);
    assert_eq!(parse_u16("99999"), None);
    assert_eq!(parse_u16(""), None);
    assert_eq!(parse_u16("+"), None);
    assert_eq!(parse_u16("-1"), None);
    assert_eq!(parse_u16("12a"), None);
    assert_eq!(parse_u16(" 80"), None);
}

#[test]
fn test_parse_i32_values() {
    assert_eq!(parse_i32("0"), Some(0));
    assert_eq!(parse_i32("42"), Some(42));
    assert_eq!(parse_i32("+42"), Some(42));
    assert_eq!(parse_i32("-42"), Some(-42));
    assert_eq!(parse_i32("2147483647"), Some(i32::MAX));
    assert_eq!(parse_i32("2147483648"), None);
    assert_eq!(parse_i32("-2147483648"), Some(i32::MIN));
    assert_eq!(parse_i32("-2147483649"), None);
    assert_eq!(parse_i32("-0"), Some(0));
    assert_eq!(parse_i32(""), None);
    assert_eq!(parse_i32("-"), None);
    assert_eq!(parse_i32("1.5"), None);
}

#[test]
fn test_set_host_address_default() {
    assert_eq!(set_host_address(None), "127.0.0.1");
    assert_eq!(set_host_address(Some("0.0.0.0".to_string())), "0.0.0.0");
}

#[test]
fn test_set_port_outcomes() {
    assert_eq!(set_port(Some("8080")), Ok(8080));
    assert_eq!(set_port(Some("not-a-port")), Err(AuthError::ConfigMissing));
    assert_eq!(set_port(None), Err(AuthError::ConfigMissing));
}

#[test]
fn test_set_required_strings() {
    assert_eq!(
        set_database_url(Some("postgres://localhost/app".to_string())).unwrap(),
        "postgres://localhost/app"
    );
    assert_eq!(set_database_url(None).unwrap_err(), AuthError::ConfigMissing);
    assert_eq!(set_secret(Some("k".to_string())).unwrap(), "k");
    assert_eq!(set_secret(None).unwrap_err(), AuthError::ConfigMissing);
}

#[test]
fn test_config_concurrent_readers_observe_same_value() {
    // Two resolutions of one environment snapshot, as two racing first
    // readers would trigger: both succeed and agree in every field.
    let resolve = || {
        resolve_config(
            None,
            Some("8080"),
            Some("postgres://localhost/app".to_string()),
            Some("shared-secret".to_string()),
        )
        .unwrap()
    };
    let a = resolve();
    let b = resolve();
    assert_eq!(a.host_address, b.host_address);
    assert_eq!(a.host_address, "127.0.0.1");
    assert_eq!(a.port, b.port);
    assert_eq!(a.port, 8080);
    assert_eq!(a.database_url, b.database_url);
    assert_eq!(a.secret, b.secret);
    assert_eq!(a.secret, "shared-secret");
}

#[test]
fn test_config_missing_variable_is_fatal() {
    let r = resolve_config(None, Some("8080"), None, Some("s".to_string()));
    assert_eq!(r.unwrap_err(), AuthError::ConfigMissing);
    let r = resolve_config(None, None, Some("db".to_string()), Some("s".to_string()));
    assert_eq!(r.unwrap_err(), AuthError::ConfigMissing);
    let r = resolve_config(None, Some("bad"), Some("db".to_string()), Some("s".to_string()));
    assert_eq!(r.unwrap_err(), AuthError::ConfigMissing);
    let r = resolve_config(None, Some("8080"), Some("db".to_string()), None);
    assert_eq!(r.unwrap_err(), AuthError::ConfigMissing);
}

#[test]
fn test_register_gate_outcomes() {
    let ok = RegisterModel {
        name: "Author".to_string(),
        email: "author@test.com".to_string(),
        password: "12345".to_string(),
    };
    // Success hands back the digest under which the password is stored.
    assert_eq!(register_gate(&ok, false).unwrap(), sha256::digest("12345"));

    let bad_email = RegisterModel {
        name: "Author".to_string(),
        email: "no-at-sign".to_string(),
        password: "12345".to_string(),
    };
    let e = register_gate(&bad_email, false).unwrap_err();
    assert_eq!(e.status_code, 400);
    assert_eq!(e.body, "Invalid email format");

    let e = register_gate(&ok, true).unwrap_err();
    assert_eq!(e.status_code, 400);
    assert_eq!(e.body, "Email already registered");

    let blank_name = RegisterModel {
        name: "   ".to_string(),
        email: "author@test.com".to_string(),
        password: "12345".to_string(),
    };
    let e = register_gate(&blank_name, false).unwrap_err();
    assert_eq!(e.status_code, 400);
    assert_eq!(e.body, "Name cannot be empty");
}

#[test]
fn test_login_gate_outcomes() {
    let secret = "login-gate-secret";
    let stored = record(11, "Author", "author@test.com", &sha256::digest("12345"));
    let login = LoginModel {
        email: "author@test.com".to_string(),
        password: "12345".to_string(),
    };

    let token = login_gate(&login, Some(&stored), secret).unwrap();
    let claims = decode_jwt(&token, secret).unwrap();
    assert_eq!(claims.id, 11);
    assert_eq!(claims.email, "author@test.com");

    let bad_email = LoginModel {
        email: "no-at-sign".to_string(),
        password: "12345".to_string(),
    };
    let e = login_gate(&bad_email, Some(&stored), secret).unwrap_err();
    assert_eq!(e.status_code, 400);
    assert_eq!(e.body, "Invalid email format");

    let e = login_gate(&login, None, secret).unwrap_err();
    assert_eq!(e.status_code, 404);
    assert_eq!(e.body, "User not found");

    let wrong = LoginModel {
        email: "author@test.com".to_string(),
        password: "wrong".to_string(),
    };
    let e = login_gate(&wrong, Some(&stored), secret).unwrap_err();
    assert_eq!(e.status_code, 401);
    assert_eq!(e.body, "Incorrect password");
}

#[test]
fn test_subscribe_gate_outcomes() {
    assert!(subscribe_gate(1, 2, false).is_ok());
    let e = subscribe_gate(1, 1, false).unwrap_err();
    assert_eq!(e.status_code, 400);
    assert_eq!(e.body, "Cannot subscribe to yourself.");
    let e = subscribe_gate(1, 2, true).unwrap_err();
    assert_eq!(e.status_code, 400);
    assert_eq!(e.body, "Already subscribed to this user.");
}

#[test]
fn test_unsubscribe_gate_outcomes() {
    let ok = unsubscribe_gate(1).unwrap();
    assert_eq!(ok.status_code, 200);
    assert_eq!(ok.body, "Unsubscribed successfully");
    let e = unsubscribe_gate(0).unwrap_err();
    assert_eq!(e.status_code, 404);
    assert_eq!(e.body, "Subscription not found");
}

#[test]
fn test_subscriber_id_from_query_values() {
    assert_eq!(subscriber_id_from_query(Some("17")), Some(17));
    assert_eq!(subscriber_id_from_query(Some("-3")), Some(-3));
    assert_eq!(subscriber_id_from_query(Some("x")), None);
    assert_eq!(subscriber_id_from_query(None), None);
}

#[test]
fn test_collect_subscription_responses_keeps_present_rows() {
    let rows = vec![
        Some(record(1, "Ann", "ann@example.com", "h1")),
        None,
        Some(record(2, "Ben", "ben@example.com", "h2")),
        None,
    ];
    let out = collect_subscription_responses(&rows);
    assert_eq!(out.len(), 2);
    assert_eq!(out[0].id, 1);
    assert_eq!(out[0].name, "Ann");
    assert_eq!(out[0].email, "ann@example.com");
    assert_eq!(out[1].id, 2);
    assert_eq!(out[1].name, "Ben");
    assert_eq!(out[1].email, "ben@example.com");
}

#[test]
fn test_user_gate_outcomes() {
    let u = record(4, "Dee", "dee@example.com", "h");
    let m = user_gate(Some(&u)).unwrap();
    assert_eq!(m.id, 4);
    assert_eq!(m.name, "Dee");
    assert_eq!(m.email, "dee@example.com");
    let e = user_gate(None).unwrap_err();
    assert_eq!(e.status_code, 404);
    assert_eq!(e.body, "User not found");
}

#[test]
fn test_get_all_users_gate_outcomes() {
    let e = get_all_users_gate(&Vec::new()).unwrap_err();
    assert_eq!(e.status_code, 404);
    assert_eq!(e.body, "No users found");
    let users = vec![record(1, "Ann", "ann@example.com", "h1"), record(2, "Ben", "ben@example.com", "h2")];
    let out = get_all_users_gate(&users).unwrap();
    assert_eq!(out.len(), 2);
    assert_eq!(out[1].id, 2);
    assert_eq!(out[1].name, "Ben");
    assert_eq!(out[1].email, "ben@example.com");
}

#[test]
fn test_send_email_flag_values() {
    assert_eq!(send_email_flag(None), true);
    assert_eq!(send_email_flag(Some(&"true".to_string())), true);
    assert_eq!(send_email_flag(Some(&"false".to_string())), false);
    assert_eq!(send_email_flag(Some(&"TRUE".to_string())), false);
}

#[test]
fn test_claims_issue_window() {
    let c = Claims::issue("a@b".to_string(), 1, 1_000);
    assert_eq!(c.iat, 1_000);
    assert_eq!(c.exp, 1_000 + 24 * 60 * 60);
    assert_eq!(c.email, "a@b");
    assert_eq!(c.id, 1);
}

#[test]
fn test_api_response_new_fields() {
    let r = ApiResponse::new(200, "fine".to_string());
    assert_eq!(r.status_code, 200);
    assert_eq!(r.body, "fine");
}

#[test]
fn test_auth_error_responses() {
    let r = newsletter_auth::errors::auth_error_response(AuthError::MissingCredentials);
    assert_eq!((r.status_code, r.body.as_str()), (401, "Unauthorized"));
    let r = newsletter_auth::errors::auth_error_response(AuthError::InvalidToken);
    assert_eq!((r.status_code, r.body.as_str()), (401, "Invalid token"));
    let r = newsletter_auth::errors::auth_error_response(AuthError::WiringError);
    assert_eq!((r.status_code, r.body.as_str()), (400, "Bad Claims"));
    let r = newsletter_auth::errors::auth_error_response(AuthError::ConfigMissing);
    assert_eq!((r.status_code, r.body.as_str()), (500, "Incomplete configuration"));
    let r = newsletter_auth::errors::auth_error_response(AuthError::SigningFailure);
    assert_eq!((r.status_code, r.body.as_str()), (500, "Failed to sign token"));
}

#[test]
fn test_main_error_description() {
    let e = MainError { message: "boot failed".to_string() };
    assert_eq!(e.description(), "boot failed");
}
