use taskdesk::config::Config;
use taskdesk::error::AppError;

fn s(x: &str) -> String {
    x.to_string()
}

#[test]
fn status_codes_follow_the_taxonomy() {
    assert_eq!(AppError::DatabaseError(s("x")).status_code(), 500);
    assert_eq!(AppError::NotFound(s("x")).status_code(), 404);
    assert_eq!(AppError::ValidationError(s("x")).status_code(), 400);
    assert_eq!(AppError::Unauthorized(s("x")).status_code(), 401);
    assert_eq!(AppError::Forbidden(s("x")).status_code(), 403);
    assert_eq!(AppError::InternalServerError(s("x")).status_code(), 500);
    assert_eq!(AppError::BadRequest(s("x")).status_code(), 400);
}

#[test]
fn storage_detail_is_hidden_from_clients() {
    assert_eq!(AppError::DatabaseError(s("relation tasks missing")).client_message(), "Internal server error");
    assert_eq!(AppError::Forbidden(s("User account is disabled")).client_message(), "User account is disabled");
}

#[test]
fn describe_prefixes_the_kind() {
    assert_eq!(AppError::NotFound(s("task 7")).describe(), "Not found: task 7");
    assert_eq!(AppError::BadRequest(s("dup")).describe(), "Bad request: dup");
    assert_eq!(AppError::DatabaseError(s("io")).describe(), "Database error: io");
}

fn config_with(port: &str, rate: &str) -> Config {
    Config::from_settings(None, None, None, Some(s(port)), None, None, None, Some(s(rate)))
}

#[test]
fn absent_settings_take_their_defaults() {
    let c = Config::from_settings(None, None, None, None, None, None, None, None);
    assert_eq!(c.smtp_username, "");
    assert_eq!(c.smtp_password, "");
    assert_eq!(c.smtp_host, "smtp.gmail.com");
    assert_eq!(c.smtp_port, "587");
    assert_eq!(c.jwt_secret, "dev-secret");
    assert_eq!(c.api_base_url, "http://localhost:8000");
    assert_eq!(c.admin_email, "admin@localhost");
    assert_eq!(c.rate_limit_requests_per_minute, "60");
    assert_eq!(c.smtp_port_as_u16(), 587);
    assert_eq!(c.rate_limit_as_u32(), 60);
}

#[test]
fn given_settings_are_kept() {
    let c = Config::from_settings(Some(s("me")), Some(s("pw")), Some(s("mail.example")), None, Some(s("k")), None, None, None);
    assert_eq!(c.smtp_username, "me");
    assert_eq!(c.smtp_password, "pw");
    assert_eq!(c.smtp_host, "mail.example");
    assert_eq!(c.jwt_secret, "k");
}

#[test]
fn numeric_settings_parse() {
    assert_eq!(config_with("2525", "120").smtp_port_as_u16(), 2525);
    assert_eq!(config_with("+25", "+7").smtp_port_as_u16(), 25);
    assert_eq!(config_with("2525", "120").rate_limit_as_u32(), 120);
    assert_eq!(config_with("+25", "+7").rate_limit_as_u32(), 7);
}

#[test]
fn malformed_numeric_settings_fall_back() {
    assert_eq!(config_with("smtp", "x").smtp_port_as_u16(), 587);
    assert_eq!(config_with("70000", "-1").smtp_port_as_u16(), 587);
    assert_eq!(config_with("", " 5").rate_limit_as_u32(), 60);
    assert_eq!(config_with("65535", "4294967296").rate_limit_as_u32(), 60);
    assert_eq!(config_with("65535", "4294967295").smtp_port_as_u16(), 65535);
    assert_eq!(config_with("65535", "4294967295").rate_limit_as_u32(), 4294967295);
}
