use taskdesk::error::AppError;
use taskdesk::handlers::{login, register_user};
use taskdesk::jwt::{create_jwt, extract_token_from_header, verify_jwt, verify_jwt_at, verify_token_at, Claims};
use taskdesk::user::{
    authenticate, decide_login, ensure_not_registered, prepare_new_user, validate_role,
    verify_password, CreateUserRequest, LoginRequest, User, UserResponse,
};

fn s(x: &str) -> String {
    x.to_string()
}

fn user(password: &str, active: bool) -> User {
    User {
        id: 0x11,
        email: s("a@x.com"),
        name: s("Avi"),
        password_hash: bcrypt::hash(password, 4).unwrap(),
        role: s("user"),
        created_at: 10,
        updated_at: 10,
        last_login: None,
        is_active: active,
    }
}

fn unauthorized_message(r: Result<User, AppError>) -> String {
    match r {
        Err(AppError::Unauthorized(m)) => m,
        other => panic!("expected unauthorized, got {:?}", other),
    }
}

#[test]
fn roles_form_a_closed_set() {
    assert!(validate_role("admin").is_ok());
    assert!(validate_role("user").is_ok());
    assert!(validate_role("viewer").is_ok());
    assert!(matches!(validate_role("root"), Err(AppError::ValidationError(m)) if m == "invalid_role"));
}

#[test]
fn registration_rules() {
    let ok = CreateUserRequest { email: s("a@x.com"), name: s("Avi"), password: s("longenough1"), role: None };
    assert!(ok.validate().is_ok());
    let short = CreateUserRequest { password: s("short"), ..ok.clone() };
    assert!(matches!(short.validate(), Err(AppError::ValidationError(m)) if m == "password"));
    let bad_role = CreateUserRequest { role: Some(s("owner")), ..ok.clone() };
    assert!(matches!(bad_role.validate(), Err(AppError::ValidationError(m)) if m == "role"));
    let bad_mail = CreateUserRequest { email: s("nobody"), ..ok.clone() };
    assert!(matches!(bad_mail.validate(), Err(AppError::ValidationError(m)) if m == "email"));
    let existing = user("whatever1", true);
    assert!(ensure_not_registered(None).is_ok());
    assert!(matches!(ensure_not_registered(Some(&existing)), Err(AppError::BadRequest(m)) if m == "User already exists"));
    assert!(matches!(register_user(ok, Some(&existing)), Err(AppError::BadRequest(_))));
}

#[test]
fn login_request_rules() {
    let r = LoginRequest { email: s("a@x.com"), password: s("") };
    assert!(matches!(r.validate(), Err(AppError::ValidationError(m)) if m == "password"));
    let r = LoginRequest { email: s("a@x.com"), password: s("p") };
    assert!(r.validate().is_ok());
}

#[test]
fn password_check_uses_bcrypt() {
    let u = user("longenough1", true);
    assert_eq!(verify_password(&u, "longenough1").unwrap(), true);
    assert_eq!(verify_password(&u, "longenough2").unwrap(), false);
    let broken = User { password_hash: s("not a hash"), ..u };
    assert!(matches!(verify_password(&broken, "x"), Err(AppError::InternalServerError(_))));
}

#[test]
fn login_refusals() {
    let u = user("longenough1", true);
    let wrong = unauthorized_message(authenticate(Some(u.clone()), "wrong-password"));
    let unknown = unauthorized_message(authenticate(None, "longenough1"));
    assert_eq!(wrong, "Invalid credentials");
    assert_eq!(wrong, unknown);
    let disabled = user("longenough1", false);
    assert!(matches!(authenticate(Some(disabled), "longenough1"), Err(AppError::Forbidden(m)) if m == "User account is disabled"));
    let ok = authenticate(Some(u), "longenough1").unwrap();
    assert_eq!(ok.id, 0x11);
    assert!(matches!(decide_login(None, true), Err(AppError::Unauthorized(_))));
}

#[test]
fn public_view_drops_the_hash() {
    let u = user("longenough1", true);
    let v = UserResponse::from(u);
    assert_eq!(v.email, "a@x.com");
    assert_eq!(v.role, "user");
    assert!(v.is_active);
}

#[test]
fn token_round_trip() {
    let c = Claims::new(0x11, s("a@x.com"), s("admin"));
    assert_eq!(c.sub, "00000000-0000-0000-0000-000000000011");
    assert_eq!(c.exp, c.iat + 86400);
    let token = create_jwt(&c, "secret").unwrap();
    let back = verify_jwt(&token, "secret").unwrap();
    assert_eq!(back.sub, c.sub);
    assert_eq!(back.email, "a@x.com");
    assert_eq!(back.role, "admin");
    assert_eq!(back.exp, c.exp);
    assert_eq!(back.iat, c.iat);
}

#[test]
fn token_with_wrong_secret_is_refused() {
    let c = Claims::new(1, s("a@x.com"), s("user"));
    let token = create_jwt(&c, "secret").unwrap();
    assert!(matches!(verify_jwt(&token, "other"), Err(AppError::Unauthorized(m)) if m == "Invalid token"));
    assert!(matches!(verify_jwt("not.a.token", "secret"), Err(AppError::Unauthorized(_))));
}

#[test]
fn expired_token_is_refused_despite_its_signature() {
    let c = Claims::issued_at(1, s("a@x.com"), s("user"), 1000);
    assert_eq!(c.exp, 87400);
    let token = create_jwt(&c, "secret").unwrap();
    assert!(matches!(verify_jwt(&token, "secret"), Err(AppError::Unauthorized(m)) if m == "Invalid token"));
}

#[test]
fn expiry_is_strict() {
    let c = Claims::issued_at(1, s("a@x.com"), s("user"), 1000);
    assert!(verify_jwt_at(Some(c.clone()), 87400).is_ok());
    assert!(verify_jwt_at(Some(c.clone()), 1000).is_ok());
    let e = verify_jwt_at(Some(c), 87401).unwrap_err();
    assert_eq!(e.status_code(), 401);
    assert!(verify_jwt_at(None, 0).is_err());
}

#[test]
fn bearer_header_parsing() {
    assert_eq!(extract_token_from_header(Some("Bearer abc.def")).unwrap(), "abc.def");
    assert_eq!(extract_token_from_header(Some("Bearer ")).unwrap(), "");
    assert!(matches!(extract_token_from_header(None), Err(AppError::Unauthorized(m)) if m == "Missing authorization header"));
    assert!(matches!(extract_token_from_header(Some("bearer abc")), Err(AppError::Unauthorized(m)) if m == "Invalid authorization header format"));
    assert!(matches!(extract_token_from_header(Some("Bearer")), Err(AppError::Unauthorized(_))));
    assert!(matches!(extract_token_from_header(Some("Token abc")), Err(AppError::Unauthorized(_))));
}

#[test]
fn registration_hashes_the_password() {
    let req = CreateUserRequest { email: s("a@x.com"), name: s("Avi"), password: s("longenough1"), role: None };
    let n = prepare_new_user(req).unwrap();
    assert_eq!(n.email, "a@x.com");
    assert_eq!(n.role, "user");
    assert_ne!(n.password_hash, "longenough1");
    assert!(n.password_hash.starts_with("$2"));
    assert_eq!(bcrypt::verify("longenough1", &n.password_hash).unwrap(), true);
}

#[test]
fn login_outcomes_by_case() {
    let req = LoginRequest { email: s("a@x.com"), password: s("longenough1") };
    let wrong = LoginRequest { email: s("a@x.com"), password: s("wrong-one") };
    let active = user("longenough1", true);
    let disabled = user("longenough1", false);
    assert!(matches!(login(&wrong, Some(active.clone()), "k"), Err(AppError::Unauthorized(m)) if m == "Invalid credentials"));
    assert!(matches!(login(&wrong, Some(disabled.clone()), "k"), Err(AppError::Unauthorized(m)) if m == "Invalid credentials"));
    assert!(matches!(login(&req, Some(disabled), "k"), Err(AppError::Forbidden(m)) if m == "User account is disabled"));
    let broken = User { password_hash: s("$2b$xx$broken"), ..active.clone() };
    assert!(matches!(login(&req, Some(broken), "k"), Err(AppError::InternalServerError(_))));
    let ok = login(&req, Some(active), "k").unwrap();
    let c = verify_jwt(&ok.token, "k").unwrap();
    assert_eq!(c.sub, "00000000-0000-0000-0000-000000000011");
    assert_eq!(c.role, "user");
    assert_eq!(c.exp - c.iat, 86400);
}

#[test]
fn token_check_at_a_given_time() {
    let c = Claims::issued_at(7, s("a@x.com"), s("viewer"), 5000);
    let token = create_jwt(&c, "k").unwrap();
    let back = verify_token_at(&token, "k", 5000 + 86400).unwrap();
    assert_eq!(back.role, "viewer");
    assert_eq!(back.exp, 5000 + 86400);
    assert!(matches!(verify_token_at(&token, "k", 5000 + 86401), Err(AppError::Unauthorized(m)) if m == "Invalid token"));
    assert!(verify_token_at(&token, "other", 5000).is_err());
}

#[test]
fn register_then_login_then_use_token() {
    let req = CreateUserRequest { email: s("a@x.com"), name: s("Avi"), password: s("longenough1"), role: None };
    let n = register_user(req, None).unwrap();
    assert_eq!(n.role, "user");
    let stored = User { email: n.email, name: n.name, role: n.role, ..user("longenough1", true) };
    let resp = login(&LoginRequest { email: s("a@x.com"), password: s("longenough1") }, Some(stored), "k").unwrap();
    assert_eq!(resp.user.email, "a@x.com");
    let header = format!("Bearer {}", resp.token);
    let token = extract_token_from_header(Some(&header)).unwrap();
    let claims = verify_jwt(&token, "k").unwrap();
    assert_eq!(claims.email, "a@x.com");
    assert_eq!(claims.exp - claims.iat, 86400);
    let later = verify_jwt_at(Some(claims.clone()), claims.exp + 1).unwrap_err();
    assert_eq!(later.status_code(), 401);
    assert!(matches!(
        login(&LoginRequest { email: s("a@x.com"), password: s("wrong") }, None, "k"),
        Err(AppError::Unauthorized(_))
    ));
}
