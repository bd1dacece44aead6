//! User accounts: registration, password checks and the login decision.
use vstd::prelude::*;
use crate::error::{detail_of, status_of, validation_error, AppError};
use crate::text::str_equal;
use crate::validation::{email_accepted, has_length_within, is_valid_email, length_within};

verus! {

pub const ROLE_ADMIN: &'static str = "admin";
pub const ROLE_USER: &'static str = "user";
pub const ROLE_VIEWER: &'static str = "viewer";

pub open spec fn valid_role(r: Seq<char>) -> bool {
    r == ROLE_ADMIN@ || r == ROLE_USER@ || r == ROLE_VIEWER@
}

/// Accepts exactly the three roles.
pub fn validate_role(role: &str) -> (r: Result<(), AppError>)
    ensures
        r is Ok <==> valid_role(role@),
        r matches Err(e) ==> e is ValidationError && e->ValidationError_0@ == "invalid_role"@,
{
    if str_equal(role, ROLE_ADMIN) || str_equal(role, ROLE_USER) || str_equal(role, ROLE_VIEWER) {
        Ok(())
    } else {
        Err(AppError::ValidationError(String::from_str("invalid_role")))
    }
}

/// A stored account. The password hash never leaves the server.
#[derive(Debug, Clone)]
pub struct User {
    pub id: u128,
    pub email: String,
    pub name: String,
    pub password_hash: String,
    pub role: String,
    pub created_at: i64,
    pub updated_at: i64,
    pub last_login: Option<i64>,
    pub is_active: bool,
}

#[derive(Debug, Clone)]
pub struct CreateUserRequest {
    pub email: String,
    pub name: String,
    pub password: String,
    pub role: Option<String>,
}

#[derive(Debug, Clone)]
pub struct LoginRequest {
    pub email: String,
    pub password: String,
}

/// The public view of an account.
#[derive(Debug, Clone)]
pub struct UserResponse {
    pub id: u128,
    pub email: String,
    pub name: String,
    pub role: String,
    pub created_at: i64,
    pub is_active: bool,
}

#[derive(Debug, Clone)]
pub struct LoginResponse {
    pub token: String,
    pub user: UserResponse,
}

pub open spec fn public_view(u: User) -> UserResponse {
    UserResponse {
        id: u.id,
        email: u.email,
        name: u.name,
        role: u.role,
        created_at: u.created_at,
        is_active: u.is_active,
    }
}

impl From<User> for UserResponse {
    fn from(user: User) -> (r: UserResponse) {
        UserResponse {
            id: user.id,
            email: user.email,
            name: user.name,
            role: user.role,
            created_at: user.created_at,
            is_active: user.is_active,
        }
    }
}

impl vstd::std_specs::convert::FromSpecImpl<User> for UserResponse {
    open spec fn obeys_from_spec() -> bool {
        true
    }

    open spec fn from_spec(u: User) -> UserResponse {
        public_view(u)
    }
}

pub open spec fn create_user_fault(r: CreateUserRequest) -> Option<Seq<char>> {
    if !email_accepted(r.email@) {
        Some("email"@)
    } else if !length_within(r.name@, 1, 100) {
        Some("name"@)
    } else if r.password@.len() < 8 {
        Some("password"@)
    } else if r.role is Some && !valid_role(r.role->Some_0@) {
        Some("role"@)
    } else {
        None
    }
}

pub open spec fn login_fault(r: LoginRequest) -> Option<Seq<char>> {
    if !email_accepted(r.email@) {
        Some("email"@)
    } else if r.password@.len() < 1 {
        Some("password"@)
    } else {
        None
    }
}

impl CreateUserRequest {
    /// Checks every field rule; the error names the first field that breaks one.
    pub fn validate(&self) -> (r: Result<(), AppError>)
        ensures
            r is Ok <==> create_user_fault(*self) is None,
            r matches Err(e) ==> e is ValidationError && e->ValidationError_0@
                == create_user_fault(*self)->Some_0,
    {
        if !is_valid_email(self.email.as_str()) {
            return Err(validation_error("email"));
        }
        if !has_length_within(self.name.as_str(), 1, 100) {
            return Err(validation_error("name"));
        }
        if self.password.as_str().unicode_len() < 8 {
            return Err(validation_error("password"));
        }
        match &self.role {
            Some(role) => {
                if validate_role(role.as_str()).is_err() {
                    return Err(validation_error("role"));
                }
            },
            None => {},
        }
        Ok(())
    }
}

impl LoginRequest {
    /// Checks the e-mail form and that a password was given.
    pub fn validate(&self) -> (r: Result<(), AppError>)
        ensures
            r is Ok <==> login_fault(*self) is None,
            r matches Err(e) ==> e is ValidationError && e->ValidationError_0@
                == login_fault(*self)->Some_0,
    {
        if !is_valid_email(self.email.as_str()) {
            Err(validation_error("email"))
        } else if self.password.as_str().unicode_len() < 1 {
            Err(validation_error("password"))
        } else {
            Ok(())
        }
    }
}

#[verifier::external_type_specification]
#[verifier::external_body]
pub struct ExBcryptError(bcrypt::BcryptError);

/// What bcrypt's `verify` gives for `password` against a stored `hash`: the
/// verdict, or none when the hash cannot be read (its prefix, cost, salt or
/// digest is malformed).
pub uninterp spec fn bcrypt_verdict(password: Seq<char>, hash: Seq<char>) -> Option<bool>;

/// Relies on bcrypt's `hash` at `DEFAULT_COST`: a salted hash drawn with OS
/// randomness, so its text is not known; `verify` recomputes it from the
/// same password, cost and salt, so it accepts the password.
#[verifier::external_body]
fn bcrypt_hash(password: &str) -> (r: Result<String, bcrypt::BcryptError>)
    ensures
        r matches Ok(h) ==> bcrypt_verdict(password@, h@) == Some(true),
{
    bcrypt::hash(password, bcrypt::DEFAULT_COST)
}

/// Relies on bcrypt's `verify`: an error exactly when the stored hash cannot
/// be read, otherwise whether the password hashes to it.
#[verifier::external_body]
fn bcrypt_verify(password: &str, hash: &str) -> (r: Result<bool, bcrypt::BcryptError>)
    ensures
        match r {
            Ok(b) => bcrypt_verdict(password@, hash@) == Some(b),
            Err(_) => bcrypt_verdict(password@, hash@) is None,
        },
{
    bcrypt::verify(password, hash)
}

/// Whether `password` is the account's password. A stored hash that bcrypt
/// cannot read is an internal error.
pub fn verify_password(user: &User, password: &str) -> (r: Result<bool, AppError>)
    ensures
        match r {
            Ok(b) => bcrypt_verdict(password@, user.password_hash@) == Some(b),
            Err(e) => bcrypt_verdict(password@, user.password_hash@) is None
                && e is InternalServerError && e->InternalServerError_0@ == "password check failed"@,
        },
{
    match bcrypt_verify(password, user.password_hash.as_str()) {
        Ok(b) => Ok(b),
        Err(_) => Err(AppError::InternalServerError(String::from_str("password check failed"))),
    }
}

/// The values of a new account row.
#[derive(Debug, Clone)]
pub struct NewUser {
    pub email: String,
    pub name: String,
    pub password_hash: String,
    pub role: String,
}

pub open spec fn role_or_default(r: Option<String>) -> Seq<char> {
    match r {
        Some(v) => v@,
        None => ROLE_USER@,
    }
}

/// Validates a registration and gives the row to insert: the password is
/// replaced by its hash and the role defaults to `user`.
pub fn prepare_new_user(req: CreateUserRequest) -> (r: Result<NewUser, AppError>)
    ensures
        create_user_fault(req) is Some ==> (r matches Err(e) && e is ValidationError
            && e->ValidationError_0@ == create_user_fault(req)->Some_0),
        create_user_fault(req) is None ==> (r is Ok || (r matches Err(e)
            && e is InternalServerError)),
        r matches Ok(n) ==> n.email == req.email && n.name == req.name && n.role@
            == role_or_default(req.role),
        r matches Ok(n) ==> bcrypt_verdict(req.password@, n.password_hash@) == Some(true),
{
    match req.validate() {
        Err(e) => Err(e),
        Ok(()) => {
            match bcrypt_hash(req.password.as_str()) {
                Err(_) => Err(AppError::InternalServerError(String::from_str("password hashing failed"))),
                Ok(password_hash) => {
                    let role = match req.role {
                        Some(r) => r,
                        None => String::from_str(ROLE_USER),
                    };
                    Ok(NewUser { email: req.email, name: req.name, password_hash, role })
                },
            }
        },
    }
}

/// A registration goes on only for an e-mail that no account holds yet.
pub fn ensure_not_registered(existing: Option<&User>) -> (r: Result<(), AppError>)
    ensures
        r is Ok <==> existing is None,
        r matches Err(e) ==> e == AppError::BadRequest(e->BadRequest_0) && e->BadRequest_0@
            == "User already exists"@,
{
    match existing {
        Some(_) => Err(AppError::BadRequest(String::from_str("User already exists"))),
        None => Ok(()),
    }
}

/// A refusal as the client sees it: HTTP status and message.
pub open spec fn refusal(e: AppError) -> (u16, Seq<char>) {
    (status_of(e), detail_of(e))
}

/// The login decision once the account is looked up and the password checked:
/// an unknown e-mail and a wrong password are refused alike; a disabled
/// account is forbidden; otherwise the account logs in.
pub open spec fn login_result(found: Option<User>, password_matches: bool) -> Result<
    User,
    (u16, Seq<char>),
> {
    match found {
        None => Err((401u16, "Invalid credentials"@)),
        Some(u) => if !password_matches {
            Err((401u16, "Invalid credentials"@))
        } else if !u.is_active {
            Err((403u16, "User account is disabled"@))
        } else {
            Ok(u)
        },
    }
}

pub open spec fn matches_login_result(r: Result<User, AppError>, expected: Result<User, (u16, Seq<char>)>) -> bool {
    match r {
        Ok(u) => expected == Ok::<User, (u16, Seq<char>)>(u),
        Err(e) => expected == Err::<User, (u16, Seq<char>)>(refusal(e)),
    }
}

/// Decides a login from the looked-up account and the password verdict.
pub fn decide_login(found: Option<User>, password_matches: bool) -> (r: Result<User, AppError>)
    ensures
        matches_login_result(r, login_result(found, password_matches)),
{
    match found {
        None => Err(AppError::Unauthorized(String::from_str("Invalid credentials"))),
        Some(u) => {
            if !password_matches {
                Err(AppError::Unauthorized(String::from_str("Invalid credentials")))
            } else if !u.is_active {
                Err(AppError::Forbidden(String::from_str("User account is disabled")))
            } else {
                Ok(u)
            }
        },
    }
}

/// Authenticates a login against the account found under its e-mail (if
/// any). The password is checked only when an account exists; a stored hash
/// that bcrypt cannot read is an internal error.
pub fn authenticate(found: Option<User>, password: &str) -> (r: Result<User, AppError>)
    ensures
        found is None ==> matches_login_result(r, login_result(found, false)),
        found matches Some(u) ==> match bcrypt_verdict(password@, u.password_hash@) {
            Some(ok) => matches_login_result(r, login_result(found, ok)),
            None => r matches Err(e) && e is InternalServerError,
        },
{
    match found {
        None => decide_login(None, false),
        Some(u) => {
            match verify_password(&u, password) {
                Err(e) => Err(e),
                Ok(ok) => decide_login(Some(u), ok),
            }
        },
    }
}

/// An unknown e-mail is refused exactly as a wrong password is, whatever the
/// account and the password; correct credentials on a disabled account are
/// forbidden.
pub proof fn lemma_login_refusals(u: User, password_matches: bool)
    ensures
        login_result(None, password_matches) == login_result(Some(u), false),
        login_result(Some(u), false) is Err && login_result(Some(u), false)->Err_0.0 == 401,
        !u.is_active ==> login_result(Some(u), true) is Err && login_result(Some(u), true)->Err_0.0
            == 403,
{
}

/// The answer to a successful login: the token and the account's public view.
pub fn login_response(user: User, token: String) -> (r: LoginResponse)
    ensures
        r.token == token,
        r.user == public_view(user),
{
    LoginResponse { token, user: UserResponse::from(user) }
}

} // verus!
