//! The decisions of each request, in the order validate, authorise, act,
//! notify, answer. Storage lookups and mail delivery are done by the caller,
//! which hands their results in.
use vstd::prelude::*;
use crate::email::{created_body, updated_body, EmailService, OutgoingEmail};
use crate::error::AppError;
use crate::jwt::{create_jwt, signed_token, token_claims, Claims};
use crate::repository::{build_update_statement, update_assignments, update_sql, texts_of, values_of, UpdateStatement};
use crate::task::{response_view, update_request_fault, Task, TaskResponse, UpdateTaskRequest};
use crate::text::{uuid_string, uuid_text};
use crate::user::{
    authenticate, bcrypt_verdict, create_user_fault, ensure_not_registered, login_fault,
    login_response, prepare_new_user, refusal, public_view,
    role_or_default, CreateUserRequest, LoginRequest, LoginResponse, NewUser, User,
};

verus! {

pub open spec fn not_found_text(id: u128) -> Seq<char> {
    "Task with id "@ + uuid_text(id) + " not found"@
}

/// The error for a task id that names no task.
pub fn task_not_found(id: u128) -> (r: AppError)
    ensures
        r is NotFound,
        r->NotFound_0@ == not_found_text(id),
{
    AppError::NotFound(String::from_str("Task with id ").concat(uuid_string(id).as_str()).concat(" not found"))
}

/// Answers a lookup by id: the task's view, or not found.
pub fn get_task(found: Option<Task>, id: u128) -> (r: Result<TaskResponse, AppError>)
    ensures
        found matches Some(t) ==> r == Ok::<TaskResponse, AppError>(response_view(t)),
        found is None ==> (r matches Err(e) && e is NotFound && e->NotFound_0@ == not_found_text(id)),
{
    match found {
        Some(t) => Ok(TaskResponse::from(t)),
        None => Err(task_not_found(id)),
    }
}

/// How a partial update of task `id` ends, given whether a row exists under
/// it: the statement text, or the refusal as the client sees it.
pub open spec fn update_outcome(id: u128, req: UpdateTaskRequest, exists: bool) -> Result<
    Seq<char>,
    (u16, Seq<char>),
> {
    if update_request_fault(req) is Some {
        Err((400u16, update_request_fault(req)->Some_0))
    } else if !exists {
        Err((404u16, not_found_text(id)))
    } else if update_assignments(req).len() == 0 {
        Err((400u16, "no fields to update"@))
    } else {
        Ok(update_sql(update_assignments(req)))
    }
}

/// An update of an id with no row is not found, whatever fields it sets, as
/// long as its priority and status (if given) are in their closed sets.
pub proof fn lemma_update_of_missing_task(id: u128, req: UpdateTaskRequest)
    requires
        update_request_fault(req) is None,
    ensures
        update_outcome(id, req, false) == Err::<Seq<char>, (u16, Seq<char>)>(
            (404u16, not_found_text(id)),
        ),
{
}

/// Plans a partial update of task `id`, given the row currently stored under
/// it. A request with a value outside its closed set is refused first; then
/// an id with no row is not found; then a request that sets nothing is
/// refused; otherwise the statement sets exactly the supplied fields.
pub fn update_task(id: u128, req: &UpdateTaskRequest, existing: Option<&Task>) -> (r: Result<
    UpdateStatement,
    AppError,
>)
    ensures
        update_request_fault(*req) is Some ==> (r matches Err(e) && e is ValidationError
            && e->ValidationError_0@ == update_request_fault(*req)->Some_0),
        update_request_fault(*req) is None && existing is None ==> (r matches Err(e)
            && e is NotFound && e->NotFound_0@ == not_found_text(id)),
        update_request_fault(*req) is None && existing is Some ==> (r is Ok
            <==> update_assignments(*req).len() > 0),
        update_request_fault(*req) is None && existing is Some && update_assignments(*req).len()
            == 0 ==> (r matches Err(e) && e is ValidationError && e->ValidationError_0@
            == "no fields to update"@),
        r matches Ok(s) ==> s.sql@ == update_sql(update_assignments(*req)) && texts_of(s.params@)
            == values_of(update_assignments(*req)),
        match r {
            Ok(s) => update_outcome(id, *req, existing is Some) == Ok::<Seq<char>, (u16, Seq<char>)>(s.sql@),
            Err(e) => update_outcome(id, *req, existing is Some) == Err::<Seq<char>, (u16, Seq<char>)>(refusal(e)),
        },
{
    match req.validate() {
        Err(e) => Err(e),
        Ok(()) => match existing {
            None => Err(task_not_found(id)),
            Some(_) => build_update_statement(req),
        },
    }
}

/// Answers a delete: removing nothing means the id named no task.
pub fn delete_task(deleted: bool, id: u128) -> (r: Result<(), AppError>)
    ensures
        r is Ok <==> deleted,
        r matches Err(e) ==> e is NotFound && e->NotFound_0@ == not_found_text(id),
{
    if deleted {
        Ok(())
    } else {
        Err(task_not_found(id))
    }
}

/// After a task is stored: the answer to the client, and the one message to
/// its assignee, which the caller dispatches without waiting for it.
pub fn task_created(service: &EmailService, task: Task) -> (r: (TaskResponse, OutgoingEmail))
    ensures
        r.0 == response_view(task),
        r.1.to == task.assigned_to_email,
        r.1.from == service.smtp_username(),
        r.1.body@ == created_body(task),
{
    let email = service.task_notification(&task);
    (TaskResponse::from(task), email)
}

/// After a task is changed: the answer to the client, and the one message to
/// its assignee, which the caller dispatches without waiting for it.
pub fn task_updated(service: &EmailService, task: Task) -> (r: (TaskResponse, OutgoingEmail))
    ensures
        r.0 == response_view(task),
        r.1.to == task.assigned_to_email,
        r.1.from == service.smtp_username(),
        r.1.body@ == updated_body(task),
{
    let email = service.task_update_notification(&task);
    (TaskResponse::from(task), email)
}

/// Registers an account, given the account already stored under the same
/// e-mail (if any): the request is validated, a taken e-mail is refused, and
/// the row to insert is prepared.
pub fn register_user(req: CreateUserRequest, existing: Option<&User>) -> (r: Result<NewUser, AppError>)
    ensures
        create_user_fault(req) is Some ==> (r matches Err(e) && e is ValidationError
            && e->ValidationError_0@ == create_user_fault(req)->Some_0),
        create_user_fault(req) is None && existing is Some ==> (r matches Err(e)
            && e is BadRequest && e->BadRequest_0@ == "User already exists"@),
        create_user_fault(req) is None && existing is None ==> (r is Ok || (r matches Err(e)
            && e is InternalServerError)),
        r matches Ok(n) ==> n.email == req.email && n.name == req.name && n.role@
            == role_or_default(req.role),
        r matches Ok(n) ==> bcrypt_verdict(req.password@, n.password_hash@) == Some(true),
{
    match req.validate() {
        Err(e) => Err(e),
        Ok(()) => match ensure_not_registered(existing) {
            Err(e) => Err(e),
            Ok(()) => prepare_new_user(req),
        },
    }
}

/// A successful login's answer for account `u`: its public view and a token
/// signed with `secret` over its claims, valid for 24 hours.
pub open spec fn login_answer(resp: LoginResponse, u: User, secret: Seq<char>) -> bool {
    &&& resp.user == public_view(u)
    &&& exists|exp: u64, iat: u64|
        exp == iat + 86400 && resp.token@ == signed_token(
            uuid_text(u.id),
            u.email@,
            u.role@,
            exp,
            iat,
            secret,
        ) && token_claims(resp.token@, secret) == Some((uuid_text(u.id), u.email@, u.role@, exp, iat))
}

/// Logs in, given the account stored under the request's e-mail (if any):
/// the request is validated, the account authenticated, and a 24-hour token
/// minted for it. The password is judged before the account's state, so a
/// wrong password never reveals whether an account is disabled.
pub fn login(req: &LoginRequest, found: Option<User>, secret: &str) -> (r: Result<LoginResponse, AppError>)
    ensures
        login_fault(*req) is Some ==> (r matches Err(e) && e is ValidationError
            && e->ValidationError_0@ == login_fault(*req)->Some_0),
        login_fault(*req) is None && found is None ==> (r matches Err(e) && e is Unauthorized
            && e->Unauthorized_0@ == "Invalid credentials"@),
        found matches Some(u) ==> (login_fault(*req) is None && bcrypt_verdict(
            req.password@,
            u.password_hash@,
        ) is None ==> (r matches Err(e) && e is InternalServerError)),
        found matches Some(u) ==> (login_fault(*req) is None && bcrypt_verdict(
            req.password@,
            u.password_hash@,
        ) == Some(false) ==> (r matches Err(e) && e is Unauthorized && e->Unauthorized_0@
            == "Invalid credentials"@)),
        found matches Some(u) ==> (login_fault(*req) is None && bcrypt_verdict(
            req.password@,
            u.password_hash@,
        ) == Some(true) && !u.is_active ==> (r matches Err(e) && e is Forbidden
            && e->Forbidden_0@ == "User account is disabled"@)),
        found matches Some(u) ==> (login_fault(*req) is None && bcrypt_verdict(
            req.password@,
            u.password_hash@,
        ) == Some(true) && u.is_active ==> (r matches Ok(resp) && login_answer(resp, u, secret@))),
{
    match req.validate() {
        Err(e) => Err(e),
        Ok(()) => {
            let ghost f = found;
            match authenticate(found, req.password.as_str()) {
                Err(e) => Err(e),
                Ok(user) => {
                    proof {
                        assert(f matches Some(u) && u == user);
                    }
                    let claims = Claims::new(user.id, user.email.clone(), user.role.clone());
                    match create_jwt(&claims, secret) {
                        Err(e) => Err(e),
                        Ok(token) => {
                            let resp = login_response(user, token);
                            proof {
                                assert(login_answer(resp, user, secret@));
                            }
                            Ok(resp)
                        },
                    }
                },
            }
        },
    }
}

} // verus!
