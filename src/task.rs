//! Task rows, the requests that create and change them, and the closed
//! sets of priorities and statuses.
use vstd::prelude::*;
use crate::error::{validation_error, AppError};
use crate::text::{four_digit_string, four_digit_text, str_equal};
use crate::validation::{email_accepted, has_length_within, is_valid_email, length_within};

verus! {

pub const PRIORITY_LOW: &'static str = "נמוכה";
pub const PRIORITY_NORMAL: &'static str = "רגילה";
pub const PRIORITY_HIGH: &'static str = "גבוהה";
pub const PRIORITY_URGENT: &'static str = "דחופה";

pub const STATUS_NEW: &'static str = "חדשה";
pub const STATUS_IN_PROGRESS: &'static str = "בטיפול";
pub const STATUS_COMPLETED: &'static str = "הושלמה";
pub const STATUS_CANCELLED: &'static str = "בוטלה";

pub open spec fn valid_priority(p: Seq<char>) -> bool {
    p == PRIORITY_LOW@ || p == PRIORITY_NORMAL@ || p == PRIORITY_HIGH@ || p == PRIORITY_URGENT@
}

pub open spec fn valid_status(s: Seq<char>) -> bool {
    s == STATUS_NEW@ || s == STATUS_IN_PROGRESS@ || s == STATUS_COMPLETED@ || s == STATUS_CANCELLED@
}

/// Accepts exactly the four priorities.
pub fn validate_priority(priority: &str) -> (r: Result<(), AppError>)
    ensures
        r is Ok <==> valid_priority(priority@),
        r matches Err(e) ==> e == AppError::ValidationError(e->ValidationError_0)
            && e->ValidationError_0@ == "invalid_priority"@,
{
    if str_equal(priority, PRIORITY_LOW) || str_equal(priority, PRIORITY_NORMAL) || str_equal(
        priority,
        PRIORITY_HIGH,
    ) || str_equal(priority, PRIORITY_URGENT) {
        Ok(())
    } else {
        Err(AppError::ValidationError(String::from_str("invalid_priority")))
    }
}

/// Accepts exactly the four statuses.
pub fn validate_status(status: &str) -> (r: Result<(), AppError>)
    ensures
        r is Ok <==> valid_status(status@),
        r matches Err(e) ==> e == AppError::ValidationError(e->ValidationError_0)
            && e->ValidationError_0@ == "invalid_status"@,
{
    if str_equal(status, STATUS_NEW) || str_equal(status, STATUS_IN_PROGRESS) || str_equal(
        status,
        STATUS_COMPLETED,
    ) || str_equal(status, STATUS_CANCELLED) {
        Ok(())
    } else {
        Err(AppError::ValidationError(String::from_str("invalid_status")))
    }
}

/// A stored task. Identifiers are 128-bit values, instants are microseconds
/// since the Unix epoch and the due date is its `YYYY-MM-DD` text.
#[derive(Debug, Clone)]
pub struct Task {
    pub id: u128,
    pub task_id: String,
    pub title: String,
    pub description: Option<String>,
    pub category: String,
    pub assigned_to: String,
    pub assigned_to_email: String,
    pub created_by: String,
    pub created_by_email: String,
    pub due_date: Option<String>,
    pub created_at: i64,
    pub updated_at: i64,
    pub priority: String,
    pub status: String,
    pub attachments_folder_url: Option<String>,
    pub attachments_count: i32,
    pub notes: Option<String>,
}

/// The outward view of a task.
#[derive(Debug, Clone)]
pub struct TaskResponse {
    pub id: u128,
    pub task_id: String,
    pub title: String,
    pub description: Option<String>,
    pub category: String,
    pub assigned_to: String,
    pub assigned_to_email: String,
    pub created_by: String,
    pub created_by_email: String,
    pub due_date: Option<String>,
    pub created_at: i64,
    pub updated_at: i64,
    pub priority: String,
    pub status: String,
    pub attachments_folder_url: Option<String>,
    pub attachments_count: i32,
    pub notes: Option<String>,
}

pub open spec fn response_view(t: Task) -> TaskResponse {
    TaskResponse {
        id: t.id,
        task_id: t.task_id,
        title: t.title,
        description: t.description,
        category: t.category,
        assigned_to: t.assigned_to,
        assigned_to_email: t.assigned_to_email,
        created_by: t.created_by,
        created_by_email: t.created_by_email,
        due_date: t.due_date,
        created_at: t.created_at,
        updated_at: t.updated_at,
        priority: t.priority,
        status: t.status,
        attachments_folder_url: t.attachments_folder_url,
        attachments_count: t.attachments_count,
        notes: t.notes,
    }
}

impl From<Task> for TaskResponse {
    fn from(task: Task) -> (r: TaskResponse) {
        TaskResponse {
            id: task.id,
            task_id: task.task_id,
            title: task.title,
            description: task.description,
            category: task.category,
            assigned_to: task.assigned_to,
            assigned_to_email: task.assigned_to_email,
            created_by: task.created_by,
            created_by_email: task.created_by_email,
            due_date: task.due_date,
            created_at: task.created_at,
            updated_at: task.updated_at,
            priority: task.priority,
            status: task.status,
            attachments_folder_url: task.attachments_folder_url,
            attachments_count: task.attachments_count,
            notes: task.notes,
        }
    }
}

impl vstd::std_specs::convert::FromSpecImpl<Task> for TaskResponse {
    open spec fn obeys_from_spec() -> bool {
        true
    }

    open spec fn from_spec(t: Task) -> TaskResponse {
        response_view(t)
    }
}

/// The outward views of a list of tasks, in the same order.
pub fn responses_from(tasks: Vec<Task>) -> (r: Vec<TaskResponse>)
    ensures
        r@.len() == tasks@.len(),
        forall|i: int| 0 <= i < r@.len() ==> r@[i] == response_view(#[trigger] tasks@[i]),
{
    let mut out: Vec<TaskResponse> = Vec::new();
    let ghost orig = tasks@;
    let mut rest = tasks;
    while rest.len() > 0
        invariant
            out@.len() + rest@.len() == orig.len(),
            rest@ == orig.subrange(out@.len() as int, orig.len() as int),
            forall|i: int| 0 <= i < out@.len() ==> out@[i] == response_view(#[trigger] orig[i]),
        decreases rest@.len(),
    {
        let ghost k = out@.len() as int;
        let t = rest.remove(0);
        proof {
            assert(t == orig[k]);
        }
        out.push(TaskResponse::from(t));
        proof {
            assert(rest@ =~= orig.subrange(out@.len() as int, orig.len() as int));
        }
    }
    out
}

/// A request to create a task. It carries no status: every task starts new.
#[derive(Debug, Clone)]
pub struct CreateTaskRequest {
    pub title: String,
    pub description: Option<String>,
    pub category: String,
    pub assigned_to: String,
    pub assigned_to_email: String,
    pub created_by: String,
    pub created_by_email: String,
    pub due_date: Option<String>,
    pub priority: Option<String>,
    pub attachments_folder_url: Option<String>,
    pub notes: Option<String>,
}

/// The first rule that a create request breaks, by field name, if any.
pub open spec fn create_request_fault(r: CreateTaskRequest) -> Option<Seq<char>> {
    if !length_within(r.title@, 1, 500) {
        Some("title"@)
    } else if !length_within(r.category@, 1, 100) {
        Some("category"@)
    } else if !length_within(r.assigned_to@, 1, 100) {
        Some("assigned_to"@)
    } else if !email_accepted(r.assigned_to_email@) {
        Some("assigned_to_email"@)
    } else if !length_within(r.created_by@, 1, 100) {
        Some("created_by"@)
    } else if !email_accepted(r.created_by_email@) {
        Some("created_by_email"@)
    } else if r.priority is Some && !valid_priority(r.priority->Some_0@) {
        Some("priority"@)
    } else {
        None
    }
}

fn check_priority(p: &Option<String>) -> (r: bool)
    ensures
        r == (p is Some ==> valid_priority(p->Some_0@)),
{
    match p {
        Some(v) => validate_priority(v.as_str()).is_ok(),
        None => true,
    }
}

fn check_status(s: &Option<String>) -> (r: bool)
    ensures
        r == (s is Some ==> valid_status(s->Some_0@)),
{
    match s {
        Some(v) => validate_status(v.as_str()).is_ok(),
        None => true,
    }
}

/// `TASK-<timestamp>-<four digits>`, the digits being `random` modulo 10000.
pub open spec fn task_id_text(timestamp: Seq<char>, random: u32) -> Seq<char> {
    "TASK-"@ + timestamp + "-"@ + four_digit_text((random % 10000) as nat)
}

/// Assembles a human-facing task identifier.
pub fn format_task_id(timestamp: &str, random: u32) -> (r: String)
    ensures
        r@ == task_id_text(timestamp@, random),
{
    let digits = four_digit_string((random % 10000) as u64);
    String::from_str("TASK-").concat(timestamp).concat("-").concat(digits.as_str())
}

/// Relies on chrono's `Utc::now` and its `%Y%m%d%H%M%S` formatting: the
/// current UTC time as text. Nothing is assumed of its value.
#[verifier::external_body]
fn utc_now_compact() -> (r: String) {
    chrono::Utc::now().format("%Y%m%d%H%M%S").to_string()
}

/// Relies on rand's `random`: a value drawn from the thread generator.
pub assume_specification<T>[ rand::random::<T> ]() -> (r: T)
    where
        rand::distributions::Standard: rand::distributions::Distribution<T>,
;

impl CreateTaskRequest {
    /// Checks every field rule; the error names the first field that breaks one.
    pub fn validate(&self) -> (r: Result<(), AppError>)
        ensures
            r is Ok <==> create_request_fault(*self) is None,
            r matches Err(e) ==> e is ValidationError && e->ValidationError_0@
                == create_request_fault(*self)->Some_0,
    {
        if !has_length_within(self.title.as_str(), 1, 500) {
            Err(validation_error("title"))
        } else if !has_length_within(self.category.as_str(), 1, 100) {
            Err(validation_error("category"))
        } else if !has_length_within(self.assigned_to.as_str(), 1, 100) {
            Err(validation_error("assigned_to"))
        } else if !is_valid_email(self.assigned_to_email.as_str()) {
            Err(validation_error("assigned_to_email"))
        } else if !has_length_within(self.created_by.as_str(), 1, 100) {
            Err(validation_error("created_by"))
        } else if !is_valid_email(self.created_by_email.as_str()) {
            Err(validation_error("created_by_email"))
        } else if !check_priority(&self.priority) {
            Err(validation_error("priority"))
        } else {
            Ok(())
        }
    }

    /// A fresh human-facing identifier from the current time and a random draw.
    /// Two calls may give the same identifier; nothing prevents it.
    pub fn generate_task_id(&self) -> (r: String)
        ensures
            exists|ts: Seq<char>, n: u32| r@ == task_id_text(ts, n),
    {
        let timestamp = utc_now_compact();
        let random: u32 = rand::random();
        format_task_id(timestamp.as_str(), random)
    }
}

/// A request to change some fields of a task; an absent field stays as it is.
#[derive(Debug, Clone)]
pub struct UpdateTaskRequest {
    pub title: Option<String>,
    pub description: Option<String>,
    pub category: Option<String>,
    pub assigned_to: Option<String>,
    pub assigned_to_email: Option<String>,
    pub due_date: Option<String>,
    pub priority: Option<String>,
    pub status: Option<String>,
    pub attachments_folder_url: Option<String>,
    pub attachments_count: Option<i32>,
    pub notes: Option<String>,
}

/// The first rule that an update request breaks, by field name, if any.
pub open spec fn update_request_fault(r: UpdateTaskRequest) -> Option<Seq<char>> {
    if r.priority is Some && !valid_priority(r.priority->Some_0@) {
        Some("priority"@)
    } else if r.status is Some && !valid_status(r.status->Some_0@) {
        Some("status"@)
    } else {
        None
    }
}

impl UpdateTaskRequest {
    /// Checks that a supplied priority or status belongs to its closed set.
    pub fn validate(&self) -> (r: Result<(), AppError>)
        ensures
            r is Ok <==> update_request_fault(*self) is None,
            r matches Err(e) ==> e is ValidationError && e->ValidationError_0@
                == update_request_fault(*self)->Some_0,
    {
        if !check_priority(&self.priority) {
            Err(validation_error("priority"))
        } else if !check_status(&self.status) {
            Err(validation_error("status"))
        } else {
            Ok(())
        }
    }
}

/// The values of a new task row, as they are written to storage.
#[derive(Debug, Clone)]
pub struct NewTask {
    pub task_id: String,
    pub title: String,
    pub description: Option<String>,
    pub category: String,
    pub assigned_to: String,
    pub assigned_to_email: String,
    pub created_by: String,
    pub created_by_email: String,
    pub due_date: Option<String>,
    pub priority: String,
    pub status: String,
    pub attachments_folder_url: Option<String>,
    pub notes: Option<String>,
}

pub open spec fn priority_or_default(p: Option<String>) -> Seq<char> {
    match p {
        Some(v) => v@,
        None => PRIORITY_NORMAL@,
    }
}

/// The row that a create request stands for: every field as given, the
/// priority defaulted to normal, the status new.
pub open spec fn new_task_matches(n: NewTask, r: CreateTaskRequest, task_id: Seq<char>) -> bool {
    &&& n.task_id@ == task_id
    &&& n.title == r.title
    &&& n.description == r.description
    &&& n.category == r.category
    &&& n.assigned_to == r.assigned_to
    &&& n.assigned_to_email == r.assigned_to_email
    &&& n.created_by == r.created_by
    &&& n.created_by_email == r.created_by_email
    &&& n.due_date == r.due_date
    &&& n.priority@ == priority_or_default(r.priority)
    &&& n.status@ == STATUS_NEW@
    &&& n.attachments_folder_url == r.attachments_folder_url
    &&& n.notes == r.notes
}

/// Validates a create request and gives the row to insert under `task_id`.
/// Nothing reaches storage from a request that breaks a rule.
pub fn prepare_new_task(req: CreateTaskRequest, task_id: String) -> (r: Result<NewTask, AppError>)
    ensures
        r is Ok <==> create_request_fault(req) is None,
        r matches Ok(n) ==> new_task_matches(n, req, task_id@),
        r matches Err(e) ==> e is ValidationError && e->ValidationError_0@
            == create_request_fault(req)->Some_0,
        r matches Ok(n) ==> n.status@ == STATUS_NEW@,
        r matches Ok(n) ==> (req.priority is None ==> n.priority@ == PRIORITY_NORMAL@),
        req.priority matches Some(p) ==> (!valid_priority(p@) ==> r is Err),
{
    match req.validate() {
        Err(e) => Err(e),
        Ok(()) => {
            let priority = match req.priority {
                Some(p) => p,
                None => String::from_str(PRIORITY_NORMAL),
            };
            Ok(
                NewTask {
                    task_id,
                    title: req.title,
                    description: req.description,
                    category: req.category,
                    assigned_to: req.assigned_to,
                    assigned_to_email: req.assigned_to_email,
                    created_by: req.created_by,
                    created_by_email: req.created_by_email,
                    due_date: req.due_date,
                    priority,
                    status: String::from_str(STATUS_NEW),
                    attachments_folder_url: req.attachments_folder_url,
                    notes: req.notes,
                },
            )
        },
    }
}

} // verus!
