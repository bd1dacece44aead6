//! Notification e-mails about tasks. Composing a message is decided here;
//! handing it to a mail transport happens outside, detached from the request
//! that caused it.
use vstd::prelude::*;
use crate::task::Task;

verus! {

pub const CREATED_BODY_0: &'static str = "
<!DOCTYPE html>
<html dir=\"rtl\" lang=\"he\">
<head>
    <meta charset=\"UTF-8\">
    <style>
        body { font-family: Arial, sans-serif; background-color: #f4f4f4; padding: 20px; }
        .container { background-color: white; padding: 30px; border-radius: 10px; max-width: 600px; margin: 0 auto; box-shadow: 0 2px 4px rgba(0,0,0,0.1); }
        h1 { color: #2c3e50; border-bottom: 3px solid #3498db; padding-bottom: 10px; }
        .task-info { background-color: #ecf0f1; padding: 15px; border-radius: 5px; margin: 20px 0; }
        .label { font-weight: bold; color: #34495e; }
        .value { color: #2c3e50; margin-bottom: 10px; }
        .footer { text-align: center; margin-top: 30px; padding-top: 20px; border-top: 1px solid #ddd; color: #7f8c8d; }
    </style>
</head>
<body>
    <div class=\"container\">
        <h1>🔔 משימה חדשה נוצרה</h1>

        <div class=\"task-info\">
            <div class=\"value\"><span class=\"label\">מזהה משימה:</span> ";

pub const CREATED_BODY_1: &'static str = "</div>
            <div class=\"value\"><span class=\"label\">כותרת:</span> ";

pub const CREATED_BODY_2: &'static str = "</div>
            <div class=\"value\"><span class=\"label\">תיאור:</span> ";

pub const CREATED_BODY_3: &'static str = "</div>
            <div class=\"value\"><span class=\"label\">קטגוריה:</span> ";

pub const CREATED_BODY_4: &'static str = "</div>
            <div class=\"value\"><span class=\"label\">עדיפות:</span> ";

pub const CREATED_BODY_5: &'static str = "</div>
            <div class=\"value\"><span class=\"label\">תאריך יעד:</span> ";

pub const CREATED_BODY_6: &'static str = "</div>
            <div class=\"value\"><span class=\"label\">נוצר על ידי:</span> ";

pub const CREATED_BODY_7: &'static str = " (";

pub const CREATED_BODY_8: &'static str = ")</div>
        </div>

        <p style=\"text-align: center; margin-top: 30px;\">
            <a href=\"#\" style=\"background-color: #3498db; color: white; padding: 12px 30px; text-decoration: none; border-radius: 5px; display: inline-block;\">
                צפה במשימה
            </a>
        </p>

        <div class=\"footer\">
            <p>מערכת ניהול משימות - משרד עורכי דין</p>
            <p>⚖️ GH Law Office</p>
        </div>
    </div>
</body>
</html>
            ";

pub const UPDATED_BODY_0: &'static str = "
<!DOCTYPE html>
<html dir=\"rtl\" lang=\"he\">
<head>
    <meta charset=\"UTF-8\">
    <style>
        body { font-family: Arial, sans-serif; background-color: #f4f4f4; padding: 20px; }
        .container { background-color: white; padding: 30px; border-radius: 10px; max-width: 600px; margin: 0 auto; box-shadow: 0 2px 4px rgba(0,0,0,0.1); }
        h1 { color: #2c3e50; border-bottom: 3px solid #e67e22; padding-bottom: 10px; }
        .task-info { background-color: #fef5e7; padding: 15px; border-radius: 5px; margin: 20px 0; }
        .label { font-weight: bold; color: #34495e; }
        .value { color: #2c3e50; margin-bottom: 10px; }
        .status { display: inline-block; padding: 5px 15px; border-radius: 20px; color: white; font-weight: bold; }
        .status-new { background-color: #3498db; }
        .status-in-progress { background-color: #f39c12; }
        .status-completed { background-color: #27ae60; }
        .status-cancelled { background-color: #95a5a6; }
        .footer { text-align: center; margin-top: 30px; padding-top: 20px; border-top: 1px solid #ddd; color: #7f8c8d; }
    </style>
</head>
<body>
    <div class=\"container\">
        <h1>🔄 עדכון במשימה</h1>

        <div class=\"task-info\">
            <div class=\"value\"><span class=\"label\">מזהה משימה:</span> ";

pub const UPDATED_BODY_1: &'static str = "</div>
            <div class=\"value\"><span class=\"label\">כותרת:</span> ";

pub const UPDATED_BODY_2: &'static str = "</div>
            <div class=\"value\"><span class=\"label\">סטטוס:</span> <span class=\"status\">";

pub const UPDATED_BODY_3: &'static str = "</span></div>
            <div class=\"value\"><span class=\"label\">עדיפות:</span> ";

pub const UPDATED_BODY_4: &'static str = "</div>
        </div>

        <p style=\"text-align: center; margin-top: 30px;\">
            <a href=\"#\" style=\"background-color: #e67e22; color: white; padding: 12px 30px; text-decoration: none; border-radius: 5px; display: inline-block;\">
                צפה במשימה
            </a>
        </p>

        <div class=\"footer\">
            <p>מערכת ניהול משימות - משרד עורכי דין</p>
            <p>⚖️ GH Law Office</p>
        </div>
    </div>
</body>
</html>
            ";

pub const NO_DESCRIPTION: &'static str = "אין תיאור";
pub const NO_DUE_DATE: &'static str = "לא צוין";
pub const CREATED_SUBJECT_PREFIX: &'static str = "משימה חדשה: ";
pub const UPDATED_SUBJECT_PREFIX: &'static str = "עדכון במשימה: ";

/// A composed message, ready for a mail transport.
#[derive(Debug, Clone)]
pub struct OutgoingEmail {
    pub from: String,
    pub to: String,
    pub subject: String,
    /// HTML.
    pub body: String,
}

/// Where and as whom notifications are sent.
#[derive(Debug, Clone)]
pub struct EmailService {
    smtp_username: String,
    smtp_password: String,
    smtp_host: String,
    smtp_port: u16,
}

pub open spec fn description_text(t: Task) -> Seq<char> {
    match t.description {
        Some(d) => d@,
        None => NO_DESCRIPTION@,
    }
}

pub open spec fn due_date_text(t: Task) -> Seq<char> {
    match t.due_date {
        Some(d) => d@,
        None => NO_DUE_DATE@,
    }
}

/// The body announcing a new task.
pub open spec fn created_body(t: Task) -> Seq<char> {
    CREATED_BODY_0@ + t.task_id@ + CREATED_BODY_1@ + t.title@ + CREATED_BODY_2@
        + description_text(t) + CREATED_BODY_3@ + t.category@ + CREATED_BODY_4@ + t.priority@
        + CREATED_BODY_5@ + due_date_text(t) + CREATED_BODY_6@ + t.created_by@ + CREATED_BODY_7@
        + t.created_by_email@ + CREATED_BODY_8@
}

/// The body announcing a change to a task.
pub open spec fn updated_body(t: Task) -> Seq<char> {
    UPDATED_BODY_0@ + t.task_id@ + UPDATED_BODY_1@ + t.title@ + UPDATED_BODY_2@ + t.status@
        + UPDATED_BODY_3@ + t.priority@ + UPDATED_BODY_4@
}

fn text_or<'a>(v: &'a Option<String>, default: &'a str) -> (r: &'a str)
    ensures
        r@ == match v {
            Some(s) => s@,
            None => default@,
        },
{
    match v {
        Some(s) => s.as_str(),
        None => default,
    }
}

impl EmailService {
    pub fn new(username: String, password: String, host: String, port: u16) -> (r: EmailService)
        ensures
            r.smtp_username() == username,
            r.smtp_password() == password,
            r.smtp_host() == host,
            r.smtp_port() == port,
    {
        EmailService {
            smtp_username: username,
            smtp_password: password,
            smtp_host: host,
            smtp_port: port,
        }
    }

    pub closed spec fn smtp_username(&self) -> String {
        self.smtp_username
    }

    pub closed spec fn smtp_password(&self) -> String {
        self.smtp_password
    }

    pub closed spec fn smtp_host(&self) -> String {
        self.smtp_host
    }

    pub closed spec fn smtp_port(&self) -> u16 {
        self.smtp_port
    }

    /// The HTML body announcing a new task.
    pub fn create_task_email_body(&self, task: &Task) -> (r: String)
        ensures
            r@ == created_body(*task),
    {
        String::from_str(CREATED_BODY_0).concat(task.task_id.as_str()).concat(CREATED_BODY_1).concat(
            task.title.as_str(),
        ).concat(CREATED_BODY_2).concat(text_or(&task.description, NO_DESCRIPTION)).concat(
            CREATED_BODY_3,
        ).concat(task.category.as_str()).concat(CREATED_BODY_4).concat(task.priority.as_str()).concat(
            CREATED_BODY_5,
        ).concat(text_or(&task.due_date, NO_DUE_DATE)).concat(CREATED_BODY_6).concat(
            task.created_by.as_str(),
        ).concat(CREATED_BODY_7).concat(task.created_by_email.as_str()).concat(CREATED_BODY_8)
    }

    /// The HTML body announcing a change to a task.
    pub fn create_task_update_email_body(&self, task: &Task) -> (r: String)
        ensures
            r@ == updated_body(*task),
    {
        String::from_str(UPDATED_BODY_0).concat(task.task_id.as_str()).concat(UPDATED_BODY_1).concat(
            task.title.as_str(),
        ).concat(UPDATED_BODY_2).concat(task.status.as_str()).concat(UPDATED_BODY_3).concat(
            task.priority.as_str(),
        ).concat(UPDATED_BODY_4)
    }

    /// The message telling the assignee of a new task, sent as the service account.
    pub fn task_notification(&self, task: &Task) -> (r: OutgoingEmail)
        ensures
            r.from == self.smtp_username(),
            r.to == task.assigned_to_email,
            r.subject@ == CREATED_SUBJECT_PREFIX@ + task.title@,
            r.body@ == created_body(*task),
    {
        OutgoingEmail {
            from: self.smtp_username.clone(),
            to: task.assigned_to_email.clone(),
            subject: String::from_str(CREATED_SUBJECT_PREFIX).concat(task.title.as_str()),
            body: self.create_task_email_body(task),
        }
    }

    /// The message telling the assignee of a changed task, sent as the service account.
    pub fn task_update_notification(&self, task: &Task) -> (r: OutgoingEmail)
        ensures
            r.from == self.smtp_username(),
            r.to == task.assigned_to_email,
            r.subject@ == UPDATED_SUBJECT_PREFIX@ + task.title@,
            r.body@ == updated_body(*task),
    {
        OutgoingEmail {
            from: self.smtp_username.clone(),
            to: task.assigned_to_email.clone(),
            subject: String::from_str(UPDATED_SUBJECT_PREFIX).concat(task.title.as_str()),
            body: self.create_task_update_email_body(task),
        }
    }

    pub fn get_smtp_username(&self) -> (r: &str)
        ensures
            r@ == self.smtp_username()@,
    {
        self.smtp_username.as_str()
    }

    pub fn get_smtp_password(&self) -> (r: &str)
        ensures
            r@ == self.smtp_password()@,
    {
        self.smtp_password.as_str()
    }

    pub fn get_smtp_host(&self) -> (r: &str)
        ensures
            r@ == self.smtp_host()@,
    {
        self.smtp_host.as_str()
    }

    pub fn get_smtp_port(&self) -> (r: u16)
        ensures
            r == self.smtp_port(),
    {
        self.smtp_port
    }
}

/// Both notification bodies carry the task's human-facing identifier right
/// after their opening part.
pub proof fn lemma_bodies_name_the_task(t: Task)
    ensures
        created_body(t).subrange(
            CREATED_BODY_0@.len() as int,
            (CREATED_BODY_0@.len() + t.task_id@.len()) as int,
        ) == t.task_id@,
        updated_body(t).subrange(
            UPDATED_BODY_0@.len() as int,
            (UPDATED_BODY_0@.len() + t.task_id@.len()) as int,
        ) == t.task_id@,
{
    let c = created_body(t);
    let k = CREATED_BODY_0@.len() as int;
    let n = t.task_id@.len() as int;
    assert(c =~= (CREATED_BODY_0@ + t.task_id@) + (c.subrange(k + n, c.len() as int)));
    assert(c.subrange(k, k + n) =~= t.task_id@);
    let u = updated_body(t);
    let j = UPDATED_BODY_0@.len() as int;
    assert(u =~= (UPDATED_BODY_0@ + t.task_id@) + (u.subrange(j + n, u.len() as int)));
    assert(u.subrange(j, j + n) =~= t.task_id@);
}

} // verus!
