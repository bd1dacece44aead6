use taskdesk::email::EmailService;
use taskdesk::handlers::{task_created, task_updated};
use taskdesk::task::Task;

fn s(x: &str) -> String {
    x.to_string()
}

fn service() -> EmailService {
    EmailService::new(s("office@x.com"), s("pw"), s("smtp.x.com"), 587)
}

fn task() -> Task {
    Task {
        id: 5,
        task_id: s("TASK-20240101120000-0042"),
        title: s("Draft the lease"),
        description: None,
        category: s("contracts"),
        assigned_to: s("Dana"),
        assigned_to_email: s("b@x.com"),
        created_by: s("Avi"),
        created_by_email: s("a@x.com"),
        due_date: Some(s("2024-05-01")),
        created_at: 0,
        updated_at: 0,
        priority: s("רגילה"),
        status: s("חדשה"),
        attachments_folder_url: None,
        attachments_count: 0,
        notes: None,
    }
}

#[test]
fn created_task_yields_one_message_to_the_assignee() {
    let (resp, mail) = task_created(&service(), task());
    assert_eq!(resp.task_id, "TASK-20240101120000-0042");
    assert_eq!(mail.to, "b@x.com");
    assert_eq!(mail.from, "office@x.com");
    assert_eq!(mail.subject, "משימה חדשה: Draft the lease");
    assert!(mail.body.contains("TASK-20240101120000-0042"));
    assert!(mail.body.contains("אין תיאור"));
    assert!(mail.body.contains("2024-05-01"));
    assert!(mail.body.contains("Avi (a@x.com)"));
    assert!(mail.body.starts_with("\n<!DOCTYPE html>"));
    assert!(mail.body.contains("<a href=\"#\" style="));
    assert!(mail.body.contains("צפה במשימה"));
    assert!(mail.body.contains("GH Law Office"));
    assert!(mail.body.ends_with("</html>\n            "));
}

#[test]
fn updated_task_message() {
    let mut t = task();
    t.status = s("הושלמה");
    t.due_date = None;
    let (_, mail) = task_updated(&service(), t);
    assert_eq!(mail.to, "b@x.com");
    assert_eq!(mail.subject, "עדכון במשימה: Draft the lease");
    assert!(mail.body.contains("<span class=\"status\">הושלמה</span>"));
    assert!(mail.body.contains("TASK-20240101120000-0042"));
    assert!(mail.body.contains("</body>\n</html>"));
}

#[test]
fn created_body_fills_description_and_missing_date() {
    let mut t = task();
    t.description = Some(s("two copies"));
    t.due_date = None;
    let body = service().create_task_email_body(&t);
    assert!(body.contains("two copies"));
    assert!(!body.contains("אין תיאור"));
    assert!(body.contains("לא צוין"));
}

#[test]
fn service_keeps_its_settings() {
    let svc = service();
    assert_eq!(svc.get_smtp_username(), "office@x.com");
    assert_eq!(svc.get_smtp_password(), "pw");
    assert_eq!(svc.get_smtp_host(), "smtp.x.com");
    assert_eq!(svc.get_smtp_port(), 587);
}
