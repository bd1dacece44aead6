use taskdesk::error::AppError;
use taskdesk::handlers::{delete_task, get_task, update_task};
use taskdesk::repository::{build_update_statement, delete_outcome};
use taskdesk::task::{Task, UpdateTaskRequest};

fn s(x: &str) -> String {
    x.to_string()
}

fn empty() -> UpdateTaskRequest {
    UpdateTaskRequest {
        title: None,
        description: None,
        category: None,
        assigned_to: None,
        assigned_to_email: None,
        due_date: None,
        priority: None,
        status: None,
        attachments_folder_url: None,
        attachments_count: None,
        notes: None,
    }
}

fn task() -> Task {
    Task {
        id: 5,
        task_id: s("TASK-20240101120000-0042"),
        title: s("t"),
        description: None,
        category: s("c"),
        assigned_to: s("Dana"),
        assigned_to_email: s("b@x.com"),
        created_by: s("Avi"),
        created_by_email: s("a@x.com"),
        due_date: None,
        created_at: 0,
        updated_at: 0,
        priority: s("רגילה"),
        status: s("חדשה"),
        attachments_folder_url: None,
        attachments_count: 0,
        notes: None,
    }
}

#[test]
fn notes_only_update_sets_only_notes() {
    let mut u = empty();
    u.notes = Some(s("call back'; DROP TABLE tasks; --"));
    let st = build_update_statement(&u).unwrap();
    assert_eq!(st.sql, "UPDATE tasks SET notes = $1 WHERE id = $2 RETURNING *");
    assert_eq!(st.params, vec![s("call back'; DROP TABLE tasks; --")]);
}

#[test]
fn supplied_fields_appear_in_fixed_order() {
    let mut u = empty();
    u.status = Some(s("בטיפול"));
    u.title = Some(s("New title"));
    u.attachments_folder_url = Some(s("https://files/1"));
    let st = build_update_statement(&u).unwrap();
    assert_eq!(
        st.sql,
        "UPDATE tasks SET title = $1, status = $2, attachments_folder_url = $3 WHERE id = $4 RETURNING *"
    );
    assert_eq!(st.params, vec![s("New title"), s("בטיפול"), s("https://files/1")]);
}

#[test]
fn every_field_numbers_placeholders_to_ten() {
    let u = UpdateTaskRequest {
        title: Some(s("a")),
        description: Some(s("b")),
        category: Some(s("c")),
        assigned_to: Some(s("d")),
        assigned_to_email: Some(s("e@x.com")),
        due_date: None,
        priority: Some(s("f")),
        status: Some(s("g")),
        attachments_folder_url: Some(s("i")),
        attachments_count: Some(2),
        notes: Some(s("h")),
    };
    let st = build_update_statement(&u).unwrap();
    assert_eq!(
        st.sql,
        "UPDATE tasks SET title = $1, description = $2, category = $3, assigned_to = $4, \
         assigned_to_email = $5, priority = $6, status = $7, notes = $8, \
         attachments_folder_url = $9 WHERE id = $10 RETURNING *"
    );
    assert_eq!(st.params.len(), 9);
    assert_eq!(st.params[7], "h");
}

#[test]
fn zero_field_update_is_refused() {
    match build_update_statement(&empty()) {
        Err(AppError::ValidationError(m)) => assert_eq!(m, "no fields to update"),
        other => panic!("unexpected {:?}", other),
    }
}

#[test]
fn update_of_missing_task_is_not_found() {
    let mut u = empty();
    u.notes = Some(s("n"));
    match update_task(0x2a, &u, None) {
        Err(AppError::NotFound(m)) => {
            assert_eq!(m, "Task with id 00000000-0000-0000-0000-00000000002a not found")
        }
        other => panic!("unexpected {:?}", other),
    }
    match update_task(0x2a, &empty(), None) {
        Err(e) => assert_eq!(e.status_code(), 404),
        Ok(_) => panic!("a missing task cannot be updated"),
    }
}

#[test]
fn update_validates_before_looking_up() {
    let mut u = empty();
    u.priority = Some(s("whenever"));
    match update_task(1, &u, None) {
        Err(AppError::ValidationError(m)) => assert_eq!(m, "priority"),
        other => panic!("unexpected {:?}", other),
    }
}

#[test]
fn update_of_existing_task_builds_the_statement() {
    let t = task();
    let mut u = empty();
    u.assigned_to = Some(s("Noa"));
    let st = update_task(5, &u, Some(&t)).unwrap();
    assert_eq!(st.sql, "UPDATE tasks SET assigned_to = $1 WHERE id = $2 RETURNING *");
    assert!(matches!(update_task(5, &empty(), Some(&t)), Err(AppError::ValidationError(_))));
}

#[test]
fn deleting_nothing_reports_false() {
    assert!(!delete_outcome(0));
    assert!(delete_outcome(1));
    assert!(delete_outcome(3));
}

#[test]
fn delete_answer_and_lookup_answer() {
    assert!(delete_task(true, 9).is_ok());
    assert!(matches!(delete_task(false, 9), Err(AppError::NotFound(_))));
    let r = get_task(Some(task()), 5).unwrap();
    assert_eq!(r.task_id, "TASK-20240101120000-0042");
    assert!(matches!(get_task(None, 5), Err(AppError::NotFound(_))));
}
