//! Append-only audit entries and task attachments. Identifiers are 128-bit
//! values, instants microseconds since the Unix epoch, and a change payload
//! is kept as its JSON text.
use vstd::prelude::*;

verus! {

#[derive(Debug, Clone)]
pub struct Attachment {
    pub id: u128,
    pub task_id: u128,
    pub file_name: String,
    pub file_url: String,
    pub file_size: Option<i64>,
    pub mime_type: Option<String>,
    pub uploaded_at: i64,
}

#[derive(Debug, Clone)]
pub struct CreateAttachmentRequest {
    pub task_id: u128,
    pub file_name: String,
    pub file_url: String,
    pub file_size: Option<i64>,
    pub mime_type: Option<String>,
}

/// One audit entry. A system action has no acting user.
#[derive(Debug, Clone)]
pub struct AuditLog {
    pub id: u128,
    pub user_id: Option<u128>,
    pub action: String,
    pub entity_type: String,
    pub entity_id: u128,
    pub changes: Option<String>,
    pub ip_address: Option<String>,
    pub user_agent: Option<String>,
    pub created_at: i64,
}

#[derive(Debug, Clone)]
pub struct CreateAuditLogRequest {
    pub user_id: Option<u128>,
    pub action: String,
    pub entity_type: String,
    pub entity_id: u128,
    pub changes: Option<String>,
    pub ip_address: Option<String>,
    pub user_agent: Option<String>,
}

} // verus!
