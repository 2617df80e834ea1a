//! The tenant's audit trail.

use vstd::prelude::*;

use crate::comment::{CommentTimestampFilter, Continuation};
use crate::dataset;
use crate::project;
use crate::project::ProjectName;
use crate::time::Timestamp;
use crate::user;
use crate::user::Email;

verus! {

/// Restricts an audit query to a time window.
pub struct AuditQueryFilter {
    pub timestamp: CommentTimestampFilter,
}

/// An audit event id.
pub struct AuditEventId(pub String);

/// The kind of an audit event.
pub struct AuditEventType(pub String);

/// A tenant name as audit events record it.
pub struct AuditTenantName(pub String);

/// A tenant id as audit events record it.
pub struct AuditTenantId(pub String);

/// The body of an audit query. The continuation, when present, resumes
/// an earlier query.
pub struct AuditQueryRequest {
    pub filter: AuditQueryFilter,
    pub continuation: Option<Continuation>,
}

/// An audit event as the service returns it.
pub struct AuditEvent {
    pub actor_user_id: user::Id,
    pub actor_tenant_id: AuditTenantId,
    pub dataset_ids: Vec<dataset::Id>,
    pub event_id: AuditEventId,
    pub event_type: AuditEventType,
    pub project_ids: Vec<project::Id>,
    pub tenant_ids: Vec<AuditTenantId>,
    pub timestamp: Timestamp,
}

/// An audit event with ids resolved to names, ready for display.
pub struct PrintableAuditEvent {
    pub actor_email: Email,
    pub actor_tenant_name: AuditTenantName,
    pub event_type: AuditEventType,
    pub dataset_names: Vec<dataset::Name>,
    pub event_id: AuditEventId,
    pub project_names: Vec<ProjectName>,
    pub tenant_names: Vec<AuditTenantName>,
    pub timestamp: Timestamp,
}

} // verus!
