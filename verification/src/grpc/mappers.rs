use vstd::prelude::*;

use crate::postgres::dto::ClientAuditLogDto;

verus! {

/// A client audit log record as the gRPC service sends it: `created_at` is in
/// unix microseconds and `log_type` is the integer code of the record's kind.
#[derive(Debug, Clone, PartialEq, Eq)]
pub struct ClientAuditLog {
    pub client_id: String,
    pub id: String,
    pub created_at: i64,
    pub new_context: String,
    pub prev_context: String,
    pub user_id: String,
    pub log_type: i32,
}

/// The wire form of a stored record: every field carried over as it is, and
/// the kind by its integer code.
pub open spec fn spec_client_audit_log(dto: ClientAuditLogDto) -> ClientAuditLog {
    ClientAuditLog {
        client_id: dto.client_id,
        id: dto.id,
        created_at: dto.created_at,
        new_context: dto.new_context,
        prev_context: dto.prev_context,
        user_id: dto.user_id,
        log_type: dto.log_type.code(),
    }
}

/// The wire form of every record carries each of its fields unchanged (the
/// creation time in the same unix microseconds) and the kind as its code.
pub proof fn lemma_wire_form_carries_every_field(dto: ClientAuditLogDto)
    ensures
        spec_client_audit_log(dto).client_id == dto.client_id,
        spec_client_audit_log(dto).id == dto.id,
        spec_client_audit_log(dto).created_at == dto.created_at,
        spec_client_audit_log(dto).new_context == dto.new_context,
        spec_client_audit_log(dto).prev_context == dto.prev_context,
        spec_client_audit_log(dto).user_id == dto.user_id,
        spec_client_audit_log(dto).log_type == dto.log_type.code(),
{
}

impl From<ClientAuditLogDto> for ClientAuditLog {
    fn from(dto: ClientAuditLogDto) -> (r: ClientAuditLog)
        ensures
            r.client_id == dto.client_id,
            r.id == dto.id,
            r.created_at == dto.created_at,
            r.new_context == dto.new_context,
            r.prev_context == dto.prev_context,
            r.user_id == dto.user_id,
            r.log_type == dto.log_type.code(),
    {
        let log_type = dto.log_type.to_db_value();
        ClientAuditLog {
            client_id: dto.client_id,
            id: dto.id,
            created_at: dto.created_at,
            new_context: dto.new_context,
            prev_context: dto.prev_context,
            user_id: dto.user_id,
            log_type,
        }
    }
}

impl vstd::std_specs::convert::FromSpecImpl<ClientAuditLogDto> for ClientAuditLog {
    open spec fn obeys_from_spec() -> bool {
        true
    }

    open spec fn from_spec(dto: ClientAuditLogDto) -> ClientAuditLog {
        spec_client_audit_log(dto)
    }
}

/// The wire form of a stored record, leaving the record in place.
pub fn to_client_audit_log(dto: &ClientAuditLogDto) -> (r: ClientAuditLog)
    ensures
        r == spec_client_audit_log(*dto),
        r.client_id == dto.client_id,
        r.id == dto.id,
        r.created_at == dto.created_at,
        r.new_context == dto.new_context,
        r.prev_context == dto.prev_context,
        r.user_id == dto.user_id,
        r.log_type == dto.log_type.code(),
{
    ClientAuditLog {
        client_id: dto.client_id.clone(),
        id: dto.id.clone(),
        created_at: dto.created_at,
        new_context: dto.new_context.clone(),
        prev_context: dto.prev_context.clone(),
        user_id: dto.user_id.clone(),
        log_type: dto.log_type.to_db_value(),
    }
}

} // verus!
