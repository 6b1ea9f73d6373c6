use vstd::prelude::*;

use super::mappers::{spec_client_audit_log, to_client_audit_log, ClientAuditLog};
use crate::ids::{is_drawn_uuid_v4, is_uuid_v4_text, new_uuid_v4_text};
use crate::postgres::dto::{ClientAuditLogDto, ClientAuditLogTypeDto};
use crate::postgres::utils::{decrypt_field, spec_decrypt_field, spec_needs_cipher, OpenOutcome};

verus! {

/// A request to record one client audit log entry. `process_id` names the
/// request: a repeated request with the same process id is answered as before.
#[derive(Debug, Clone, PartialEq, Eq)]
pub struct CreateClientAuditLogRequest {
    pub process_id: String,
    pub client_id: String,
    pub new_context: String,
    pub prev_context: String,
    pub user_id: String,
    pub log_type: i32,
}

/// The body of the answer to a recorded entry.
#[derive(Debug, Clone, PartialEq, Eq)]
pub struct CreateClientAuditLogResponseBody {
    pub client_audit_log: Option<ClientAuditLog>,
}

/// The answer to a request to record an entry.
#[derive(Debug, Clone, PartialEq, Eq)]
pub struct CreateClientAuditLogResponse {
    pub response: Option<CreateClientAuditLogResponseBody>,
}

/// The answer to a request for one page of records.
#[derive(Debug, Clone, PartialEq, Eq)]
pub struct GetClientAuditLogPaginatedResponse {
    pub items: Vec<ClientAuditLog>,
}

/// What the service does with a request to record an entry.
pub enum CreateClientAuditLogStep {
    /// The process id was answered before: answer this again and store nothing.
    Replay(CreateClientAuditLogResponse),
    /// A new entry: keep `response` for the process id, store `record` with
    /// its contexts encrypted, and answer `response`.
    Store { record: ClientAuditLogDto, response: CreateClientAuditLogResponse },
}

/// The record made from a request, with the given id and creation time.
pub open spec fn spec_record_from_request(request: CreateClientAuditLogRequest, id: String, created_at: i64) -> ClientAuditLogDto {
    ClientAuditLogDto {
        id,
        client_id: request.client_id,
        created_at,
        user_id: request.user_id,
        new_context: request.new_context,
        prev_context: request.prev_context,
        log_type: ClientAuditLogTypeDto::from_code(request.log_type).unwrap(),
    }
}

/// The answer for a newly made record: its wire form, contexts in plaintext.
pub open spec fn spec_created_response(record: ClientAuditLogDto) -> CreateClientAuditLogResponse {
    CreateClientAuditLogResponse {
        response: Some(CreateClientAuditLogResponseBody { client_audit_log: Some(spec_client_audit_log(record)) }),
    }
}

/// What `create_client_audit_log` decides for `request` at time `now`, given
/// the answer kept for its process id: a kept answer is replayed as it is;
/// otherwise a record is stored under a fresh random id, with the request's
/// fields and the time `now`, and answered in plaintext wire form.
pub open spec fn create_step_holds(
    request: CreateClientAuditLogRequest,
    cached: Option<CreateClientAuditLogResponse>,
    now: i64,
    r: CreateClientAuditLogStep,
) -> bool {
    match cached {
        Some(c) => r == CreateClientAuditLogStep::Replay(c),
        None => (r matches CreateClientAuditLogStep::Store { record, response }
            && ClientAuditLogTypeDto::from_code(request.log_type) is Some
            && is_uuid_v4_text(record.id@)
            && is_drawn_uuid_v4(record.id@)
            && record == spec_record_from_request(request, record.id, now)
            && response == spec_created_response(record)),
    }
}

/// The record made from a request carries the given id, is created at exactly
/// the given time, keeps the request's client, user and contexts, and is of the
/// kind that the request's code names.
pub proof fn lemma_record_from_request_fields(request: CreateClientAuditLogRequest, id: String, created_at: i64)
    requires
        ClientAuditLogTypeDto::from_code(request.log_type) is Some,
    ensures
        spec_record_from_request(request, id, created_at).id == id,
        spec_record_from_request(request, id, created_at).created_at == created_at,
        spec_record_from_request(request, id, created_at).client_id == request.client_id,
        spec_record_from_request(request, id, created_at).user_id == request.user_id,
        spec_record_from_request(request, id, created_at).new_context == request.new_context,
        spec_record_from_request(request, id, created_at).prev_context == request.prev_context,
        spec_record_from_request(request, id, created_at).log_type.code() == request.log_type,
{
}

/// A new entry is stored under an id drawn from the random uuid source in
/// that call (no made-up id), created at the time of the request, with the
/// request's client, user, contexts and kind, and answered with the wire form
/// of that very record in plaintext.
pub proof fn lemma_new_entry_is_stored_as_requested(
    request: CreateClientAuditLogRequest,
    now: i64,
    r: CreateClientAuditLogStep,
)
    requires
        create_step_holds(request, None, now, r),
    ensures
        r matches CreateClientAuditLogStep::Store { record, response } && {
            &&& is_drawn_uuid_v4(record.id@)
            &&& record.created_at == now
            &&& record.client_id == request.client_id
            &&& record.user_id == request.user_id
            &&& record.new_context == request.new_context
            &&& record.prev_context == request.prev_context
            &&& record.log_type.code() == request.log_type
            &&& response.response matches Some(body) && body.client_audit_log matches Some(log)
                && log.id == record.id && log.created_at == now
                && log.new_context == request.new_context && log.prev_context == request.prev_context
        },
{
}

/// A repeated request is answered as the first one was: once a new entry was
/// stored and its answer kept for the process id, a later request finds that
/// answer and gets it back unchanged, with nothing stored. That answer carries
/// the first request's fields in plaintext, the time of the first request, and
/// the kind that its code names.
pub proof fn lemma_repeated_request_gets_first_answer(
    request: CreateClientAuditLogRequest,
    repeated: CreateClientAuditLogRequest,
    first_time: i64,
    later_time: i64,
    first: CreateClientAuditLogStep,
    second: CreateClientAuditLogStep,
)
    requires
        create_step_holds(request, None, first_time, first),
        first is Store,
        create_step_holds(repeated, Some(first->response), later_time, second),
    ensures
        second == CreateClientAuditLogStep::Replay(first->response),
        first->response.response matches Some(body) && body.client_audit_log matches Some(log)
            && log.id == first->record.id
            && log.client_id == request.client_id
            && log.user_id == request.user_id
            && log.new_context == request.new_context
            && log.prev_context == request.prev_context
            && log.created_at == first_time
            && log.log_type == request.log_type,
{
}

/// The record made from a request; a request whose kind code names no kind is
/// outside the domain.
pub fn client_audit_log_from_request(request: CreateClientAuditLogRequest, id: String, created_at: i64) -> (r: ClientAuditLogDto)
    requires
        ClientAuditLogTypeDto::from_code(request.log_type) is Some,
    ensures
        r == spec_record_from_request(request, id, created_at),
        r.id == id,
        r.created_at == created_at,
        r.client_id == request.client_id,
        r.user_id == request.user_id,
        r.new_context == request.new_context,
        r.prev_context == request.prev_context,
        r.log_type.code() == request.log_type,
{
    ClientAuditLogDto {
        id,
        client_id: request.client_id,
        created_at,
        user_id: request.user_id,
        new_context: request.new_context,
        prev_context: request.prev_context,
        log_type: ClientAuditLogTypeDto::from_db_value(request.log_type),
    }
}

/// The answer for a newly made record.
pub fn created_response(record: &ClientAuditLogDto) -> (r: CreateClientAuditLogResponse)
    ensures
        r == spec_created_response(*record),
{
    CreateClientAuditLogResponse {
        response: Some(CreateClientAuditLogResponseBody { client_audit_log: Some(to_client_audit_log(record)) }),
    }
}

/// Decides a request to record an entry at time `now` (unix microseconds).
/// `cached` is the answer kept for the request's process id, if any. A kept
/// answer is given again and nothing is stored; otherwise a record with a
/// fresh random id is made from the request and answered in plaintext. A new
/// entry whose kind code names no kind is outside the domain.
pub fn create_client_audit_log(
    request: CreateClientAuditLogRequest,
    cached: Option<CreateClientAuditLogResponse>,
    now: i64,
) -> (r: CreateClientAuditLogStep)
    requires
        cached is Some || ClientAuditLogTypeDto::from_code(request.log_type) is Some,
    ensures
        create_step_holds(request, cached, now, r),
{
    if let Some(response) = cached {
        return CreateClientAuditLogStep::Replay(response);
    }
    let id = new_uuid_v4_text();
    let record = client_audit_log_from_request(request, id, now);
    let response = created_response(&record);
    CreateClientAuditLogStep::Store { record, response }
}

/// What the cipher reported for the two contexts of one stored record, for
/// each context that `needs_cipher`.
pub struct OpenedContexts {
    pub new_context: Option<OpenOutcome>,
    pub prev_context: Option<OpenOutcome>,
}

/// Both contexts of `row` can be read back with what the cipher reported: each
/// one that needs the cipher was opened or failed to decrypt, and none is
/// other than base64 text.
pub open spec fn contexts_readable(row: ClientAuditLogDto, opened: OpenedContexts) -> bool {
    &&& spec_needs_cipher(row.new_context@) ==> (opened.new_context matches Some(o) && !(o is Base64Failed))
    &&& spec_needs_cipher(row.prev_context@) ==> (opened.prev_context matches Some(o) && !(o is Base64Failed))
}

/// `item` is the wire form of `row` read back in plaintext: the contexts as
/// `decrypt_field` reads them, every other field as `row` holds it.
pub open spec fn is_read_back(item: ClientAuditLog, row: ClientAuditLogDto, opened: OpenedContexts) -> bool {
    let wire = spec_client_audit_log(row);
    &&& item.client_id == wire.client_id
    &&& item.id == wire.id
    &&& item.created_at == wire.created_at
    &&& item.user_id == wire.user_id
    &&& item.log_type == wire.log_type
    &&& item.new_context@ == spec_decrypt_field(row.new_context@, opened.new_context)
    &&& item.prev_context@ == spec_decrypt_field(row.prev_context@, opened.prev_context)
}

/// The answer for one page of stored records: each record read back in
/// plaintext and in wire form, in order. `opened[i]` is what the cipher
/// reported for the contexts of `rows[i]`; a stored context that is not base64
/// lies outside the domain (the service stops there).
pub fn get_client_audit_log_paginated(rows: &Vec<ClientAuditLogDto>, opened: Vec<OpenedContexts>) -> (r: GetClientAuditLogPaginatedResponse)
    requires
        opened@.len() == rows@.len(),
        forall|i: int| 0 <= i < rows@.len() ==> contexts_readable(#[trigger] rows@[i], opened@[i]),
    ensures
        r.items@.len() == rows@.len(),
        forall|i: int| 0 <= i < rows@.len() ==> is_read_back(#[trigger] r.items@[i], rows@[i], opened@[i]),
{
    let mut items: Vec<ClientAuditLog> = Vec::new();
    let ghost all_opened = opened@;
    let n = rows.len();
    let mut i: usize = 0;
    for contexts in it: opened.into_iter()
        invariant
            i == it.index(),
            n == rows@.len(),
            i <= n,
            it.seq() == all_opened,
            all_opened.len() == rows@.len(),
            forall|j: int| 0 <= j < rows@.len() ==> contexts_readable(#[trigger] rows@[j], all_opened[j]),
            items@.len() == i,
            forall|j: int| 0 <= j < i ==> is_read_back(#[trigger] items@[j], rows@[j], all_opened[j]),
    {
        let row = &rows[i];
        let mut item = to_client_audit_log(row);
        item.new_context = decrypt_field(&row.new_context, contexts.new_context);
        item.prev_context = decrypt_field(&row.prev_context, contexts.prev_context);
        items.push(item);
        i = i + 1;
    }
    GetClientAuditLogPaginatedResponse { items }
}

} // verus!
