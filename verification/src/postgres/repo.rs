use vstd::prelude::*;

use super::dto::{WhereByAllWithPaginationModel, WhereByIdWithPaginationModel};

verus! {

/// The query that reads one page of audit log records.
pub enum ClientAuditLogQuery<'s> {
    /// The records of one client.
    ByClientId(WhereByIdWithPaginationModel<'s>),
    /// The records of all clients.
    All(WhereByAllWithPaginationModel),
}

/// The query for a page of `limit` records after the first `offset`: those of
/// `client_id` where one is given, those of all clients otherwise.
pub fn client_audit_log_query<'s>(client_id: &'s Option<String>, limit: usize, offset: usize) -> (r: ClientAuditLogQuery<'s>)
    ensures
        match client_id {
            Some(id) => r matches ClientAuditLogQuery::ByClientId(m)
                && m.client_id@ == id@ && m.limit == limit && m.offset == offset,
            None => r matches ClientAuditLogQuery::All(m)
                && m.limit == limit && m.offset == offset,
        },
{
    match client_id {
        Some(id) => ClientAuditLogQuery::ByClientId(
            WhereByIdWithPaginationModel { client_id: id.as_str(), limit, offset },
        ),
        None => ClientAuditLogQuery::All(WhereByAllWithPaginationModel { limit, offset }),
    }
}

} // verus!
