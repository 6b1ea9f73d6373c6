use vstd::prelude::*;

use super::utils::{
    decrypt_field, encrypt_field, spec_decrypt_field, spec_encrypt_field, spec_needs_cipher,
    cipher_round_trips, OpenOutcome,
};

verus! {

/// The kind of a client audit log record, stored by its integer code.
#[derive(Debug, Clone, Copy, PartialEq, Eq, Structural)]
pub enum ClientAuditLogTypeDto {
    ChangedPersonalData,
    Registered,
    LoggedIn,
}

impl ClientAuditLogTypeDto {
    /// The integer code of the kind: `ChangedPersonalData` is 0, `Registered`
    /// is 1, `LoggedIn` is 2.
    pub open spec fn code(self) -> i32 {
        match self {
            ClientAuditLogTypeDto::ChangedPersonalData => 0,
            ClientAuditLogTypeDto::Registered => 1,
            ClientAuditLogTypeDto::LoggedIn => 2,
        }
    }

    /// The kind that an integer code names, if any.
    pub open spec fn from_code(code: i32) -> Option<Self> {
        if code == 0 {
            Some(ClientAuditLogTypeDto::ChangedPersonalData)
        } else if code == 1 {
            Some(ClientAuditLogTypeDto::Registered)
        } else if code == 2 {
            Some(ClientAuditLogTypeDto::LoggedIn)
        } else {
            None
        }
    }

    /// The kind of a stored code; a code that names no kind is outside the domain.
    pub fn from_db_value(value: i32) -> (r: Self)
        requires
            Self::from_code(value) is Some,
        ensures
            Some(r) == Self::from_code(value),
            r.code() == value,
    {
        if value == 0 {
            ClientAuditLogTypeDto::ChangedPersonalData
        } else if value == 1 {
            ClientAuditLogTypeDto::Registered
        } else {
            ClientAuditLogTypeDto::LoggedIn
        }
    }

    /// The kind of a stored code, or `None` where the code names no kind.
    pub fn try_from_db_value(value: i32) -> (r: Option<Self>)
        ensures
            r == Self::from_code(value),
    {
        if value == 0 {
            Some(ClientAuditLogTypeDto::ChangedPersonalData)
        } else if value == 1 {
            Some(ClientAuditLogTypeDto::Registered)
        } else if value == 2 {
            Some(ClientAuditLogTypeDto::LoggedIn)
        } else {
            None
        }
    }

    /// The integer code stored for the kind.
    pub fn to_db_value(&self) -> (r: i32)
        ensures
            r == self.code(),
    {
        match self {
            ClientAuditLogTypeDto::ChangedPersonalData => 0,
            ClientAuditLogTypeDto::Registered => 1,
            ClientAuditLogTypeDto::LoggedIn => 2,
        }
    }
}

impl From<ClientAuditLogTypeDto> for i32 {
    fn from(item: ClientAuditLogTypeDto) -> (r: i32) {
        item.to_db_value()
    }
}

impl vstd::std_specs::convert::FromSpecImpl<ClientAuditLogTypeDto> for i32 {
    open spec fn obeys_from_spec() -> bool {
        true
    }

    open spec fn from_spec(item: ClientAuditLogTypeDto) -> i32 {
        item.code()
    }
}

/// A kind's code names that kind again, and a code that names a kind is that
/// kind's code.
pub proof fn lemma_log_type_code_round_trip(log_type: ClientAuditLogTypeDto, code: i32)
    ensures
        ClientAuditLogTypeDto::from_code(log_type.code()) == Some(log_type),
        ClientAuditLogTypeDto::from_code(code) matches Some(t) ==> t.code() == code,
{
}

/// One client audit log record as the database holds it. `new_context` and
/// `prev_context` are stored encrypted; `created_at` is in unix microseconds.
pub struct ClientAuditLogDto {
    pub id: String,
    pub client_id: String,
    pub created_at: i64,
    pub user_id: String,
    pub new_context: String,
    pub prev_context: String,
    pub log_type: ClientAuditLogTypeDto,
}

/// The details of a trader account order: the order's id and its trading
/// package serialized as JSON.
pub struct OrderDetailsDto {
    pub order_id: String,
    pub trading_package: String,
}

/// The query of one page of the audit log records of one client.
pub struct WhereByIdWithPaginationModel<'s> {
    pub client_id: &'s str,
    pub limit: usize,
    pub offset: usize,
}

/// The query of one page of the audit log records of all clients.
pub struct WhereByAllWithPaginationModel {
    pub limit: usize,
    pub offset: usize,
}

impl ClientAuditLogDto {
    /// The two records agree on every field but the two context fields.
    pub open spec fn same_but_contexts(self, other: Self) -> bool {
        &&& self.id == other.id
        &&& self.client_id == other.client_id
        &&& self.created_at == other.created_at
        &&& self.user_id == other.user_id
        &&& self.log_type == other.log_type
    }

    /// Replaces both context fields by the text to store for them. The cipher
    /// gives `sealed_new_context` and `sealed_prev_context`, the base64 text of
    /// the encryption of each context that `needs_cipher`.
    pub fn encrypt_fields(&mut self, sealed_new_context: Option<String>, sealed_prev_context: Option<String>)
        requires
            spec_needs_cipher(old(self).new_context@) ==> sealed_new_context is Some,
            spec_needs_cipher(old(self).prev_context@) ==> sealed_prev_context is Some,
        ensures
            final(self).same_but_contexts(*old(self)),
            final(self).new_context@ == spec_encrypt_field(old(self).new_context@, sealed_new_context),
            final(self).prev_context@ == spec_encrypt_field(old(self).prev_context@, sealed_prev_context),
            spec_needs_cipher(old(self).new_context@) ==> final(self).new_context == sealed_new_context.unwrap(),
            spec_needs_cipher(old(self).prev_context@) ==> final(self).prev_context == sealed_prev_context.unwrap(),
            !spec_needs_cipher(old(self).new_context@) ==> final(self).new_context@.len() == 0,
            !spec_needs_cipher(old(self).prev_context@) ==> final(self).prev_context@.len() == 0,
    {
        self.new_context = encrypt_field(&self.new_context, sealed_new_context);
        self.prev_context = encrypt_field(&self.prev_context, sealed_prev_context);
    }

    /// Replaces both context fields by their plaintext and returns `false`.
    /// The cipher gives `opened_new_context` and `opened_prev_context`, what it
    /// reported for each context that `needs_cipher`; a stored context that is
    /// not base64 lies outside the domain (the service stops there).
    pub fn decrypt_fields(&mut self, opened_new_context: Option<OpenOutcome>, opened_prev_context: Option<OpenOutcome>) -> (r: bool)
        requires
            spec_needs_cipher(old(self).new_context@) ==> (opened_new_context matches Some(o) && !(o is Base64Failed)),
            spec_needs_cipher(old(self).prev_context@) ==> (opened_prev_context matches Some(o) && !(o is Base64Failed)),
        ensures
            !r,
            final(self).same_but_contexts(*old(self)),
            final(self).new_context@ == spec_decrypt_field(old(self).new_context@, opened_new_context),
            final(self).prev_context@ == spec_decrypt_field(old(self).prev_context@, opened_prev_context),
            opened_new_context matches Some(OpenOutcome::Opened(p)) ==> (
                spec_needs_cipher(old(self).new_context@) ==> final(self).new_context == p),
            opened_prev_context matches Some(OpenOutcome::Opened(p)) ==> (
                spec_needs_cipher(old(self).prev_context@) ==> final(self).prev_context == p),
            !spec_needs_cipher(old(self).new_context@) ==> final(self).new_context@.len() == 0,
            !spec_needs_cipher(old(self).prev_context@) ==> final(self).prev_context@.len() == 0,
    {
        self.new_context = decrypt_field(&self.new_context, opened_new_context);
        self.prev_context = decrypt_field(&self.prev_context, opened_prev_context);
        false
    }
}

/// A record whose contexts were encrypted by `encrypt_fields` and then read back
/// by `decrypt_fields` is the record it was, where the cipher opens each text
/// it sealed (the sealed text of a non-empty context is never empty).
pub proof fn lemma_encrypt_then_decrypt_restores_record(
    record: ClientAuditLogDto,
    stored: ClientAuditLogDto,
    read: ClientAuditLogDto,
    sealed_new_context: Option<String>,
    sealed_prev_context: Option<String>,
    opened_new_context: Option<OpenOutcome>,
    opened_prev_context: Option<OpenOutcome>,
)
    requires
        cipher_round_trips(record.new_context@, sealed_new_context, opened_new_context),
        cipher_round_trips(record.prev_context@, sealed_prev_context, opened_prev_context),
        stored.same_but_contexts(record),
        stored.new_context@ == spec_encrypt_field(record.new_context@, sealed_new_context),
        stored.prev_context@ == spec_encrypt_field(record.prev_context@, sealed_prev_context),
        read.same_but_contexts(stored),
        read.new_context@ == spec_decrypt_field(stored.new_context@, opened_new_context),
        read.prev_context@ == spec_decrypt_field(stored.prev_context@, opened_prev_context),
    ensures
        read.same_but_contexts(record),
        read.new_context@ == record.new_context@,
        read.prev_context@ == record.prev_context@,
{
    super::utils::lemma_stored_field_reads_back(record.new_context@, sealed_new_context, opened_new_context);
    super::utils::lemma_stored_field_reads_back(record.prev_context@, sealed_prev_context, opened_prev_context);
}

} // verus!
