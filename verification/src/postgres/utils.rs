use vstd::prelude::*;

verus! {

/// Whether a stored text field goes through the cipher at all: the empty text
/// is written, and read back, as the empty text.
pub open spec fn spec_needs_cipher(field: Seq<char>) -> bool {
    field.len() > 0
}

/// Tells whether `field` has to be handed to the cipher; the empty text never is.
pub fn needs_cipher(field: &str) -> (r: bool)
    ensures
        r == spec_needs_cipher(field@),
{
    !field.is_empty()
}

/// What the cipher reported when asked to open one stored field, which holds the
/// base64 text of AES-encrypted bytes.
pub enum OpenOutcome {
    /// The text decoded from base64 and decrypted to this plaintext.
    Opened(String),
    /// The text decoded from base64, but decryption failed with this message.
    DecryptFailed(String),
    /// The text is not base64; the decoder's message.
    Base64Failed(String),
}

/// The text an optional owned string holds, if any.
pub open spec fn text_of(s: Option<String>) -> Option<Seq<char>> {
    match s {
        Some(t) => Some(t@),
        None => None,
    }
}

/// The text an optional borrowed string holds, if any.
pub open spec fn text_of_ref(s: Option<&String>) -> Option<Seq<char>> {
    match s {
        Some(t) => Some(t@),
        None => None,
    }
}

/// The cipher's part of storing `field` and reading it back: where the field
/// needs the cipher, its sealed text is not empty and opens to the field.
pub open spec fn cipher_round_trips(field: Seq<char>, sealed: Option<String>, opened: Option<OpenOutcome>) -> bool {
    spec_needs_cipher(field) ==> {
        &&& sealed is Some
        &&& sealed.unwrap()@.len() > 0
        &&& opened is Some
        &&& spec_opened(opened.unwrap()) == Some(field)
    }
}

/// What a stored field reads back as, for every field, where the cipher opens
/// the text it sealed: the empty text reads back empty, and any other text
/// reads back as itself once its sealed form, which is never empty, opens to it.
pub proof fn lemma_stored_field_reads_back(field: Seq<char>, sealed: Option<String>, opened: Option<OpenOutcome>)
    requires
        cipher_round_trips(field, sealed, opened),
    ensures
        spec_decrypt_field(spec_encrypt_field(field, sealed), opened) == field,
{
}

/// A field that needs the cipher is stored as exactly the text the cipher
/// sealed it to, whatever its length or content; the empty field is stored as
/// the empty text, whatever the cipher gave.
pub proof fn lemma_stored_text_is_sealed_text(field: Seq<char>, sealed: String, other: Option<String>)
    ensures
        field.len() > 0 ==> spec_encrypt_field(field, Some(sealed)) == sealed@,
        field.len() == 0 ==> spec_encrypt_field(field, other).len() == 0,
{
}

/// A stored field that the cipher opens to the plaintext `p` reads back as `p`,
/// whatever `p` is; one whose decryption fails reads back as the empty text;
/// the empty stored text reads back empty. For an optional field the same
/// holds, with a failed or refused opening reading as missing.
pub proof fn lemma_stored_field_reads_as_opened(content: Seq<char>, p: String, e: String, opened: Option<OpenOutcome>)
    ensures
        content.len() > 0 ==> spec_decrypt_field(content, Some(OpenOutcome::Opened(p))) == p@,
        content.len() > 0 ==> spec_decrypt_field(content, Some(OpenOutcome::DecryptFailed(e))).len() == 0,
        content.len() == 0 ==> spec_decrypt_field(content, opened).len() == 0,
        content.len() > 0 ==> spec_decrypt_field_optional(Some(content), Some(OpenOutcome::Opened(p))) == Some(p@),
        content.len() > 0 ==> spec_decrypt_field_optional(Some(content), Some(OpenOutcome::DecryptFailed(e))) is None,
        content.len() > 0 ==> spec_decrypt_field_optional(Some(content), Some(OpenOutcome::Base64Failed(e))) is None,
        content.len() == 0 ==> spec_decrypt_field_optional(Some(content), opened) == Some(Seq::<char>::empty()),
        spec_decrypt_field_optional(None, opened) is None,
{
}

/// The text stored for `field`: the empty text stays empty, any other text is
/// replaced by the base64 text of its encryption, `sealed`.
pub open spec fn spec_encrypt_field(field: Seq<char>, sealed: Option<String>) -> Seq<char> {
    if spec_needs_cipher(field) {
        sealed.unwrap()@
    } else {
        Seq::empty()
    }
}

/// The plaintext that one opened field gives, when the cipher opened it.
pub open spec fn spec_decoded(decrypted: Result<String, String>) -> Option<String> {
    match decrypted {
        Ok(s) => Some(s),
        Err(_) => None,
    }
}

/// The result of decryption as the plaintext it gave, if any: every decryption
/// error, the one that reports an empty result among them, gives `None`.
pub open spec fn spec_opened(outcome: OpenOutcome) -> Option<Seq<char>> {
    match outcome {
        OpenOutcome::Opened(s) => Some(s@),
        OpenOutcome::DecryptFailed(_) => None,
        OpenOutcome::Base64Failed(_) => None,
    }
}

/// The plaintext read back for a stored field: the empty text reads as the
/// empty text, a field that opens reads as its plaintext, and a field whose
/// decryption fails reads as the empty text.
pub open spec fn spec_decrypt_field(content: Seq<char>, opened: Option<OpenOutcome>) -> Seq<char> {
    if !spec_needs_cipher(content) {
        Seq::empty()
    } else {
        match spec_opened(opened.unwrap()) {
            Some(s) => s,
            None => Seq::empty(),
        }
    }
}

/// The plaintext read back for an optional stored field: a missing field stays
/// missing, the empty text reads as the empty text, and a field that does not
/// open (bad base64 or failed decryption) reads as missing.
pub open spec fn spec_decrypt_field_optional(content: Option<Seq<char>>, opened: Option<OpenOutcome>) -> Option<Seq<char>> {
    match content {
        None => None,
        Some(c) => if !spec_needs_cipher(c) {
            Some(Seq::empty())
        } else {
            spec_opened(opened.unwrap())
        },
    }
}

/// The text to store for a field. `sealed` is the base64 text of the field's
/// encryption, which the cipher gives for every field that `needs_cipher`.
pub fn encrypt_field(not_encrypted_field: &String, sealed: Option<String>) -> (r: String)
    requires
        spec_needs_cipher(not_encrypted_field@) ==> sealed is Some,
    ensures
        r@ == spec_encrypt_field(not_encrypted_field@, sealed),
        spec_needs_cipher(not_encrypted_field@) ==> r == sealed.unwrap(),
        !spec_needs_cipher(not_encrypted_field@) ==> r@.len() == 0,
{
    if !needs_cipher(not_encrypted_field.as_str()) {
        return String::new();
    }
    sealed.unwrap()
}

/// The text to store for an optional field; a missing field stays missing.
pub fn _encrypt_optional_field(not_encrypted_field: Option<&String>, sealed: Option<String>) -> (r: Option<String>)
    requires
        not_encrypted_field matches Some(f) && spec_needs_cipher(f@) ==> sealed is Some,
    ensures
        text_of(r) == (match not_encrypted_field {
            None => None,
            Some(f) => Some(spec_encrypt_field(f@, sealed)),
        }),
        not_encrypted_field is None <==> r is None,
        not_encrypted_field matches Some(f) && spec_needs_cipher(f@) ==> r == Some(sealed.unwrap()),
        not_encrypted_field matches Some(f) && !spec_needs_cipher(f@) ==> (r matches Some(t) && t@.len() == 0),
{
    match not_encrypted_field {
        Some(non_encrypted_field) => Some(encrypt_field(non_encrypted_field, sealed)),
        None => None,
    }
}

/// The plaintext of a decryption: `Some` of the text where it succeeded, `None`
/// on every decryption error.
pub fn decode_field_from_vec(decrypted: Result<String, String>) -> (r: Option<String>)
    ensures
        r == spec_decoded(decrypted),
{
    match decrypted {
        Ok(s) => Some(s),
        Err(_) => None,
    }
}

/// The outcome of the cipher as a decryption result; a base64 failure is no
/// decryption and lies outside the domain.
fn as_decryption(outcome: OpenOutcome) -> (r: Result<String, String>)
    requires
        !(outcome is Base64Failed),
    ensures
        spec_decoded(r) matches Some(s) ==> spec_opened(outcome) == Some(s@),
        spec_decoded(r) is None ==> spec_opened(outcome) is None,
        outcome matches OpenOutcome::Opened(p) ==> r == Ok::<String, String>(p),
        outcome matches OpenOutcome::DecryptFailed(e) ==> r == Err::<String, String>(e),
{
    match outcome {
        OpenOutcome::Opened(s) => Ok(s),
        OpenOutcome::DecryptFailed(e) => Err(e),
        OpenOutcome::Base64Failed(e) => Err(e),
    }
}

/// The plaintext read back for a stored field. `opened` is what the cipher
/// reported for every field that `needs_cipher`; a field that is not base64
/// lies outside the domain (the service stops there).
pub fn decrypt_field(base_64_encrypted_content: &String, opened: Option<OpenOutcome>) -> (r: String)
    requires
        spec_needs_cipher(base_64_encrypted_content@) ==> (opened matches Some(o) && !(o is Base64Failed)),
    ensures
        r@ == spec_decrypt_field(base_64_encrypted_content@, opened),
        !spec_needs_cipher(base_64_encrypted_content@) ==> r@.len() == 0,
        opened matches Some(OpenOutcome::Opened(p)) ==> (spec_needs_cipher(base_64_encrypted_content@) ==> r == p),
        opened matches Some(OpenOutcome::DecryptFailed(_)) && spec_needs_cipher(base_64_encrypted_content@) ==> r@.len() == 0,
{
    if !needs_cipher(base_64_encrypted_content.as_str()) {
        return String::new();
    }
    let decoded = decode_field_from_vec(as_decryption(opened.unwrap()));
    match decoded {
        Some(s) => s,
        None => String::new(),
    }
}

/// The plaintext read back for an optional stored field. `opened` is what the
/// cipher reported for a present field that `needs_cipher`.
pub fn _decrypt_field_optional(base_64_encrypted_content: Option<&String>, opened: Option<OpenOutcome>) -> (r: Option<String>)
    requires
        base_64_encrypted_content matches Some(c) && spec_needs_cipher(c@) ==> opened is Some,
    ensures
        text_of(r) == spec_decrypt_field_optional(text_of_ref(base_64_encrypted_content), opened),
        base_64_encrypted_content is None ==> r is None,
        base_64_encrypted_content matches Some(c) && !spec_needs_cipher(c@) ==> (r matches Some(t) && t@.len() == 0),
        (base_64_encrypted_content, opened) matches (Some(c), Some(OpenOutcome::Opened(p))) ==> (spec_needs_cipher(c@) ==> r == Some(p)),
        base_64_encrypted_content matches Some(c) && spec_needs_cipher(c@) && !(opened matches Some(OpenOutcome::Opened(_))) ==> r is None,
{
    let content = match base_64_encrypted_content {
        Some(c) => c,
        None => return None,
    };
    if !needs_cipher(content.as_str()) {
        return Some(String::new());
    }
    match opened.unwrap() {
        OpenOutcome::Opened(s) => decode_field_from_vec(Ok(s)),
        OpenOutcome::DecryptFailed(e) => decode_field_from_vec(Err(e)),
        OpenOutcome::Base64Failed(_) => None,
    }
}

} // verus!
