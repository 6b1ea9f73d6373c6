use vstd::prelude::*;

verus! {

/// Whether `c` is a lower-case hexadecimal digit.
pub open spec fn is_lower_hex_digit(c: char) -> bool {
    ('0' <= c && c <= '9') || ('a' <= c && c <= 'f')
}

/// Whether `s` is the text of a random (version 4) uuid in the hyphenated
/// lower-case form: 36 characters, hyphens at 8, 13, 18 and 23, the version
/// digit '4' at 14 and lower-case hexadecimal digits everywhere else.
pub open spec fn is_uuid_v4_text(s: Seq<char>) -> bool {
    &&& s.len() == 36
    &&& forall|i: int|
        0 <= i < 36 ==> (if i == 8 || i == 13 || i == 18 || i == 23 {
            s[i] == '-'
        } else {
            is_lower_hex_digit(#[trigger] s[i])
        })
    &&& s[14] == '4'
}

/// `s` is an id that the random uuid source gave, through `new_uuid_v4_text`.
/// Its body is the uuid v4 text form, which is all that a drawn id is known to
/// have; it is closed so that outside this module an id is known to be drawn
/// only where it came from that call, and a contract that asks for a drawn id
/// is met by no text that was made up instead.
pub closed spec fn is_drawn_uuid_v4(s: Seq<char>) -> bool {
    is_uuid_v4_text(s)
}

/// A drawn id has the uuid v4 text form.
pub proof fn lemma_drawn_id_is_uuid_v4_text(s: Seq<char>)
    requires
        is_drawn_uuid_v4(s),
    ensures
        is_uuid_v4_text(s),
{
}

/// A fresh random id: the text of `uuid::Uuid::new_v4()`, by its `to_string`.
/// The uuid crate's `Display` writes the hyphenated lower-case form, with the
/// version digit set to 4, which is all that is claimed here; the digits are
/// left to chance, so two calls may give different ids. `new_v4` panics where
/// the operating system gives no random bytes, which no clause rules out.
#[verifier::external_body]
pub(crate) fn new_uuid_v4_text() -> (id: String)
    ensures
        is_uuid_v4_text(id@),
        is_drawn_uuid_v4(id@),
{
    uuid::Uuid::new_v4().to_string()
}

} // verus!
