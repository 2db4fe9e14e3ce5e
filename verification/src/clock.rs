use vstd::prelude::*;

verus! {

/// A lowercase hexadecimal digit.
pub open spec fn is_lower_hex(c: char) -> bool {
    ('0' <= c && c <= '9') || ('a' <= c && c <= 'f')
}

/// The hyphenated text form of a random (version 4) UUID:
/// `xxxxxxxx-xxxx-4xxx-yxxx-xxxxxxxxxxxx` with lowercase hex digits.
pub open spec fn is_uuid_text(s: Seq<char>) -> bool {
    &&& s.len() == 36
    &&& forall|i: int| 0 <= i < 36 ==> (i == 8 || i == 13 || i == 18 || i == 23) ==> s[i] == '-'
    &&& forall|i: int|
        0 <= i < 36 && !(i == 8 || i == 13 || i == 18 || i == 23) ==> is_lower_hex(#[trigger] s[i])
    &&& s[14] == '4'
}

/// Calls `uuid::Uuid::new_v4` and renders it with its `Display` impl.
/// Claimed: the text is the hyphenated lowercase form of a version 4 UUID
/// (36 characters, hyphens at 8, 13, 18, 23, version digit `4` at 14).
/// Which UUID comes back is random and left unsaid.
#[verifier::external_body]
pub(crate) fn fresh_id() -> (s: String)
    ensures
        is_uuid_text(s@),
{
    uuid::Uuid::new_v4().to_string()
}

/// Calls `chrono::Utc::now` and takes `timestamp_micros` of it: the current
/// time in microseconds since the Unix epoch. Nothing is claimed of the value.
#[verifier::external_body]
pub(crate) fn current_micros() -> (t: i64) {
    chrono::Utc::now().timestamp_micros()
}

} // verus!
