//! Fresh identifiers for runs, batches and steps.

use vstd::prelude::*;

verus! {

/// A lowercase hexadecimal digit.
pub open spec fn lower_hex_digit(c: char) -> bool {
    ('0' <= c <= '9') || ('a' <= c <= 'f')
}

/// The hyphenated lowercase text of a version 4 (random, RFC 9562 variant) UUID:
/// `xxxxxxxx-xxxx-4xxx-Vxxx-xxxxxxxxxxxx` with `V` one of `8`, `9`, `a`, `b`.
pub open spec fn uuid_v4_text(s: Seq<char>) -> bool {
    &&& s.len() == 36
    &&& forall|i: int|
        0 <= i < 36 ==> if i == 8 || i == 13 || i == 18 || i == 23 {
            s[i] == '-'
        } else {
            lower_hex_digit(#[trigger] s[i])
        }
    &&& s[14] == '4'
    &&& (s[19] == '8' || s[19] == '9' || s[19] == 'a' || s[19] == 'b')
}

/// A fresh random UUID (version 4) in its hyphenated lowercase text form.
///
/// Calls `uuid::Uuid::new_v4`, which sets the version and variant bits of a random number,
/// and formats it with `Display`, which the `uuid` crate renders as the hyphenated lowercase
/// form. Which of the possible values comes back is not stated: it is random.
#[verifier::external_body]
pub(crate) fn new_uuid_v4() -> (s: String)
    ensures
        uuid_v4_text(s@),
{
    uuid::Uuid::new_v4().to_string()
}

} // verus!
