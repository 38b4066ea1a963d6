//! Random identifiers, through `uuid`.

use vstd::prelude::*;

verus! {

/// A lowercase hexadecimal digit.
pub open spec fn is_lower_hex(c: char) -> bool {
    ||| 48 <= c as u32 <= 57
    ||| 97 <= c as u32 <= 102
}

/// The hyphenated lowercase text of a version-4 UUID, as `Uuid`'s `Display`
/// writes it: 36 characters, hyphens at 8, 13, 18 and 23, lowercase hex
/// digits elsewhere, and the version digit `4` at 14.
pub open spec fn is_uuid_v4_text(s: Seq<char>) -> bool {
    &&& s.len() == 36
    &&& forall|i: int|
        0 <= i < 36 ==> if i == 8 || i == 13 || i == 18 || i == 23 {
            s[i] == '-'
        } else {
            is_lower_hex(#[trigger] s[i])
        }
    &&& s[14] == '4'
}

/// Calls `uuid::Uuid::new_v4()` and formats it with `to_string()`. The value
/// is random; the contract states only its shape, which the crate's
/// formatting code (`format_hyphenated`, lowercase) and the version bits set
/// by `new_v4` fix. `new_v4` panics if the operating system cannot supply
/// random bytes; no input of this function can rule that out.
#[verifier::external_body]
pub(crate) fn new_uuid_v4() -> (s: String)
    ensures
        is_uuid_v4_text(s@),
{
    uuid::Uuid::new_v4().to_string()
}

} // verus!
