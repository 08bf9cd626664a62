//! Row identifiers for the local database.
use vstd::prelude::*;
use uuid::Uuid;

verus! {

/// A lower-case hexadecimal digit.
pub open spec fn is_lower_hex(c: char) -> bool {
    ('0' <= c <= '9') || ('a' <= c <= 'f')
}

/// The shape of a hyphenated version-7 UUID: 36 characters, hyphens at 8,
/// 13, 18 and 23, the version digit `7` at 14, lower-case hex elsewhere.
pub open spec fn is_uuid_v7_text(s: Seq<char>) -> bool {
    &&& s.len() == 36
    &&& s[8] == '-' && s[13] == '-' && s[18] == '-' && s[23] == '-'
    &&& s[14] == '7'
    &&& forall|i: int|
        0 <= i < 36 && i != 8 && i != 13 && i != 18 && i != 23 ==> is_lower_hex(#[trigger] s[i])
}

/// A new row id: `Uuid::now_v7()` rendered by its `Display` impl, which
/// writes the hyphenated lower-case form. The value rests on the clock and a
/// random source; what is claimed is its shape.
#[verifier::external_body]
pub fn new_table_row_id() -> (r: String)
    ensures
        is_uuid_v7_text(r@),
{
    Uuid::now_v7().to_string()
}

} // verus!
