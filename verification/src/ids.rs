//! Random identifiers.
use vstd::prelude::*;

verus! {

/// A hexadecimal digit in lower case.
pub open spec fn is_hex(c: char) -> bool {
    '0' <= c <= '9' || 'a' <= c <= 'f'
}

/// A random UUID without hyphens: 32 hexadecimal digits, of which one gives the
/// version and one the variant.
pub open spec fn is_simple_uuid(s: Seq<char>) -> bool {
    &&& s.len() == 32
    &&& forall|i: int| 0 <= i < 32 ==> is_hex(#[trigger] s[i])
    &&& s[12] == '4'
    &&& (s[16] == '8' || s[16] == '9' || s[16] == 'a' || s[16] == 'b')
}

/// A random UUID in groups of 8, 4, 4, 4 and 12 digits.
pub open spec fn is_uuid(s: Seq<char>) -> bool {
    &&& s.len() == 36
    &&& s[8] == '-' && s[13] == '-' && s[18] == '-' && s[23] == '-'
    &&& is_simple_uuid(
        s.subrange(0, 8) + s.subrange(9, 13) + s.subrange(14, 18) + s.subrange(19, 23)
            + s.subrange(24, 36),
    )
}

/// Calls `uuid::Uuid::new_v4` and writes the result without hyphens. Which
/// UUID it is, is left to chance.
#[verifier::external_body]
pub(crate) fn random_simple_uuid() -> (r: String)
    ensures
        is_simple_uuid(r@),
{
    uuid::Uuid::new_v4().simple().to_string()
}

/// Calls `uuid::Uuid::new_v4` and writes the result in groups. Which UUID it
/// is, is left to chance.
#[verifier::external_body]
pub(crate) fn random_uuid() -> (r: String)
    ensures
        is_uuid(r@),
{
    uuid::Uuid::new_v4().to_string()
}

/// `s` was drawn by chance as a UUID without hyphens.
pub closed spec fn was_drawn_simple(s: Seq<char>) -> bool {
    exists|r: String| #[trigger] call_ensures(random_simple_uuid, (), r) && r@ == s
}

/// `s` was drawn by chance as a UUID in groups.
pub closed spec fn was_drawn(s: Seq<char>) -> bool {
    exists|r: String| #[trigger] call_ensures(random_uuid, (), r) && r@ == s
}

pub(crate) proof fn lemma_drawn_simple(r: String)
    requires
        call_ensures(random_simple_uuid, (), r),
    ensures
        was_drawn_simple(r@),
{
}

pub(crate) proof fn lemma_drawn(r: String)
    requires
        call_ensures(random_uuid, (), r),
    ensures
        was_drawn(r@),
{
}

/// What was drawn has the form of a UUID.
pub proof fn law_drawn_ids_are_uuids(s: Seq<char>)
    ensures
        was_drawn_simple(s) ==> is_simple_uuid(s),
        was_drawn(s) ==> is_uuid(s),
{
}

/// What was drawn came from drawing.
pub(crate) proof fn law_ids_are_drawn(s: Seq<char>)
    ensures
        was_drawn_simple(s) ==> exists|r: String| #[trigger]
            call_ensures(random_simple_uuid, (), r) && r@ == s,
        was_drawn(s) ==> exists|r: String| #[trigger]
            call_ensures(random_uuid, (), r) && r@ == s,
{
}

} // verus!
