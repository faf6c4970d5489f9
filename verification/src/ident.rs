//! Task identifiers and their text form.

use vstd::prelude::*;

verus! {

/// Identifier of a stored task: the 128 bits of a UUID, most significant
/// byte first. The engine assigns it when the task is inserted.
#[derive(Clone, Copy, Debug, PartialEq, Eq, Hash)]
pub struct TaskId(pub u128);

impl View for TaskId {
    type V = u128;

    open spec fn view(&self) -> u128 {
        self.0
    }
}

/// The sixteen lowercase hexadecimal digits, by value.
pub open spec fn hex_digits() -> Seq<char> {
    seq!['0', '1', '2', '3', '4', '5', '6', '7', '8', '9', 'a', 'b', 'c', 'd', 'e', 'f']
}

/// The `k`-th group of four bits of `value`, counted from the most
/// significant one.
pub open spec fn nibble(value: u128, k: int) -> int
    recommends
        0 <= k < 32,
{
    ((value >> (((31 - k) * 4) as u128)) & 0xf) as int
}

/// How many hyphens stand before position `i` of the hyphenated form.
pub open spec fn hyphens_before(i: int) -> int {
    if i < 8 {
        0
    } else if i < 13 {
        1
    } else if i < 18 {
        2
    } else if i < 23 {
        3
    } else {
        4
    }
}

/// The hyphenated form of a UUID: 32 lowercase hexadecimal digits, most
/// significant first, in groups of 8, 4, 4, 4 and 12 with a hyphen between
/// the groups.
pub open spec fn hyphenated(value: u128) -> Seq<char> {
    Seq::new(
        36,
        |i: int|
            if i == 8 || i == 13 || i == 18 || i == 23 {
                '-'
            } else {
                hex_digits()[nibble(value, i - hyphens_before(i))]
            },
    )
}

/// Calls `uuid::Uuid::from_u128` and formats the result with its `Display`,
/// which writes the hyphenated lowercase form. The contract claims that the
/// text is exactly that form of `value`.
#[verifier::external_body]
fn uuid_text(value: u128) -> (text: String)
    ensures
        text@ == hyphenated(value),
{
    uuid::Uuid::from_u128(value).to_string()
}

impl TaskId {
    /// The identifier as text, in the hyphenated form of a UUID. It is never
    /// empty.
    pub fn to_string(&self) -> (text: String)
        ensures
            text@ == hyphenated(self@),
            text@.len() == 36,
    {
        uuid_text(self.0)
    }
}

} // verus!
