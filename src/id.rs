use vstd::prelude::*;

use crate::text::hex_digits;

verus! {

/// The text form of a UUID, given as its 128-bit big-endian value: its 32
/// lower-case hex digits, most significant first, in groups of 8-4-4-4-12
/// joined by hyphens.
pub open spec fn uuid_text(value: u128) -> Seq<char> {
    let d = hex_digits(value as nat, 32);
    d.subrange(0, 8) + seq!['-'] + d.subrange(8, 12) + seq!['-'] + d.subrange(12, 16) + seq!['-']
        + d.subrange(16, 20) + seq!['-'] + d.subrange(20, 32)
}

/// A lower-case hex digit.
pub open spec fn is_hex_char(c: char) -> bool {
    ('0' <= c && c <= '9') || ('a' <= c && c <= 'f')
}

/// The digits written for a count of nibbles are that many hex digits.
pub proof fn lemma_hex_digits_are_hex(n: nat, count: nat)
    ensures
        hex_digits(n, count).len() == count,
        forall|i: int| 0 <= i < count ==> is_hex_char(#[trigger] hex_digits(n, count)[i]),
    decreases count,
{
    if count > 0 {
        lemma_hex_digits_are_hex(n / 16, (count - 1) as nat);
    }
}

/// The text of a UUID is 36 characters, each a lower-case hex digit or a
/// hyphen.
pub proof fn lemma_uuid_text_shape(value: u128)
    ensures
        uuid_text(value).len() == 36,
        forall|i: int|
            0 <= i < 36 ==> is_hex_char(#[trigger] uuid_text(value)[i]) || uuid_text(value)[i]
                == '-',
{
    lemma_hex_digits_are_hex(value as nat, 32);
}

/// Relies on `uuid::Uuid::from_u128` and the `Display` impl of `uuid::Uuid`
/// to write the hyphenated lower-case form of a UUID.
#[verifier::external_body]
fn hyphenated_text(value: u128) -> (r: String)
    ensures
        r@ == uuid_text(value),
{
    uuid::Uuid::from_u128(value).to_string()
}

/// A UUID identifying a user, a tag, a channel or a message, held as its
/// 128-bit big-endian value.
#[derive(Debug, Clone, Copy, PartialEq, Eq, Hash)]
pub struct Uuid {
    pub value: u128,
}

impl Uuid {
    pub open spec fn spec_text(&self) -> Seq<char> {
        uuid_text(self.value)
    }

    /// The UUID whose big-endian value is `value`.
    pub fn from_u128(value: u128) -> (r: Uuid)
        ensures
            r.value == value,
    {
        Uuid { value }
    }

    /// The big-endian 128-bit value of this UUID.
    pub fn as_u128(&self) -> (r: u128)
        ensures
            r == self.value,
    {
        self.value
    }

    /// The hyphenated lower-case text of this UUID, as it stands in a path.
    pub fn hyphenated(&self) -> (r: String)
        ensures
            r@ == self.spec_text(),
    {
        hyphenated_text(self.value)
    }
}

} // verus!
