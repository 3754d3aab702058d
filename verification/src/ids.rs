//! Identifiers of users, products, rentals and every other record.

use vstd::prelude::*;

verus! {

/// A 128-bit record identifier, written as a UUID on the wire.
#[derive(Clone, Copy, Debug, PartialEq, Eq, Structural, Hash)]
pub struct Id {
    pub bits: u128,
}

/// What `Uuid::parse_str` makes of a text: the 128 bits of the UUID it reads,
/// or `None` where it rejects the text.
pub uninterp spec fn uuid_parse(text: Seq<char>) -> Option<u128>;

/// The sixteen lower-case hexadecimal digits.
pub open spec fn hex_digits() -> Seq<char> {
    seq!['0', '1', '2', '3', '4', '5', '6', '7', '8', '9', 'a', 'b', 'c', 'd', 'e', 'f']
}

/// True at the four places of a hyphenated UUID that hold a hyphen.
pub open spec fn is_hyphen_place(i: int) -> bool {
    i == 8 || i == 13 || i == 18 || i == 23
}

/// How many hexadecimal digits stand before place `i` of a hyphenated UUID.
pub open spec fn digits_before(i: int) -> int {
    i - (if i > 8 { 1int } else { 0 }) - (if i > 13 { 1int } else { 0 })
      - (if i > 18 { 1int } else { 0 }) - (if i > 23 { 1int } else { 0 })
}

/// The `k`-th hexadecimal digit of `bits`, counted from the most significant.
pub open spec fn nibble(bits: u128, k: int) -> int {
    (bits as int / pow16(31 - k)) % 16
}

/// Sixteen to the power `e`.
pub open spec fn pow16(e: int) -> int
    decreases e,
{
    if e <= 0 { 1 } else { 16 * pow16(e - 1) }
}

/// The hyphenated lower-case form of a UUID: 8-4-4-4-12 hexadecimal digits.
pub open spec fn uuid_text(bits: u128) -> Seq<char> {
    Seq::new(36, |i: int| if is_hyphen_place(i) { '-' } else { hex_digits()[nibble(bits, digits_before(i))] })
}

/// Pattern of the version and variant bits of a UUID.
pub const VERSION_VARIANT_MASK: u128 = 0x0000_0000_0000_f000_c000_0000_0000_0000;

/// The version and variant bits of a random (version 4) UUID.
pub const RANDOM_VERSION_VARIANT: u128 = 0x0000_0000_0000_4000_8000_0000_0000_0000;

/// `Uuid::parse_str`, with the UUID handed back as its 128 bits. The result
/// is the one named by `uuid_parse`.
#[verifier::external_body]
fn uuid_parse_str(text: &str) -> (r: Option<u128>)
    ensures
        r == uuid_parse(text@),
{
    match uuid::Uuid::parse_str(text) {
        Ok(u) => Some(u.as_u128()),
        Err(_) => None,
    }
}

/// `Uuid`'s `Display`: the hyphenated lower-case form of the UUID made by
/// `Uuid::from_u128`. The crate reads every form that it writes, so the text
/// parses back to the same bits.
#[verifier::external_body]
fn uuid_to_string(bits: u128) -> (r: String)
    ensures
        r@ == uuid_text(bits),
        uuid_parse(r@) == Some(bits),
{
    uuid::Uuid::from_u128(bits).to_string()
}

/// `Uuid::new_v4`: 128 random bits but for the version and the variant, which
/// mark the UUID as random.
#[verifier::external_body]
fn uuid_new_v4() -> (r: u128)
    ensures
        r & VERSION_VARIANT_MASK == RANDOM_VERSION_VARIANT,
{
    uuid::Uuid::new_v4().as_u128()
}

impl Id {
    /// The identifier with the given bits.
    pub fn from_bits(bits: u128) -> (id: Id)
        ensures
            id.bits == bits,
    {
        Id { bits }
    }

    /// The text `s` as an identifier, where it is a UUID.
    pub open spec fn spec_parse(text: Seq<char>) -> Option<Id> {
        match uuid_parse(text) {
            Some(bits) => Some(Id { bits }),
            None => None,
        }
    }

    /// The hyphenated text of the identifier.
    pub open spec fn text(self) -> Seq<char> {
        uuid_text(self.bits)
    }

    /// Reads an identifier from any of the textual forms of a UUID.
    pub fn parse(text: &str) -> (r: Option<Id>)
        ensures
            r == Id::spec_parse(text@),
    {
        match uuid_parse_str(text) {
            Some(bits) => Some(Id { bits }),
            None => None,
        }
    }

    /// The identifier as hyphenated lower-case text, which `parse` reads back.
    pub fn to_text(&self) -> (r: String)
        ensures
            r@ == self.text(),
            Id::spec_parse(r@) == Some(*self),
    {
        uuid_to_string(self.bits)
    }

    /// A fresh random identifier.
    pub fn random() -> (id: Id)
        ensures
            id.bits & VERSION_VARIANT_MASK == RANDOM_VERSION_VARIANT,
    {
        Id { bits: uuid_new_v4() }
    }
}

} // verus!
