use vstd::prelude::*;

verus! {

/// An opaque 128-bit identifier of a user or a match. Equality is on the
/// 128 bits; on the wire it travels in its canonical textual form.
#[derive(Debug, Clone, Copy, PartialEq, Eq, Hash, Structural)]
pub struct Id(pub u128);

/// The lowercase hexadecimal digit of `d` (`d < 16`).
pub open spec fn hex_char(d: nat) -> char {
    seq!['0', '1', '2', '3', '4', '5', '6', '7', '8', '9', 'a', 'b', 'c', 'd', 'e', 'f'][d as int]
}

/// The last `n` hexadecimal digits of `v`, most significant first.
pub open spec fn hex_digits(v: nat, n: nat) -> Seq<char>
    decreases n,
{
    if n == 0 {
        Seq::empty()
    } else {
        hex_digits(v / 16, (n - 1) as nat).push(hex_char(v % 16))
    }
}

/// The canonical 8-4-4-4-12 form of a 128-bit value: 32 lowercase hex digits,
/// most significant first, with hyphens after the 8th, 12th, 16th and 20th.
pub open spec fn hyphenated_text(v: u128) -> Seq<char> {
    let d = hex_digits(v as nat, 32);
    d.subrange(0, 8) + seq!['-'] + d.subrange(8, 12) + seq!['-'] + d.subrange(12, 16) + seq!['-']
        + d.subrange(16, 20) + seq!['-'] + d.subrange(20, 32)
}

/// Relies on uuid's `Uuid::new_v4`: a random version-4 identifier, taken as
/// its 128-bit big-endian value. Nothing is known of the value drawn.
#[verifier::external_body]
fn random_u128() -> (r: u128) {
    uuid::Uuid::new_v4().as_u128()
}

/// Relies on uuid's `Uuid::from_u128` and `Uuid::hyphenated`: the value is
/// written as 32 lowercase hex digits, most significant first, with hyphens
/// in the 8-4-4-4-12 layout.
#[verifier::external_body]
fn hyphenated(v: u128) -> (r: String)
    ensures
        r@ == hyphenated_text(v),
{
    uuid::Uuid::from_u128(v).hyphenated().to_string()
}

/// Relies on uuid's `Uuid::parse_str` and `Uuid::as_u128`: text in the
/// hyphenated form of a value parses back to that value. Other accepted forms
/// (simple, braced, urn) are not described here.
#[verifier::external_body]
fn parse_uuid(s: &str) -> (r: Option<u128>)
    ensures
        forall|v: u128| s@ == hyphenated_text(v) ==> r == Some(v),
{
    uuid::Uuid::parse_str(s).ok().map(|u| u.as_u128())
}

impl Id {
    /// A fresh random identifier.
    pub fn new() -> (r: Id) {
        Id(random_u128())
    }

    /// The canonical textual form (lowercase, hyphenated).
    pub fn text(&self) -> (r: String)
        ensures
            r@ == hyphenated_text(self.0),
    {
        hyphenated(self.0)
    }

    /// Reads an identifier from its textual form. The canonical form of any
    /// identifier is read back as that identifier.
    pub fn parse(s: &str) -> (r: Option<Id>)
        ensures
            forall|v: u128| s@ == hyphenated_text(v) ==> r == Some(Id(v)),
    {
        match parse_uuid(s) {
            Some(v) => Some(Id(v)),
            None => None,
        }
    }
}

} // verus!
