//! Typed identifiers: a 128-bit UUID value tagged with the entity it names.
use core::marker::PhantomData;
use vstd::arithmetic::power::pow;
use vstd::prelude::*;

verus! {

/// The lower-case hexadecimal digit for a value in `0..16`.
pub open spec fn hex_digit(n: int) -> char {
    if n < 10 {
        (n + 48) as char
    } else {
        (n + 87) as char
    }
}

/// The `i`-th hexadecimal digit of `bits`, counting from the most significant one.
pub open spec fn nibble_at(bits: u128, i: int) -> int {
    (bits as int / pow(16, (31 - i) as nat)) % 16
}

/// The 32 hexadecimal digits of a UUID, most significant first.
pub open spec fn uuid_simple_text(bits: u128) -> Seq<char> {
    Seq::new(32, |i: int| hex_digit(nibble_at(bits, i)))
}

/// The hyphenated lower-case text of a UUID (`8-4-4-4-12` digits).
pub open spec fn uuid_text(bits: u128) -> Seq<char> {
    let s = uuid_simple_text(bits);
    s.subrange(0, 8) + seq!['-'] + s.subrange(8, 12) + seq!['-'] + s.subrange(12, 16) + seq!['-']
        + s.subrange(16, 20) + seq!['-'] + s.subrange(20, 32)
}

/// The version field of a UUID (bits 76 to 79 of its 128-bit value).
pub open spec fn uuid_version(bits: u128) -> u128 {
    (bits >> 76u128) & 0xfu128
}

/// The variant field of a UUID (bits 62 and 63 of its 128-bit value).
pub open spec fn uuid_variant(bits: u128) -> u128 {
    (bits >> 62u128) & 0x3u128
}

/// The error type of the `uuid` crate.
#[verifier::external_type_specification]
#[verifier::external_body]
pub struct ExUuidError(uuid::Error);

/// The value that `uuid::Uuid::parse_str` reads from a text, or `None` where it rejects it.
/// It accepts the simple, hyphenated, braced and URN forms.
pub uninterp spec fn uuid_parse(text: Seq<char>) -> Option<u128>;

/// Formats a UUID through `uuid::Uuid`'s `Display` impl (`Uuid::from_u128(bits).to_string()`).
/// Claimed, as the uuid source shows (`format_hyphenated` over the big-endian bytes): the text
/// is the lower-case hyphenated form of `bits`, and `Uuid::parse_str` reads `bits` back
/// from it.
#[verifier::external_body]
fn uuid_hyphenated(bits: u128) -> (text: String)
    ensures
        text@ == uuid_text(bits),
        uuid_parse(text@) == Some(bits),
{
    uuid::Uuid::from_u128(bits).to_string()
}

/// Reads a UUID with `uuid::Uuid::parse_str`, taken as its 128-bit value. Claimed: the
/// outcome is the named reading of the text.
#[verifier::external_body]
fn uuid_parse_str(text: &str) -> (r: Result<u128, uuid::Error>)
    ensures
        match r {
            Ok(bits) => uuid_parse(text@) == Some(bits),
            Err(_) => uuid_parse(text@) is None,
        },
{
    Ok(uuid::Uuid::parse_str(text)?.as_u128())
}

/// A fresh identifier from `uuid::Uuid::now_v7()`, taken as its 128-bit value.
/// The value depends on the clock and on random bits; claimed only that it carries
/// version 7 and the RFC 4122 variant, as `encode_unix_timestamp_millis` sets them.
#[verifier::external_body]
fn uuid_now_v7() -> (bits: u128)
    ensures
        uuid_version(bits) == 7,
        uuid_variant(bits) == 2,
{
    uuid::Uuid::now_v7().as_u128()
}

/// An identifier of an entity of type `T`; its value is a 128-bit UUID.
pub struct Id<T> {
    inner: u128,
    phantom: PhantomData<T>,
}

impl<T> View for Id<T> {
    type V = u128;

    closed spec fn view(&self) -> u128 {
        self.inner
    }
}

impl<T> Id<T> {
    /// A new time-ordered (version 7) identifier.
    pub fn new() -> (id: Self)
        ensures
            uuid_version(id@) == 7,
            uuid_variant(id@) == 2,
    {
        Id { inner: uuid_now_v7(), phantom: PhantomData }
    }

    /// The identifier built from a UUID's 128-bit value.
    pub fn from_uuid(bits: u128) -> (id: Self)
        ensures
            id@ == bits,
    {
        Id { inner: bits, phantom: PhantomData }
    }

    /// The UUID's 128-bit value.
    pub fn into_inner(self) -> (bits: u128)
        ensures
            bits == self@,
    {
        self.inner
    }

    /// The same identifier, tagged with another entity type.
    pub fn cast<U>(self) -> (id: Id<U>)
        ensures
            id@ == self@,
    {
        Id { inner: self.inner, phantom: PhantomData }
    }

    /// The identifier written in `text`, in any form that `uuid` reads.
    pub fn parse_str(text: &str) -> (r: Result<Self, uuid::Error>)
        ensures
            match r {
                Ok(id) => uuid_parse(text@) == Some(id@),
                Err(_) => uuid_parse(text@) is None,
            },
    {
        match uuid_parse_str(text) {
            Ok(bits) => Ok(Id { inner: bits, phantom: PhantomData }),
            Err(e) => Err(e),
        }
    }

    /// The identifier's text: the hyphenated lower-case UUID. It reads back as the same
    /// identifier.
    pub fn to_text(&self) -> (text: String)
        ensures
            text@ == uuid_text(self@),
            uuid_parse(text@) == Some(self@),
    {
        uuid_hyphenated(self.inner)
    }
}

impl<T> Clone for Id<T> {
    fn clone(&self) -> (id: Self)
        ensures
            id@ == self@,
    {
        Id { inner: self.inner, phantom: PhantomData }
    }
}

impl<T> Copy for Id<T> {
}

impl<T> PartialEq for Id<T> {
    fn eq(&self, other: &Self) -> (same: bool) {
        self.inner == other.inner
    }
}

impl<T> vstd::std_specs::cmp::PartialEqSpecImpl for Id<T> {
    open spec fn obeys_eq_spec() -> bool {
        true
    }

    open spec fn eq_spec(&self, other: &Self) -> bool {
        self@ == other@
    }
}

impl<T> Eq for Id<T> {
}

impl<T> core::str::FromStr for Id<T> {
    type Err = uuid::Error;

    fn from_str(s: &str) -> (r: Result<Self, uuid::Error>)
        ensures
            match r {
                Ok(id) => uuid_parse(s@) == Some(id@),
                Err(_) => uuid_parse(s@) is None,
            },
    {
        Self::parse_str(s)
    }
}

impl<T> Default for Id<T> {
    fn default() -> (id: Self)
        ensures
            uuid_version(id@) == 7,
            uuid_variant(id@) == 2,
    {
        Self::new()
    }
}

} // verus!
