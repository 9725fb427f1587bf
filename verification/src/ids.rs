//! Identifiers and digests: UUIDs, hexadecimal text, SHA-256 and random bytes.

use vstd::arithmetic::power::pow;
use vstd::prelude::*;
use vstd::string::*;

verus! {

/// A UUID, as the 128-bit number that its 32 hexadecimal digits spell.
#[derive(Debug, Clone, Copy, PartialEq, Eq, Structural)]
pub struct Uuid {
    pub bits: u128,
}

impl DeepView for Uuid {
    type V = Uuid;

    open spec fn deep_view(&self) -> Uuid {
        *self
    }
}

/// The lowercase character for a hexadecimal digit.
pub open spec fn hex_digit(d: int) -> char {
    if d < 10 {
        (48 + d) as char
    } else {
        (87 + d) as char
    }
}

/// Two lowercase hexadecimal digits per byte, the high one first.
pub open spec fn hex_text(bytes: Seq<u8>) -> Seq<char> {
    Seq::new(
        2 * bytes.len(),
        |i: int|
            if i % 2 == 0 {
                hex_digit(bytes[i / 2] as int / 16)
            } else {
                hex_digit(bytes[i / 2] as int % 16)
            },
    )
}

/// The `k`-th of the 32 hexadecimal digits of a 128-bit number, the highest
/// first.
pub open spec fn nibble(bits: u128, k: int) -> int {
    (bits as int / pow(16, (31 - k) as nat)) % 16
}

/// How many hyphens stand before position `i` of a hyphenated UUID.
pub open spec fn hyphens_before(i: int) -> int {
    if i <= 8 {
        0
    } else if i <= 13 {
        1
    } else if i <= 18 {
        2
    } else if i <= 23 {
        3
    } else {
        4
    }
}

/// The hyphenated lowercase form of a UUID: 8, 4, 4, 4 and 12 digits.
pub open spec fn hyphenated(id: Uuid) -> Seq<char> {
    Seq::new(
        36,
        |i: int|
            if i == 8 || i == 13 || i == 18 || i == 23 {
                '-'
            } else {
                hex_digit(nibble(id.bits, i - hyphens_before(i)))
            },
    )
}

/// The number that `uuid` reads out of a text in one of the UUID notations, if
/// it is in one.
pub uninterp spec fn uuid_bits(text: Seq<char>) -> Option<u128>;

/// The UUID that a text denotes.
pub open spec fn parsed_uuid(text: Seq<char>) -> Option<Uuid> {
    match uuid_bits(text) {
        Some(bits) => Some(Uuid { bits }),
        None => None,
    }
}

/// The SHA-256 digest of a byte string.
pub uninterp spec fn sha256(bytes: Seq<u8>) -> Seq<u8>;

/// A text as long as one of the UUID notations: simple, hyphenated, braced or
/// URN.
pub open spec fn uuid_length(text: Seq<char>) -> bool {
    text.len() == 32 || text.len() == 36 || text.len() == 38 || text.len() == 45
}

/// `uuid::Uuid::parse_str`. The result is named: the notations it takes
/// (simple, hyphenated, braced, URN) are the `uuid` crate's own. A text of
/// another length than these is refused.
#[verifier::external_body]
pub(crate) fn parse_uuid(text: &str) -> (res: Option<Uuid>)
    ensures
        res == parsed_uuid(text@),
        !uuid_length(text@) ==> res is None,
{
    uuid::Uuid::parse_str(text).ok().map(|id| Uuid { bits: id.as_u128() })
}

/// The `Display` form of `uuid::Uuid`: hyphenated lowercase hexadecimal, which
/// `uuid::Uuid::parse_str` reads back as the same UUID.
#[verifier::external_body]
pub(crate) fn uuid_text(id: Uuid) -> (res: String)
    ensures
        res@ == hyphenated(id),
        uuid_bits(res@) == Some(id.bits),
{
    uuid::Uuid::from_u128(id.bits).to_string()
}

/// `uuid::Uuid::new_v4`: a random UUID that carries version 4 and the RFC 4122
/// variant. The other bits depend on chance.
#[verifier::external_body]
pub(crate) fn new_uuid() -> (res: Uuid)
    ensures
        nibble(res.bits, 12) == 4,
        8 <= nibble(res.bits, 16) <= 11,
{
    Uuid { bits: uuid::Uuid::new_v4().as_u128() }
}

/// `hex::encode`: two lowercase digits per byte, the high one first.
#[verifier::external_body]
pub(crate) fn hex_encode(bytes: &Vec<u8>) -> (res: String)
    ensures
        res@ == hex_text(bytes@),
{
    hex::encode(bytes)
}

/// `sha2::Sha256` over the whole input. The digest is named; it is 32 bytes
/// long.
#[verifier::external_body]
pub(crate) fn sha256_digest(bytes: &[u8]) -> (res: Vec<u8>)
    ensures
        res@ == sha256(bytes@),
        res@.len() == 32,
{
    <sha2::Sha256 as sha2::Digest>::digest(bytes).to_vec()
}

/// `rand::random::<u8>()`: one byte of chance, of which nothing is promised.
#[verifier::external_body]
fn random_byte() -> (res: u8) {
    rand::random::<u8>()
}

/// `count` random bytes.
pub(crate) fn random_bytes(count: usize) -> (res: Vec<u8>)
    ensures
        res@.len() == count,
{
    let mut out: Vec<u8> = Vec::new();
    while out.len() < count
        invariant
            out@.len() <= count,
        decreases count - out@.len(),
    {
        out.push(random_byte());
    }
    out
}

/// Hexadecimal digits are digits or one of the letters a to f.
pub proof fn lemma_hex_digit(d: int)
    requires
        0 <= d < 16,
    ensures
        ('0' <= hex_digit(d) <= '9') || ('a' <= hex_digit(d) <= 'f'),
{
}

/// A hyphenated UUID is 36 characters of lowercase hexadecimal and hyphens.
pub proof fn law_hyphenated_characters(id: Uuid)
    ensures
        hyphenated(id).len() == 36,
        forall|i: int|
            0 <= i < 36 ==> {
                ||| #[trigger] hyphenated(id)[i] == '-'
                ||| '0' <= hyphenated(id)[i] <= '9'
                ||| 'a' <= hyphenated(id)[i] <= 'f'
            },
{
    assert forall|i: int| 0 <= i < 36 implies {
        ||| #[trigger] hyphenated(id)[i] == '-'
        ||| '0' <= hyphenated(id)[i] <= '9'
        ||| 'a' <= hyphenated(id)[i] <= 'f'
    } by {
        lemma_hex_digit(nibble(id.bits, i - hyphens_before(i)));
    }
}

/// Hexadecimal text is twice as long as its bytes and holds lowercase
/// hexadecimal digits only.
pub proof fn law_hex_text_characters(bytes: Seq<u8>)
    ensures
        hex_text(bytes).len() == 2 * bytes.len(),
        forall|i: int|
            0 <= i < hex_text(bytes).len() ==> {
                ||| '0' <= #[trigger] hex_text(bytes)[i] <= '9'
                ||| 'a' <= hex_text(bytes)[i] <= 'f'
            },
{
}

/// Different byte strings have different hexadecimal texts.
pub proof fn law_hex_text_injective(a: Seq<u8>, b: Seq<u8>)
    requires
        hex_text(a) == hex_text(b),
    ensures
        a == b,
{
    assert(a.len() == b.len()) by {
        law_hex_text_characters(a);
        law_hex_text_characters(b);
    }
    assert forall|i: int| 0 <= i < a.len() implies a[i] == b[i] by {
        assert(hex_text(a)[2 * i] == hex_digit(a[i] as int / 16));
        assert(hex_text(b)[2 * i] == hex_digit(b[i] as int / 16));
        assert(hex_text(a)[2 * i + 1] == hex_digit(a[i] as int % 16));
        assert(hex_text(b)[2 * i + 1] == hex_digit(b[i] as int % 16));
    }
    assert(a =~= b);
}

} // verus!
