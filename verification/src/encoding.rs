//! Text and byte encodings shared by the pipeline: hexadecimal and decimal
//! renderings, big-endian integers, account addresses and topic hashes.

use vstd::prelude::*;

verus! {

/// The sixteen lower-case hexadecimal digits, in order of value.
pub open spec fn hex_alphabet() -> Seq<char> {
    seq!['0', '1', '2', '3', '4', '5', '6', '7', '8', '9', 'a', 'b', 'c', 'd', 'e', 'f']
}

/// Lower-case hexadecimal text of `bytes`: two digits per byte, high nibble first.
pub open spec fn hex_of(bytes: Seq<u8>) -> Seq<char> {
    Seq::new(
        2 * bytes.len(),
        |i: int|
            if i % 2 == 0 {
                hex_alphabet()[bytes[i / 2] as int / 16]
            } else {
                hex_alphabet()[bytes[i / 2] as int % 16]
            },
    )
}

/// `hex_of(bytes)` behind the prefix `0x`.
pub open spec fn prefixed_hex(bytes: Seq<u8>) -> Seq<char> {
    seq!['0', 'x'] + hex_of(bytes)
}

/// No two digits of the hexadecimal alphabet are the same character.
pub proof fn lemma_hex_alphabet_distinct()
    ensures
        hex_alphabet().len() == 16,
        forall|i: int, j: int|
            0 <= i < 16 && 0 <= j < 16 && #[trigger] hex_alphabet()[i] == #[trigger] hex_alphabet()[j]
                ==> i == j,
{
    let a = hex_alphabet();
    assert(a[0] == '0' && a[1] == '1' && a[2] == '2' && a[3] == '3');
    assert(a[4] == '4' && a[5] == '5' && a[6] == '6' && a[7] == '7');
    assert(a[8] == '8' && a[9] == '9' && a[10] == 'a' && a[11] == 'b');
    assert(a[12] == 'c' && a[13] == 'd' && a[14] == 'e' && a[15] == 'f');
}

/// Different bytes never give the same hexadecimal text.
pub proof fn lemma_prefixed_hex_injective(a: Seq<u8>, b: Seq<u8>)
    ensures
        prefixed_hex(a) == prefixed_hex(b) <==> a == b,
{
    if prefixed_hex(a) == prefixed_hex(b) {
        lemma_hex_alphabet_distinct();
        assert(prefixed_hex(a).len() == 2 + 2 * a.len());
        assert(prefixed_hex(b).len() == 2 + 2 * b.len());
        assert forall|k: int| 0 <= k < a.len() implies a[k] == b[k] by {
            let x = a[k] as int;
            let y = b[k] as int;
            assert(prefixed_hex(a)[2 + 2 * k] == hex_of(a)[2 * k]);
            assert(prefixed_hex(b)[2 + 2 * k] == hex_of(b)[2 * k]);
            assert(prefixed_hex(a)[2 + 2 * k + 1] == hex_of(a)[2 * k + 1]);
            assert(prefixed_hex(b)[2 + 2 * k + 1] == hex_of(b)[2 * k + 1]);
            assert(hex_of(a)[2 * k] == hex_alphabet()[x / 16]);
            assert(hex_of(b)[2 * k] == hex_alphabet()[y / 16]);
            assert(hex_of(a)[2 * k + 1] == hex_alphabet()[x % 16]);
            assert(hex_of(b)[2 * k + 1] == hex_alphabet()[y % 16]);
            assert(x / 16 == y / 16);
            assert(x % 16 == y % 16);
        }
        assert(a =~= b);
    }
}

/// The ten decimal digits, in order of value.
pub open spec fn decimal_alphabet() -> Seq<char> {
    seq!['0', '1', '2', '3', '4', '5', '6', '7', '8', '9']
}

/// Decimal text of `n` without sign or leading zeros; zero is `"0"`.
pub open spec fn decimal_of(n: nat) -> Seq<char>
    decreases n,
{
    if n < 10 {
        seq![decimal_alphabet()[n as int]]
    } else {
        decimal_of(n / 10).push(decimal_alphabet()[(n % 10) as int])
    }
}

/// The unsigned integer that `bytes` spell in big-endian order.
pub open spec fn be_value(bytes: Seq<u8>) -> nat
    decreases bytes.len(),
{
    if bytes.len() == 0 {
        0
    } else {
        be_value(bytes.drop_last()) * 256 + bytes.last() as nat
    }
}

/// Value of a hexadecimal digit of either case, `None` for any other character.
pub open spec fn hex_value(c: char) -> Option<int> {
    if '0' <= c <= '9' {
        Some(c as int - '0' as int)
    } else if 'a' <= c <= 'f' {
        Some(c as int - 'a' as int + 10)
    } else if 'A' <= c <= 'F' {
        Some(c as int - 'A' as int + 10)
    } else {
        None
    }
}

/// `s` without a leading `0x` or `0X`.
pub open spec fn strip_hex_prefix(s: Seq<char>) -> Seq<char> {
    if s.len() >= 2 && s[0] == '0' && (s[1] == 'x' || s[1] == 'X') {
        s.skip(2)
    } else {
        s
    }
}

/// The twenty bytes of an account address written as forty hexadecimal digits
/// with an optional prefix; `None` for any other text.
pub open spec fn parse_address(s: Seq<char>) -> Option<Seq<u8>> {
    let digits = strip_hex_prefix(s);
    if digits.len() == 40 && (forall|i: int| 0 <= i < 40 ==> hex_value(#[trigger] digits[i]) is Some) {
        Some(
            Seq::new(
                20,
                |i: int| (16 * hex_value(digits[2 * i]).unwrap() + hex_value(digits[2 * i + 1]).unwrap()) as u8,
            ),
        )
    } else {
        None
    }
}

/// The Keccak-256 digest of `data`, thirty-two bytes.
pub uninterp spec fn keccak256_digest(data: Seq<u8>) -> Seq<u8>;

/// Error of the hexadecimal parser, carried through unread.
#[verifier::external_type_specification]
#[verifier::external_body]
pub struct ExFromHexError(alloy::primitives::hex::FromHexError);

/// Calls `alloy::primitives::keccak256`. The digest is trusted to be the
/// Keccak-256 hash of exactly the bytes given.
#[verifier::external_body]
pub(crate) fn keccak256(data: &[u8]) -> (digest: [u8; 32])
    ensures
        digest@ == keccak256_digest(data@),
{
    alloy::primitives::keccak256(data).0
}

/// Calls `alloy::primitives::hex::encode_prefixed`. The text is trusted to be
/// `0x` followed by two lower-case digits per byte.
#[verifier::external_body]
pub(crate) fn encode_hex(bytes: &[u8]) -> (text: String)
    ensures
        text@ == prefixed_hex(bytes@),
{
    alloy::primitives::hex::encode_prefixed(bytes)
}

/// Calls `alloy::primitives::U256::from_be_bytes` and the `Display` of the
/// result. The text is trusted to be the decimal form of the big-endian value.
#[verifier::external_body]
pub(crate) fn encode_decimal(value: &[u8; 32]) -> (text: String)
    ensures
        text@ == decimal_of(be_value(value@)),
{
    alloy::primitives::U256::from_be_bytes(*value).to_string()
}

/// Calls `alloy::primitives::Address::from_str`. The parser is trusted to
/// accept forty hexadecimal digits of either case behind an optional `0x` or
/// `0X`, to reject everything else, and to return the bytes they spell.
#[verifier::external_body]
pub(crate) fn address_from_str(text: &str) -> (parsed: Result<[u8; 20], alloy::primitives::hex::FromHexError>)
    ensures
        parsed is Ok <==> parse_address(text@) is Some,
        parsed matches Ok(bytes) ==> parse_address(text@) == Some(bytes@),
{
    <alloy::primitives::Address as std::str::FromStr>::from_str(text).map(|a| a.0.0)
}

} // verus!
