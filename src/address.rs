//! Ethereum addresses: 20 bytes, parsed from and written as hex text.

use vstd::prelude::*;

verus! {

/// An Ethereum address.
pub type EthAddress = [u8; 20];

/// Why a text is not an Ethereum address.
#[derive(Clone, Copy, Debug, PartialEq, Eq, Structural)]
pub enum AddressError {
    /// A character outside `0-9`, `a-f`, `A-F`, at the given position.
    InvalidHexCharacter { c: char, index: usize },
    /// An odd number of hex digits.
    OddLength,
    /// Hex digits that decode to a number of bytes other than 20.
    InvalidLength,
}

/// `c` is a hex digit of either case.
pub open spec fn is_hex_digit(c: char) -> bool {
    ('0' <= c && c <= '9') || ('a' <= c && c <= 'f') || ('A' <= c && c <= 'F')
}

/// Every character of `s` is a hex digit.
pub open spec fn is_hex_text(s: Seq<char>) -> bool {
    forall|i: int| 0 <= i < s.len() ==> #[trigger] is_hex_digit(s[i])
}

/// Every character of `s` is ASCII.
pub open spec fn is_ascii_text(s: Seq<char>) -> bool {
    forall|i: int| 0 <= i < s.len() ==> (#[trigger] s[i] as u32) < 128
}

/// The value of the hex digit `c`.
pub open spec fn hex_value(c: char) -> nat {
    if '0' <= c && c <= '9' {
        (c as u32 - '0' as u32) as nat
    } else if 'a' <= c && c <= 'f' {
        (c as u32 - 'a' as u32 + 10) as nat
    } else {
        (c as u32 - 'A' as u32 + 10) as nat
    }
}

/// The bytes that the hex text `s` stands for, two digits a byte, high digit
/// first.
pub open spec fn hex_decoded(s: Seq<char>) -> Seq<u8> {
    Seq::new(
        s.len() / 2,
        |i: int| (16 * hex_value(s[2 * i]) + hex_value(s[2 * i + 1])) as u8,
    )
}

/// The lowercase hex digit for `n`.
pub open spec fn nibble_char(n: nat) -> char
    recommends
        n < 16,
{
    if n == 0 { '0' }
    else if n == 1 { '1' }
    else if n == 2 { '2' }
    else if n == 3 { '3' }
    else if n == 4 { '4' }
    else if n == 5 { '5' }
    else if n == 6 { '6' }
    else if n == 7 { '7' }
    else if n == 8 { '8' }
    else if n == 9 { '9' }
    else if n == 10 { 'a' }
    else if n == 11 { 'b' }
    else if n == 12 { 'c' }
    else if n == 13 { 'd' }
    else if n == 14 { 'e' }
    else { 'f' }
}

/// The lowercase hex text of `b`, two digits a byte, high digit first.
pub open spec fn lower_hex(b: Seq<u8>) -> Seq<char> {
    Seq::new(
        2 * b.len(),
        |i: int|
            if i % 2 == 0 {
                nibble_char((b[i / 2] / 16) as nat)
            } else {
                nibble_char((b[i / 2] % 16) as nat)
            },
    )
}

/// The hex digit `c` written in lowercase.
pub open spec fn lowercase_digit(c: char) -> char {
    nibble_char(hex_value(c))
}

/// The bytes of a hex text, or why it has none.
type Decoded = Result<Vec<u8>, AddressError>;

/// Relies on hex::decode: an odd byte length is refused first; otherwise the
/// bytes are read in pairs, high digit first, and the first byte that is not
/// an ASCII hex digit is reported with its position. It never reports a
/// string length error when decoding into a vector.
#[verifier::external_body]
fn decode_hex(s: &str) -> (r: Decoded)
    ensures
        r is Ok <==> (s@.len() % 2 == 0 && is_hex_text(s@)),
        r matches Ok(v) ==> v@ == hex_decoded(s@),
        is_ascii_text(s@) ==> ((r is Err && r->Err_0 == AddressError::OddLength) <==> s@.len()
            % 2 == 1),
        is_ascii_text(s@) && s@.len() % 2 == 0 && !is_hex_text(s@) ==> (r is Err && r->Err_0 is InvalidHexCharacter),
        r is Err && r->Err_0 is InvalidHexCharacter && is_ascii_text(s@) ==> (r->Err_0->index < s@.len()
            && r->Err_0->c == s@[r->Err_0->index as int] && !is_hex_digit(r->Err_0->c) && forall|j: int|
            0 <= j < r->Err_0->index ==> #[trigger] is_hex_digit(s@[j])),
        !(r is Err && r->Err_0 == AddressError::InvalidLength),
{
    match hex::decode(s) {
        Ok(v) => Ok(v),
        Err(hex::FromHexError::InvalidHexCharacter { c, index }) => Err(
            AddressError::InvalidHexCharacter { c, index },
        ),
        Err(hex::FromHexError::OddLength) => Err(AddressError::OddLength),
        Err(hex::FromHexError::InvalidStringLength) => Err(AddressError::InvalidLength),
    }
}

/// Relies on hex::encode: two lowercase hex digits a byte, high digit first.
#[verifier::external_body]
fn encode_hex(b: &[u8]) -> (r: String)
    ensures
        r@ == lower_hex(b@),
{
    hex::encode(b)
}

/// Parses the hex text of an Ethereum address: exactly 40 hex digits of
/// either case, with no `0x` prefix.
pub fn get_eth_address(address: String) -> (r: Result<EthAddress, AddressError>)
    ensures
        r is Ok <==> (address@.len() == 40 && is_hex_text(address@)),
        r matches Ok(a) ==> a@ == hex_decoded(address@),
        (r is Err && r->Err_0 == AddressError::InvalidLength) <==> (address@.len() % 2 == 0
            && is_hex_text(address@) && address@.len() != 40),
        is_ascii_text(address@) ==> ((r is Err && r->Err_0 == AddressError::OddLength)
            <==> address@.len() % 2 == 1),
        is_ascii_text(address@) && address@.len() % 2 == 0 && !is_hex_text(address@) ==> (r is Err && r->Err_0 is InvalidHexCharacter),
        r is Err && r->Err_0 is InvalidHexCharacter && is_ascii_text(address@) ==> (r->Err_0->index < address@.len()
            && r->Err_0->c == address@[r->Err_0->index as int] && !is_hex_digit(r->Err_0->c) && forall|j: int|
            0 <= j < r->Err_0->index ==> #[trigger] is_hex_digit(address@[j])),
{
    match decode_hex(address.as_str()) {
        Err(e) => Err(e),
        Ok(data) => {
            if data.len() != 20 {
                return Err(AddressError::InvalidLength);
            }
            let mut result: EthAddress = [0u8; 20];
            let mut i: usize = 0;
            while i < 20
                invariant
                    i <= 20,
                    data@.len() == 20,
                    forall|j: int| 0 <= j < i ==> result@[j] == data@[j],
                decreases 20 - i,
            {
                result[i] = data[i];
                i = i + 1;
            }
            assert(result@ =~= data@);
            Ok(result)
        },
    }
}

/// Writes an address as 40 lowercase hex digits.
pub fn eth_address_hex(address: &EthAddress) -> (r: String)
    ensures
        r@ == lower_hex(address@),
{
    encode_hex(address.as_slice())
}

proof fn lemma_digit_round_trip(c: char)
    requires
        is_hex_digit(c),
    ensures
        hex_value(c) < 16,
        !('A' <= c && c <= 'F') ==> lowercase_digit(c) == c,
{
}

proof fn lemma_byte_nibbles(hi: nat, lo: nat)
    requires
        hi < 16,
        lo < 16,
    ensures
        ((16 * hi + lo) as u8) / 16 == hi,
        ((16 * hi + lo) as u8) % 16 == lo,
{
    assert(16 * hi + lo < 256) by (nonlinear_arith)
        requires
            hi < 16,
            lo < 16,
    ;
}

/// Parsing 40 hex digits gives 20 bytes, read big-endian digit pair by digit
/// pair, and writing those bytes back in hex gives the digits again, each
/// letter in lowercase: a text already in lowercase comes back unchanged.
pub proof fn lemma_address_round_trip(s: Seq<char>)
    requires
        s.len() == 40,
        is_hex_text(s),
    ensures
        hex_decoded(s).len() == 20,
        forall|i: int|
            0 <= i < 20 ==> #[trigger] hex_decoded(s)[i] as nat == 16 * hex_value(s[2 * i])
                + hex_value(s[2 * i + 1]),
        lower_hex(hex_decoded(s)) == s.map_values(|c: char| lowercase_digit(c)),
        (forall|i: int| 0 <= i < 40 ==> !('A' <= #[trigger] s[i] && s[i] <= 'F')) ==> lower_hex(
            hex_decoded(s),
        ) == s,
{
    let b = hex_decoded(s);
    assert forall|k: int| 0 <= k < 20 implies #[trigger] b[k] / 16 == hex_value(s[2 * k]) && b[k]
        % 16 == hex_value(s[2 * k + 1]) && b[k] as nat == 16 * hex_value(s[2 * k]) + hex_value(
        s[2 * k + 1],
    ) by {
        assert(is_hex_digit(s[2 * k]));
        assert(is_hex_digit(s[2 * k + 1]));
        lemma_digit_round_trip(s[2 * k]);
        lemma_digit_round_trip(s[2 * k + 1]);
        lemma_byte_nibbles(hex_value(s[2 * k]), hex_value(s[2 * k + 1]));
    }
    let lowered = s.map_values(|c: char| lowercase_digit(c));
    assert forall|i: int| 0 <= i < 40 implies #[trigger] lower_hex(b)[i] == lowered[i] by {
        let k = i / 2;
        assert(b[k] / 16 == hex_value(s[2 * k]));
        if i % 2 == 0 {
            assert(i == 2 * k);
        } else {
            assert(i == 2 * k + 1);
        }
    }
    assert(lower_hex(b) =~= lowered);
    if forall|i: int| 0 <= i < 40 ==> !('A' <= #[trigger] s[i] && s[i] <= 'F') {
        assert forall|i: int| 0 <= i < 40 implies #[trigger] lowered[i] == s[i] by {
            assert(is_hex_digit(s[i]));
            lemma_digit_round_trip(s[i]);
        }
        assert(lowered =~= s);
    }
}

} // verus!
