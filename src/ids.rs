//! Identifiers derived for each hit: the nine-digit hash of a visitor id, the
//! client id, and the random page-load nonce.

use crate::error::GaError;
use crate::text::{
    all_digits, append_signed_decimal, chars_of, decimal, decimal_string, is_digit,
    lemma_decimal_len_bound, lemma_decimal_shape, pow10, push_char, signed_decimal,
};
use num_traits::{Num, ToPrimitive};
use rand::rngs::StdRng;
use rand::{Rng, SeedableRng};
use vstd::prelude::*;
use vstd::utf8::encode_utf8;

verus! {

/// Largest value of the page-load nonce.
pub const NONCE_MAX: u32 = 2147483647;

/// The nine-digit hash keeps the hash modulo this value.
pub const NINE_DIGIT_MODULUS: u64 = 1000000000;

/// The MD5 digest of some bytes, written as lowercase hexadecimal.
pub uninterp spec fn md5_hex_of(data: Seq<u8>) -> Seq<char>;

/// The sixteen bytes of the UUID that a text denotes, when it parses as one.
pub uninterp spec fn uuid_parse_of(s: Seq<char>) -> Option<Seq<u8>>;

pub open spec fn is_lower_hex_digit(c: char) -> bool {
    ('0' <= c <= '9') || ('a' <= c <= 'f')
}

pub open spec fn hex_digit_value(c: char) -> nat {
    if '0' <= c <= '9' {
        (c as u32 - '0' as u32) as nat
    } else if 'a' <= c <= 'f' {
        (c as u32 - 'a' as u32 + 10) as nat
    } else if 'A' <= c <= 'F' {
        (c as u32 - 'A' as u32 + 10) as nat
    } else {
        0
    }
}

/// The value of a string of hexadecimal digits, most significant first.
pub open spec fn hex_value(s: Seq<char>) -> nat
    decreases s.len(),
{
    if s.len() == 0 {
        0
    } else {
        hex_value(s.drop_last()) * 16 + hex_digit_value(s.last())
    }
}

pub open spec fn pow16(k: nat) -> nat
    decreases k,
{
    if k == 0 {
        1
    } else {
        16 * pow16((k - 1) as nat)
    }
}

/// `d` preceded by as many `1`s as bring it to nine characters.
pub open spec fn pad_with_ones(d: Seq<char>) -> Seq<char> {
    Seq::new((9 - d.len()) as nat, |_i: int| '1') + d
}

/// The nine-digit code of a hexadecimal digest: its value modulo 10^9 in
/// decimal, padded on the left with `1`s.
pub open spec fn nine_digit_code(hex: Seq<char>) -> Seq<char> {
    pad_with_ones(decimal(hex_value(hex) % (NINE_DIGIT_MODULUS as nat)))
}

/// Whether `s` parses as a UUID of version 4.
pub open spec fn is_v4_uuid(s: Seq<char>) -> bool {
    match uuid_parse_of(s) {
        Some(b) => b.len() == 16 && b[6] / 16 == 4,
        None => false,
    }
}

/// The client id of a visitor: a version-4 UUID becomes its nine-digit code,
/// a dot and the first-seen time; any other id is used as it is.
pub open spec fn client_id_of(visitor_id: Seq<char>, first_seen: int) -> Seq<char> {
    if is_v4_uuid(visitor_id) {
        nine_digit_code(md5_hex_of(encode_utf8(visitor_id))) + seq!['.'] + signed_decimal(
            first_seen,
        )
    } else {
        visitor_id
    }
}

#[verifier::external_type_specification]
#[verifier::external_body]
pub struct ExStdRng(StdRng);

/// Relies on md5::compute and the LowerHex formatting of md5::Digest, which
/// writes each of the sixteen digest bytes as two lowercase hex digits.
#[verifier::external_body]
fn md5_hex(data: &[u8]) -> (r: String)
    ensures
        r@ == md5_hex_of(data@),
        r@.len() == 32,
        forall|i: int| 0 <= i < 32 ==> is_lower_hex_digit(#[trigger] r@[i]),
{
    format!("{:x}", md5::compute(data))
}

/// Relies on num_bigint's BigInt::from_str_radix in radix 16, and on
/// ToPrimitive::to_u128: a nonempty string of at most 32 lowercase hex digits
/// reads as its value.
#[verifier::external_body]
fn parse_hex(s: &str) -> (r: Option<u128>)
    ensures
        0 < s@.len() <= 32 && (forall|i: int| 0 <= i < s@.len() ==> is_lower_hex_digit(#[trigger] s@[i]))
            ==> r == Some(hex_value(s@) as u128),
{
    match num_bigint::BigInt::from_str_radix(s, 16) {
        Ok(b) => b.to_u128(),
        Err(_) => None,
    }
}

/// Relies on uuid::Uuid::parse_str and Uuid::into_bytes: whether the text
/// parses as a UUID, and the bytes of that UUID.
#[verifier::external_body]
fn uuid_bytes(s: &str) -> (r: Option<[u8; 16]>)
    ensures
        r is Some <==> uuid_parse_of(s@) is Some,
        r matches Some(b) ==> uuid_parse_of(s@) == Some(b@),
{
    match uuid::Uuid::parse_str(s) {
        Ok(u) => Some(u.into_bytes()),
        Err(_) => None,
    }
}

/// Relies on chrono::Utc::now and DateTime::timestamp_nanos_opt: the current
/// time in nanoseconds since the epoch, when it fits in an `i64`.
#[verifier::external_body]
fn now_nanos() -> (r: Option<i64>) {
    chrono::Utc::now().timestamp_nanos_opt()
}

/// Relies on rand's SeedableRng::seed_from_u64 for StdRng: a generator seeded
/// from the given value.
#[verifier::external_body]
fn seeded_rng(seed: u64) -> (r: StdRng) {
    StdRng::seed_from_u64(seed)
}

/// Relies on rand's Rng::gen_range over `0..=hi`, which is never empty: a
/// number from 0 to `hi`, both included.
#[verifier::external_body]
fn draw_up_to(rng: &mut StdRng, hi: u32) -> (r: u32)
    ensures
        r <= hi,
{
    rng.gen_range(0..=hi)
}

proof fn lemma_hex_value_bound(s: Seq<char>)
    ensures
        hex_value(s) < pow16(s.len()),
    decreases s.len(),
{
    if s.len() > 0 {
        lemma_hex_value_bound(s.drop_last());
        let c = s.last();
        assert(hex_digit_value(c) < 16);
        assert(hex_value(s) < pow16(s.len())) by (nonlinear_arith)
            requires
                hex_value(s) == hex_value(s.drop_last()) * 16 + hex_digit_value(c),
                hex_value(s.drop_last()) < pow16(s.drop_last().len()),
                hex_digit_value(c) < 16,
                pow16(s.len()) == 16 * pow16(s.drop_last().len()),
        ;
    }
}

/// The nine-digit code of a digest written in lowercase hexadecimal: its
/// value modulo 10^9 in decimal, padded on the left with `1`s to nine digits.
pub fn nine_digits_of_hex(hex: &str) -> (r: String)
    requires
        0 < hex@.len() <= 32,
        forall|i: int| 0 <= i < hex@.len() ==> is_lower_hex_digit(#[trigger] hex@[i]),
    ensures
        r@ == nine_digit_code(hex@),
        r@.len() == 9,
        all_digits(r@),
{
    proof {
        lemma_hex_fits(hex@);
    }
    let value: u128 = match parse_hex(hex) {
        Some(v) => v,
        None => 0,
    };
    let m: u64 = (value % (NINE_DIGIT_MODULUS as u128)) as u64;
    let ghost code = decimal(m as nat);
    proof {
        assert(m as nat == hex_value(hex@) % (NINE_DIGIT_MODULUS as nat));
        lemma_nine_digits(m as nat);
    }
    let digits = decimal_string(m);
    let count = chars_of(digits.as_str()).len();
    let mut out = String::new();
    let mut k: usize = 0;
    while k < 9 - count
        invariant
            count == code.len(),
            count <= 9,
            k <= 9 - count,
            out@ == Seq::new(k as nat, |_i: int| '1'),
        decreases 9 - count - k,
    {
        push_char(&mut out, '1');
        proof {
            assert(out@ =~= Seq::new((k + 1) as nat, |_i: int| '1'));
        }
        k = k + 1;
    }
    out.append(digits.as_str());
    proof {
        let s = out@;
        assert(s =~= pad_with_ones(code));
        assert forall|i: int| 0 <= i < s.len() implies is_digit(#[trigger] s[i]) by {
            if i >= 9 - count {
                assert(s[i] == code[i - (9 - count)]);
            }
        }
    }
    out
}

proof fn lemma_hex_fits(s: Seq<char>)
    requires
        s.len() <= 32,
    ensures
        hex_value(s) < 0x1_0000_0000_0000_0000_0000_0000_0000_0000,
{
    lemma_hex_value_bound(s);
    lemma_pow16_mono(s.len(), 32);
    reveal_with_fuel(pow16, 33);
    assert(pow16(32) == 0x1_0000_0000_0000_0000_0000_0000_0000_0000);
}

proof fn lemma_nine_digits(m: nat)
    requires
        m < NINE_DIGIT_MODULUS,
    ensures
        decimal(m).len() <= 9,
        0 < decimal(m).len(),
        all_digits(decimal(m)),
{
    reveal_with_fuel(pow10, 10);
    assert(pow10(9) == 1000000000);
    lemma_decimal_len_bound(m, 9, pow10(9));
    lemma_decimal_shape(m);
}

proof fn lemma_pow16_mono(a: nat, b: nat)
    requires
        a <= b,
    ensures
        pow16(a) <= pow16(b),
    decreases b - a,
{
    if a < b {
        lemma_pow16_mono(a, (b - 1) as nat);
    }
}

/// Hashes an identifier to nine decimal digits: the MD5 digest of its bytes,
/// read as an integer, modulo 10^9, padded on the left with `1`s. It never
/// fails.
pub fn uuid_to_nine_digit_string(uuid: &str) -> (r: Result<String, GaError>)
    ensures
        r matches Ok(s) && s@ == nine_digit_code(md5_hex_of(encode_utf8(uuid@))) && s@.len() == 9
            && all_digits(s@),
{
    let hex = md5_hex(uuid.as_bytes());
    Ok(nine_digits_of_hex(hex.as_str()))
}

/// Whether UUID bytes carry version 4 in the high half of their seventh byte.
pub fn is_version_four(bytes: &[u8; 16]) -> (r: bool)
    ensures
        r == (bytes@[6] / 16 == 4),
{
    bytes[6] / 16 == 4
}

/// Whether the text is a UUID of version 4.
pub fn is_valid_uuid(uuid_str: &str) -> (r: bool)
    ensures
        r == is_v4_uuid(uuid_str@),
{
    match uuid_bytes(uuid_str) {
        Some(b) => is_version_four(&b),
        None => false,
    }
}

/// A hashed client id: the nine-digit code, a dot, and the first-seen time.
pub fn hashed_client_id(code: String, first_seen: i64) -> (r: String)
    ensures
        r@ == code@ + seq!['.'] + signed_decimal(first_seen as int),
{
    let mut out = code;
    push_char(&mut out, '.');
    append_signed_decimal(&mut out, first_seen);
    out
}

/// The client id of a visitor, as `client_id_of` describes it: only a
/// version-4 UUID is hashed, any other id is used verbatim.
pub fn client_id(visitor_id: &str, first_seen: i64) -> (r: String)
    ensures
        r@ == client_id_of(visitor_id@, first_seen as int),
{
    if is_valid_uuid(visitor_id) {
        match uuid_to_nine_digit_string(visitor_id) {
            Ok(code) => hashed_client_id(code, first_seen),
            Err(_) => visitor_id.to_string(),
        }
    } else {
        visitor_id.to_string()
    }
}

/// A number from 0 to `NONCE_MAX`, drawn from a generator seeded by the clock.
pub fn random_draw() -> (r: u32)
    ensures
        r <= NONCE_MAX,
{
    let seed: u64 = match now_nanos() {
        Some(n) => n as u64,
        None => 0,
    };
    let mut rng = seeded_rng(seed);
    draw_up_to(&mut rng, NONCE_MAX)
}

/// A fresh page-load nonce: the decimal text of a random number from 0 to
/// `NONCE_MAX`.
pub fn random_page_load_hash() -> (r: String)
    ensures
        exists|n: nat| n <= NONCE_MAX && r@ == decimal(n),
        0 < r@.len(),
        all_digits(r@),
{
    let n = random_draw();
    proof {
        lemma_decimal_shape(n as nat);
    }
    decimal_string(n as u64)
}

} // verus!
