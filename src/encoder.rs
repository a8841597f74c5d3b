//! The fingerprint encoder: a URL's short key is the URL-safe base64 form of the
//! big-endian bytes of the CRC-64 of its UTF-8 bytes.
use vstd::prelude::*;
use vstd::string::StringSliceAdditionalSpecFns;
use vstd::utf8::encode_utf8;

verus! {

/// The CRC-64 (Jones polynomial, reflected, the variant Redis uses) of `data`,
/// continued from the running checksum `crc`.
pub uninterp spec fn crc64_of(crc: u64, data: Seq<u8>) -> u64;

/// Relies on `crc64::crc64`: the checksum of `data` continued from `crc`, which
/// depends on the two arguments alone; over no data it hands `crc` back.
#[verifier::external_body]
fn crc64_checksum(crc: u64, data: &[u8]) -> (r: u64)
    ensures
        r == crc64_of(crc, data@),
        data@.len() == 0 ==> r == crc,
{
    crc64::crc64(crc, data)
}

/// The digit of the URL-safe base64 alphabet for a six-bit value.
pub open spec fn url_safe_digit(v: int) -> char {
    if v < 26 {
        (65 + v) as char
    } else if v < 52 {
        (97 + (v - 26)) as char
    } else if v < 62 {
        (48 + (v - 52)) as char
    } else if v == 62 {
        '-'
    } else {
        '_'
    }
}

/// A digit of the URL-safe base64 alphabet: letters, digits, `-` and `_`.
pub open spec fn is_url_safe_char(c: char) -> bool {
    ('A' <= c && c <= 'Z') || ('a' <= c && c <= 'z') || ('0' <= c && c <= '9') || c == '-'
        || c == '_'
}

/// The four digits of one group of three bytes.
pub open spec fn group_digits(b0: int, b1: int, b2: int) -> Seq<char> {
    seq![
        url_safe_digit(b0 / 4),
        url_safe_digit((b0 % 4) * 16 + b1 / 16),
        url_safe_digit((b1 % 16) * 4 + b2 / 64),
        url_safe_digit(b2 % 64),
    ]
}

/// URL-safe base64 with `=` padding: each group of three bytes gives four
/// digits; a last group of one or two bytes is padded to four characters.
pub open spec fn base64_url(b: Seq<u8>) -> Seq<char>
    decreases b.len(),
{
    if b.len() == 0 {
        seq![]
    } else if b.len() == 1 {
        group_digits(b[0] as int, 0, 0).subrange(0, 2) + seq!['=', '=']
    } else if b.len() == 2 {
        group_digits(b[0] as int, b[1] as int, 0).subrange(0, 3) + seq!['=']
    } else {
        group_digits(b[0] as int, b[1] as int, b[2] as int) + base64_url(
            b.subrange(3, b.len() as int),
        )
    }
}

/// Relies on `base64::encode_config` with `base64::URL_SAFE`: the URL-safe
/// alphabet, with `=` padding. The bound keeps its size computation from
/// overflowing, where it would panic.
#[verifier::external_body]
fn base64_url_encode(bytes: &[u8]) -> (r: String)
    requires
        bytes@.len() <= usize::MAX / 2,
    ensures
        r@ == base64_url(bytes@),
{
    base64::encode_config(bytes, base64::URL_SAFE)
}

/// The eight bytes of `x`, most significant first.
pub open spec fn be_bytes(x: u64) -> Seq<u8> {
    seq![
        (x >> 56u64) as u8,
        (x >> 48u64) as u8,
        (x >> 40u64) as u8,
        (x >> 32u64) as u8,
        (x >> 24u64) as u8,
        (x >> 16u64) as u8,
        (x >> 8u64) as u8,
        x as u8,
    ]
}

/// The eight bytes of `x` in big-endian order.
pub fn to_be_bytes(x: u64) -> (r: [u8; 8])
    ensures
        r@ == be_bytes(x),
{
    let r: [u8; 8] = [
        (x >> 56u64) as u8,
        (x >> 48u64) as u8,
        (x >> 40u64) as u8,
        (x >> 32u64) as u8,
        (x >> 24u64) as u8,
        (x >> 16u64) as u8,
        (x >> 8u64) as u8,
        x as u8,
    ];
    assert(r@ =~= be_bytes(x));
    r
}

/// The short key of a URL, given by its characters.
pub open spec fn key_of(url: Seq<char>) -> Seq<char> {
    base64_url(be_bytes(crc64_of(0, encode_utf8(url))))
}

/// The length every key has.
pub const KEY_LEN: usize = 12;

/// The shape of every key: eleven digits of the URL-safe alphabet, then `=`.
pub open spec fn is_key_shaped(k: Seq<char>) -> bool {
    &&& k.len() == KEY_LEN
    &&& forall|i: int| 0 <= i < KEY_LEN - 1 ==> is_url_safe_char(#[trigger] k[i])
    &&& k[KEY_LEN - 1] == '='
}

proof fn lemma_digit_url_safe(v: int)
    requires
        0 <= v < 64,
    ensures
        is_url_safe_char(url_safe_digit(v)),
{
}

proof fn lemma_group_url_safe(b0: int, b1: int, b2: int)
    requires
        0 <= b0 < 256,
        0 <= b1 < 256,
        0 <= b2 < 256,
    ensures
        forall|i: int| 0 <= i < 4 ==> is_url_safe_char(#[trigger] group_digits(b0, b1, b2)[i]),
{
    lemma_digit_url_safe(b0 / 4);
    lemma_digit_url_safe((b0 % 4) * 16 + b1 / 16);
    lemma_digit_url_safe((b1 % 16) * 4 + b2 / 64);
    lemma_digit_url_safe(b2 % 64);
}

/// Eight bytes encode to a key-shaped string.
pub proof fn lemma_base64_of_eight_bytes(b: Seq<u8>)
    requires
        b.len() == 8,
    ensures
        is_key_shaped(base64_url(b)),
{
    let b1 = b.subrange(3, 8);
    let b2 = b1.subrange(3, 5);
    assert(base64_url(b) == group_digits(b[0] as int, b[1] as int, b[2] as int) + base64_url(b1));
    assert(base64_url(b1) == group_digits(b1[0] as int, b1[1] as int, b1[2] as int) + base64_url(
        b2,
    ));
    assert(base64_url(b2) == group_digits(b2[0] as int, b2[1] as int, 0).subrange(0, 3) + seq![
        '=',
    ]);
    lemma_group_url_safe(b[0] as int, b[1] as int, b[2] as int);
    lemma_group_url_safe(b1[0] as int, b1[1] as int, b1[2] as int);
    lemma_group_url_safe(b2[0] as int, b2[1] as int, 0);
    let k = base64_url(b);
    assert forall|i: int| 0 <= i < KEY_LEN - 1 implies is_url_safe_char(#[trigger] k[i]) by {
        if i < 4 {
            assert(k[i] == group_digits(b[0] as int, b[1] as int, b[2] as int)[i]);
        } else if i < 8 {
            assert(k[i] == group_digits(b1[0] as int, b1[1] as int, b1[2] as int)[i - 4]);
        } else {
            assert(k[i] == group_digits(b2[0] as int, b2[1] as int, 0)[i - 8]);
        }
    }
}

/// Every URL's key has the fixed length and consists of the URL-safe
/// alphabet, with the single padding character at its end.
pub proof fn lemma_key_shape(url: Seq<char>)
    ensures
        is_key_shaped(key_of(url)),
{
    lemma_base64_of_eight_bytes(be_bytes(crc64_of(0, encode_utf8(url))));
}

/// Byte-identical URLs have the same key: the key depends on the URL alone.
pub proof fn lemma_key_deterministic(u1: &str, u2: &str)
    requires
        u1.spec_bytes() == u2.spec_bytes(),
    ensures
        key_of(u1@) == key_of(u2@),
{
}

/// The short key of `url`: CRC-64 of its UTF-8 bytes, in big-endian order,
/// written in padded URL-safe base64.
pub fn encode(url: &str) -> (r: String)
    ensures
        r@ == key_of(url@),
        is_key_shaped(r@),
{
    let sum = crc64_checksum(0, url.as_bytes());
    let bytes = to_be_bytes(sum);
    proof {
        lemma_key_shape(url@);
    }
    base64_url_encode(bytes.as_slice())
}

} // verus!
