//! SHA-256 digests in hexadecimal notation.

use sha2::Digest;
use vstd::prelude::*;

verus! {

/// The SHA-256 digest of a byte string.
pub uninterp spec fn sha256_digest(bytes: Seq<u8>) -> Seq<u8>;

/// Calls `sha2::Sha256::digest`: the digest is a function of the bytes alone and
/// has 32 bytes.
#[verifier::external_body]
fn sha256(bytes: &[u8]) -> (digest: Vec<u8>)
    ensures
        digest@ == sha256_digest(bytes@),
        digest@.len() == 32,
{
    sha2::Sha256::digest(bytes).to_vec()
}

/// The lower-case hexadecimal digit of a value below sixteen.
pub open spec fn hex_digit(d: nat) -> char {
    if d < 10 {
        (d + 48) as char
    } else {
        (d + 87) as char
    }
}

/// Two lower-case hexadecimal digits per byte, high half first.
pub open spec fn hex_lower(bytes: Seq<u8>) -> Seq<char> {
    Seq::new(
        2 * bytes.len(),
        |i: int|
            if i % 2 == 0 {
                hex_digit((bytes[i / 2] / 16) as nat)
            } else {
                hex_digit((bytes[i / 2] % 16) as nat)
            },
    )
}

fn hex_digit_char(d: u8) -> (c: char)
    requires
        d < 16,
    ensures
        c == hex_digit(d as nat),
{
    let byte: u8 = if d < 10 {
        d + 48
    } else {
        d + 87
    };
    byte as char
}

/// Lower-case hexadecimal notation of a byte string.
pub fn hex_string(bytes: &[u8]) -> (out: String)
    ensures
        out@ == hex_lower(bytes@),
{
    let mut out = String::new();
    let mut i: usize = 0;
    while i < bytes.len()
        invariant
            i <= bytes@.len(),
            out@ == hex_lower(bytes@).take(2 * i),
        decreases bytes@.len() - i,
    {
        let byte: u8 = bytes[i];
        out.push(hex_digit_char(byte / 16));
        out.push(hex_digit_char(byte % 16));
        i += 1;
        proof {
            let all = hex_lower(bytes@);
            let k = i - 1;
            assert((2 * k) / 2 == k && (2 * k) % 2 == 0);
            assert((2 * k + 1) / 2 == k && (2 * k + 1) % 2 == 1);
            assert(all[2 * k] == hex_digit((bytes@[k] / 16) as nat));
            assert(all[2 * k + 1] == hex_digit((bytes@[k] % 16) as nat));
            assert(all.take(2 * i) =~= all.take(2 * k).push(all[2 * k]).push(all[2 * k + 1]));
        }
    }
    assert(hex_lower(bytes@).take(2 * i) =~= hex_lower(bytes@));
    out
}

/// The SHA-256 digest of a byte string in lower-case hexadecimal notation.
pub open spec fn sha256_hex(bytes: Seq<u8>) -> Seq<char> {
    hex_lower(sha256_digest(bytes))
}

/// The SHA-256 digest of a byte string in lower-case hexadecimal notation.
pub fn hex_sha256(bytes: &[u8]) -> (out: String)
    ensures
        out@ == sha256_hex(bytes@),
        out@.len() == 64,
{
    let digest = sha256(bytes);
    hex_string(digest.as_slice())
}

/// The last `width` lower-case hexadecimal digits of a number.
pub open spec fn hex_fixed(n: nat, width: nat) -> Seq<char>
    decreases width,
{
    if width == 0 {
        Seq::empty()
    } else {
        hex_fixed(n / 16, (width - 1) as nat).push(hex_digit(n % 16))
    }
}

fn hex_digits(n: u64, width: usize) -> (out: String)
    ensures
        out@ == hex_fixed(n as nat, width as nat),
    decreases width,
{
    if width == 0 {
        String::new()
    } else {
        let mut out = hex_digits(n / 16, width - 1);
        let digit: u8 = (n % 16) as u8;
        out.push(hex_digit_char(digit));
        out
    }
}

/// A number as sixteen lower-case hexadecimal digits.
pub fn hex_u64(n: u64) -> (out: String)
    ensures
        out@ == hex_fixed(n as nat, 16),
{
    hex_digits(n, 16)
}

/// A byte is written as its two hexadecimal digits in lower case, the high one first.
pub proof fn law_bytes_are_written_in_hexadecimal(bytes: Seq<u8>, i: int)
    requires
        0 <= i < bytes.len(),
    ensures
        hex_lower(bytes).len() == 2 * bytes.len(),
        ({
            let digits = "0123456789abcdef"@;
            let high = (bytes[i] / 16) as int;
            let low = (bytes[i] % 16) as int;
            &&& hex_lower(bytes)[2 * i] == digits[high]
            &&& hex_lower(bytes)[2 * i + 1] == digits[low]
        }),
{
    law_hex_digits((bytes[i] / 16) as nat);
    law_hex_digits((bytes[i] % 16) as nat);
}

/// The sixteen digits.
pub proof fn law_hex_digits(d: nat)
    requires
        d < 16,
    ensures
        hex_digit(d) == "0123456789abcdef"@[d as int],
{
    reveal_strlit("0123456789abcdef");
}

/// A number of a fixed width ends in the digit of its ones, and begins with the digits of what is
/// left.
pub proof fn law_fixed_width_is_made_of_digits(n: nat, width: nat)
    ensures
        hex_fixed(n, width).len() == width,
        width > 0 ==> hex_fixed(n, width).last() == "0123456789abcdef"@[(n % 16) as int]
            && hex_fixed(n, width).drop_last() == hex_fixed(n / 16, (width - 1) as nat),
    decreases width,
{
    if width > 0 {
        law_fixed_width_is_made_of_digits(n / 16, (width - 1) as nat);
        law_hex_digits(n % 16);
        assert(hex_fixed(n, width).drop_last() =~= hex_fixed(n / 16, (width - 1) as nat));
    }
}

} // verus!
