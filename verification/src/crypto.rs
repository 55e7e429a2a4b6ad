//! The password digest: SHA-256 of the secret's bytes, rendered as lowercase
//! hexadecimal. The digest itself comes from the `sha2` crate and is only
//! named, never restated; the hexadecimal rendering is defined and verified
//! here.

use vstd::prelude::*;
use vstd::string::StringExecFns;

use sha2::{Digest, Sha256};

verus! {

/// The SHA-256 digest of a byte sequence. The algorithm takes pages to
/// state, so the result is only named: the sole fact the library relies on
/// is that it is a function of the input bytes alone.
pub uninterp spec fn sha256_of(data: Seq<u8>) -> Seq<u8>;

/// Relies on `sha2::Sha256` (`Digest::new`, `Digest::update`,
/// `Digest::finalize`): the digest is 32 bytes and depends on the input
/// bytes alone.
#[verifier::external_body]
fn sha256_digest(data: &[u8]) -> (r: Vec<u8>)
    ensures
        r@ == sha256_of(data@),
        r@.len() == 32,
{
    let mut hasher = Sha256::new();
    hasher.update(data);
    hasher.finalize().as_slice().to_vec()
}

/// The lowercase hexadecimal digit for one value below 16.
pub open spec fn hex_char(n: int) -> char {
    if n == 0 { '0' }
    else if n == 1 { '1' }
    else if n == 2 { '2' }
    else if n == 3 { '3' }
    else if n == 4 { '4' }
    else if n == 5 { '5' }
    else if n == 6 { '6' }
    else if n == 7 { '7' }
    else if n == 8 { '8' }
    else if n == 9 { '9' }
    else if n == 10 { 'a' }
    else if n == 11 { 'b' }
    else if n == 12 { 'c' }
    else if n == 13 { 'd' }
    else if n == 14 { 'e' }
    else { 'f' }
}

/// Lowercase hexadecimal rendering of a byte sequence: two digits per byte,
/// high nibble first.
pub open spec fn hex_of(data: Seq<u8>) -> Seq<char> {
    Seq::new(
        2 * data.len(),
        |i: int| if i % 2 == 0 {
            hex_char(data[i / 2] as int / 16)
        } else {
            hex_char(data[i / 2] as int % 16)
        },
    )
}

/// The stored form of a secret: the lowercase hexadecimal rendering of the
/// SHA-256 digest of its UTF-8 bytes.
pub open spec fn hashed_hex(password: Seq<char>) -> Seq<char> {
    hex_of(sha256_of(vstd::utf8::encode_utf8(password)))
}

/// The one-character string holding the lowercase hexadecimal digit of a
/// value below 16.
fn hex_char_str(n: u8) -> (r: &'static str)
    requires
        n < 16,
    ensures
        r@.len() == 1,
        r@[0] == hex_char(n as int),
{
    proof {
        reveal_strlit("0");
        reveal_strlit("1");
        reveal_strlit("2");
        reveal_strlit("3");
        reveal_strlit("4");
        reveal_strlit("5");
        reveal_strlit("6");
        reveal_strlit("7");
        reveal_strlit("8");
        reveal_strlit("9");
        reveal_strlit("a");
        reveal_strlit("b");
        reveal_strlit("c");
        reveal_strlit("d");
        reveal_strlit("e");
        reveal_strlit("f");
    }
    match n {
        0 => "0",
        1 => "1",
        2 => "2",
        3 => "3",
        4 => "4",
        5 => "5",
        6 => "6",
        7 => "7",
        8 => "8",
        9 => "9",
        10 => "a",
        11 => "b",
        12 => "c",
        13 => "d",
        14 => "e",
        _ => "f",
    }
}

/// Render a byte sequence as lowercase hexadecimal, two digits per byte.
pub fn to_lower_hex(data: &[u8]) -> (r: String)
    ensures
        r@ == hex_of(data@),
{
    let mut r = String::new();
    let mut i: usize = 0;
    while i < data.len()
        invariant
            i <= data@.len(),
            r@.len() == 2 * i,
            forall|j: int| 0 <= j < r@.len() ==> r@[j] == hex_of(data@)[j],
        decreases data@.len() - i,
    {
        let b = data[i];
        let hi = hex_char_str(b / 16);
        let lo = hex_char_str(b % 16);
        r.append(hi);
        r.append(lo);
        i = i + 1;
    }
    proof {
        assert(r@ =~= hex_of(data@));
    }
    r
}

/// The stored form of a plaintext secret: lowercase hexadecimal SHA-256 of
/// its bytes.
pub fn hash_password(password: &str) -> (r: String)
    ensures
        r@ == hashed_hex(password@),
{
    let digest = sha256_digest(password.as_bytes());
    to_lower_hex(digest.as_slice())
}

} // verus!
