//! SHA-256 content hashes of archives, in lower-case hex.

use vstd::prelude::*;
use crate::error::{AdeployError, ErrorKind};
use crate::text::join4;
use sha2::Digest;

verus! {

/// The SHA-256 digest of a byte string.
pub uninterp spec fn sha256(data: Seq<u8>) -> Seq<u8>;

/// Relies on `sha2::Sha256::digest`: the 32-byte SHA-256 digest of the input.
#[verifier::external_body]
fn sha256_bytes(data: &[u8]) -> (r: Vec<u8>)
    ensures
        r@ == sha256(data@),
        r@.len() == 32,
{
    sha2::Sha256::digest(data).to_vec()
}

/// Lower-case hex digit of a value below 16.
pub open spec fn hex_digit(v: int) -> char {
    if v < 10 {
        ('0' as int + v) as char
    } else {
        ('a' as int + v - 10) as char
    }
}

/// Lower-case hex text of a byte string: two digits per byte, high nibble first.
pub open spec fn hex_text(b: Seq<u8>) -> Seq<char> {
    Seq::new(
        2 * b.len(),
        |i: int|
            if i % 2 == 0 {
                hex_digit(b[i / 2] as int / 16)
            } else {
                hex_digit(b[i / 2] as int % 16)
            },
    )
}

fn hex_digit_text(v: u8) -> (r: &'static str)
    requires
        v < 16,
    ensures
        r@ == seq![hex_digit(v as int)],
{
    proof {
        reveal_strlit("0");
        reveal_strlit("1");
        reveal_strlit("2");
        reveal_strlit("3");
        reveal_strlit("4");
        reveal_strlit("5");
        reveal_strlit("6");
        reveal_strlit("7");
        reveal_strlit("8");
        reveal_strlit("9");
        reveal_strlit("a");
        reveal_strlit("b");
        reveal_strlit("c");
        reveal_strlit("d");
        reveal_strlit("e");
        reveal_strlit("f");
    }
    match v {
        0 => "0",
        1 => "1",
        2 => "2",
        3 => "3",
        4 => "4",
        5 => "5",
        6 => "6",
        7 => "7",
        8 => "8",
        9 => "9",
        10 => "a",
        11 => "b",
        12 => "c",
        13 => "d",
        14 => "e",
        _ => "f",
    }
}

/// See `hex_text`.
pub fn hex_of(b: &[u8]) -> (r: String)
    requires
        2 * b@.len() <= usize::MAX,
    ensures
        r@ == hex_text(b@),
{
    let mut out = String::new();
    let n = b.len();
    let mut i: usize = 0;
    while i < n
        invariant
            n == b@.len(),
            i <= n,
            out@ =~= hex_text(b@.subrange(0, i as int)),
        decreases n - i,
    {
        let v = b[i];
        out.append(hex_digit_text(v / 16));
        out.append(hex_digit_text(v % 16));
        i = i + 1;
        proof {
            let h = hex_text(b@.subrange(0, i as int));
            assert forall|k: int| 0 <= k < h.len() implies out@[k] == h[k] by {
                let prev = b@.subrange(0, i - 1);
                if k < 2 * (i - 1) {
                    assert(b@.subrange(0, i as int)[k / 2] == prev[k / 2]);
                }
            }
        }
    }
    assert(b@.subrange(0, n as int) =~= b@);
    out
}

/// Hex SHA-256 of an archive, as the client sends it and the server recomputes it.
pub open spec fn archive_hash_text(data: Seq<u8>) -> Seq<char> {
    hex_text(sha256(data))
}

/// Lower-case hex SHA-256 of `data`.
pub fn archive_hash(data: &[u8]) -> (r: String)
    ensures
        r@ == archive_hash_text(data@),
        r@.len() == 64,
{
    let digest = sha256_bytes(data);
    hex_of(digest.as_slice())
}

/// Whether a digest, in lower-case hex, is the expected hash text.
pub fn digest_matches(digest: &[u8], expected_hash: &str) -> (r: bool)
    requires
        2 * digest@.len() <= usize::MAX,
    ensures
        r == (hex_text(digest@) == expected_hash@),
{
    let actual = hex_of(digest);
    let expected = String::from_str(expected_hash);
    actual == expected
}

/// Text of the hash-mismatch error.
pub open spec fn hash_mismatch_text(expected: Seq<char>, actual: Seq<char>) -> Seq<char> {
    "Hash verification failed. Expected: "@ + expected + ", Actual: "@ + actual
}

/// Checks that `archive_data` hashes to `expected_hash`, handing the bytes back
/// untouched when it does.
pub fn verify_archive_hash(archive_data: Vec<u8>, expected_hash: &str) -> (r: Result<
    Vec<u8>,
    AdeployError,
>)
    ensures
        r is Ok <==> archive_hash_text(archive_data@) == expected_hash@,
        r is Ok ==> r->Ok_0@ == archive_data@,
        r is Err ==> r->Err_0@ == (
            ErrorKind::Deploy,
            hash_mismatch_text(expected_hash@, archive_hash_text(archive_data@)),
        ),
{
    let digest = sha256_bytes(archive_data.as_slice());
    if digest_matches(digest.as_slice(), expected_hash) {
        Ok(archive_data)
    } else {
        let actual = hex_of(digest.as_slice());
        Err(AdeployError::Deploy(join4(
            "Hash verification failed. Expected: ",
            expected_hash,
            ", Actual: ",
            actual.as_str(),
        )))
    }
}

} // verus!
