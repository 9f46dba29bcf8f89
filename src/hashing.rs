//! Content addressing: the identifier of a piece of media is the lowercase
//! hexadecimal SHA-256 digest of the UTF-8 encoding of its canonical URL.
use vstd::prelude::*;
use sha2::Digest;

verus! {

/// The SHA-256 digest of the UTF-8 encoding of a string.
pub uninterp spec fn sha256_of(s: Seq<char>) -> Seq<u8>;

/// Relies on `sha2::Sha256::digest`: a fresh hasher per call, so the digest
/// depends on the bytes of `s` alone; an SHA-256 output is 32 bytes long.
#[verifier::external_body]
fn sha256_digest(s: &str) -> (r: Vec<u8>)
    ensures
        r@ == sha256_of(s@),
        r@.len() == 32,
{
    sha2::Sha256::digest(s.as_bytes()).to_vec()
}

/// The sixteen lowercase hexadecimal digits, in order of value.
pub open spec fn hex_alphabet() -> Seq<char> {
    "0123456789abcdef"@
}

/// Lowercase hexadecimal rendering of bytes: two digits per byte, the high
/// nibble first.
pub open spec fn hex_of(b: Seq<u8>) -> Seq<char>
    decreases b.len(),
{
    if b.len() == 0 {
        Seq::empty()
    } else {
        let last = b.last();
        hex_of(b.drop_last()) + seq![hex_alphabet()[(last / 16) as int], hex_alphabet()[(last % 16) as int]]
    }
}

/// The content identifier of a string: the cache key of a URL.
pub open spec fn content_id_of(s: Seq<char>) -> Seq<char> {
    hex_of(sha256_of(s))
}

pub proof fn lemma_hex_len(b: Seq<u8>)
    ensures
        hex_of(b).len() == 2 * b.len(),
    decreases b.len(),
{
    if b.len() > 0 {
        lemma_hex_len(b.drop_last());
    }
}

/// Renders bytes as lowercase hexadecimal.
pub fn hex_string(b: &Vec<u8>) -> (r: String)
    ensures
        r@ == hex_of(b@),
{
    let digits = "0123456789abcdef";
    proof {
        reveal_strlit("0123456789abcdef");
    }
    let mut out = String::new();
    let mut i: usize = 0;
    while i < b.len()
        invariant
            i <= b.len(),
            digits@ == hex_alphabet(),
            hex_alphabet().len() == 16,
            out@ == hex_of(b@.subrange(0, i as int)),
        decreases b.len() - i,
    {
        let byte = b[i];
        let hi = (byte / 16) as usize;
        let lo = (byte % 16) as usize;
        out.append(digits.substring_char(hi, hi + 1));
        out.append(digits.substring_char(lo, lo + 1));
        proof {
            let next = b@.subrange(0, i + 1);
            assert(next.drop_last() =~= b@.subrange(0, i as int));
            assert(next.last() == byte);
        }
        i = i + 1;
    }
    proof {
        assert(b@.subrange(0, b.len() as int) =~= b@);
    }
    out
}

/// The content identifier of `s`: the hexadecimal SHA-256 digest of its
/// UTF-8 encoding, 64 characters long.
pub fn content_id(s: &str) -> (r: String)
    ensures
        r@ == content_id_of(s@),
        r@.len() == 64,
{
    let digest = sha256_digest(s);
    proof {
        lemma_hex_len(digest@);
    }
    hex_string(&digest)
}

} // verus!
