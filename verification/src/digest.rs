//! SHA-256 content digests in the `sha256:<hex>` text form.

use vstd::prelude::*;
use vstd::utf8::encode_utf8;
use crate::text::{
    all_lower_hex, char_from_ascii, is_hex, is_lower_hex, is_lower_sha256_digest, is_sha256_digest,
    push_char, push_str, sha256_prefix,
};
use crate::json::hex_digit;
use sha2::Digest;

verus! {

/// The SHA-256 hash of a byte sequence (FIPS 180-4), as the `sha2` crate
/// computes it.
pub uninterp spec fn sha256(data: Seq<u8>) -> Seq<u8>;

/// Calls `sha2::Sha256::digest`. Trusted: the result is the SHA-256 hash of
/// exactly the given bytes, named `sha256`, and is 32 bytes long, as the
/// output type `GenericArray<u8, U32>` fixes. Nothing else is claimed of it.
#[verifier::external_body]
fn sha256_bytes(data: &[u8]) -> (r: Vec<u8>)
    ensures
        r@ == sha256(data@),
        r@.len() == 32,
{
    sha2::Sha256::digest(data).to_vec()
}

/// Lowercase hexadecimal rendering of bytes, two digits per byte.
pub open spec fn hex_lower(bytes: Seq<u8>) -> Seq<char>
    decreases bytes.len(),
{
    if bytes.len() == 0 {
        Seq::empty()
    } else {
        hex_lower(bytes.drop_last()) + seq![
            hex_digit((bytes.last() / 16) as nat),
            hex_digit((bytes.last() % 16) as nat),
        ]
    }
}

/// The digest text `sha256:<64 lowercase hex digits>` of a JSON/text body,
/// hashed as its UTF-8 bytes.
pub open spec fn text_digest(body: Seq<char>) -> Seq<char> {
    sha256_prefix() + hex_lower(sha256(encode_utf8(body)))
}

/// The digest text `sha256:v1:<64 lowercase hex digits>` of a text body.
pub open spec fn text_digest_v1(body: Seq<char>) -> Seq<char> {
    sha256_prefix() + seq!['v', '1', ':'] + hex_lower(sha256(encode_utf8(body)))
}

/// The digest text `sha256:<64 lowercase hex digits>` of raw bytes.
pub open spec fn bytes_digest(bytes: Seq<u8>) -> Seq<char> {
    sha256_prefix() + hex_lower(sha256(bytes))
}

pub proof fn lemma_hex_lower_len(bytes: Seq<u8>)
    ensures
        hex_lower(bytes).len() == 2 * bytes.len(),
    decreases bytes.len(),
{
    if bytes.len() > 0 {
        lemma_hex_lower_len(bytes.drop_last());
    }
}

pub proof fn lemma_hex_lower_is_lower_hex(bytes: Seq<u8>)
    ensures
        all_lower_hex(hex_lower(bytes)),
    decreases bytes.len(),
{
    if bytes.len() > 0 {
        let p = bytes.drop_last();
        lemma_hex_lower_is_lower_hex(p);
        let a = hex_lower(p);
        let b = seq![
            hex_digit((bytes.last() / 16) as nat),
            hex_digit((bytes.last() % 16) as nat),
        ];
        assert forall|i: int| 0 <= i < (a + b).len() implies is_lower_hex(#[trigger] (a + b)[i]) by {
            if i < a.len() {
                assert((a + b)[i] == a[i]);
            }
        }
    }
}

/// Every produced digest text has the canonical lowercase `sha256:` shape.
pub proof fn lemma_bytes_digest_shape(bytes: Seq<u8>)
    requires
        sha256(bytes).len() == 32,
    ensures
        is_lower_sha256_digest(bytes_digest(bytes)),
        is_sha256_digest(bytes_digest(bytes)),
{
    let h = hex_lower(sha256(bytes));
    lemma_hex_lower_len(sha256(bytes));
    lemma_hex_lower_is_lower_hex(sha256(bytes));
    let d = bytes_digest(bytes);
    assert(d.take(7) =~= sha256_prefix());
    assert(d.skip(7) =~= h);
    assert forall|i: int| 0 <= i < d.skip(7).len() implies is_hex(#[trigger] d.skip(7)[i]) by {
        assert(is_lower_hex(h[i]));
    }
}

fn hex_char(d: u8) -> (r: char)
    requires
        d < 16,
    ensures
        r == hex_digit(d as nat),
{
    if d < 10 {
        char_from_ascii((d + 48) as u32)
    } else {
        char_from_ascii((d + 87) as u32)
    }
}

/// Appends the lowercase hex digits of `bytes`.
pub fn push_hex_lower(out: &mut String, bytes: &Vec<u8>)
    ensures
        final(out)@ == old(out)@ + hex_lower(bytes@),
{
    let ghost start = out@;
    let mut i: usize = 0;
    while i < bytes.len()
        invariant
            i <= bytes.len(),
            out@ == start + hex_lower(bytes@.take(i as int)),
        decreases bytes.len() - i,
    {
        let b = bytes[i];
        push_char(out, hex_char(b / 16));
        push_char(out, hex_char(b % 16));
        proof {
            let t = bytes@.take(i + 1);
            assert(t.drop_last() =~= bytes@.take(i as int));
            assert(t.last() == b);
        }
        i = i + 1;
    }
    assert(bytes@.take(bytes@.len() as int) =~= bytes@);
}

/// `sha256:<hex>` of the given bytes.
pub fn digest_bytes(data: &[u8]) -> (r: String)
    ensures
        r@ == bytes_digest(data@),
        is_lower_sha256_digest(r@),
        is_sha256_digest(r@),
{
    let h = sha256_bytes(data);
    let mut out = String::new();
    push_str(&mut out, "sha256:");
    proof {
        reveal_strlit("sha256:");
        assert("sha256:"@ =~= sha256_prefix());
    }
    push_hex_lower(&mut out, &h);
    proof {
        lemma_bytes_digest_shape(data@);
    }
    out
}

/// `sha256:<hex>` of the UTF-8 bytes of a text body.
pub fn digest_text(body: &str) -> (r: String)
    ensures
        r@ == text_digest(body@),
        is_lower_sha256_digest(r@),
{
    digest_bytes(body.as_bytes())
}

/// `sha256:v1:<hex>` of the UTF-8 bytes of a text body.
pub fn digest_text_v1(body: &str) -> (r: String)
    ensures
        r@ == text_digest_v1(body@),
{
    let h = sha256_bytes(body.as_bytes());
    let mut out = String::new();
    push_str(&mut out, "sha256:v1:");
    proof {
        reveal_strlit("sha256:v1:");
        assert("sha256:v1:"@ =~= sha256_prefix() + seq!['v', '1', ':']);
    }
    push_hex_lower(&mut out, &h);
    out
}

} // verus!
