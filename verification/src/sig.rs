//! Signature verification for inbound callbacks: an HMAC-SHA1 tag over
//! the raw payload bytes, carried in a header as `sha1=` followed by
//! the tag in hex, and compared in constant time against the tag
//! recomputed under the shared secret.

use vstd::prelude::*;
use vstd::slice::slice_index_get;
use vstd::string::StrSliceExecFns;
use crate::hex::{hex_decode, spec_hex_decode};
use crate::strutil::{spec_starts_with, str_starts_with};
use hmac::{Hmac, KeyInit, Mac};
use sha1::Sha1;

verus! {

/// The HMAC-SHA1 tag of a message under a key.  The tag is a function
/// of the key and the message alone.
pub uninterp spec fn hmac_sha1_of(key: Seq<u8>, msg: Seq<u8>) -> Seq<u8>;

/// Relies on `hmac::Hmac<sha1::Sha1>` (`Mac::update`, `Mac::finalize`):
/// the tag depends on the key and the message alone, and a SHA-1 tag is
/// 20 bytes.  `new_from_slice` accepts a key of any length for HMAC.
#[verifier::external_body]
fn hmac_sha1(key: &[u8], msg: &[u8]) -> (r: Vec<u8>)
    ensures
        r@ == hmac_sha1_of(key@, msg@),
        r@.len() == 20,
{
    let mut mac = <Hmac<Sha1> as KeyInit>::new_from_slice(key)
        .expect("HMAC accepts keys of any length");
    mac.update(msg);
    mac.finalize().into_bytes().as_slice().to_vec()
}

/// Equality of two byte strings, decided in constant time: the number
/// of byte operations depends on the lengths alone, never on where the
/// contents first differ.
pub fn ct_eq(a: &[u8], b: &[u8]) -> (r: bool)
    ensures
        r == (a@ == b@),
{
    let alen = a.len();
    let blen = b.len();
    if alen != blen {
        return false;
    }
    let mut diff: u8 = 0;
    let mut i: usize = 0;
    while i < alen
        invariant
            alen == a@.len(),
            alen == b@.len(),
            i <= alen,
            (diff == 0) <==> (forall|j: int| 0 <= j < i ==> a@[j] == b@[j]),
        decreases alen - i,
    {
        let x = *slice_index_get(a, i);
        let y = *slice_index_get(b, i);
        proof {
            assert(((x ^ y) == 0) == (x == y)) by (bit_vector);
            assert(((diff | (x ^ y)) == 0) == (diff == 0 && (x ^ y) == 0)) by (bit_vector);
        }
        diff = diff | (x ^ y);
        i = i + 1;
    }
    if diff == 0 {
        proof {
            assert(a@ =~= b@);
        }
        true
    } else {
        false
    }
}

/// The signature header vouches for the message under the secret: it
/// is `sha1=` followed by a hex encoding of the HMAC-SHA1 tag of the
/// message under the secret.
pub open spec fn spec_signature_ok(secret: Seq<u8>, msg: Seq<u8>, header: Seq<char>) -> bool {
    spec_starts_with(header, "sha1="@) && spec_hex_decode(header.skip("sha1="@.len() as int))
        == Some(hmac_sha1_of(secret, msg))
}

/// Check a signature header against the tag recomputed from the raw
/// message bytes under the shared secret.
pub fn signature_ok(secret: &[u8], msg: &[u8], header: &str) -> (r: bool)
    ensures
        r == spec_signature_ok(secret@, msg@, header@),
{
    proof {
        reveal_strlit("sha1=");
        assert("sha1="@.len() == 5);
    }
    if !str_starts_with(header, "sha1=") {
        return false;
    }
    let n = header.unicode_len();
    let hexpart = header.substring_char(5, n);
    proof {
        assert(hexpart@ =~= header@.skip(5));
    }
    match hex_decode(hexpart) {
        Some(tag) => {
            let mac = hmac_sha1(secret, msg);
            ct_eq(tag.as_slice(), mac.as_slice())
        },
        None => false,
    }
}

} // verus!
