//! The keyed digest that webhook signatures are made with.
use vstd::prelude::*;
use hmac::Mac;

verus! {

/// The HMAC-SHA256 tag of `msg` under `key`.
pub uninterp spec fn hmac_sha256_of(key: Seq<u8>, msg: Seq<u8>) -> Seq<u8>;

/// Relies on hmac's `Hmac<Sha256>`: `new_from_slice`, then `update` with
/// `head` and with `tail`, then `finalize` give the tag of the two parts
/// joined, under `key`. `new_from_slice` accepts a key of any
/// length (long keys are hashed first), so its error never arises.
#[verifier::external_body]
pub(crate) fn hmac_sha256(key: &[u8], head: &[u8], tail: &[u8]) -> (r: Vec<u8>)
    ensures
        r@ == hmac_sha256_of(key@, head@ + tail@),
{
    let mut mac = hmac::Hmac::<sha2::Sha256>::new_from_slice(key).expect("HMAC takes keys of any length");
    mac.update(head);
    mac.update(tail);
    mac.finalize().into_bytes().to_vec()
}

} // verus!
