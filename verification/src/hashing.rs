//! Hashes and signatures that are computed outside this crate.

use crate::codec::{byte_string, put_byte_string};
use crate::primitives::H256;
use vstd::prelude::*;

verus! {

/// The BLAKE2b digest of 32 bytes of `data`.
pub uninterp spec fn blake2_256(data: Seq<u8>) -> Seq<u8>;

/// The root of the ordered trie of `items`, hashed with BLAKE2b-256 in state
/// version one.
pub uninterp spec fn ordered_trie_root_v1(items: Seq<Seq<u8>>) -> Seq<u8>;

/// Whether `signature` is an sr25519 signature of `message` under the key `public`.
pub uninterp spec fn sr25519_verifies(
    signature: Seq<u8>,
    message: Seq<u8>,
    public: Seq<u8>,
) -> bool;

/// Calls `hash` of `sp_runtime::traits::BlakeTwo256`: the 32-byte BLAKE2b digest of
/// `data`, which depends on `data` alone.
#[verifier::external_body]
fn outside_blake2_256(data: &Vec<u8>) -> (digest: [u8; 32])
    ensures
        digest@ == blake2_256(data@),
{
    <sp_runtime::traits::BlakeTwo256 as sp_runtime::traits::Hash>::hash(data.as_slice()).0
}

/// Calls `ordered_trie_root` of `sp_runtime::traits::BlakeTwo256` with state version
/// one: the 32-byte root of the trie that holds the items under their places, which
/// depends on the items alone.
#[verifier::external_body]
fn outside_ordered_trie_root(items: Vec<Vec<u8>>) -> (root: [u8; 32])
    ensures
        root@ == ordered_trie_root_v1(items.deep_view()),
{
    <sp_runtime::traits::BlakeTwo256 as sp_runtime::traits::Hash>::ordered_trie_root(
        items,
        sp_runtime::StateVersion::V1,
    ).0
}

/// Calls `verify` of `sp_core::sr25519::Pair`: whether the signature is good for the
/// message under the key, which depends on the three byte strings alone. A
/// signature that is not 64 bytes long, or a key that is not 32 bytes long, is what
/// the outside types refuse: the call is then not made, and `sr25519_verifies` stands
/// for the refusal too.
#[verifier::external_body]
fn outside_sr25519_verify(signature: &Vec<u8>, message: &Vec<u8>, public: &Vec<u8>) -> (valid:
    bool)
    ensures
        valid == sr25519_verifies(signature@, message@, public@),
{
    match (
        sp_core::sr25519::Signature::try_from(signature.as_slice()),
        sp_core::sr25519::Public::try_from(public.as_slice()),
    ) {
        (Ok(s), Ok(p)) => <sp_core::sr25519::Pair as sp_core::Pair>::verify(&s, message, &p),
        _ => false,
    }
}

/// The hash of `data`.
pub open spec fn hash_of(data: Seq<u8>) -> H256 {
    H256::of_bytes(blake2_256(data))
}

/// The root over `extrinsics`, each encoded as a byte string behind its length.
pub open spec fn extrinsics_root_of(extrinsics: Seq<Seq<u8>>) -> H256 {
    H256::of_bytes(
        ordered_trie_root_v1(extrinsics.map_values(|xt: Seq<u8>| byte_string(xt))),
    )
}

/// Hashes `data`.
pub fn hash_bytes(data: &Vec<u8>) -> (hash: H256)
    ensures
        hash == hash_of(data@),
{
    let digest = outside_blake2_256(data);
    H256::from_bytes(&digest)
}

/// Computes the root over `extrinsics`, each encoded as a byte string behind its
/// length.
pub fn extrinsics_root(extrinsics: &Vec<Vec<u8>>) -> (root: H256)
    requires
        forall|i: int| 0 <= i < extrinsics@.len() ==> (#[trigger] extrinsics@[i])@.len() <= u32::MAX,
    ensures
        root == extrinsics_root_of(extrinsics.deep_view()),
{
    let mut encoded: Vec<Vec<u8>> = Vec::new();
    let mut i: usize = 0;
    while i < extrinsics.len()
        invariant
            i <= extrinsics@.len(),
            forall|j: int|
                0 <= j < extrinsics@.len() ==> (#[trigger] extrinsics@[j])@.len() <= u32::MAX,
            encoded@.len() == i,
            forall|j: int| 0 <= j < i ==> (#[trigger] encoded@[j])@ == byte_string(extrinsics@[j]@),
        decreases extrinsics@.len() - i,
    {
        let mut item: Vec<u8> = Vec::new();
        put_byte_string(&mut item, &extrinsics[i]);
        assert(Seq::<u8>::empty() + byte_string(extrinsics@[i as int]@) =~= byte_string(
            extrinsics@[i as int]@,
        ));
        encoded.push(item);
        i = i + 1;
    }
    proof {
        let want = extrinsics.deep_view().map_values(|xt: Seq<u8>| byte_string(xt));
        assert(encoded.deep_view().len() == want.len());
        assert forall|j: int| 0 <= j < want.len() implies encoded.deep_view()[j] == want[j] by {
            assert(encoded.deep_view()[j] =~= encoded@[j]@);
            assert(extrinsics.deep_view()[j] =~= extrinsics@[j]@);
        }
        assert(encoded.deep_view() =~= want);
    }
    let digest = outside_ordered_trie_root(encoded);
    H256::from_bytes(&digest)
}

/// Whether `signature` is a signature of `message` under the key `public`.
pub fn signature_verifies(signature: &Vec<u8>, message: &H256, public: &H256) -> (valid: bool)
    ensures
        valid == sr25519_verifies(signature@, message.bytes(), public.bytes()),
{
    let message_bytes = message.to_bytes();
    let public_bytes = public.to_bytes();
    outside_sr25519_verify(signature, &message_bytes, &public_bytes)
}

} // verus!
