use vstd::prelude::*;

verus! {

broadcast use vstd::array::group_array_axioms;

/// The public key that secp256k1 recovery yields for a message hash, a
/// recovery id and a signature: its 64 coordinate bytes, or nothing when
/// recovery fails.
pub uninterp spec fn secp256k1_recovered(hash: Seq<u8>, recovery_id: u8, signature: Seq<u8>) -> Option<Seq<u8>>;

/// Relies on `solana_program::secp256k1_recover::secp256k1_recover`, re-exported
/// by anchor-lang: it recovers the signer's public key from a 32-byte hash, a
/// recovery id and a 64-byte signature, and returns its 64 bytes (the key
/// without the 0x04 tag), or an error; the outcome depends on the arguments alone.
#[verifier::external_body]
#[allow(deprecated)]
fn recover_public_key(hash: &[u8; 32], recovery_id: u8, signature: &[u8; 64]) -> (r: Option<[u8; 64]>)
    ensures
        match r {
            Some(k) => secp256k1_recovered(hash@, recovery_id, signature@) == Some(k@),
            None => secp256k1_recovered(hash@, recovery_id, signature@) is None,
        },
{
    match anchor_lang::solana_program::secp256k1_recover::secp256k1_recover(hash, recovery_id, signature) {
        Ok(k) => Some(k.0),
        Err(_) => None,
    }
}

/// A recovered key in uncompressed form: the 0x04 tag, then its 64 bytes.
pub open spec fn uncompressed(key: Seq<u8>) -> Seq<u8> {
    seq![4u8] + key
}

/// Whether recovery succeeded and gave the expected uncompressed key.
pub open spec fn key_matches(expected: Seq<u8>, recovered: Option<Seq<u8>>) -> bool {
    match recovered {
        Some(k) => uncompressed(k) == expected,
        None => false,
    }
}

/// The view of an optional recovered key.
pub open spec fn recovered_view(recovered: Option<[u8; 64]>) -> Option<Seq<u8>> {
    match recovered {
        Some(k) => Some(k@),
        None => None,
    }
}

/// Whether a recovery outcome is the expected uncompressed key.
pub fn recovered_key_matches(expected: &[u8; 65], recovered: Option<[u8; 64]>) -> (r: bool)
    ensures
        r == key_matches(expected@, recovered_view(recovered)),
{
    match recovered {
        None => false,
        Some(k) => {
            if expected[0] != 4 {
                proof {
                    assert(uncompressed(k@)[0] == 4u8);
                    assert(uncompressed(k@)[0] != expected@[0]);
                }
                return false;
            }
            let mut i: usize = 0;
            while i < 64
                invariant
                    0 <= i <= 64,
                    expected[0] == 4,
                    recovered == Some(k),
                    forall|j: int| 0 <= j < i ==> expected@[j + 1] == k@[j],
                decreases 64 - i,
            {
                if expected[i + 1] != k[i] {
                    proof {
                        assert(uncompressed(k@)[i + 1] == k@[i as int]);
                        assert(uncompressed(k@)[i + 1] != expected@[i + 1]);
                    }
                    return false;
                }
                i = i + 1;
            }
            proof {
                assert(uncompressed(k@) =~= expected@);
            }
            true
        },
    }
}

/// Whether `signature` over `message_hash` was made by the holder of the
/// uncompressed secp256k1 key `expected`.
pub fn verify_secp256k1_sig(
    expected: &[u8; 65],
    signature: &[u8; 64],
    recovery_id: u8,
    message_hash: &[u8; 32],
) -> (r: bool)
    ensures
        r == key_matches(expected@, secp256k1_recovered(message_hash@, recovery_id, signature@)),
{
    let recovered = recover_public_key(message_hash, recovery_id, signature);
    recovered_key_matches(expected, recovered)
}

} // verus!
