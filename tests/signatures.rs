use libsecp256k1::{sign, Message, PublicKey, SecretKey};
use loans_marketplace::signature::{recovered_key_matches, verify_secp256k1_sig};

fn signed(secret: [u8; 32], hash: [u8; 32]) -> ([u8; 65], [u8; 64], u8) {
    let sk = SecretKey::parse(&secret).unwrap();
    let pk = PublicKey::from_secret_key(&sk).serialize();
    let (sig, recid) = sign(&Message::parse(&hash), &sk);
    (pk, sig.serialize(), recid.into())
}

#[test]
fn valid_signature_is_accepted() {
    let hash = [6u8; 32];
    let (pk, sig, id) = signed([7u8; 32], hash);
    assert!(verify_secp256k1_sig(&pk, &sig, id, &hash));
}

#[test]
fn signature_over_other_message_is_refused() {
    let (pk, sig, id) = signed([7u8; 32], [6u8; 32]);
    assert!(!verify_secp256k1_sig(&pk, &sig, id, &[5u8; 32]));
}

#[test]
fn signature_by_other_key_is_refused() {
    let hash = [6u8; 32];
    let (_, sig, id) = signed([7u8; 32], hash);
    let (other, _, _) = signed([9u8; 32], hash);
    assert!(!verify_secp256k1_sig(&other, &sig, id, &hash));
}

#[test]
fn unrecoverable_signature_is_refused() {
    // a zero signature recovers no key; the expected key is the signature itself
    let sig = [0u8; 64];
    let mut expected = [0u8; 65];
    expected[0] = 4;
    assert!(!verify_secp256k1_sig(&expected, &sig, 0, &[1u8; 32]));
    assert!(!verify_secp256k1_sig(&expected, &sig, 9, &[1u8; 32]));
}

#[test]
fn recovered_key_needs_tag_and_bytes() {
    let key = [3u8; 64];
    let mut expected = [3u8; 65];
    expected[0] = 4;
    assert!(recovered_key_matches(&expected, Some(key)));
    assert!(!recovered_key_matches(&expected, None));
    let mut untagged = expected;
    untagged[0] = 3;
    assert!(!recovered_key_matches(&untagged, Some(key)));
    let mut last_differs = expected;
    last_differs[64] = 2;
    assert!(!recovered_key_matches(&last_differs, Some(key)));
}
