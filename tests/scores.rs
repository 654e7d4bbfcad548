use libsecp256k1::{sign, Message, PublicKey, SecretKey};
use loans_marketplace::key::AccountKey;
use loans_marketplace::score::{Attestation, Config, ScoreAttestation, ScoreAttestorError};

const NOW: i64 = 1_700_000_000;

fn key(b: u8) -> AccountKey {
    AccountKey::new([b; 32])
}

fn setup() -> (Config, SecretKey) {
    let sk = SecretKey::parse(&[11u8; 32]).unwrap();
    let pk = PublicKey::from_secret_key(&sk).serialize();
    (Config::init_config(key(1), key(2), pk), sk)
}

fn post(c: &Config, sk: &SecretKey, attestor: AccountKey, expiry: i64, tamper: bool) -> Result<ScoreAttestation, ScoreAttestorError> {
    let message = [8u8; 32];
    let (sig, recid) = sign(&Message::parse(&message), sk);
    let mut bytes = sig.serialize();
    if tamper {
        bytes[0] ^= 1;
    }
    ScoreAttestation::post_score_attestation(
        c, attestor, key(5), key(6), 720, 2, 150, 2500, expiry, message, bytes, recid.into(), NOW,
    )
}

#[test]
fn attestor_posts_signed_score() {
    let (c, sk) = setup();
    let s = post(&c, &sk, key(2), NOW + 100, false).unwrap();
    assert_eq!(s.score, 720);
    assert_eq!(s.grade, 2);
    assert_eq!(s.pd_bps, 150);
    assert_eq!(s.recommended_min_collateral_bps, 2500);
    assert_eq!(s.attestor, key(2));
    assert_eq!(s.posted_at, NOW);
    assert!(!s.revoked);
}

#[test]
fn score_posting_failures() {
    let (c, sk) = setup();
    assert_eq!(post(&c, &sk, key(2), NOW, false).unwrap_err(), ScoreAttestorError::InvalidExpiry);
    assert_eq!(post(&c, &sk, key(3), NOW + 100, false).unwrap_err(), ScoreAttestorError::UnauthorizedAttestor);
    assert_eq!(post(&c, &sk, key(2), NOW + 100, true).unwrap_err(), ScoreAttestorError::InvalidSignature);
    let other = SecretKey::parse(&[12u8; 32]).unwrap();
    assert_eq!(post(&c, &other, key(2), NOW + 100, false).unwrap_err(), ScoreAttestorError::InvalidSignature);
}

#[test]
fn admin_changes() {
    let (mut c, _) = setup();
    assert_eq!(c.set_issuer(key(9), key(3)), Err(ScoreAttestorError::Unauthorized));
    c.set_issuer(key(1), key(3)).unwrap();
    assert_eq!(c.attestor, key(3));
    c.set_paused(key(1), true).unwrap();
    assert_eq!(c.set_issuer(key(1), key(4)), Err(ScoreAttestorError::Paused));
    assert_eq!(c.set_secp256k1_pubkey(key(1), [1u8; 65]), Err(ScoreAttestorError::Paused));
    c.set_admin(key(1), key(7)).unwrap();
    assert_eq!(c.admin, key(7));
    assert_eq!(c.set_paused(key(1), false), Err(ScoreAttestorError::Unauthorized));
    c.set_paused(key(7), false).unwrap();
    c.set_secp256k1_pubkey(key(7), [1u8; 65]).unwrap();
    assert_eq!(c.secp256k1_pubkey, [1u8; 65]);
}

#[test]
fn revoke_and_extend_score() {
    let (mut c, sk) = setup();
    let mut s = post(&c, &sk, key(2), NOW + 100, false).unwrap();
    assert_eq!(s.update_attestation_expiry(&c, key(1), NOW, NOW), Err(ScoreAttestorError::InvalidExpiry));
    s.update_attestation_expiry(&c, key(1), NOW + 500, NOW).unwrap();
    assert_eq!(s.expiry_ts, NOW + 500);
    assert_eq!(s.revoke_attestation(&c, key(2)), Err(ScoreAttestorError::Unauthorized));
    c.set_paused(key(1), true).unwrap();
    assert_eq!(s.revoke_attestation(&c, key(1)), Err(ScoreAttestorError::Paused));
    c.set_paused(key(1), false).unwrap();
    s.revoke_attestation(&c, key(1)).unwrap();
    assert!(s.revoked);
}

#[test]
fn oracle_posts_plain_score_record() {
    let (c, _) = setup();
    let a = Attestation::post_attestation(&c, key(2), key(5), 700, 3, 4000, 90, NOW + 10, NOW).unwrap();
    assert_eq!(a.subject, key(5));
    assert_eq!(a.issuer, key(2));
    assert_eq!(a.model_id, 1);
    assert_eq!(a.version, 1);
    assert_eq!(a.credit_score, 700);
    assert_eq!(a.timestamp, NOW);
    assert_eq!(
        Attestation::post_attestation(&c, key(3), key(5), 700, 3, 4000, 90, NOW + 10, NOW).unwrap_err(),
        ScoreAttestorError::UnauthorizedOracle
    );
    assert_eq!(
        Attestation::post_attestation(&c, key(2), key(5), 700, 3, 4000, 90, NOW, NOW).unwrap_err(),
        ScoreAttestorError::InvalidExpiry
    );
}
