use libsecp256k1::{sign, Message, PublicKey, SecretKey};
use loans_marketplace::attestation::{
    Attestation, AttestationRegistryError, Config, Issuer, IssuerType, SchemaType, MAX_ISSUERS,
    MAX_SCHEMAS,
};
use loans_marketplace::key::AccountKey;

const NOW: i64 = 1_700_000_000;

fn key(b: u8) -> AccountKey {
    AccountKey::new([b; 32])
}

fn admin() -> AccountKey {
    key(1)
}

fn registry() -> Config {
    let mut c = Config::initialize_config(admin(), 1_000);
    c.add_issuer(admin(), key(2), IssuerType::Solana).unwrap();
    c
}

#[test]
fn initialized_registry() {
    let c = Config::initialize_config(admin(), 3_600);
    assert_eq!(c.admin, admin());
    assert_eq!(c.max_expiry_secs, 3_600);
    assert!(!c.paused);
    assert!(c.issuers.is_empty());
    assert_eq!(
        c.schemas,
        vec![
            SchemaType::IdentityVerified,
            SchemaType::Uniqueness,
            SchemaType::SanctionsClear,
            SchemaType::IncomeBand
        ]
    );
}

#[test]
fn issuers_are_added_once_and_only_by_admin() {
    let mut c = registry();
    assert_eq!(c.issuers.len(), 1);
    assert!(c.issuers[0].enabled);
    assert_eq!(
        c.add_issuer(key(9), key(3), IssuerType::Solana),
        Err(AttestationRegistryError::Unauthorized)
    );
    assert_eq!(
        c.add_issuer(admin(), key(2), IssuerType::Ethereum),
        Err(AttestationRegistryError::IssuerAlreadyExists)
    );
    c.set_paused(admin(), true).unwrap();
    assert_eq!(
        c.add_issuer(admin(), key(3), IssuerType::Solana),
        Err(AttestationRegistryError::Paused)
    );
    assert_eq!(c.issuers.len(), 1);
}

#[test]
fn issuer_list_is_bounded() {
    let mut c = Config::initialize_config(admin(), 1_000);
    for i in 0..MAX_ISSUERS {
        c.add_issuer(admin(), key(10 + i as u8), IssuerType::Solana).unwrap();
    }
    assert_eq!(
        c.add_issuer(admin(), key(200), IssuerType::Solana),
        Err(AttestationRegistryError::TooManyIssuers)
    );
}

#[test]
fn issuers_are_disabled_and_removed() {
    let mut c = registry();
    c.add_issuer(admin(), key(3), IssuerType::Ethereum).unwrap();
    c.set_issuer_status(admin(), key(2), false).unwrap();
    assert!(!c.issuers[0].enabled);
    assert_eq!(
        c.set_issuer_status(admin(), key(8), true),
        Err(AttestationRegistryError::IssuerNotFound)
    );
    c.remove_issuer(admin(), key(2)).unwrap();
    assert_eq!(c.issuers.len(), 1);
    assert_eq!(c.issuers[0].pubkey, key(3));
    assert_eq!(c.remove_issuer(admin(), key(2)), Err(AttestationRegistryError::IssuerNotFound));
}

#[test]
fn schemas_are_added_once_and_bounded() {
    let mut c = registry();
    assert_eq!(
        c.add_schema(admin(), SchemaType::Uniqueness),
        Err(AttestationRegistryError::SchemaAlreadyExists)
    );
    c.add_schema(admin(), SchemaType::Custom).unwrap();
    assert_eq!(c.schemas.len(), 5);
    while c.schemas.len() < MAX_SCHEMAS {
        c.schemas.push(SchemaType::Custom);
    }
    assert_eq!(
        c.add_schema(admin(), SchemaType::PlaidIncome),
        Err(AttestationRegistryError::TooManySchemas)
    );
}

#[test]
fn admin_settings() {
    let mut c = registry();
    assert_eq!(c.set_max_expiry(admin(), 0), Err(AttestationRegistryError::InvalidExpiry));
    c.set_max_expiry(admin(), 50).unwrap();
    assert_eq!(c.max_expiry_secs, 50);
    assert_eq!(
        c.set_admin(admin(), AccountKey::new([0u8; 32])),
        Err(AttestationRegistryError::InvalidAdmin)
    );
    c.set_admin(admin(), key(4)).unwrap();
    assert_eq!(c.admin, key(4));
    assert_eq!(c.set_paused(admin(), true), Err(AttestationRegistryError::Unauthorized));
    c.set_paused(key(4), true).unwrap();
    assert_eq!(c.set_max_expiry(key(4), 10), Err(AttestationRegistryError::Paused));
    c.set_paused(key(4), false).unwrap();
    assert!(!c.paused);
}

#[test]
fn solana_issuer_posts_attestation() {
    let c = registry();
    let a = Attestation::post_attestation(
        &c,
        key(2),
        key(5),
        SchemaType::Uniqueness,
        [9u8; 32],
        NOW + 1_000,
        [0u8; 64],
        0,
        [0u8; 65],
        NOW,
    )
    .unwrap();
    assert_eq!(a.subject, key(5));
    assert_eq!(a.issuer, key(2));
    assert_eq!(a.issued_at, NOW);
    assert_eq!(a.expiry_ts, NOW + 1_000);
    assert!(!a.revoked);
}

#[test]
fn posting_checks_in_order() {
    let mut c = registry();
    let post = |c: &Config, issuer: AccountKey, schema: SchemaType, expiry: i64| {
        Attestation::post_attestation(
            c, issuer, key(5), schema, [9u8; 32], expiry, [0u8; 64], 0, [0u8; 65], NOW,
        )
    };
    assert_eq!(
        post(&c, key(3), SchemaType::Uniqueness, NOW + 10).unwrap_err(),
        AttestationRegistryError::IssuerNotFound
    );
    assert_eq!(
        post(&c, key(2), SchemaType::PlaidIncome, NOW + 10).unwrap_err(),
        AttestationRegistryError::SchemaNotAllowed
    );
    assert_eq!(
        post(&c, key(2), SchemaType::Uniqueness, NOW).unwrap_err(),
        AttestationRegistryError::InvalidExpiry
    );
    assert_eq!(
        post(&c, key(2), SchemaType::Uniqueness, NOW + 1_001).unwrap_err(),
        AttestationRegistryError::ExpiryTooFar
    );
    c.set_issuer_status(admin(), key(2), false).unwrap();
    assert_eq!(
        post(&c, key(2), SchemaType::Uniqueness, NOW + 10).unwrap_err(),
        AttestationRegistryError::IssuerDisabled
    );
    c.set_paused(admin(), true).unwrap();
    assert_eq!(
        post(&c, key(2), SchemaType::Uniqueness, NOW + 10).unwrap_err(),
        AttestationRegistryError::Paused
    );
}

#[test]
fn ethereum_issuer_needs_valid_signature() {
    let mut c = registry();
    let sk = SecretKey::parse(&[7u8; 32]).unwrap();
    let pk = PublicKey::from_secret_key(&sk).serialize();
    let mut addr = [0u8; 20];
    addr.copy_from_slice(&pk[1..21]);
    let issuer = Issuer::from_eth_address(addr);
    c.add_issuer(admin(), issuer, IssuerType::Ethereum).unwrap();
    let claim = [4u8; 32];
    let (sig, recid) = sign(&Message::parse(&claim), &sk);
    let id: u8 = recid.into();
    let ok = Attestation::post_attestation(
        &c, issuer, key(5), SchemaType::IdentityVerified, claim, NOW + 100, sig.serialize(), id, pk, NOW,
    );
    assert!(ok.is_ok());
    let mut forged = sig.serialize();
    forged[10] ^= 1;
    let bad = Attestation::post_attestation(
        &c, issuer, key(5), SchemaType::IdentityVerified, claim, NOW + 100, forged, id, pk, NOW,
    );
    assert_eq!(bad.unwrap_err(), AttestationRegistryError::InvalidSignature);
}

#[test]
fn issuer_address_conversions() {
    let mut bytes = [0u8; 32];
    for (i, b) in bytes.iter_mut().enumerate() {
        *b = i as u8;
    }
    let issuer = Issuer { pubkey: AccountKey::new(bytes), issuer_type: IssuerType::Ethereum, enabled: true };
    let addr = issuer.get_eth_address();
    assert_eq!(addr[0], 0);
    assert_eq!(addr[19], 19);
    let back = Issuer::from_eth_address(addr);
    assert_eq!(back.bytes[19], 19);
    assert_eq!(back.bytes[20], 0);
    assert_eq!(back.bytes[31], 0);
    assert_eq!(*issuer.get_solana_pubkey(), AccountKey::new(bytes));
    assert_eq!(Issuer::from_solana_pubkey(key(3)), key(3));
}

#[test]
fn revoke_by_issuer_or_admin_once() {
    let c = registry();
    let mut a = Attestation::post_attestation(
        &c, key(2), key(5), SchemaType::Uniqueness, [9u8; 32], NOW + 10, [0u8; 64], 0, [0u8; 65], NOW,
    )
    .unwrap();
    assert_eq!(a.revoke_attestation(&c, key(5)), Err(AttestationRegistryError::Unauthorized));
    a.revoke_attestation(&c, key(2)).unwrap();
    assert!(a.revoked);
    assert_eq!(a.revoke_attestation(&c, admin()), Err(AttestationRegistryError::AlreadyRevoked));
}

#[test]
fn expiry_updates_are_bounded() {
    let mut c = registry();
    let mut a = Attestation::post_attestation(
        &c, key(2), key(5), SchemaType::Uniqueness, [9u8; 32], NOW + 10, [0u8; 64], 0, [0u8; 65], NOW,
    )
    .unwrap();
    assert_eq!(a.update_expiry(&c, key(6), NOW + 20, NOW), Err(AttestationRegistryError::Unauthorized));
    assert_eq!(a.update_expiry(&c, admin(), NOW, NOW), Err(AttestationRegistryError::InvalidExpiry));
    assert_eq!(a.update_expiry(&c, admin(), NOW + 1_001, NOW), Err(AttestationRegistryError::ExpiryTooFar));
    a.update_expiry(&c, key(2), NOW + 500, NOW).unwrap();
    assert_eq!(a.expiry_ts, NOW + 500);
    c.set_paused(admin(), true).unwrap();
    assert_eq!(a.update_expiry(&c, admin(), NOW + 600, NOW), Err(AttestationRegistryError::Paused));
}
