//! A registry of identity attestations: an administrator keeps the list of
//! trusted issuers and of accepted claim schemas; issuers post attestations
//! about subjects, which the issuer or the administrator may revoke or extend.
use vstd::prelude::*;
use vstd::pervasive::VecAdditionalExecFns;
use crate::key::AccountKey;
use crate::signature::{key_matches, secp256k1_recovered, verify_secp256k1_sig};

verus! {

broadcast use vstd::array::group_array_axioms;

/// Every way a registry operation can be rejected.
#[derive(Clone, Copy, Debug, PartialEq, Eq, Structural)]
pub enum AttestationRegistryError {
    Paused,
    IssuerNotFound,
    IssuerAlreadyExists,
    IssuerDisabled,
    TooManyIssuers,
    SchemaNotAllowed,
    SchemaAlreadyExists,
    TooManySchemas,
    InvalidExpiry,
    ExpiryTooFar,
    AlreadyRevoked,
    Unauthorized,
    InvalidAdmin,
    InvalidSignature,
}

/// How an issuer signs its attestations.
#[derive(Clone, Copy, Debug, PartialEq, Eq, Structural)]
pub enum IssuerType {
    /// Ed25519 signatures, checked by the runtime.
    Solana,
    /// ECDSA (secp256k1) signatures, checked by key recovery.
    Ethereum,
}

/// The kinds of claim an attestation can make.
#[derive(Clone, Copy, Debug, PartialEq, Eq, Structural)]
pub enum SchemaType {
    AnonAadhaar,
    ZkPassIdentity,
    Uniqueness,
    CreditKarmaScore,
    PlaidIncome,
    IdentityVerified,
    SanctionsClear,
    IncomeBand,
    Custom,
}

/// A trusted issuer of attestations.
#[derive(Clone, Copy, Debug)]
pub struct Issuer {
    pub pubkey: AccountKey,
    pub issuer_type: IssuerType,
    pub enabled: bool,
}

impl Issuer {
    /// The Ethereum address an Ethereum issuer's key holds: its first 20 bytes.
    pub fn get_eth_address(&self) -> (r: [u8; 20])
        ensures
            r@ == self.pubkey.bytes@.subrange(0, 20),
    {
        let mut addr = [0u8; 20];
        let mut i: usize = 0;
        while i < 20
            invariant
                0 <= i <= 20,
                forall|j: int| 0 <= j < i ==> addr[j] == self.pubkey.bytes[j],
            decreases 20 - i,
        {
            addr[i] = self.pubkey.bytes[i];
            i = i + 1;
        }
        proof {
            assert(addr@ =~= self.pubkey.bytes@.subrange(0, 20));
        }
        addr
    }

    /// The issuer's key as an account key.
    pub fn get_solana_pubkey(&self) -> (r: &AccountKey)
        ensures
            *r == self.pubkey,
    {
        &self.pubkey
    }

    /// The account key standing for an Ethereum address: the address, then 12 zero bytes.
    pub fn from_eth_address(eth_addr: [u8; 20]) -> (r: AccountKey)
        ensures
            r.bytes@ == eth_addr@ + Seq::new(12, |i: int| 0u8),
    {
        let mut bytes = [0u8; 32];
        let mut i: usize = 0;
        while i < 20
            invariant
                0 <= i <= 20,
                forall|j: int| 0 <= j < i ==> bytes[j] == eth_addr[j],
                forall|j: int| 20 <= j < 32 ==> bytes[j] == 0u8,
            decreases 20 - i,
        {
            bytes[i] = eth_addr[i];
            i = i + 1;
        }
        proof {
            assert(bytes@ =~= eth_addr@ + Seq::new(12, |i: int| 0u8));
        }
        AccountKey { bytes }
    }

    /// The account key of a Solana issuer: the key itself.
    pub fn from_solana_pubkey(pubkey: AccountKey) -> (r: AccountKey)
        ensures
            r == pubkey,
    {
        pubkey
    }
}

/// The most issuers the registry holds.
pub const MAX_ISSUERS: usize = 32;

/// The most schemas the registry accepts.
pub const MAX_SCHEMAS: usize = 16;

/// The registry's configuration.
pub struct Config {
    pub admin: AccountKey,
    pub max_expiry_secs: i64,
    pub paused: bool,
    pub issuers: Vec<Issuer>,
    pub schemas: Vec<SchemaType>,
}

/// The registry's configuration, with its lists as sequences.
pub struct ConfigView {
    pub admin: AccountKey,
    pub max_expiry_secs: i64,
    pub paused: bool,
    pub issuers: Seq<Issuer>,
    pub schemas: Seq<SchemaType>,
}

impl View for Config {
    type V = ConfigView;

    open spec fn view(&self) -> ConfigView {
        ConfigView {
            admin: self.admin,
            max_expiry_secs: self.max_expiry_secs,
            paused: self.paused,
            issuers: self.issuers@,
            schemas: self.schemas@,
        }
    }
}

/// Whether `key` is a registered issuer.
pub open spec fn has_issuer(issuers: Seq<Issuer>, key: AccountKey) -> bool {
    exists|i: int| 0 <= i < issuers.len() && issuers[i].pubkey == key
}

/// The position of the first registered issuer with `key`.
pub open spec fn issuer_index(issuers: Seq<Issuer>, key: AccountKey) -> int {
    choose|i: int|
        0 <= i < issuers.len() && issuers[i].pubkey == key && forall|j: int|
            0 <= j < i ==> issuers[j].pubkey != key
}

/// The schemas a fresh registry accepts.
pub open spec fn default_schemas() -> Seq<SchemaType> {
    seq![
        SchemaType::IdentityVerified,
        SchemaType::Uniqueness,
        SchemaType::SanctionsClear,
        SchemaType::IncomeBand,
    ]
}

/// Why an administrative change by `caller` is refused, if it is: only the
/// administrator may make one, and not while the registry is paused.
pub open spec fn admin_refusal(c: ConfigView, caller: AccountKey) -> Option<AttestationRegistryError> {
    if caller != c.admin {
        Some(AttestationRegistryError::Unauthorized)
    } else if c.paused {
        Some(AttestationRegistryError::Paused)
    } else {
        None
    }
}

/// The first issuer with `key`, if any.
fn find_issuer(issuers: &Vec<Issuer>, key: &AccountKey) -> (r: Option<usize>)
    ensures
        match r {
            Some(i) => i < issuers@.len() && i == issuer_index(issuers@, *key) && has_issuer(
                issuers@,
                *key,
            ),
            None => !has_issuer(issuers@, *key),
        },
{
    let mut i: usize = 0;
    while i < issuers.len()
        invariant
            0 <= i <= issuers@.len(),
            forall|j: int| 0 <= j < i ==> issuers@[j].pubkey != *key,
        decreases issuers@.len() - i,
    {
        if issuers[i].pubkey.same(key) {
            proof {
                assert(issuers@[i as int].pubkey == *key);
            }
            return Some(i);
        }
        i = i + 1;
    }
    None
}

/// Whether `schema` is accepted.
fn schema_listed(schemas: &Vec<SchemaType>, schema: SchemaType) -> (r: bool)
    ensures
        r == schemas@.contains(schema),
{
    let mut i: usize = 0;
    while i < schemas.len()
        invariant
            0 <= i <= schemas@.len(),
            forall|j: int| 0 <= j < i ==> schemas@[j] != schema,
        decreases schemas@.len() - i,
    {
        if schemas[i] == schema {
            proof {
                assert(schemas@[i as int] == schema);
            }
            return true;
        }
        i = i + 1;
    }
    false
}

impl Config {
    /// A fresh, unpaused registry run by `admin`, accepting the default schemas.
    pub fn initialize_config(admin: AccountKey, max_expiry_secs: i64) -> (r: Config)
        ensures
            r@ == (ConfigView {
                admin,
                max_expiry_secs,
                paused: false,
                issuers: Seq::empty(),
                schemas: default_schemas(),
            }),
    {
        let mut schemas: Vec<SchemaType> = Vec::new();
        schemas.push(SchemaType::IdentityVerified);
        schemas.push(SchemaType::Uniqueness);
        schemas.push(SchemaType::SanctionsClear);
        schemas.push(SchemaType::IncomeBand);
        let r = Config { admin, max_expiry_secs, paused: false, issuers: Vec::new(), schemas };
        proof {
            assert(r@.issuers =~= Seq::<Issuer>::empty());
            assert(r@.schemas =~= default_schemas());
        }
        r
    }

    /// Registers a new, enabled issuer. Refused as `admin_refusal` says, with
    /// `IssuerAlreadyExists` for a known key, and with `TooManyIssuers` when full.
    pub fn add_issuer(&mut self, caller: AccountKey, issuer: AccountKey, issuer_type: IssuerType) -> (r:
        Result<(), AttestationRegistryError>)
        ensures
            match admin_refusal(old(self)@, caller) {
                Some(e) => r == Err::<(), AttestationRegistryError>(e) && final(self)@ == old(
                    self,
                )@,
                None => if has_issuer(old(self)@.issuers, issuer) {
                    r == Err::<(), AttestationRegistryError>(
                        AttestationRegistryError::IssuerAlreadyExists,
                    ) && final(self)@ == old(self)@
                } else if old(self)@.issuers.len() >= MAX_ISSUERS {
                    r == Err::<(), AttestationRegistryError>(
                        AttestationRegistryError::TooManyIssuers,
                    ) && final(self)@ == old(self)@
                } else {
                    r is Ok && final(self)@ == (ConfigView {
                        issuers: old(self)@.issuers.push(
                            Issuer { pubkey: issuer, issuer_type, enabled: true },
                        ),
                        ..old(self)@
                    })
                },
            },
    {
        if !caller.same(&self.admin) {
            return Err(AttestationRegistryError::Unauthorized);
        }
        if self.paused {
            return Err(AttestationRegistryError::Paused);
        }
        if find_issuer(&self.issuers, &issuer).is_some() {
            return Err(AttestationRegistryError::IssuerAlreadyExists);
        }
        if self.issuers.len() >= MAX_ISSUERS {
            return Err(AttestationRegistryError::TooManyIssuers);
        }
        self.issuers.push(Issuer { pubkey: issuer, issuer_type, enabled: true });
        Ok(())
    }

    /// Removes the first issuer with key `issuer`. Refused as `admin_refusal`
    /// says, and with `IssuerNotFound` for an unknown key.
    pub fn remove_issuer(&mut self, caller: AccountKey, issuer: AccountKey) -> (r: Result<
        (),
        AttestationRegistryError,
    >)
        ensures
            match admin_refusal(old(self)@, caller) {
                Some(e) => r == Err::<(), AttestationRegistryError>(e) && final(self)@ == old(
                    self,
                )@,
                None => if !has_issuer(old(self)@.issuers, issuer) {
                    r == Err::<(), AttestationRegistryError>(
                        AttestationRegistryError::IssuerNotFound,
                    ) && final(self)@ == old(self)@
                } else {
                    r is Ok && final(self)@ == (ConfigView {
                        issuers: old(self)@.issuers.remove(
                            issuer_index(old(self)@.issuers, issuer),
                        ),
                        ..old(self)@
                    })
                },
            },
    {
        if !caller.same(&self.admin) {
            return Err(AttestationRegistryError::Unauthorized);
        }
        if self.paused {
            return Err(AttestationRegistryError::Paused);
        }
        match find_issuer(&self.issuers, &issuer) {
            None => Err(AttestationRegistryError::IssuerNotFound),
            Some(i) => {
                self.issuers.remove(i);
                Ok(())
            },
        }
    }

    /// Enables or disables the first issuer with key `issuer`. Refused as
    /// `admin_refusal` says, and with `IssuerNotFound` for an unknown key.
    pub fn set_issuer_status(&mut self, caller: AccountKey, issuer: AccountKey, enabled: bool) -> (r:
        Result<(), AttestationRegistryError>)
        ensures
            match admin_refusal(old(self)@, caller) {
                Some(e) => r == Err::<(), AttestationRegistryError>(e) && final(self)@ == old(
                    self,
                )@,
                None => if !has_issuer(old(self)@.issuers, issuer) {
                    r == Err::<(), AttestationRegistryError>(
                        AttestationRegistryError::IssuerNotFound,
                    ) && final(self)@ == old(self)@
                } else {
                    let i = issuer_index(old(self)@.issuers, issuer);
                    r is Ok && final(self)@ == (ConfigView {
                        issuers: old(self)@.issuers.update(
                            i,
                            Issuer { enabled, ..old(self)@.issuers[i] },
                        ),
                        ..old(self)@
                    })
                },
            },
    {
        if !caller.same(&self.admin) {
            return Err(AttestationRegistryError::Unauthorized);
        }
        if self.paused {
            return Err(AttestationRegistryError::Paused);
        }
        match find_issuer(&self.issuers, &issuer) {
            None => Err(AttestationRegistryError::IssuerNotFound),
            Some(i) => {
                let mut entry = self.issuers[i];
                entry.enabled = enabled;
                self.issuers.set(i, entry);
                Ok(())
            },
        }
    }

    /// Accepts a new schema. Refused as `admin_refusal` says, with
    /// `SchemaAlreadyExists` for a listed schema, and `TooManySchemas` when full.
    pub fn add_schema(&mut self, caller: AccountKey, schema: SchemaType) -> (r: Result<
        (),
        AttestationRegistryError,
    >)
        ensures
            match admin_refusal(old(self)@, caller) {
                Some(e) => r == Err::<(), AttestationRegistryError>(e) && final(self)@ == old(
                    self,
                )@,
                None => if old(self)@.schemas.contains(schema) {
                    r == Err::<(), AttestationRegistryError>(
                        AttestationRegistryError::SchemaAlreadyExists,
                    ) && final(self)@ == old(self)@
                } else if old(self)@.schemas.len() >= MAX_SCHEMAS {
                    r == Err::<(), AttestationRegistryError>(
                        AttestationRegistryError::TooManySchemas,
                    ) && final(self)@ == old(self)@
                } else {
                    r is Ok && final(self)@ == (ConfigView {
                        schemas: old(self)@.schemas.push(schema),
                        ..old(self)@
                    })
                },
            },
    {
        if !caller.same(&self.admin) {
            return Err(AttestationRegistryError::Unauthorized);
        }
        if self.paused {
            return Err(AttestationRegistryError::Paused);
        }
        if schema_listed(&self.schemas, schema) {
            return Err(AttestationRegistryError::SchemaAlreadyExists);
        }
        if self.schemas.len() >= MAX_SCHEMAS {
            return Err(AttestationRegistryError::TooManySchemas);
        }
        self.schemas.push(schema);
        Ok(())
    }

    /// Sets the longest lifetime of an attestation. Refused as `admin_refusal`
    /// says, and with `InvalidExpiry` for a non-positive value.
    pub fn set_max_expiry(&mut self, caller: AccountKey, max_expiry_secs: i64) -> (r: Result<
        (),
        AttestationRegistryError,
    >)
        ensures
            match admin_refusal(old(self)@, caller) {
                Some(e) => r == Err::<(), AttestationRegistryError>(e) && final(self)@ == old(
                    self,
                )@,
                None => if max_expiry_secs <= 0 {
                    r == Err::<(), AttestationRegistryError>(
                        AttestationRegistryError::InvalidExpiry,
                    ) && final(self)@ == old(self)@
                } else {
                    r is Ok && final(self)@ == (ConfigView { max_expiry_secs, ..old(self)@ })
                },
            },
    {
        if !caller.same(&self.admin) {
            return Err(AttestationRegistryError::Unauthorized);
        }
        if self.paused {
            return Err(AttestationRegistryError::Paused);
        }
        if max_expiry_secs <= 0 {
            return Err(AttestationRegistryError::InvalidExpiry);
        }
        self.max_expiry_secs = max_expiry_secs;
        Ok(())
    }

    /// Pauses or resumes the registry; only the administrator may, paused or not.
    pub fn set_paused(&mut self, caller: AccountKey, paused: bool) -> (r: Result<
        (),
        AttestationRegistryError,
    >)
        ensures
            caller != old(self).admin ==> r == Err::<(), AttestationRegistryError>(
                AttestationRegistryError::Unauthorized,
            ) && final(self)@ == old(self)@,
            caller == old(self).admin ==> r is Ok && final(self)@ == (ConfigView {
                paused,
                ..old(self)@
            }),
    {
        if !caller.same(&self.admin) {
            return Err(AttestationRegistryError::Unauthorized);
        }
        self.paused = paused;
        Ok(())
    }

    /// Hands the registry to `new_admin`. Refused as `admin_refusal` says, and
    /// with `InvalidAdmin` for the all-zero key.
    pub fn set_admin(&mut self, caller: AccountKey, new_admin: AccountKey) -> (r: Result<
        (),
        AttestationRegistryError,
    >)
        ensures
            match admin_refusal(old(self)@, caller) {
                Some(e) => r == Err::<(), AttestationRegistryError>(e) && final(self)@ == old(
                    self,
                )@,
                None => if new_admin.bytes@ == Seq::new(32, |i: int| 0u8) {
                    r == Err::<(), AttestationRegistryError>(
                        AttestationRegistryError::InvalidAdmin,
                    ) && final(self)@ == old(self)@
                } else {
                    r is Ok && final(self)@ == (ConfigView { admin: new_admin, ..old(self)@ })
                },
            },
    {
        if !caller.same(&self.admin) {
            return Err(AttestationRegistryError::Unauthorized);
        }
        if self.paused {
            return Err(AttestationRegistryError::Paused);
        }
        let zero = AccountKey { bytes: [0u8; 32] };
        if new_admin.same(&zero) {
            proof {
                assert(new_admin.bytes@ =~= Seq::new(32, |i: int| 0u8));
            }
            return Err(AttestationRegistryError::InvalidAdmin);
        }
        proof {
            if new_admin.bytes@ == Seq::new(32, |i: int| 0u8) {
                assert(new_admin.bytes =~= zero.bytes);
            }
        }
        self.admin = new_admin;
        Ok(())
    }
}

/// One issuer's claim about one subject.
#[derive(Clone, Copy, Debug)]
pub struct Attestation {
    pub subject: AccountKey,
    pub schema_id: SchemaType,
    /// A commitment to the claim; never the personal data itself.
    pub claim_hash: [u8; 32],
    pub issuer: AccountKey,
    pub issued_at: i64,
    pub expiry_ts: i64,
    pub revoked: bool,
}

/// Why an expiry is refused at time `now`: it must lie in the future, and no
/// further ahead than the registry allows.
pub open spec fn expiry_refusal(c: ConfigView, expiry_ts: i64, now: i64) -> Option<AttestationRegistryError> {
    if expiry_ts <= now {
        Some(AttestationRegistryError::InvalidExpiry)
    } else if expiry_ts > now + c.max_expiry_secs {
        Some(AttestationRegistryError::ExpiryTooFar)
    } else {
        None
    }
}

/// Why an issuer may not post `schema_id` with `expiry_ts` at time `now`, if it
/// may not; the signature is checked after these.
pub open spec fn posting_refusal(
    c: ConfigView,
    issuer: AccountKey,
    schema_id: SchemaType,
    expiry_ts: i64,
    now: i64,
) -> Option<AttestationRegistryError> {
    if c.paused {
        Some(AttestationRegistryError::Paused)
    } else if !has_issuer(c.issuers, issuer) {
        Some(AttestationRegistryError::IssuerNotFound)
    } else if !c.issuers[issuer_index(c.issuers, issuer)].enabled {
        Some(AttestationRegistryError::IssuerDisabled)
    } else if !c.schemas.contains(schema_id) {
        Some(AttestationRegistryError::SchemaNotAllowed)
    } else {
        expiry_refusal(c, expiry_ts, now)
    }
}

fn check_expiry(config: &Config, expiry_ts: i64, now: i64) -> (r: Result<(), AttestationRegistryError>)
    ensures
        match expiry_refusal(config@, expiry_ts, now) {
            Some(e) => r == Err::<(), AttestationRegistryError>(e),
            None => r is Ok,
        },
{
    if expiry_ts <= now {
        return Err(AttestationRegistryError::InvalidExpiry);
    }
    if expiry_ts as i128 > now as i128 + config.max_expiry_secs as i128 {
        return Err(AttestationRegistryError::ExpiryTooFar);
    }
    Ok(())
}

impl Attestation {
    /// An issuer's attestation about `subject`, issued at `now`. An Ethereum
    /// issuer must have signed `claim_hash` with the key `signer_key`;
    /// otherwise the posting fails with `InvalidSignature`.
    pub fn post_attestation(
        config: &Config,
        issuer: AccountKey,
        subject: AccountKey,
        schema_id: SchemaType,
        claim_hash: [u8; 32],
        expiry_ts: i64,
        signature_bytes: [u8; 64],
        recover_id: u8,
        signer_key: [u8; 65],
        now: i64,
    ) -> (r: Result<Attestation, AttestationRegistryError>)
        ensures
            match posting_refusal(config@, issuer, schema_id, expiry_ts, now) {
                Some(e) => r == Err::<Attestation, AttestationRegistryError>(e),
                None => {
                    let entry = config@.issuers[issuer_index(config@.issuers, issuer)];
                    if entry.issuer_type == IssuerType::Ethereum && !key_matches(
                        signer_key@,
                        secp256k1_recovered(claim_hash@, recover_id, signature_bytes@),
                    ) {
                        r == Err::<Attestation, AttestationRegistryError>(
                            AttestationRegistryError::InvalidSignature,
                        )
                    } else {
                        r == Ok::<Attestation, AttestationRegistryError>(
                            Attestation {
                                subject,
                                schema_id,
                                claim_hash,
                                issuer,
                                issued_at: now,
                                expiry_ts,
                                revoked: false,
                            },
                        )
                    }
                },
            },
    {
        if config.paused {
            return Err(AttestationRegistryError::Paused);
        }
        let i = match find_issuer(&config.issuers, &issuer) {
            Some(i) => i,
            None => return Err(AttestationRegistryError::IssuerNotFound),
        };
        let entry = config.issuers[i];
        if !entry.enabled {
            return Err(AttestationRegistryError::IssuerDisabled);
        }
        if !schema_listed(&config.schemas, schema_id) {
            return Err(AttestationRegistryError::SchemaNotAllowed);
        }
        if let Err(e) = check_expiry(config, expiry_ts, now) {
            return Err(e);
        }
        if entry.issuer_type == IssuerType::Ethereum {
            if !verify_secp256k1_sig(&signer_key, &signature_bytes, recover_id, &claim_hash) {
                return Err(AttestationRegistryError::InvalidSignature);
            }
        }
        Ok(
            Attestation {
                subject,
                schema_id,
                claim_hash,
                issuer,
                issued_at: now,
                expiry_ts,
                revoked: false,
            },
        )
    }

    /// Revokes the attestation. Only its issuer or the administrator may, not
    /// while paused, and only once.
    pub fn revoke_attestation(&mut self, config: &Config, signer: AccountKey) -> (r: Result<
        (),
        AttestationRegistryError,
    >)
        ensures
            config.paused ==> r == Err::<(), AttestationRegistryError>(
                AttestationRegistryError::Paused,
            ) && *final(self) == *old(self),
            !config.paused && old(self).revoked ==> r == Err::<(), AttestationRegistryError>(
                AttestationRegistryError::AlreadyRevoked,
            ) && *final(self) == *old(self),
            !config.paused && !old(self).revoked && signer != old(self).issuer && signer
                != config.admin ==> r == Err::<(), AttestationRegistryError>(
                AttestationRegistryError::Unauthorized,
            ) && *final(self) == *old(self),
            !config.paused && !old(self).revoked && (signer == old(self).issuer || signer
                == config.admin) ==> r is Ok && *final(self) == (Attestation {
                revoked: true,
                ..*old(self)
            }),
    {
        if config.paused {
            return Err(AttestationRegistryError::Paused);
        }
        if self.revoked {
            return Err(AttestationRegistryError::AlreadyRevoked);
        }
        if !signer.same(&self.issuer) && !signer.same(&config.admin) {
            return Err(AttestationRegistryError::Unauthorized);
        }
        self.revoked = true;
        Ok(())
    }

    /// Moves the attestation's expiry to `new_expiry_ts`. Only its issuer or
    /// the administrator may, not while paused, and the new expiry must be
    /// acceptable at `now`.
    pub fn update_expiry(
        &mut self,
        config: &Config,
        signer: AccountKey,
        new_expiry_ts: i64,
        now: i64,
    ) -> (r: Result<(), AttestationRegistryError>)
        ensures
            config.paused ==> r == Err::<(), AttestationRegistryError>(
                AttestationRegistryError::Paused,
            ) && *final(self) == *old(self),
            !config.paused && signer != old(self).issuer && signer != config.admin ==> r == Err::<
                (),
                AttestationRegistryError,
            >(AttestationRegistryError::Unauthorized) && *final(self) == *old(self),
            !config.paused && (signer == old(self).issuer || signer == config.admin) ==> match expiry_refusal(
                config@,
                new_expiry_ts,
                now,
            ) {
                Some(e) => r == Err::<(), AttestationRegistryError>(e) && *final(self) == *old(
                    self,
                ),
                None => r is Ok && *final(self) == (Attestation {
                    expiry_ts: new_expiry_ts,
                    ..*old(self)
                }),
            },
    {
        if config.paused {
            return Err(AttestationRegistryError::Paused);
        }
        if !signer.same(&self.issuer) && !signer.same(&config.admin) {
            return Err(AttestationRegistryError::Unauthorized);
        }
        if let Err(e) = check_expiry(config, new_expiry_ts, now) {
            return Err(e);
        }
        self.expiry_ts = new_expiry_ts;
        Ok(())
    }
}

} // verus!
