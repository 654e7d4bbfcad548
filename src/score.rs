//! Credit-score attestations: an administrator names the attestor and its
//! secp256k1 signing key; the attestor posts signed scores about a subject's
//! loan, which the administrator may revoke or extend.
use vstd::prelude::*;
use crate::key::AccountKey;
use crate::signature::{key_matches, secp256k1_recovered, verify_secp256k1_sig};

verus! {

/// Every way a score operation can be rejected.
#[derive(Clone, Copy, Debug, PartialEq, Eq, Structural)]
pub enum ScoreAttestorError {
    UnauthorizedOracle,
    InvalidExpiry,
    InvalidOracleThreshold,
    InvalidMaxStaleness,
    InvalidParam,
    Paused,
    TooManyOracles,
    OracleExists,
    OracleNotFound,
    TooManyModels,
    ModelExists,
    ModelNotFound,
    ModelNotAllowed,
    InsufficientOracleSigners,
    UnauthorizedAttestor,
    InvalidSignature,
    /// The caller is not the administrator.
    Unauthorized,
}

/// The attestor's configuration.
#[derive(Clone, Copy, Debug)]
pub struct Config {
    pub admin: AccountKey,
    pub paused: bool,
    /// The only account allowed to post scores.
    pub attestor: AccountKey,
    /// The uncompressed secp256k1 key that must have signed every score.
    pub secp256k1_pubkey: [u8; 65],
}

/// A signed credit score for one subject and one loan.
#[derive(Clone, Copy, Debug)]
pub struct ScoreAttestation {
    pub subject: AccountKey,
    pub loan: AccountKey,
    pub score: u16,
    pub grade: u8,
    /// Probability of default, in basis points.
    pub pd_bps: u32,
    pub recommended_min_collateral_bps: u16,
    pub attestor: AccountKey,
    pub posted_at: i64,
    pub expiry_ts: i64,
    pub revoked: bool,
}

/// Why an administrative change by `caller` is refused, if it is: only the
/// administrator may make one, and not while paused.
pub open spec fn admin_refusal(c: Config, caller: AccountKey) -> Option<ScoreAttestorError> {
    if caller != c.admin {
        Some(ScoreAttestorError::Unauthorized)
    } else if c.paused {
        Some(ScoreAttestorError::Paused)
    } else {
        None
    }
}

impl Config {
    /// A fresh, unpaused configuration.
    pub fn init_config(admin: AccountKey, attestor: AccountKey, secp256k1_pubkey: [u8; 65]) -> (r:
        Config)
        ensures
            r == (Config { admin, paused: false, attestor, secp256k1_pubkey }),
    {
        Config { admin, paused: false, attestor, secp256k1_pubkey }
    }

    /// Hands the configuration to `new_admin`; only the administrator may, paused or not.
    pub fn set_admin(&mut self, caller: AccountKey, new_admin: AccountKey) -> (r: Result<
        (),
        ScoreAttestorError,
    >)
        ensures
            caller != old(self).admin ==> r == Err::<(), ScoreAttestorError>(
                ScoreAttestorError::Unauthorized,
            ) && *final(self) == *old(self),
            caller == old(self).admin ==> r is Ok && *final(self) == (Config {
                admin: new_admin,
                ..*old(self)
            }),
    {
        if !caller.same(&self.admin) {
            return Err(ScoreAttestorError::Unauthorized);
        }
        self.admin = new_admin;
        Ok(())
    }

    /// Pauses or resumes; only the administrator may, paused or not.
    pub fn set_paused(&mut self, caller: AccountKey, paused: bool) -> (r: Result<(), ScoreAttestorError>)
        ensures
            caller != old(self).admin ==> r == Err::<(), ScoreAttestorError>(
                ScoreAttestorError::Unauthorized,
            ) && *final(self) == *old(self),
            caller == old(self).admin ==> r is Ok && *final(self) == (Config {
                paused,
                ..*old(self)
            }),
    {
        if !caller.same(&self.admin) {
            return Err(ScoreAttestorError::Unauthorized);
        }
        self.paused = paused;
        Ok(())
    }

    /// Names a new attestor. Refused as `admin_refusal` says.
    pub fn set_issuer(&mut self, caller: AccountKey, issuer: AccountKey) -> (r: Result<
        (),
        ScoreAttestorError,
    >)
        ensures
            match admin_refusal(*old(self), caller) {
                Some(e) => r == Err::<(), ScoreAttestorError>(e) && *final(self) == *old(self),
                None => r is Ok && *final(self) == (Config { attestor: issuer, ..*old(self) }),
            },
    {
        if !caller.same(&self.admin) {
            return Err(ScoreAttestorError::Unauthorized);
        }
        if self.paused {
            return Err(ScoreAttestorError::Paused);
        }
        self.attestor = issuer;
        Ok(())
    }

    /// Replaces the signing key scores must carry. Refused as `admin_refusal` says.
    pub fn set_secp256k1_pubkey(&mut self, caller: AccountKey, secp256k1_pubkey: [u8; 65]) -> (r:
        Result<(), ScoreAttestorError>)
        ensures
            match admin_refusal(*old(self), caller) {
                Some(e) => r == Err::<(), ScoreAttestorError>(e) && *final(self) == *old(self),
                None => r is Ok && *final(self) == (Config { secp256k1_pubkey, ..*old(self) }),
            },
    {
        if !caller.same(&self.admin) {
            return Err(ScoreAttestorError::Unauthorized);
        }
        if self.paused {
            return Err(ScoreAttestorError::Paused);
        }
        self.secp256k1_pubkey = secp256k1_pubkey;
        Ok(())
    }
}

impl ScoreAttestation {
    /// The attestor's score for `subject` and `loan`, posted at `now`. The
    /// expiry must lie in the future, the poster must be the configured
    /// attestor, and `message` must be signed with the configured key.
    pub fn post_score_attestation(
        config: &Config,
        attestor: AccountKey,
        subject: AccountKey,
        loan: AccountKey,
        score: u16,
        grade: u8,
        pd_bps: u32,
        recommended_min_collateral_bps: u16,
        expiry_ts: i64,
        message: [u8; 32],
        signature: [u8; 64],
        recover_id: u8,
        now: i64,
    ) -> (r: Result<ScoreAttestation, ScoreAttestorError>)
        ensures
            expiry_ts <= now ==> r == Err::<ScoreAttestation, ScoreAttestorError>(
                ScoreAttestorError::InvalidExpiry,
            ),
            expiry_ts > now && attestor != config.attestor ==> r == Err::<
                ScoreAttestation,
                ScoreAttestorError,
            >(ScoreAttestorError::UnauthorizedAttestor),
            expiry_ts > now && attestor == config.attestor && !key_matches(
                config.secp256k1_pubkey@,
                secp256k1_recovered(message@, recover_id, signature@),
            ) ==> r == Err::<ScoreAttestation, ScoreAttestorError>(
                ScoreAttestorError::InvalidSignature,
            ),
            expiry_ts > now && attestor == config.attestor && key_matches(
                config.secp256k1_pubkey@,
                secp256k1_recovered(message@, recover_id, signature@),
            ) ==> r == Ok::<ScoreAttestation, ScoreAttestorError>(
                ScoreAttestation {
                    subject,
                    loan,
                    score,
                    grade,
                    pd_bps,
                    recommended_min_collateral_bps,
                    attestor: config.attestor,
                    posted_at: now,
                    expiry_ts,
                    revoked: false,
                },
            ),
    {
        if expiry_ts <= now {
            return Err(ScoreAttestorError::InvalidExpiry);
        }
        if !attestor.same(&config.attestor) {
            return Err(ScoreAttestorError::UnauthorizedAttestor);
        }
        if !verify_secp256k1_sig(&config.secp256k1_pubkey, &signature, recover_id, &message) {
            return Err(ScoreAttestorError::InvalidSignature);
        }
        Ok(
            ScoreAttestation {
                subject,
                loan,
                score,
                grade,
                pd_bps,
                recommended_min_collateral_bps,
                attestor: config.attestor,
                posted_at: now,
                expiry_ts,
                revoked: false,
            },
        )
    }

    /// Revokes the score. Refused as `admin_refusal` says.
    pub fn revoke_attestation(&mut self, config: &Config, caller: AccountKey) -> (r: Result<
        (),
        ScoreAttestorError,
    >)
        ensures
            match admin_refusal(*config, caller) {
                Some(e) => r == Err::<(), ScoreAttestorError>(e) && *final(self) == *old(self),
                None => r is Ok && *final(self) == (ScoreAttestation {
                    revoked: true,
                    ..*old(self)
                }),
            },
    {
        if !caller.same(&config.admin) {
            return Err(ScoreAttestorError::Unauthorized);
        }
        if config.paused {
            return Err(ScoreAttestorError::Paused);
        }
        self.revoked = true;
        Ok(())
    }

    /// Moves the score's expiry to `new_expiry_ts`, which must lie after `now`.
    /// Refused as `admin_refusal` says, and with `InvalidExpiry` otherwise.
    pub fn update_attestation_expiry(
        &mut self,
        config: &Config,
        caller: AccountKey,
        new_expiry_ts: i64,
        now: i64,
    ) -> (r: Result<(), ScoreAttestorError>)
        ensures
            match admin_refusal(*config, caller) {
                Some(e) => r == Err::<(), ScoreAttestorError>(e) && *final(self) == *old(self),
                None => if new_expiry_ts <= now {
                    r == Err::<(), ScoreAttestorError>(ScoreAttestorError::InvalidExpiry)
                        && *final(self) == *old(self)
                } else {
                    r is Ok && *final(self) == (ScoreAttestation {
                        expiry_ts: new_expiry_ts,
                        ..*old(self)
                    })
                },
            },
    {
        if !caller.same(&config.admin) {
            return Err(ScoreAttestorError::Unauthorized);
        }
        if config.paused {
            return Err(ScoreAttestorError::Paused);
        }
        if new_expiry_ts <= now {
            return Err(ScoreAttestorError::InvalidExpiry);
        }
        self.expiry_ts = new_expiry_ts;
        Ok(())
    }
}

/// An unsigned score record about a borrower, posted by the oracle.
#[derive(Clone, Copy, Debug)]
pub struct Attestation {
    pub subject: AccountKey,
    pub issuer: AccountKey,
    pub model_id: u32,
    pub version: u16,
    pub credit_score: u16,
    pub grade: u8,
    pub min_collateral_bps: u32,
    pub pd_bps: u32,
    pub timestamp: i64,
    pub expiry_ts: i64,
}

impl Attestation {
    /// The oracle's record about `borrower`, made at `now` under the first model
    /// version. Only the configured attestor may post one (`UnauthorizedOracle`),
    /// and its expiry must lie after `now` (`InvalidExpiry`).
    pub fn post_attestation(
        config: &Config,
        oracle_authority: AccountKey,
        borrower: AccountKey,
        score: u16,
        grade: u8,
        min_collateral_bps: u32,
        pd_bps: u32,
        expiry_ts: i64,
        now: i64,
    ) -> (r: Result<Attestation, ScoreAttestorError>)
        ensures
            oracle_authority != config.attestor ==> r == Err::<Attestation, ScoreAttestorError>(
                ScoreAttestorError::UnauthorizedOracle,
            ),
            oracle_authority == config.attestor && expiry_ts <= now ==> r == Err::<
                Attestation,
                ScoreAttestorError,
            >(ScoreAttestorError::InvalidExpiry),
            oracle_authority == config.attestor && expiry_ts > now ==> r == Ok::<
                Attestation,
                ScoreAttestorError,
            >(
                Attestation {
                    subject: borrower,
                    issuer: oracle_authority,
                    model_id: 1,
                    version: 1,
                    credit_score: score,
                    grade,
                    min_collateral_bps,
                    pd_bps,
                    timestamp: now,
                    expiry_ts,
                },
            ),
    {
        if !oracle_authority.same(&config.attestor) {
            return Err(ScoreAttestorError::UnauthorizedOracle);
        }
        if expiry_ts <= now {
            return Err(ScoreAttestorError::InvalidExpiry);
        }
        Ok(
            Attestation {
                subject: borrower,
                issuer: oracle_authority,
                model_id: 1,
                version: 1,
                credit_score: score,
                grade,
                min_collateral_bps,
                pd_bps,
                timestamp: now,
                expiry_ts,
            },
        )
    }
}

} // verus!
