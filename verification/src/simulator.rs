//! Simulator local trusted-bootstrap establishment: before any network
//! connection, strictly parse the presented assertion, verify it against
//! the paired trust's already-accepted site keys, and require its
//! `BootNonce` to be the current simulated boot's. Only the authenticated
//! Server fingerprint that results may then pin the connection.
use vstd::prelude::*;

use crate::primitives::digest::sha2_sha256;
use crate::primitives::ed25519::ed25519_verify_strict;
use crate::trusted_bootstrap::assertion::{
    assertion_parse, domain_discriminator, header_error, transcript_v1, AssertionParseError,
    BootstrapAssertion,
};
use crate::trusted_bootstrap::boot_nonce::BootNonce;
use crate::trusted_bootstrap::fingerprint::ServerCertFingerprint;
use crate::trusted_bootstrap::fixture::{FixtureAssertionSigner, FixtureSignerError};
use crate::trusted_bootstrap::site_key::{first_key_with_id, AcceptedSiteKeys, SitePublicKey};
use crate::trusted_bootstrap::verify::{verification_result, VerificationError};

verus! {

/// Owns the fixture signing key; only its public key crosses to a
/// [`SimulatedPairedTrust`].
pub struct TrustedBootstrapFixtureIssuer {
    signer: FixtureAssertionSigner,
}

#[derive(Debug)]
pub enum TrustedBootstrapFixtureError {
    /// The fixture site signing key could not be generated.
    KeyGeneration(FixtureSignerError),
}

impl TrustedBootstrapFixtureIssuer {
    /// A fresh random fixture site signing key.
    pub fn generate() -> (res: Result<Self, TrustedBootstrapFixtureError>) {
        match FixtureAssertionSigner::generate() {
            Ok(signer) => Ok(TrustedBootstrapFixtureIssuer { signer }),
            Err(e) => Err(TrustedBootstrapFixtureError::KeyGeneration(e)),
        }
    }

    /// Deterministic construction from a fixed 32-byte seed.
    pub fn from_seed(seed: [u8; 32]) -> (res: Self)
        ensures
            res.spec_public_key() == crate::primitives::ed25519::ed25519_public_key(seed@),
            forall|m: Seq<u8>| #[trigger]
                res.spec_signature(m) == crate::primitives::ed25519::ed25519_sign(seed@, m),
    {
        TrustedBootstrapFixtureIssuer { signer: FixtureAssertionSigner::from_seed(seed) }
    }

    /// The public key of this issuer's signing key.
    pub closed spec fn spec_public_key(&self) -> Seq<u8> {
        self.signer.spec_public_key()
    }

    /// The Ed25519 signature this issuer's key makes over `message`.
    pub closed spec fn spec_signature(&self, message: Seq<u8>) -> Seq<u8> {
        self.signer.spec_signature(message)
    }

    /// The public key a [`SimulatedPairedTrust`] may accept.
    pub fn public_key(&self) -> (res: SitePublicKey)
        ensures
            res@ == self.spec_public_key(),
    {
        self.signer.public_key()
    }

    /// A signed V1 assertion for the given boot nonce and expected Server
    /// fingerprint, under this issuer's own `SiteKeyId`.
    pub fn issue(&self, boot_nonce: BootNonce, server_fingerprint: ServerCertFingerprint) -> (res: BootstrapAssertion)
        ensures
            res@.subrange(0, 133) == transcript_v1(
                boot_nonce@,
                server_fingerprint@,
                sha2_sha256(self.spec_public_key()),
            ),
            header_error(res@) is None,
            res@.subrange(133, 197) == self.spec_signature(res@.subrange(0, 133)),
    {
        let res = self.signer.sign_v1(boot_nonce, server_fingerprint);
        proof {
            BootstrapAssertion::lemma_len(res);
            assert(res@.subrange(2, 35) =~= res@.subrange(0, 133).subrange(2, 35));
            assert(res@.subrange(0, 133).subrange(2, 35) =~= domain_discriminator());
            assert(res@[0] == res@.subrange(0, 133)[0]);
            assert(res@[1] == res@.subrange(0, 133)[1]);
            assert(res@[35] == res@.subrange(0, 133)[35]);
            assert(res@[36] == res@.subrange(0, 133)[36]);
        }
        res
    }
}

/// The simulated agent's paired trust: accepted site public keys only.
pub struct SimulatedPairedTrust {
    accepted: AcceptedSiteKeys,
}

impl View for SimulatedPairedTrust {
    type V = Seq<Seq<u8>>;

    closed spec fn view(&self) -> Seq<Seq<u8>> {
        self.accepted@
    }
}

impl SimulatedPairedTrust {
    pub fn new(accepted_site_public_keys: Vec<SitePublicKey>) -> (res: Self)
        ensures
            res@ == accepted_site_public_keys@.map_values(|k: SitePublicKey| k@),
    {
        SimulatedPairedTrust { accepted: AcceptedSiteKeys::new(accepted_site_public_keys) }
    }

    pub fn single(accepted_site_public_key: SitePublicKey) -> (res: Self)
        ensures
            res@ == seq![accepted_site_public_key@],
    {
        SimulatedPairedTrust { accepted: AcceptedSiteKeys::single(accepted_site_public_key) }
    }
}

/// The signed assertion material presented for one simulated boot, as its
/// wire value.
pub struct SimulatedBootstrapMaterial {
    assertion_carrier: String,
}

impl View for SimulatedBootstrapMaterial {
    type V = Seq<char>;

    closed spec fn view(&self) -> Seq<char> {
        self.assertion_carrier@
    }
}

impl SimulatedBootstrapMaterial {
    pub fn from_assertion(assertion: &BootstrapAssertion) -> (res: Self)
        ensures
            res@ == crate::primitives::base64url::b64url_encode(assertion@),
            header_error(assertion@) is None ==> assertion_parse(res@) == Ok::<Seq<u8>, AssertionParseError>(
                assertion@,
            ),
    {
        SimulatedBootstrapMaterial { assertion_carrier: assertion.to_wire_value() }
    }

    /// An arbitrary carrier, e.g. a corrupted one for negative fixtures.
    pub fn from_wire_value(carrier: String) -> (res: Self)
        ensures
            res@ == carrier@,
    {
        SimulatedBootstrapMaterial { assertion_carrier: carrier }
    }
}

/// Successful local establishment.
pub struct EstablishedTrustedBootstrap {
    boot_nonce: BootNonce,
    server_fingerprint: ServerCertFingerprint,
    assertion_carrier: String,
}

/// The parts of an [`EstablishedTrustedBootstrap`].
pub struct EstablishedView {
    pub boot_nonce: Seq<u8>,
    pub server_fingerprint: Seq<u8>,
    pub assertion_carrier: Seq<char>,
}

impl View for EstablishedTrustedBootstrap {
    type V = EstablishedView;

    closed spec fn view(&self) -> EstablishedView {
        EstablishedView {
            boot_nonce: self.boot_nonce@,
            server_fingerprint: self.server_fingerprint@,
            assertion_carrier: self.assertion_carrier@,
        }
    }
}

impl EstablishedTrustedBootstrap {
    pub fn boot_nonce(&self) -> (res: BootNonce)
        ensures
            res@ == self@.boot_nonce,
    {
        self.boot_nonce
    }

    pub fn server_fingerprint(&self) -> (res: ServerCertFingerprint)
        ensures
            res@ == self@.server_fingerprint,
    {
        self.server_fingerprint
    }

    pub fn assertion_wire_value(&self) -> (res: &str)
        ensures
            res@ == self@.assertion_carrier,
    {
        self.assertion_carrier.as_str()
    }
}

#[derive(Debug, Clone, Copy, PartialEq, Eq)]
pub enum LocalBootstrapError {
    /// The carrier failed strict canonical parsing.
    Malformed(AssertionParseError),
    /// The assertion failed cryptographic verification.
    VerificationFailed(VerificationError),
    /// The verified `BootNonce` is not this simulated boot's.
    NonceMismatch,
}

/// Either the local establishment failed, or the pinned connection after
/// it did (the transport's own description).
#[derive(Debug)]
pub enum ConnectAfterTrustedBootstrapError {
    LocalBootstrap(LocalBootstrapError),
    Transport(String),
}

/// What local establishment yields for the given carrier, accepted keys and
/// expected nonce: parse, then verify, then compare nonces.
pub open spec fn establishment_result(carrier: Seq<char>, accepted: Seq<Seq<u8>>, expected_boot_nonce: Seq<u8>) -> Result<EstablishedView, LocalBootstrapError> {
    match assertion_parse(carrier) {
        Err(e) => Err(LocalBootstrapError::Malformed(e)),
        Ok(bytes) => match verification_result(bytes, accepted) {
            Err(e) => Err(LocalBootstrapError::VerificationFailed(e)),
            Ok(v) => if v.boot_nonce != expected_boot_nonce {
                Err(LocalBootstrapError::NonceMismatch)
            } else {
                Ok(
                    EstablishedView {
                        boot_nonce: v.boot_nonce,
                        server_fingerprint: v.server_fingerprint,
                        assertion_carrier: carrier,
                    },
                )
            },
        },
    }
}

/// Pure, synchronous local establishment; never performs I/O.
pub fn establish_trusted_bootstrap(
    paired_trust: &SimulatedPairedTrust,
    expected_boot_nonce: BootNonce,
    material: &SimulatedBootstrapMaterial,
) -> (res: Result<EstablishedTrustedBootstrap, LocalBootstrapError>)
    ensures
        match res {
            Ok(est) => establishment_result(material@, paired_trust@, expected_boot_nonce@) == Ok::<
                EstablishedView,
                LocalBootstrapError,
            >(est@),
            Err(e) => establishment_result(material@, paired_trust@, expected_boot_nonce@) == Err::<
                EstablishedView,
                LocalBootstrapError,
            >(e),
        },
{
    let assertion = match BootstrapAssertion::parse_wire_value(material.assertion_carrier.as_str()) {
        Ok(a) => a,
        Err(e) => {
            return Err(LocalBootstrapError::Malformed(e));
        },
    };
    let verified = match assertion.verify(&paired_trust.accepted) {
        Ok(v) => v,
        Err(e) => {
            return Err(LocalBootstrapError::VerificationFailed(e));
        },
    };
    if !verified.boot_nonce().same_as(&expected_boot_nonce) {
        return Err(LocalBootstrapError::NonceMismatch);
    }
    Ok(
        EstablishedTrustedBootstrap {
            boot_nonce: verified.boot_nonce(),
            server_fingerprint: verified.server_fingerprint(),
            assertion_carrier: material.assertion_carrier.clone(),
        },
    )
}

/// The local trust gate: establishment succeeds only for a carrier that
/// parses strictly, whose assertion verifies under an accepted site key,
/// and whose `BootNonce` is the expected one; the fingerprint it yields is
/// the one signed in that assertion.
pub proof fn law_local_trust_gate(carrier: Seq<char>, accepted: Seq<Seq<u8>>, expected_boot_nonce: Seq<u8>)
    ensures
        establishment_result(carrier, accepted, expected_boot_nonce) matches Ok(est) ==> {
            &&& assertion_parse(carrier) matches Ok(bytes)
            &&& verification_result(bytes, accepted) is Ok
            &&& est.boot_nonce == expected_boot_nonce
            &&& est.boot_nonce == bytes.subrange(37, 69)
            &&& est.server_fingerprint == bytes.subrange(69, 101)
        },
{
}

/// Material issued for a boot establishes trust for that boot: when the
/// carrier parses to an assertion over the V1 transcript of that boot's
/// nonce, a fingerprint and the issuer's own `SiteKeyId`, and the paired
/// trust selects the issuer's key by that identifier, only the strict
/// signature check decides, and success yields that fingerprint.
pub proof fn law_issued_material_establishes(
    carrier: Seq<char>,
    assertion: Seq<u8>,
    issuer_key: Seq<u8>,
    boot_nonce: Seq<u8>,
    fingerprint: Seq<u8>,
    accepted: Seq<Seq<u8>>,
)
    requires
        assertion_parse(carrier) == Ok::<Seq<u8>, AssertionParseError>(assertion),
        assertion.len() == 197,
        assertion.subrange(0, 133) == transcript_v1(boot_nonce, fingerprint, sha2_sha256(issuer_key)),
        boot_nonce.len() == 32,
        fingerprint.len() == 32,
        sha2_sha256(issuer_key).len() == 32,
        first_key_with_id(accepted, sha2_sha256(issuer_key)) == Some(issuer_key),
    ensures
        establishment_result(carrier, accepted, boot_nonce) == if ed25519_verify_strict(
            issuer_key,
            assertion.subrange(0, 133),
            assertion.subrange(133, 197),
        ) {
            Ok::<EstablishedView, LocalBootstrapError>(
                EstablishedView { boot_nonce, server_fingerprint: fingerprint, assertion_carrier: carrier },
            )
        } else {
            Err::<EstablishedView, LocalBootstrapError>(
                LocalBootstrapError::VerificationFailed(VerificationError::SignatureInvalid),
            )
        },
{
    let transcript = assertion.subrange(0, 133);
    assert(assertion.subrange(37, 69) =~= transcript.subrange(37, 69));
    assert(assertion.subrange(69, 101) =~= transcript.subrange(69, 101));
    assert(assertion.subrange(101, 133) =~= transcript.subrange(101, 133));
    assert(transcript.subrange(37, 69) =~= boot_nonce);
    assert(transcript.subrange(69, 101) =~= fingerprint);
    assert(transcript.subrange(101, 133) =~= sha2_sha256(issuer_key));
}

} // verus!
