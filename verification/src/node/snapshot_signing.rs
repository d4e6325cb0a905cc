//! Signatures of snapshot manifests.
//!
//! A manifest is exported without a signature, then signed with the
//! validator's key. On import its signature is verified against a trusted key.

use vstd::prelude::*;
use vstd::string::*;

use crate::primitives::text::{bytes_eq, join, text_eq};

verus! {

/// Name of the signature scheme.
pub const SNAPSHOT_SCHEME: &'static str = "falcon-512";

/// What a snapshot holds.
#[derive(Debug, Clone)]
pub struct SnapshotManifest {
    /// Version of the format.
    pub version: u32,
    /// Height of the snapshot.
    pub block_height: u64,
    /// Number of entries.
    pub entry_count: u64,
    /// Number of bytes.
    pub total_bytes: u64,
    /// Hash of the contents.
    pub content_hash: Option<[u8; 32]>,
    /// Signature over the manifest.
    pub signature: Option<Vec<u8>>,
    /// Public key of the signer.
    pub signer_public_key: Option<Vec<u8>>,
    /// Name of the signature scheme.
    pub signature_scheme: Option<String>,
    /// Chain of the snapshot.
    pub chain_id: Option<String>,
    /// Epoch of the snapshot.
    pub epoch: Option<u64>,
    /// When the snapshot was made.
    pub created_at_ms: Option<u64>,
    /// Hash of the manifest before this one.
    pub previous_manifest_hash: Option<[u8; 32]>,
}

/// Why a manifest is not accepted.
#[derive(Debug, Clone, PartialEq, Eq)]
pub enum SnapshotSignError {
    /// The manifest has no signature.
    MissingSignature,
    /// The manifest names no signature scheme.
    MissingScheme,
    /// The manifest names no signer.
    MissingPublicKey,
    /// The signature scheme is another one.
    UnsupportedScheme(String),
    /// The signer is not the trusted one.
    UntrustedSigner,
    /// The signature is malformed.
    InvalidSignature(String),
    /// The signature does not verify.
    VerificationFailed(String),
    /// The snapshot could not be read.
    IoError(String),
}

/// A [`SnapshotSignError`] with its text as a sequence of characters.
pub enum SnapshotSignErrorView {
    /// See [`SnapshotSignError::MissingSignature`].
    MissingSignature,
    /// See [`SnapshotSignError::MissingScheme`].
    MissingScheme,
    /// See [`SnapshotSignError::MissingPublicKey`].
    MissingPublicKey,
    /// See [`SnapshotSignError::UnsupportedScheme`].
    UnsupportedScheme(Seq<char>),
    /// See [`SnapshotSignError::UntrustedSigner`].
    UntrustedSigner,
    /// See [`SnapshotSignError::InvalidSignature`].
    InvalidSignature(Seq<char>),
    /// See [`SnapshotSignError::VerificationFailed`].
    VerificationFailed(Seq<char>),
    /// See [`SnapshotSignError::IoError`].
    IoError(Seq<char>),
}

impl View for SnapshotSignError {
    type V = SnapshotSignErrorView;

    open spec fn view(&self) -> SnapshotSignErrorView {
        match self {
            SnapshotSignError::MissingSignature => SnapshotSignErrorView::MissingSignature,
            SnapshotSignError::MissingScheme => SnapshotSignErrorView::MissingScheme,
            SnapshotSignError::MissingPublicKey => SnapshotSignErrorView::MissingPublicKey,
            SnapshotSignError::UnsupportedScheme(m) => {
                SnapshotSignErrorView::UnsupportedScheme(m@)
            },
            SnapshotSignError::UntrustedSigner => SnapshotSignErrorView::UntrustedSigner,
            SnapshotSignError::InvalidSignature(m) => SnapshotSignErrorView::InvalidSignature(m@),
            SnapshotSignError::VerificationFailed(m) => {
                SnapshotSignErrorView::VerificationFailed(m@)
            },
            SnapshotSignError::IoError(m) => SnapshotSignErrorView::IoError(m@),
        }
    }
}

impl SnapshotSignError {
    /// The message of this error.
    pub fn to_string(&self) -> (r: String)
        ensures
            r@ == (match self@ {
                SnapshotSignErrorView::MissingSignature => "manifest has no signature"@,
                SnapshotSignErrorView::MissingScheme => "manifest has no signature scheme"@,
                SnapshotSignErrorView::MissingPublicKey => "manifest has no signer public key"@,
                SnapshotSignErrorView::UnsupportedScheme(m) => {
                    "unsupported signature scheme: "@ + m
                },
                SnapshotSignErrorView::UntrustedSigner => {
                    "signer public key does not match any trusted key"@
                },
                SnapshotSignErrorView::InvalidSignature(m) => "invalid signature encoding: "@ + m,
                SnapshotSignErrorView::VerificationFailed(m) => {
                    "signature verification failed: "@ + m
                },
                SnapshotSignErrorView::IoError(m) => "failed to read snapshot: "@ + m,
            }),
    {
        match self {
            SnapshotSignError::MissingSignature => "manifest has no signature".to_owned(),
            SnapshotSignError::MissingScheme => "manifest has no signature scheme".to_owned(),
            SnapshotSignError::MissingPublicKey => "manifest has no signer public key".to_owned(),
            SnapshotSignError::UnsupportedScheme(m) => join(
                "unsupported signature scheme: ",
                m.as_str(),
            ),
            SnapshotSignError::UntrustedSigner => {
                "signer public key does not match any trusted key".to_owned()
            },
            SnapshotSignError::InvalidSignature(m) => join(
                "invalid signature encoding: ",
                m.as_str(),
            ),
            SnapshotSignError::VerificationFailed(m) => join(
                "signature verification failed: ",
                m.as_str(),
            ),
            SnapshotSignError::IoError(m) => join("failed to read snapshot: ", m.as_str()),
        }
    }
}

/// Whether two manifests agree on everything but the signature.
pub open spec fn same_content(a: SnapshotManifest, b: SnapshotManifest) -> bool {
    &&& a.version == b.version
    &&& a.block_height == b.block_height
    &&& a.entry_count == b.entry_count
    &&& a.total_bytes == b.total_bytes
    &&& a.content_hash == b.content_hash
    &&& a.chain_id == b.chain_id
    &&& a.epoch == b.epoch
    &&& a.created_at_ms == b.created_at_ms
    &&& a.previous_manifest_hash == b.previous_manifest_hash
}

/// Whether a manifest carries `signature`, made by the holder of `public_key`.
pub open spec fn carries(manifest: SnapshotManifest, signature: Seq<u8>, public_key: Seq<u8>) -> bool {
    &&& manifest.signature is Some
    &&& manifest.signature->Some_0@ == signature
    &&& manifest.signer_public_key is Some
    &&& manifest.signer_public_key->Some_0@ == public_key
    &&& manifest.signature_scheme is Some
    &&& manifest.signature_scheme->Some_0@ == SNAPSHOT_SCHEME@
}

/// Whether `payload` are the bytes of a manifest that are signed.
pub open spec fn is_payload<B: Fn(&SnapshotManifest) -> Vec<u8>>(
    signable: B,
    manifest: SnapshotManifest,
    payload: Vec<u8>,
) -> bool {
    signable.ensures((&manifest,), payload)
}

/// Whether `sign` gives `signature` for `payload`.
pub open spec fn signature_made<S: Fn(&Vec<u8>) -> Vec<u8>>(
    sign: S,
    payload: Vec<u8>,
    signature: Vec<u8>,
) -> bool {
    sign.ensures((&payload,), signature)
}

/// Whether `after` is the manifest `before`, signed.
pub open spec fn manifest_signed<
    B: Fn(&SnapshotManifest) -> Vec<u8>,
    S: Fn(&Vec<u8>) -> Vec<u8>,
>(
    after: SnapshotManifest,
    before: SnapshotManifest,
    public_key: Seq<u8>,
    signable: B,
    sign: S,
) -> bool {
    &&& same_content(after, before)
    &&& exists|payload: Vec<u8>, signature: Vec<u8>|
        {
            &&& is_payload(signable, before, payload)
            &&& #[trigger] signature_made(sign, payload, signature)
            &&& carries(after, signature@, public_key)
        }
}

/// Signs a manifest. `signable` gives the bytes of a manifest that are signed,
/// `sign` signs them and `public_key` is the signer's.
pub fn sign_manifest<B: Fn(&SnapshotManifest) -> Vec<u8>, S: Fn(&Vec<u8>) -> Vec<u8>>(
    manifest: &mut SnapshotManifest,
    public_key: &Vec<u8>,
    signable: &B,
    sign: &S,
)
    requires
        forall|m: &SnapshotManifest| #[trigger] signable.requires((m,)),
        forall|p: &Vec<u8>| #[trigger] sign.requires((p,)),
    ensures
        manifest_signed(*final(manifest), *old(manifest), public_key@, *signable, *sign),
{
    let payload = signable(&*manifest);
    assert(is_payload(*signable, *manifest, payload));
    let signature = sign(&payload);
    assert(signature_made(*sign, payload, signature));
    let key = public_key.clone();
    assert(key@ =~= public_key@);
    manifest.signature = Some(signature);
    manifest.signer_public_key = Some(key);
    manifest.signature_scheme = Some(SNAPSHOT_SCHEME.to_owned());
}

/// What the fields of a manifest say against it, for whoever trusts
/// `trusted_key`: it must have a signature under the supported scheme by the
/// trusted signer.
pub open spec fn manifest_fault(manifest: SnapshotManifest, trusted_key: Seq<u8>) -> Option<
    SnapshotSignErrorView,
> {
    if manifest.signature is None {
        Some(SnapshotSignErrorView::MissingSignature)
    } else if manifest.signature_scheme is None {
        Some(SnapshotSignErrorView::MissingScheme)
    } else if manifest.signature_scheme->Some_0@ != SNAPSHOT_SCHEME@ {
        Some(SnapshotSignErrorView::UnsupportedScheme(manifest.signature_scheme->Some_0@))
    } else if manifest.signer_public_key is None {
        Some(SnapshotSignErrorView::MissingPublicKey)
    } else if manifest.signer_public_key->Some_0@ != trusted_key {
        Some(SnapshotSignErrorView::UntrustedSigner)
    } else {
        None
    }
}

/// Whether `read` finds of the signature `bytes` what `form` says: that it is
/// well formed, or why it is not.
pub open spec fn form_checked<R: Fn(&Vec<u8>) -> Result<(), String>>(
    read: R,
    bytes: Vec<u8>,
    form: Result<(), String>,
) -> bool {
    read.ensures((&bytes,), form)
}

/// Whether `verify` finds of the signature over `payload` what `outcome` says.
pub open spec fn signature_verified<V: Fn(&Vec<u8>, &Vec<u8>) -> Result<(), String>>(
    verify: V,
    payload: Vec<u8>,
    signature: Vec<u8>,
    outcome: Result<(), String>,
) -> bool {
    verify.ensures((&payload, &signature), outcome)
}

/// Whether `r` is the judgement of a manifest whose signature is well formed.
pub open spec fn payload_judged<
    B: Fn(&SnapshotManifest) -> Vec<u8>,
    V: Fn(&Vec<u8>, &Vec<u8>) -> Result<(), String>,
>(
    r: Result<(), SnapshotSignError>,
    manifest: SnapshotManifest,
    signable: B,
    verify: V,
) -> bool {
    exists|payload: Vec<u8>, outcome: Result<(), String>|
        {
            &&& is_payload(signable, manifest, payload)
            &&& #[trigger] signature_verified(
                verify,
                payload,
                manifest.signature->Some_0,
                outcome,
            )
            &&& match outcome {
                Err(m) => r is Err && r->Err_0@ == SnapshotSignErrorView::VerificationFailed(m@),
                Ok(()) => r is Ok,
            }
        }
}

/// Whether `r` is the judgement of a manifest by whoever trusts `trusted_key`.
pub open spec fn manifest_judged<
    B: Fn(&SnapshotManifest) -> Vec<u8>,
    R: Fn(&Vec<u8>) -> Result<(), String>,
    V: Fn(&Vec<u8>, &Vec<u8>) -> Result<(), String>,
>(
    r: Result<(), SnapshotSignError>,
    manifest: SnapshotManifest,
    trusted_key: Seq<u8>,
    signable: B,
    read: R,
    verify: V,
) -> bool {
    match manifest_fault(manifest, trusted_key) {
        Some(fault) => r is Err && r->Err_0@ == fault,
        None => exists|form: Result<(), String>|
            {
                &&& #[trigger] form_checked(read, manifest.signature->Some_0, form)
                &&& match form {
                    Err(m) => r is Err && r->Err_0@ == SnapshotSignErrorView::InvalidSignature(m@),
                    Ok(()) => payload_judged(r, manifest, signable, verify),
                }
            },
    }
}

/// Verifies the signature of a manifest against a trusted key. `signable`
/// gives the bytes of a manifest that are signed, `read` checks the form of a
/// signature and `verify` checks a signature over bytes under the trusted key.
pub fn verify_manifest<
    B: Fn(&SnapshotManifest) -> Vec<u8>,
    R: Fn(&Vec<u8>) -> Result<(), String>,
    V: Fn(&Vec<u8>, &Vec<u8>) -> Result<(), String>,
>(
    manifest: &SnapshotManifest,
    trusted_key: &Vec<u8>,
    signable: &B,
    read: &R,
    verify: &V,
) -> (r: Result<(), SnapshotSignError>)
    requires
        forall|m: &SnapshotManifest| #[trigger] signable.requires((m,)),
        forall|bytes: &Vec<u8>| #[trigger] read.requires((bytes,)),
        forall|p: &Vec<u8>, s: &Vec<u8>| #[trigger] verify.requires((p, s)),
    ensures
        manifest_judged(r, *manifest, trusted_key@, *signable, *read, *verify),
{
    let signature = match &manifest.signature {
        Some(signature) => signature,
        None => {
            return Err(SnapshotSignError::MissingSignature);
        },
    };
    let scheme = match &manifest.signature_scheme {
        Some(scheme) => scheme,
        None => {
            return Err(SnapshotSignError::MissingScheme);
        },
    };
    if !text_eq(scheme.as_str(), SNAPSHOT_SCHEME) {
        return Err(SnapshotSignError::UnsupportedScheme(scheme.clone()));
    }
    let public_key = match &manifest.signer_public_key {
        Some(key) => key,
        None => {
            return Err(SnapshotSignError::MissingPublicKey);
        },
    };
    if !bytes_eq(public_key.as_slice(), trusted_key.as_slice()) {
        return Err(SnapshotSignError::UntrustedSigner);
    }
    let form = read(signature);
    assert(form_checked(*read, *signature, form));
    if let Err(m) = form {
        return Err(SnapshotSignError::InvalidSignature(m));
    }
    let payload = signable(manifest);
    assert(is_payload(*signable, *manifest, payload));
    let outcome = verify(&payload, signature);
    assert(signature_verified(*verify, payload, *signature, outcome));
    match outcome {
        Ok(()) => Ok(()),
        Err(m) => Err(SnapshotSignError::VerificationFailed(m)),
    }
}

/// Whether a file was accepted, without its manifest.
pub open spec fn verdict_of(r: Result<SnapshotManifest, SnapshotSignError>) -> Result<
    (),
    SnapshotSignError,
> {
    match r {
        Ok(_) => Ok(()),
        Err(e) => Err(e),
    }
}

/// Verifies the signature of a manifest that was read from a file, and hands
/// the manifest out where it is accepted. `read_manifest` is what the reading
/// gave: the manifest, or why it failed.
pub fn verify_snapshot_file<
    B: Fn(&SnapshotManifest) -> Vec<u8>,
    R: Fn(&Vec<u8>) -> Result<(), String>,
    V: Fn(&Vec<u8>, &Vec<u8>) -> Result<(), String>,
>(
    read_manifest: Result<SnapshotManifest, String>,
    trusted_key: &Vec<u8>,
    signable: &B,
    read: &R,
    verify: &V,
) -> (r: Result<SnapshotManifest, SnapshotSignError>)
    requires
        forall|m: &SnapshotManifest| #[trigger] signable.requires((m,)),
        forall|bytes: &Vec<u8>| #[trigger] read.requires((bytes,)),
        forall|p: &Vec<u8>, s: &Vec<u8>| #[trigger] verify.requires((p, s)),
    ensures
        match read_manifest {
            Err(m) => r is Err && r->Err_0@ == SnapshotSignErrorView::IoError(m@),
            Ok(manifest) => {
                &&& r is Ok ==> r->Ok_0 == manifest
                &&& manifest_judged(
                    verdict_of(r),
                    manifest,
                    trusted_key@,
                    *signable,
                    *read,
                    *verify,
                )
            },
        },
{
    match read_manifest {
        Err(m) => Err(SnapshotSignError::IoError(m)),
        Ok(manifest) => {
            match verify_manifest(&manifest, trusted_key, signable, read, verify) {
                Ok(()) => Ok(manifest),
                Err(e) => Err(e),
            }
        },
    }
}

/// Whether the bytes that are signed depend on the content of a manifest
/// alone.
pub open spec fn signs_content<B: Fn(&SnapshotManifest) -> Vec<u8>>(signable: B) -> bool {
    forall|a: SnapshotManifest, b: SnapshotManifest, p: Vec<u8>, q: Vec<u8>|
        same_content(a, b) && #[trigger] is_payload(signable, a, p) && #[trigger] is_payload(
            signable,
            b,
            q,
        ) ==> p@ == q@
}

/// Whether every signature that `sign` makes is well formed for `read` and
/// verifies for `verify`.
pub open spec fn scheme_is_sound<
    S: Fn(&Vec<u8>) -> Vec<u8>,
    R: Fn(&Vec<u8>) -> Result<(), String>,
    V: Fn(&Vec<u8>, &Vec<u8>) -> Result<(), String>,
>(sign: S, read: R, verify: V) -> bool {
    &&& forall|p: Vec<u8>, s: Vec<u8>, t: Vec<u8>, form: Result<(), String>| #[trigger]
        signature_made(sign, p, s) && s@ == t@ && #[trigger] form_checked(read, t, form)
            ==> form is Ok
    &&& forall|p: Vec<u8>, q: Vec<u8>, s: Vec<u8>, t: Vec<u8>, outcome: Result<(), String>|
        #[trigger] signature_made(sign, p, s) && p@ == q@ && s@ == t@
            && #[trigger] signature_verified(verify, q, t, outcome) ==> outcome is Ok
}

/// A manifest that was signed verifies for whoever trusts the signer, under a
/// sound signature scheme, and is refused by whoever trusts another key.
pub proof fn law_signed_manifests_verify<
    B: Fn(&SnapshotManifest) -> Vec<u8>,
    S: Fn(&Vec<u8>) -> Vec<u8>,
    R: Fn(&Vec<u8>) -> Result<(), String>,
    V: Fn(&Vec<u8>, &Vec<u8>) -> Result<(), String>,
>(
    after: SnapshotManifest,
    before: SnapshotManifest,
    public_key: Seq<u8>,
    trusted_key: Seq<u8>,
    signable: B,
    sign: S,
    read: R,
    verify: V,
    r: Result<(), SnapshotSignError>,
)
    requires
        manifest_signed(after, before, public_key, signable, sign),
        signs_content(signable),
        scheme_is_sound(sign, read, verify),
        manifest_judged(r, after, trusted_key, signable, read, verify),
    ensures
        trusted_key == public_key ==> r is Ok,
        trusted_key != public_key ==> r is Err && r->Err_0@
            == SnapshotSignErrorView::UntrustedSigner,
{
    let (payload, signature) = choose|payload: Vec<u8>, signature: Vec<u8>|
        {
            &&& is_payload(signable, before, payload)
            &&& #[trigger] signature_made(sign, payload, signature)
            &&& carries(after, signature@, public_key)
        };
    if trusted_key == public_key {
        let kept = after.signature->Some_0;
        let form = choose|form: Result<(), String>|
            {
                &&& #[trigger] form_checked(read, kept, form)
                &&& match form {
                    Err(m) => r is Err && r->Err_0@ == SnapshotSignErrorView::InvalidSignature(m@),
                    Ok(()) => payload_judged(r, after, signable, verify),
                }
            };
        assert(form is Ok);
        let (q, outcome) = choose|q: Vec<u8>, outcome: Result<(), String>|
            {
                &&& is_payload(signable, after, q)
                &&& #[trigger] signature_verified(verify, q, kept, outcome)
                &&& match outcome {
                    Err(m) => r is Err && r->Err_0@ == SnapshotSignErrorView::VerificationFailed(
                        m@,
                    ),
                    Ok(()) => r is Ok,
                }
            };
        assert(payload@ == q@);
        assert(outcome is Ok);
    }
}

/// A manifest whose content was changed after it was signed is refused, where
/// its signature does not verify over the changed content.
pub proof fn law_changed_manifests_are_refused<
    B: Fn(&SnapshotManifest) -> Vec<u8>,
    R: Fn(&Vec<u8>) -> Result<(), String>,
    V: Fn(&Vec<u8>, &Vec<u8>) -> Result<(), String>,
>(
    changed: SnapshotManifest,
    trusted_key: Seq<u8>,
    signable: B,
    read: R,
    verify: V,
    r: Result<(), SnapshotSignError>,
)
    requires
        changed.signature is Some,
        forall|q: Vec<u8>, outcome: Result<(), String>|
            is_payload(signable, changed, q) && #[trigger] signature_verified(
                verify,
                q,
                changed.signature->Some_0,
                outcome,
            ) ==> outcome is Err,
        manifest_judged(r, changed, trusted_key, signable, read, verify),
    ensures
        r is Err,
{
}

} // verus!
