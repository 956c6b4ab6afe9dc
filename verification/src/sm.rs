//! SM2 signing, verification and address derivation over byte buffers.
//!
//! A signature blob is 128 bytes: `r` (32 bytes) ‖ `s` (32 bytes) ‖ the
//! signer's uncompressed public key (64 bytes). Embedding the public key
//! makes the blob self-certifying: verification needs only the expected
//! 20-byte address, the trailing bytes of the SM3 digest of the public key.
//!
//! The elliptic-curve and hash primitives are outside collaborators; the
//! contracts here speak of their results through uninterpreted functions.

use vstd::prelude::*;
use vstd::slice::{slice_index_get, slice_subrange, slice_to_vec};

verus! {

/// Wire length of a signature blob: r (32) ‖ s (32) ‖ public key (64).
pub const SM2_SIGNATURE_BYTES_LEN: usize = 128;

/// Length of an uncompressed public key: two 32-byte big-endian coordinates.
pub const SM2_PUBLIC_KEY_LEN: usize = 64;

/// Length of an SM3 digest.
pub const HASH_BYTES_LEN: usize = 32;

/// Length of an address: the trailing 20 bytes of the digest of a public key.
pub const ADDR_BYTES_LEN: usize = 20;

/// Failures of the signature and address engine. Every operation returns one
/// of these to the caller; nothing here retries or panics.
#[derive(Debug, Clone, Copy, PartialEq, Eq, Structural)]
pub enum SmError {
    /// The elliptic-curve primitive rejected the private scalar.
    InvalidPrivateKey,
    /// A public key handed to address derivation was not 64 bytes.
    InvalidInputLength,
    /// A signature blob was not exactly 128 bytes.
    InvalidSignatureLength,
    /// The elliptic-curve primitive rejected the (r, s) pair for the
    /// embedded public key and message.
    SignatureVerificationFailed,
    /// The signature is cryptographically valid but its embedded public key
    /// hashes to a different address than the caller expected.
    AddressMismatch,
    /// The elliptic-curve primitive failed to produce a signature for a
    /// well-formed private key.
    SigningFailed,
}

/// The SM3 digest of a byte sequence, as the hash primitive computes it.
pub uninterp spec fn sm3_of(input: Seq<u8>) -> Seq<u8>;

/// The public key the elliptic-curve primitive derives from a private
/// scalar, or nothing when it rejects the scalar.
pub uninterp spec fn sm2_public_key_of(private_key: Seq<u8>) -> Option<Seq<u8>>;

/// Whether the elliptic-curve primitive's verification chain accepts the
/// pair (r, s) as a signature over a message under a public key.
pub uninterp spec fn sm2_accepts(r: Seq<u8>, s: Seq<u8>, public_key: Seq<u8>, message: Seq<u8>) -> bool;

/// The address derived from a public key: the trailing 20 bytes of its SM3
/// digest.
pub open spec fn spec_address_of(public_key: Seq<u8>) -> Seq<u8> {
    sm3_of(public_key).subrange(12, 32)
}

/// The big-endian encoding of the order of the SM2 base point.
pub open spec fn spec_order_bytes() -> Seq<u8> {
    seq![
        0xffu8, 0xff, 0xff, 0xfe, 0xff, 0xff, 0xff, 0xff,
        0xff, 0xff, 0xff, 0xff, 0xff, 0xff, 0xff, 0xff,
        0x72, 0x03, 0xdf, 0x6b, 0x21, 0xc6, 0x05, 0x2b,
        0x53, 0xbb, 0xf4, 0x09, 0x39, 0xd5, 0x41, 0x23,
    ]
}

/// The big-endian encoding of the order minus one.
pub open spec fn spec_order_minus_one_bytes() -> Seq<u8> {
    seq![
        0xffu8, 0xff, 0xff, 0xfe, 0xff, 0xff, 0xff, 0xff,
        0xff, 0xff, 0xff, 0xff, 0xff, 0xff, 0xff, 0xff,
        0x72, 0x03, 0xdf, 0x6b, 0x21, 0xc6, 0x05, 0x2b,
        0x53, 0xbb, 0xf4, 0x09, 0x39, 0xd5, 0x41, 0x22,
    ]
}

/// A private-key encoding whose scalar is zero modulo the group order: all
/// zero bytes (the primitive parses at most 32 of them), or exactly the
/// order itself. No public point belongs to such a scalar.
pub open spec fn spec_zero_scalar(k: Seq<u8>) -> bool {
    (forall|i: int| 0 <= i < k.len() ==> k[i] == 0) || k == spec_order_bytes()
}

/// A private-key encoding the signing primitive cannot use: zero modulo the
/// order, or congruent to order minus one, whose signing denominator d + 1
/// vanishes.
pub open spec fn spec_unsignable_scalar(k: Seq<u8>) -> bool {
    spec_zero_scalar(k) || k == spec_order_minus_one_bytes()
}

/// What recovery returns for a signature blob and a message: the address of
/// the embedded public key, or the error naming the first check that failed.
pub open spec fn spec_recover(signature: Seq<u8>, message: Seq<u8>) -> Result<Seq<u8>, SmError> {
    if signature.len() != SM2_SIGNATURE_BYTES_LEN {
        Err(SmError::InvalidSignatureLength)
    } else if !sm2_accepts(
        signature.subrange(0, 32),
        signature.subrange(32, 64),
        signature.subrange(64, 128),
        message,
    ) {
        Err(SmError::SignatureVerificationFailed)
    } else {
        Ok(spec_address_of(signature.subrange(64, 128)))
    }
}

/// What verification returns: recovery, then a comparison of the recovered
/// address against the expected one.
pub open spec fn spec_verify(address: Seq<u8>, signature: Seq<u8>, message: Seq<u8>) -> Result<(), SmError> {
    match spec_recover(signature, message) {
        Err(e) => Err(e),
        Ok(recovered) => if recovered != address {
            Err(SmError::AddressMismatch)
        } else {
            Ok(())
        },
    }
}

/// Relies on libsm::sm3::hash::Sm3Hash (`new`, `get_hash`): the 32-byte SM3
/// digest, a function of the input bytes alone.
#[verifier::external_body]
fn sm3_hash(input: &[u8]) -> (digest: Vec<u8>)
    ensures
        digest@ == sm3_of(input@),
        digest@.len() == HASH_BYTES_LEN,
{
    libsm::sm3::hash::Sm3Hash::new(input).get_hash().to_vec()
}

/// Relies on efficient_sm2::KeyPair::new and PublicKey::bytes_less_safe: the
/// key pair built from a private scalar is a function of the scalar alone,
/// and its public key is encoded as one tag byte followed by the 64
/// coordinate bytes. A scalar that is zero modulo the order is excluded by
/// the caller: the primitive asserts, rather than reports, that its point
/// has no affine form.
#[verifier::external_body]
fn sm2_derive_public_key(private_key: &[u8]) -> (r: Option<Vec<u8>>)
    requires
        !spec_zero_scalar(private_key@),
    ensures
        match r {
            Some(pk) => sm2_public_key_of(private_key@) == Some(pk@)
                && pk@.len() == SM2_PUBLIC_KEY_LEN,
            None => sm2_public_key_of(private_key@) is None,
        },
{
    match efficient_sm2::KeyPair::new(private_key) {
        Ok(key_pair) => Some(key_pair.public_key().bytes_less_safe()[1..].to_vec()),
        Err(_) => None,
    }
}

/// How one attempt of the signing primitive ended.
enum Sm2SignOutcome {
    /// The primitive produced the scalars r and s.
    Signed(Vec<u8>, Vec<u8>),
    /// The primitive rejected the private scalar.
    RejectedKey,
    /// The key was accepted but no signature came back.
    Failed,
}

/// Relies on efficient_sm2::KeyPair::new, KeyPair::sign and
/// Signature::verify: the key pair is rejected exactly when key derivation
/// rejects the scalar, and a signature is handed out only after the
/// primitive's own verification chain has accepted it under the signer's
/// public key. The re-check is needed for exactness: signing reduces the
/// ephemeral x-coordinate modulo the group order while verification compares
/// in the base field, so a rare draw (about one in 2^97) signs a blob the
/// chain rejects — such a draw is reported as a failure. Signing draws
/// randomness, so nothing relates two outcomes on the same input. The caller
/// excludes the scalars the primitive asserts on instead of reporting: zero
/// modulo the order (no public point) and order minus one (the inverted
/// d + 1 vanishes).
#[verifier::external_body]
fn sm2_sign(private_key: &[u8], message: &[u8]) -> (outcome: Sm2SignOutcome)
    requires
        !spec_unsignable_scalar(private_key@),
    ensures
        match outcome {
            Sm2SignOutcome::Signed(r, s) => {
                &&& r@.len() == 32
                &&& s@.len() == 32
                &&& sm2_public_key_of(private_key@) is Some
                &&& sm2_accepts(r@, s@, sm2_public_key_of(private_key@)->Some_0, message@)
            },
            Sm2SignOutcome::RejectedKey => sm2_public_key_of(private_key@) is None,
            Sm2SignOutcome::Failed => sm2_public_key_of(private_key@) is Some,
        },
{
    match efficient_sm2::KeyPair::new(private_key) {
        Ok(key_pair) => match key_pair.sign(message) {
            Ok(sig) => {
                if sig.verify(&key_pair.public_key(), message).is_ok() {
                    Sm2SignOutcome::Signed(sig.r().to_vec(), sig.s().to_vec())
                } else {
                    Sm2SignOutcome::Failed
                }
            },
            Err(_) => Sm2SignOutcome::Failed,
        },
        Err(_) => Sm2SignOutcome::RejectedKey,
    }
}

/// Relies on efficient_sm2::PublicKey::new, Signature::new and
/// Signature::verify: the outcome of the verification chain is a function of
/// (r, s, public key, message) alone; an (r, s) pair whose encoding the
/// primitive rejects counts as a rejected triple.
#[verifier::external_body]
fn sm2_verify_signature(r: &[u8], s: &[u8], public_key: &[u8], message: &[u8]) -> (accepted: bool)
    requires
        r@.len() == 32,
        s@.len() == 32,
        public_key@.len() == SM2_PUBLIC_KEY_LEN,
    ensures
        accepted == sm2_accepts(r@, s@, public_key@, message@),
{
    let pk = efficient_sm2::PublicKey::new(&public_key[..32], &public_key[32..]);
    match efficient_sm2::Signature::new(r, s) {
        Ok(sig) => sig.verify(&pk, message).is_ok(),
        Err(_) => false,
    }
}

/// The order of the base point, big-endian.
fn order_bytes() -> (v: Vec<u8>)
    ensures
        v@ == spec_order_bytes(),
{
    let v: Vec<u8> = vec![
        0xffu8, 0xff, 0xff, 0xfe, 0xff, 0xff, 0xff, 0xff,
        0xff, 0xff, 0xff, 0xff, 0xff, 0xff, 0xff, 0xff,
        0x72, 0x03, 0xdf, 0x6b, 0x21, 0xc6, 0x05, 0x2b,
        0x53, 0xbb, 0xf4, 0x09, 0x39, 0xd5, 0x41, 0x23,
    ];
    proof {
        assert(v@ =~= spec_order_bytes());
    }
    v
}

/// The order of the base point minus one, big-endian.
fn order_minus_one_bytes() -> (v: Vec<u8>)
    ensures
        v@ == spec_order_minus_one_bytes(),
{
    let v: Vec<u8> = vec![
        0xffu8, 0xff, 0xff, 0xfe, 0xff, 0xff, 0xff, 0xff,
        0xff, 0xff, 0xff, 0xff, 0xff, 0xff, 0xff, 0xff,
        0x72, 0x03, 0xdf, 0x6b, 0x21, 0xc6, 0x05, 0x2b,
        0x53, 0xbb, 0xf4, 0x09, 0x39, 0xd5, 0x41, 0x22,
    ];
    proof {
        assert(v@ =~= spec_order_minus_one_bytes());
    }
    v
}

/// Whether a private-key encoding is zero modulo the group order.
fn is_zero_scalar(k: &[u8]) -> (b: bool)
    ensures
        b == spec_zero_scalar(k@),
{
    let order = order_bytes();
    if bytes_equal(k, order.as_slice()) {
        return true;
    }
    for i in 0..k.len()
        invariant
            k@ != spec_order_bytes(),
            forall|j: int| 0 <= j < i ==> k@[j] == 0,
    {
        if *slice_index_get(k, i) != 0 {
            return false;
        }
    }
    true
}

/// Whether a private-key encoding is one the signing primitive cannot use.
fn is_unsignable_scalar(k: &[u8]) -> (b: bool)
    ensures
        b == spec_unsignable_scalar(k@),
{
    if is_zero_scalar(k) {
        return true;
    }
    let near_order = order_minus_one_bytes();
    bytes_equal(k, near_order.as_slice())
}

/// Derives the 64-byte public key belonging to a private scalar. A scalar
/// that is zero modulo the group order, or that the primitive rejects, gives
/// `InvalidPrivateKey`.
pub fn private_key_to_public_key(private_key: &[u8]) -> (r: Result<Vec<u8>, SmError>)
    ensures
        match r {
            Ok(pk) => !spec_zero_scalar(private_key@)
                && sm2_public_key_of(private_key@) == Some(pk@)
                && pk@.len() == SM2_PUBLIC_KEY_LEN,
            Err(e) => e == SmError::InvalidPrivateKey
                && (spec_zero_scalar(private_key@) || sm2_public_key_of(private_key@) is None),
        },
{
    if is_zero_scalar(private_key) {
        return Err(SmError::InvalidPrivateKey);
    }
    match sm2_derive_public_key(private_key) {
        Some(pk) => Ok(pk),
        None => Err(SmError::InvalidPrivateKey),
    }
}

/// Derives the 20-byte address of a 64-byte public key: the trailing bytes
/// of its SM3 digest.
pub fn pk2address(pk: &[u8]) -> (r: Result<Vec<u8>, SmError>)
    ensures
        match r {
            Ok(addr) => pk@.len() == SM2_PUBLIC_KEY_LEN
                && addr@ == spec_address_of(pk@)
                && addr@.len() == ADDR_BYTES_LEN,
            Err(e) => pk@.len() != SM2_PUBLIC_KEY_LEN
                && e == SmError::InvalidInputLength,
        },
{
    if pk.len() != SM2_PUBLIC_KEY_LEN {
        return Err(SmError::InvalidInputLength);
    }
    let digest = sm3_hash(pk);
    let addr = slice_to_vec(slice_subrange(digest.as_slice(), 12, 32));
    Ok(addr)
}

/// Whether two byte slices hold the same bytes.
fn bytes_equal(a: &[u8], b: &[u8]) -> (eq: bool)
    ensures
        eq == (a@ == b@),
{
    if a.len() != b.len() {
        return false;
    }
    for i in 0..a.len()
        invariant
            a@.len() == b@.len(),
            forall|j: int| 0 <= j < i ==> a@[j] == b@[j],
    {
        if *slice_index_get(a, i) != *slice_index_get(b, i) {
            return false;
        }
    }
    assert(a@ =~= b@);
    true
}

/// Bundles (r, s, public key) into the 128-byte wire blob, a plain
/// concatenation.
pub fn encode(r: &[u8], s: &[u8], public_key: &[u8]) -> (signature: Vec<u8>)
    requires
        r@.len() == 32,
        s@.len() == 32,
        public_key@.len() == SM2_PUBLIC_KEY_LEN,
    ensures
        signature@ == r@ + s@ + public_key@,
        signature@.len() == SM2_SIGNATURE_BYTES_LEN,
{
    let mut signature = slice_to_vec(r);
    let mut middle = slice_to_vec(s);
    signature.append(&mut middle);
    let mut tail = slice_to_vec(public_key);
    signature.append(&mut tail);
    assert(signature@ =~= r@ + s@ + public_key@);
    signature
}

/// Splits a 128-byte wire blob back into (r, s, public key): the slices at
/// offsets 0, 32 and 64.
pub fn decode(signature: &[u8]) -> (parts: Result<(Vec<u8>, Vec<u8>, Vec<u8>), SmError>)
    ensures
        match parts {
            Ok(p) => signature@.len() == SM2_SIGNATURE_BYTES_LEN
                && p.0@ == signature@.subrange(0, 32)
                && p.1@ == signature@.subrange(32, 64)
                && p.2@ == signature@.subrange(64, 128),
            Err(e) => signature@.len() != SM2_SIGNATURE_BYTES_LEN
                && e == SmError::InvalidSignatureLength,
        },
{
    if signature.len() != SM2_SIGNATURE_BYTES_LEN {
        return Err(SmError::InvalidSignatureLength);
    }
    let r = slice_to_vec(slice_subrange(signature, 0, 32));
    let s = slice_to_vec(slice_subrange(signature, 32, 64));
    let public_key = slice_to_vec(slice_subrange(signature, 64, 128));
    Ok((r, s, public_key))
}

/// Signs a message and bundles the result with the caller's public key into
/// the self-certifying wire blob. The caller guarantees that `pubkey`
/// belongs to `privkey`; the engine does not re-derive it, so a mismatched
/// pair yields a blob that fails verification later rather than an error
/// here.
pub fn sign(pubkey: &[u8], privkey: &[u8], msg: &[u8]) -> (r: Result<Vec<u8>, SmError>)
    requires
        pubkey@.len() == SM2_PUBLIC_KEY_LEN,
    ensures
        match r {
            Ok(sig) => {
                &&& sig@.len() == SM2_SIGNATURE_BYTES_LEN
                &&& sig@.subrange(64, 128) == pubkey@
                &&& sm2_public_key_of(privkey@) is Some
                &&& sm2_accepts(
                    sig@.subrange(0, 32),
                    sig@.subrange(32, 64),
                    sm2_public_key_of(privkey@)->Some_0,
                    msg@,
                )
            },
            Err(SmError::InvalidPrivateKey) => spec_unsignable_scalar(privkey@)
                || sm2_public_key_of(privkey@) is None,
            Err(SmError::SigningFailed) => sm2_public_key_of(privkey@) is Some,
            Err(_) => false,
        },
        spec_unsignable_scalar(privkey@) ==> r == Err::<Vec<u8>, SmError>(
            SmError::InvalidPrivateKey,
        ),
{
    if is_unsignable_scalar(privkey) {
        return Err(SmError::InvalidPrivateKey);
    }
    match sm2_sign(privkey, msg) {
        Sm2SignOutcome::Signed(r, s) => {
            let sig = encode(r.as_slice(), s.as_slice(), pubkey);
            proof {
                lemma_codec_round_trip(r@, s@, pubkey@);
            }
            Ok(sig)
        },
        Sm2SignOutcome::RejectedKey => Err(SmError::InvalidPrivateKey),
        Sm2SignOutcome::Failed => Err(SmError::SigningFailed),
    }
}

/// Extracts the embedded public key from a signature blob, checks (r, s)
/// against it cryptographically, and returns the address the key hashes to.
/// No public-key recovery mathematics is involved: the key travels inside
/// the blob.
pub fn recover(signature: &[u8], message: &[u8]) -> (r: Result<Vec<u8>, SmError>)
    ensures
        match r {
            Ok(addr) => spec_recover(signature@, message@) == Ok::<Seq<u8>, SmError>(addr@)
                && addr@.len() == ADDR_BYTES_LEN,
            Err(e) => spec_recover(signature@, message@) == Err::<Seq<u8>, SmError>(e),
        },
{
    let (r, s, public_key) = match decode(signature) {
        Ok(parts) => parts,
        Err(e) => {
            return Err(e);
        },
    };
    if !sm2_verify_signature(r.as_slice(), s.as_slice(), public_key.as_slice(), message) {
        return Err(SmError::SignatureVerificationFailed);
    }
    match pk2address(public_key.as_slice()) {
        Ok(addr) => Ok(addr),
        // The embedded key is a 64-byte slice of the blob, so derivation
        // cannot reject its length.
        Err(_) => unreached(),
    }
}

/// Authenticates a message against an expected 20-byte address: the blob
/// must be well-formed, its (r, s) must pass the cryptographic check under
/// the embedded public key, and that key must hash to the expected address.
pub fn verify(address: &[u8], signature: &[u8], message: &[u8]) -> (r: Result<(), SmError>)
    ensures
        r == spec_verify(address@, signature@, message@),
{
    let recovered = match recover(signature, message) {
        Ok(addr) => addr,
        Err(e) => {
            return Err(e);
        },
    };
    if !bytes_equal(recovered.as_slice(), address) {
        return Err(SmError::AddressMismatch);
    }
    Ok(())
}

/// Decoding inverts encoding: the blob built from (r, s, public key) splits
/// back into exactly those parts at offsets 0, 32 and 64. The byte layout is
/// an interoperability contract, so this holds for every well-formed triple.
pub proof fn lemma_codec_round_trip(r: Seq<u8>, s: Seq<u8>, public_key: Seq<u8>)
    requires
        r.len() == 32,
        s.len() == 32,
        public_key.len() == 64,
    ensures
        (r + s + public_key).len() == SM2_SIGNATURE_BYTES_LEN,
        (r + s + public_key).subrange(0, 32) == r,
        (r + s + public_key).subrange(32, 64) == s,
        (r + s + public_key).subrange(64, 128) == public_key,
{
    assert((r + s + public_key).subrange(0, 32) =~= r);
    assert((r + s + public_key).subrange(32, 64) =~= s);
    assert((r + s + public_key).subrange(64, 128) =~= public_key);
}

/// Round trip: a signature blob fresh from `sign`, made with matching
/// private and public keys, verifies against the address derived from that
/// public key. The hypotheses are exactly what the contracts of
/// `private_key_to_public_key` and `sign` give for the blob they returned.
pub proof fn lemma_sign_verify_round_trip(
    private_key: Seq<u8>,
    public_key: Seq<u8>,
    message: Seq<u8>,
    signature: Seq<u8>,
)
    requires
        sm2_public_key_of(private_key) == Some(public_key),
        signature.len() == SM2_SIGNATURE_BYTES_LEN,
        signature.subrange(64, 128) == public_key,
        sm2_accepts(signature.subrange(0, 32), signature.subrange(32, 64), public_key, message),
    ensures
        spec_verify(spec_address_of(public_key), signature, message) == Ok::<(), SmError>(()),
{
}

/// A blob whose (r, s) the primitive rejects for the message never verifies,
/// and the outcome is exactly the cryptographic failure. Together with the
/// foreign-key lemma below this covers tampering: a change that flips the
/// primitive's acceptance lands here, one that changes the embedded key's
/// address lands there; that a flipped bit does flip one of the two is a
/// fact of the primitive that no contract states.
pub proof fn lemma_rejected_pair_fails(address: Seq<u8>, signature: Seq<u8>, message: Seq<u8>)
    requires
        signature.len() == SM2_SIGNATURE_BYTES_LEN,
        !sm2_accepts(
            signature.subrange(0, 32),
            signature.subrange(32, 64),
            signature.subrange(64, 128),
            message,
        ),
    ensures
        spec_verify(address, signature, message) == Err::<(), SmError>(
            SmError::SignatureVerificationFailed,
        ),
{
}

/// Substituting an embedded public key whose address is not the expected one
/// makes verification fail, whatever the rest of the blob holds: either the
/// cryptographic check rejects it, or the address comparison does.
pub proof fn lemma_foreign_key_fails(address: Seq<u8>, signature: Seq<u8>, message: Seq<u8>)
    requires
        signature.len() == SM2_SIGNATURE_BYTES_LEN,
        address != spec_address_of(signature.subrange(64, 128)),
    ensures
        spec_verify(address, signature, message) is Err,
{
}

/// Length guard: a blob that is not exactly 128 bytes is rejected outright,
/// whatever the expected address and the message.
pub proof fn lemma_length_guard(address: Seq<u8>, signature: Seq<u8>, message: Seq<u8>)
    requires
        signature.len() != SM2_SIGNATURE_BYTES_LEN,
    ensures
        spec_verify(address, signature, message) == Err::<(), SmError>(
            SmError::InvalidSignatureLength,
        ),
{
}

} // verus!
