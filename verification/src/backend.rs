//! Decryption backend for passphrase-wrapped key envelopes.
//!
//! An envelope is the on-disk byte representation of a wrapped private key.
//! The backend classifies an envelope's self-describing header and, for the
//! passphrase-protected variant, decrypts it with a passphrase under a fixed
//! work-factor cap. The cap is a constant chosen to cover the work factor
//! used when the key was wrapped; it is not recorded in the envelope.

use vstd::prelude::*;

verus! {

/// Cap on the scrypt work factor (base-2 logarithm of the cost parameter)
/// accepted when deriving the decryption key from the passphrase. It must be
/// at least the work factor used at wrap time.
pub const MAX_WORK_FACTOR: u8 = 18;

/// Whether the bytes form a well-formed envelope of the passphrase-protected
/// variant, as `age::Decryptor::new_buffered` and `age::Decryptor::is_scrypt`
/// decide it; a function of the bytes alone.
pub uninterp spec fn is_passphrase_envelope(envelope: Seq<u8>) -> bool;

/// The plaintext that decrypting the envelope with the passphrase yields
/// (under the fixed work-factor cap), or `None` when decryption fails:
/// wrong passphrase, corrupted envelope, or a work factor over the cap.
/// A function of the envelope and passphrase alone.
pub uninterp spec fn unwrapped_plaintext(envelope: Seq<u8>, passphrase: Seq<char>) -> Option<
    Seq<u8>,
>;

/// How the backend answered a decryption request.
#[derive(Debug)]
pub enum DecryptOutcome {
    /// The envelope was passphrase-protected and yielded this plaintext.
    Plaintext(Vec<u8>),
    /// The envelope is well formed but of a different variant (for example
    /// one bound to a recipient keypair), so decryption was not attempted.
    NotPassphrase,
    /// Decryption failed: wrong passphrase or a corrupted or unreadable
    /// envelope. The sub-causes are deliberately not distinguished, so that
    /// the failure cannot be used as a passphrase-guessing oracle.
    Failed,
}

/// How the backend classified an envelope's header.
enum EnvelopeKind {
    /// A well-formed envelope of the passphrase-protected variant.
    Passphrase,
    /// A well-formed envelope of some other variant.
    Other,
    /// Not a well-formed envelope.
    Malformed,
}

/// Relies on `age::Decryptor::new_buffered` to parse the envelope's header
/// and on `age::Decryptor::is_scrypt` to tell the passphrase-protected
/// variant from the others.
#[verifier::external_body]
fn classify_envelope(envelope: &Vec<u8>) -> (r: EnvelopeKind)
    ensures
        r is Passphrase <==> is_passphrase_envelope(envelope@),
{
    match age::Decryptor::new_buffered(envelope.as_slice()) {
        Ok(d) if d.is_scrypt() => EnvelopeKind::Passphrase,
        Ok(_) => EnvelopeKind::Other,
        Err(_) => EnvelopeKind::Malformed,
    }
}

/// Relies on `age::Decryptor::decrypt` with an `age::scrypt::Identity`
/// capped at `MAX_WORK_FACTOR`: the result is a function of the envelope
/// and the passphrase alone.
#[verifier::external_body]
fn decrypt_envelope(envelope: &Vec<u8>, passphrase: &String) -> (r: Option<Vec<u8>>)
    ensures
        match r {
            Some(p) => unwrapped_plaintext(envelope@, passphrase@) == Some(p@),
            None => unwrapped_plaintext(envelope@, passphrase@) is None,
        },
{
    let decryptor = match age::Decryptor::new_buffered(envelope.as_slice()) {
        Ok(d) => d,
        Err(_) => return None,
    };
    let mut identity = age::scrypt::Identity::new(passphrase.clone().into());
    identity.set_max_work_factor(MAX_WORK_FACTOR);
    let mut plaintext: Vec<u8> = Vec::new();
    match decryptor.decrypt(std::iter::once(&identity as &dyn age::Identity)) {
        Ok(mut reader) => match std::io::Read::read_to_end(&mut reader, &mut plaintext) {
            Ok(_) => Some(plaintext),
            Err(_) => None,
        },
        Err(_) => None,
    }
}

/// Decrypts a wrapped-key envelope with a passphrase: confirms that the
/// envelope is the passphrase-protected variant, then unwraps it under the
/// fixed work-factor cap.
pub fn unwrap_envelope(envelope: &Vec<u8>, passphrase: &String) -> (r: DecryptOutcome)
    ensures
        match r {
            DecryptOutcome::Plaintext(p) => is_passphrase_envelope(envelope@)
                && unwrapped_plaintext(envelope@, passphrase@) == Some(p@),
            DecryptOutcome::NotPassphrase => !is_passphrase_envelope(envelope@),
            DecryptOutcome::Failed => is_passphrase_envelope(envelope@)
                ==> unwrapped_plaintext(envelope@, passphrase@) is None,
        },
{
    match classify_envelope(envelope) {
        EnvelopeKind::Passphrase => match decrypt_envelope(envelope, passphrase) {
            Some(p) => DecryptOutcome::Plaintext(p),
            None => DecryptOutcome::Failed,
        },
        EnvelopeKind::Other => DecryptOutcome::NotPassphrase,
        EnvelopeKind::Malformed => DecryptOutcome::Failed,
    }
}

} // verus!
