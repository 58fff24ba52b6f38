use kbs2::backend::DecryptOutcome;
use kbs2::cache::{UnwrapAction, UnwrapError, UnwrapEvent, UnwrapState, UnwrapTransaction};

/// Wraps `plaintext` under `passphrase` into an age envelope, with a small
/// scrypt work factor so the tests stay fast.
fn wrap_key(plaintext: &[u8], passphrase: &str) -> Vec<u8> {
    let mut recipient = age::scrypt::Recipient::new(age::secrecy::SecretString::from(passphrase));
    recipient.set_work_factor(2);
    let encryptor =
        age::Encryptor::with_recipients(std::iter::once(&recipient as &dyn age::Recipient))
            .unwrap();
    let mut envelope = Vec::new();
    let mut writer = encryptor.wrap_output(&mut envelope).unwrap();
    std::io::Write::write_all(&mut writer, plaintext).unwrap();
    writer.finish().unwrap();
    envelope
}

/// Wraps `plaintext` to a recipient keypair: a well-formed envelope that is
/// not passphrase-protected.
fn wrap_key_to_recipient(plaintext: &[u8]) -> Vec<u8> {
    let identity = age::x25519::Identity::generate();
    let recipient = identity.to_public();
    let encryptor =
        age::Encryptor::with_recipients(std::iter::once(&recipient as &dyn age::Recipient))
            .unwrap();
    let mut envelope = Vec::new();
    let mut writer = encryptor.wrap_output(&mut envelope).unwrap();
    std::io::Write::write_all(&mut writer, plaintext).unwrap();
    writer.finish().unwrap();
    envelope
}

/// Drives a transaction through create, prompt, and key file read.
fn advance_to_decrypt(passphrase: &str, envelope: Vec<u8>) -> (UnwrapTransaction, UnwrapAction) {
    let mut t = UnwrapTransaction::new();
    assert!(matches!(t.begin(), UnwrapAction::CreateEntry));
    assert!(matches!(t.step(UnwrapEvent::CreateOk), UnwrapAction::PromptPassphrase));
    assert!(matches!(
        t.step(UnwrapEvent::PassphraseRead(passphrase.to_owned())),
        UnwrapAction::ReadKeyfile
    ));
    let action = t.step(UnwrapEvent::EnvelopeRead(envelope));
    (t, action)
}

#[test]
fn test_unwrap_success() {
    let plaintext = b"AGE-SECRET-KEY-NOT-A-REAL-ONE-BUT-KNOWN";
    let envelope = wrap_key(plaintext, "correct-horse");

    let (mut t, action) = advance_to_decrypt("correct-horse", envelope);
    match action {
        UnwrapAction::ResizeEntry(len) => assert_eq!(len, plaintext.len()),
        other => panic!("expected a resize, got {:?}", other),
    }
    assert!(matches!(t.step(UnwrapEvent::ResizeOk), UnwrapAction::MapEntry));
    match t.step(UnwrapEvent::MapOk) {
        UnwrapAction::WriteEntry(bytes) => assert_eq!(bytes, plaintext),
        other => panic!("expected a write, got {:?}", other),
    }
    assert!(matches!(t.step(UnwrapEvent::WriteOk), UnwrapAction::Done));

    match t.state {
        UnwrapState::Complete { result: Ok(len) } => assert_eq!(len, plaintext.len()),
        ref other => panic!("expected success, got {:?}", other),
    }
    assert!(t.created);
    assert!(!t.removed);
    assert_eq!(t.sized, Some(plaintext.len()));
}

#[test]
fn test_unwrap_wrong_passphrase_then_correct() {
    let plaintext = b"the quick brown key";
    let envelope = wrap_key(plaintext, "correct-horse");

    // Wrong passphrase: decryption fails and the entry is rolled back.
    let (mut t, action) = advance_to_decrypt("wrong-password", envelope.clone());
    assert!(matches!(action, UnwrapAction::RemoveEntry));
    assert!(matches!(
        t.state,
        UnwrapState::RollingBack { error: UnwrapError::DecryptionFailed }
    ));
    assert!(matches!(t.step(UnwrapEvent::RemoveOk), UnwrapAction::Done));
    match t.state {
        UnwrapState::Complete { result: Err(e) } => assert_eq!(e, UnwrapError::DecryptionFailed),
        ref other => panic!("expected a failure, got {:?}", other),
    }
    assert!(t.created);
    assert!(t.removed);

    // The rollback left nothing behind, so a fresh attempt with the right
    // passphrase can create the entry again and succeeds.
    let (mut t, action) = advance_to_decrypt("correct-horse", envelope);
    match action {
        UnwrapAction::ResizeEntry(len) => assert_eq!(len, plaintext.len()),
        other => panic!("expected a resize, got {:?}", other),
    }
    assert!(matches!(t.step(UnwrapEvent::ResizeOk), UnwrapAction::MapEntry));
    match t.step(UnwrapEvent::MapOk) {
        UnwrapAction::WriteEntry(bytes) => assert_eq!(bytes, plaintext),
        other => panic!("expected a write, got {:?}", other),
    }
    assert!(matches!(t.step(UnwrapEvent::WriteOk), UnwrapAction::Done));
    assert!(matches!(t.state, UnwrapState::Complete { result: Ok(_) }));
}

#[test]
fn test_unwrap_concurrent_loser_observes_already_exists() {
    let plaintext = b"raced key material";
    let envelope = wrap_key(plaintext, "correct-horse");

    // The winner of the race unwraps normally.
    let (mut winner, action) = advance_to_decrypt("correct-horse", envelope);
    assert!(matches!(action, UnwrapAction::ResizeEntry(_)));
    assert!(matches!(winner.step(UnwrapEvent::ResizeOk), UnwrapAction::MapEntry));
    assert!(matches!(winner.step(UnwrapEvent::MapOk), UnwrapAction::WriteEntry(_)));
    assert!(matches!(winner.step(UnwrapEvent::WriteOk), UnwrapAction::Done));
    assert!(matches!(winner.state, UnwrapState::Complete { result: Ok(_) }));

    // The loser's exclusive create observes the existing entry: it fails
    // with AlreadyExists at once, never prompts, and touches nothing.
    let mut loser = UnwrapTransaction::new();
    assert!(matches!(loser.begin(), UnwrapAction::CreateEntry));
    assert!(matches!(loser.step(UnwrapEvent::CreateExists), UnwrapAction::Done));
    match loser.state {
        UnwrapState::Complete { result: Err(e) } => assert_eq!(e, UnwrapError::AlreadyExists),
        ref other => panic!("expected AlreadyExists, got {:?}", other),
    }
    assert!(!loser.created);
    assert!(!loser.removed);
    assert_eq!(loser.sized, None);

    // The winner's entry stands as it was.
    assert!(winner.created);
    assert!(!winner.removed);
    assert_eq!(winner.sized, Some(plaintext.len()));
}

#[test]
fn test_unwrap_not_passphrase_wrapped() {
    let envelope = wrap_key_to_recipient(b"recipient-bound key");

    let (mut t, action) = advance_to_decrypt("correct-horse", envelope);
    assert!(matches!(action, UnwrapAction::RemoveEntry));
    assert!(matches!(t.step(UnwrapEvent::RemoveOk), UnwrapAction::Done));
    match t.state {
        UnwrapState::Complete { result: Err(e) } => {
            assert_eq!(e, UnwrapError::NotPassphraseWrapped)
        }
        ref other => panic!("expected NotPassphraseWrapped, got {:?}", other),
    }
    assert!(t.removed);
}

#[test]
fn test_unwrap_garbage_envelope_fails_decryption() {
    let envelope = b"not an envelope at all".to_vec();

    let (mut t, action) = advance_to_decrypt("correct-horse", envelope);
    assert!(matches!(action, UnwrapAction::RemoveEntry));
    assert!(matches!(t.step(UnwrapEvent::RemoveOk), UnwrapAction::Done));
    match t.state {
        UnwrapState::Complete { result: Err(e) } => assert_eq!(e, UnwrapError::DecryptionFailed),
        ref other => panic!("expected DecryptionFailed, got {:?}", other),
    }
}

#[test]
fn test_unwrap_create_error() {
    let mut t = UnwrapTransaction::new();
    assert!(matches!(t.step(UnwrapEvent::CreateError), UnwrapAction::Done));
    match t.state {
        UnwrapState::Complete { result: Err(e) } => assert_eq!(e, UnwrapError::CreateFailed),
        ref other => panic!("expected CreateFailed, got {:?}", other),
    }
    assert!(!t.created);
}

#[test]
fn test_unwrap_prompt_failure_rolls_back() {
    let mut t = UnwrapTransaction::new();
    assert!(matches!(t.step(UnwrapEvent::CreateOk), UnwrapAction::PromptPassphrase));
    assert!(matches!(t.step(UnwrapEvent::PromptError), UnwrapAction::RemoveEntry));
    assert!(matches!(t.step(UnwrapEvent::RemoveOk), UnwrapAction::Done));
    match t.state {
        UnwrapState::Complete { result: Err(e) } => assert_eq!(e, UnwrapError::PromptFailed),
        ref other => panic!("expected PromptFailed, got {:?}", other),
    }
    assert!(t.created);
    assert!(t.removed);
}

#[test]
fn test_unwrap_keyfile_read_failure_rolls_back() {
    let mut t = UnwrapTransaction::new();
    assert!(matches!(t.step(UnwrapEvent::CreateOk), UnwrapAction::PromptPassphrase));
    assert!(matches!(
        t.step(UnwrapEvent::PassphraseRead("correct-horse".to_owned())),
        UnwrapAction::ReadKeyfile
    ));
    assert!(matches!(t.step(UnwrapEvent::KeyfileReadError), UnwrapAction::RemoveEntry));
    assert!(matches!(t.step(UnwrapEvent::RemoveOk), UnwrapAction::Done));
    match t.state {
        UnwrapState::Complete { result: Err(e) } => assert_eq!(e, UnwrapError::KeyfileReadFailed),
        ref other => panic!("expected KeyfileReadFailed, got {:?}", other),
    }
    assert!(t.removed);
}

#[test]
fn test_unwrap_resize_map_write_failures_roll_back() {
    for (failure, expected) in [
        (UnwrapEvent::ResizeError, UnwrapError::ResizeFailed),
        (UnwrapEvent::MapError, UnwrapError::MapFailed),
        (UnwrapEvent::WriteError, UnwrapError::WriteFailed),
    ] {
        let plaintext = b"key material";
        let envelope = wrap_key(plaintext, "correct-horse");
        let (mut t, action) = advance_to_decrypt("correct-horse", envelope);
        assert!(matches!(action, UnwrapAction::ResizeEntry(_)));
        let failure_now = match failure {
            UnwrapEvent::ResizeError => true,
            _ => {
                assert!(matches!(t.step(UnwrapEvent::ResizeOk), UnwrapAction::MapEntry));
                match failure {
                    UnwrapEvent::MapError => true,
                    _ => {
                        assert!(matches!(t.step(UnwrapEvent::MapOk), UnwrapAction::WriteEntry(_)));
                        true
                    }
                }
            }
        };
        assert!(failure_now);
        assert!(matches!(t.step(failure), UnwrapAction::RemoveEntry));
        assert!(matches!(t.step(UnwrapEvent::RemoveOk), UnwrapAction::Done));
        match t.state {
            UnwrapState::Complete { result: Err(e) } => assert_eq!(e, expected),
            ref other => panic!("expected {:?}, got {:?}", expected, other),
        }
        assert!(t.created);
        assert!(t.removed);
    }
}

#[test]
fn test_unwrap_rollback_failure_is_surfaced() {
    let mut t = UnwrapTransaction::new();
    assert!(matches!(t.step(UnwrapEvent::CreateOk), UnwrapAction::PromptPassphrase));
    assert!(matches!(t.step(UnwrapEvent::PromptError), UnwrapAction::RemoveEntry));
    assert!(matches!(t.step(UnwrapEvent::RemoveError), UnwrapAction::Done));
    match t.state {
        UnwrapState::Complete { result: Err(e) } => assert_eq!(e, UnwrapError::RollbackFailed),
        ref other => panic!("expected RollbackFailed, got {:?}", other),
    }
    assert!(t.created);
    assert!(!t.removed);
}

#[test]
fn test_apply_decrypt_outcome_directly() {
    let mut t = UnwrapTransaction::new();
    assert!(matches!(t.step(UnwrapEvent::CreateOk), UnwrapAction::PromptPassphrase));
    assert!(matches!(
        t.step(UnwrapEvent::PassphraseRead("irrelevant".to_owned())),
        UnwrapAction::ReadKeyfile
    ));

    let plaintext = vec![1u8, 2, 3, 4, 5];
    match t.apply_decrypt_outcome(DecryptOutcome::Plaintext(plaintext.clone())) {
        UnwrapAction::ResizeEntry(len) => assert_eq!(len, plaintext.len()),
        other => panic!("expected a resize, got {:?}", other),
    }
    match t.state {
        UnwrapState::AwaitingResize { plaintext: held } => assert_eq!(held, plaintext),
        ref other => panic!("expected AwaitingResize, got {:?}", other),
    }
}
