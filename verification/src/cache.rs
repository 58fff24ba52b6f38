//! The shared-key cache manager: the unwrap transaction.
//!
//! Unwrapping a passphrase-protected key is a multi-step transaction against
//! an OS-visible named cache entry: create the entry exclusively, prompt for
//! a passphrase, read the wrapped key from disk, decrypt it, then size the
//! entry to exactly the plaintext and populate it. Every failure after the
//! exclusive create rolls the entry back (unlinks it) before the error is
//! surfaced, so that no orphaned or partially written entry survives.
//!
//! The transaction is a state machine. The caller performs each returned
//! [`UnwrapAction`] against the outside world (the OS shared-memory
//! namespace, the terminal, the disk) and reports what happened as an
//! [`UnwrapEvent`]; decryption itself happens inside the machine. The
//! machine decides every transition, and its model ([`TransactionModel`])
//! carries what has been done to the cache entry so far: created, removed,
//! sized to what, holding which bytes.

use crate::backend::{is_passphrase_envelope, unwrap_envelope, unwrapped_plaintext, DecryptOutcome};
use vstd::prelude::*;

verus! {

/// Why an unwrap transaction failed.
#[derive(Clone, Copy, Debug, PartialEq, Eq, Structural)]
pub enum UnwrapError {
    /// A cache entry with the derived name already exists: some process has
    /// already unwrapped (or is unwrapping) this key. The creation path must
    /// not be retried; the caller may fall back to an attach-only read.
    AlreadyExists,
    /// The exclusive create failed for another reason.
    CreateFailed,
    /// The passphrase prompt could not be read.
    PromptFailed,
    /// The wrapped key file could not be read from disk.
    KeyfileReadFailed,
    /// The key file holds a well-formed envelope, but not of the
    /// passphrase-protected variant: a configuration mismatch.
    NotPassphraseWrapped,
    /// Wrong passphrase or corrupted envelope; deliberately not
    /// distinguished further.
    DecryptionFailed,
    /// The cache entry could not be resized to the plaintext's length.
    ResizeFailed,
    /// The sized cache entry could not be mapped into the address space.
    MapFailed,
    /// The plaintext could not be written into the mapping.
    WriteFailed,
    /// A rollback's unlink itself failed: the entry could not be removed,
    /// and the cache's state is now suspect.
    RollbackFailed,
}

/// The errors whose failure path runs a rollback: every failure after the
/// exclusive create succeeded and before the transaction committed.
pub open spec fn requires_rollback(e: UnwrapError) -> bool {
    ||| e is PromptFailed
    ||| e is KeyfileReadFailed
    ||| e is NotPassphraseWrapped
    ||| e is DecryptionFailed
    ||| e is ResizeFailed
    ||| e is MapFailed
    ||| e is WriteFailed
}

/// What the transaction asks its caller to perform next.
#[derive(Debug)]
pub enum UnwrapAction {
    /// Create the cache entry under the derived name: exclusively (fail if
    /// it exists), owner read/write only.
    CreateEntry,
    /// Read a passphrase interactively, without echo.
    PromptPassphrase,
    /// Read the whole wrapped key file from disk.
    ReadKeyfile,
    /// Resize the cache entry to exactly this many bytes.
    ResizeEntry(usize),
    /// Map the sized cache entry into the address space, writable.
    MapEntry,
    /// Copy exactly these bytes into the mapping.
    WriteEntry(Vec<u8>),
    /// Roll back: unlink the cache entry by name.
    RemoveEntry,
    /// Nothing is left to perform; the transaction is complete.
    Done,
}

/// What happened when the caller performed the requested action.
#[derive(Debug)]
pub enum UnwrapEvent {
    /// The exclusive create succeeded.
    CreateOk,
    /// An entry with the derived name already exists.
    CreateExists,
    /// The exclusive create failed for another reason.
    CreateError,
    /// The prompt yielded this passphrase.
    PassphraseRead(String),
    /// The prompt failed: no terminal, or the read was interrupted.
    PromptError,
    /// The wrapped key file held these bytes.
    EnvelopeRead(Vec<u8>),
    /// The wrapped key file could not be read.
    KeyfileReadError,
    /// The resize succeeded.
    ResizeOk,
    /// The resize failed.
    ResizeError,
    /// The mapping succeeded.
    MapOk,
    /// The mapping failed.
    MapError,
    /// The plaintext was copied into the mapping.
    WriteOk,
    /// The copy failed.
    WriteError,
    /// The rollback unlink succeeded.
    RemoveOk,
    /// The rollback unlink failed.
    RemoveError,
}

/// Where the transaction stands.
#[derive(Debug)]
pub enum UnwrapState {
    /// Before the exclusive create has been attempted.
    AwaitingCreate,
    /// The entry exists; the passphrase prompt is outstanding.
    AwaitingPassphrase,
    /// The passphrase is in hand; the key file read is outstanding.
    AwaitingEnvelope { passphrase: String },
    /// Decryption succeeded; the resize to the plaintext's length is
    /// outstanding.
    AwaitingResize { plaintext: Vec<u8> },
    /// The entry is sized; the mapping is outstanding.
    AwaitingMap { plaintext: Vec<u8> },
    /// The entry is mapped; the copy of the plaintext is outstanding.
    AwaitingWrite { plaintext: Vec<u8> },
    /// A step failed after the create; the rollback unlink is outstanding.
    RollingBack { error: UnwrapError },
    /// The transaction is over, successfully or not.
    Complete { result: Result<usize, UnwrapError> },
}

/// The mathematical form of [`UnwrapState`].
#[verifier::ext_equal]
pub enum StateModel {
    AwaitingCreate,
    AwaitingPassphrase,
    AwaitingEnvelope { passphrase: Seq<char> },
    AwaitingResize { plaintext: Seq<u8> },
    AwaitingMap { plaintext: Seq<u8> },
    AwaitingWrite { plaintext: Seq<u8> },
    RollingBack { error: UnwrapError },
    Complete { result: Result<usize, UnwrapError> },
}

impl View for UnwrapState {
    type V = StateModel;

    open spec fn view(&self) -> StateModel {
        match self {
            UnwrapState::AwaitingCreate => StateModel::AwaitingCreate,
            UnwrapState::AwaitingPassphrase => StateModel::AwaitingPassphrase,
            UnwrapState::AwaitingEnvelope { passphrase } => StateModel::AwaitingEnvelope {
                passphrase: passphrase@,
            },
            UnwrapState::AwaitingResize { plaintext } => StateModel::AwaitingResize {
                plaintext: plaintext@,
            },
            UnwrapState::AwaitingMap { plaintext } => StateModel::AwaitingMap {
                plaintext: plaintext@,
            },
            UnwrapState::AwaitingWrite { plaintext } => StateModel::AwaitingWrite {
                plaintext: plaintext@,
            },
            UnwrapState::RollingBack { error } => StateModel::RollingBack { error: *error },
            UnwrapState::Complete { result } => StateModel::Complete { result: *result },
        }
    }
}

/// The mathematical form of [`UnwrapEvent`].
#[verifier::ext_equal]
pub enum EventModel {
    CreateOk,
    CreateExists,
    CreateError,
    PassphraseRead { passphrase: Seq<char> },
    PromptError,
    EnvelopeRead { envelope: Seq<u8> },
    KeyfileReadError,
    ResizeOk,
    ResizeError,
    MapOk,
    MapError,
    WriteOk,
    WriteError,
    RemoveOk,
    RemoveError,
}

impl View for UnwrapEvent {
    type V = EventModel;

    open spec fn view(&self) -> EventModel {
        match self {
            UnwrapEvent::CreateOk => EventModel::CreateOk,
            UnwrapEvent::CreateExists => EventModel::CreateExists,
            UnwrapEvent::CreateError => EventModel::CreateError,
            UnwrapEvent::PassphraseRead(passphrase) => EventModel::PassphraseRead {
                passphrase: passphrase@,
            },
            UnwrapEvent::PromptError => EventModel::PromptError,
            UnwrapEvent::EnvelopeRead(envelope) => EventModel::EnvelopeRead {
                envelope: envelope@,
            },
            UnwrapEvent::KeyfileReadError => EventModel::KeyfileReadError,
            UnwrapEvent::ResizeOk => EventModel::ResizeOk,
            UnwrapEvent::ResizeError => EventModel::ResizeError,
            UnwrapEvent::MapOk => EventModel::MapOk,
            UnwrapEvent::MapError => EventModel::MapError,
            UnwrapEvent::WriteOk => EventModel::WriteOk,
            UnwrapEvent::WriteError => EventModel::WriteError,
            UnwrapEvent::RemoveOk => EventModel::RemoveOk,
            UnwrapEvent::RemoveError => EventModel::RemoveError,
        }
    }
}

/// The mathematical form of [`UnwrapAction`].
#[verifier::ext_equal]
pub enum ActionModel {
    CreateEntry,
    PromptPassphrase,
    ReadKeyfile,
    ResizeEntry { len: usize },
    MapEntry,
    WriteEntry { bytes: Seq<u8> },
    RemoveEntry,
    Done,
}

impl View for UnwrapAction {
    type V = ActionModel;

    open spec fn view(&self) -> ActionModel {
        match self {
            UnwrapAction::CreateEntry => ActionModel::CreateEntry,
            UnwrapAction::PromptPassphrase => ActionModel::PromptPassphrase,
            UnwrapAction::ReadKeyfile => ActionModel::ReadKeyfile,
            UnwrapAction::ResizeEntry(len) => ActionModel::ResizeEntry { len: *len },
            UnwrapAction::MapEntry => ActionModel::MapEntry,
            UnwrapAction::WriteEntry(bytes) => ActionModel::WriteEntry { bytes: bytes@ },
            UnwrapAction::RemoveEntry => ActionModel::RemoveEntry,
            UnwrapAction::Done => ActionModel::Done,
        }
    }
}

/// The mathematical form of an [`UnwrapTransaction`]: the protocol position
/// together with a model of what the transaction has done to the cache
/// entry so far.
#[verifier::ext_equal]
pub struct TransactionModel {
    /// The protocol position.
    pub state: StateModel,
    /// Whether this transaction has created the cache entry.
    pub created: bool,
    /// Whether this transaction has unlinked the entry again.
    pub removed: bool,
    /// The exact length the entry has been resized to, once it has been.
    pub sized: Option<usize>,
    /// The bytes this transaction has written into the entry, once it has
    /// written them.
    pub contents: Option<Seq<u8>>,
}

impl TransactionModel {
    /// The cache entry exists as this transaction left it: created by it and
    /// not rolled back.
    pub open spec fn entry_exists(self) -> bool {
        self.created && !self.removed
    }

    /// The transaction invariant. Among what it carries: a failure of a
    /// rollback-class error is only ever complete once the entry has been
    /// removed again, and a committed transaction holds exactly the
    /// plaintext it sized the entry for.
    pub open spec fn wf(self) -> bool {
        match self.state {
            StateModel::AwaitingCreate => !self.created && !self.removed && self.sized is None
                && self.contents is None,
            StateModel::AwaitingPassphrase => self.entry_exists() && self.sized is None
                && self.contents is None,
            StateModel::AwaitingEnvelope { .. } => self.entry_exists() && self.sized is None
                && self.contents is None,
            StateModel::AwaitingResize { plaintext } => {
                &&& self.entry_exists()
                &&& self.sized is None
                &&& self.contents is None
                &&& plaintext.len() <= usize::MAX
            },
            StateModel::AwaitingMap { plaintext } => {
                &&& self.entry_exists()
                &&& self.sized matches Some(n) && n as nat == plaintext.len()
                &&& self.contents is None
            },
            StateModel::AwaitingWrite { plaintext } => {
                &&& self.entry_exists()
                &&& self.sized matches Some(n) && n as nat == plaintext.len()
                &&& self.contents is None
            },
            StateModel::RollingBack { error } => self.entry_exists() && requires_rollback(error)
                && self.contents is None,
            StateModel::Complete { result } => match result {
                Ok(n) => {
                    &&& self.entry_exists()
                    &&& self.sized == Some(n)
                    &&& self.contents matches Some(b) && b.len() == n as nat
                },
                Err(e) => if e is AlreadyExists || e is CreateFailed {
                    !self.created && !self.removed && self.sized is None && self.contents is None
                } else if e is RollbackFailed {
                    self.created && !self.removed
                } else {
                    requires_rollback(e) && self.created && self.removed
                },
            },
        }
    }
}

/// The model of a freshly started transaction: nothing attempted yet.
pub open spec fn initial_model() -> TransactionModel {
    TransactionModel {
        state: StateModel::AwaitingCreate,
        created: false,
        removed: false,
        sized: None,
        contents: None,
    }
}

/// Whether the event is one the transaction's current state can answer:
/// the outcome of exactly the action the machine last asked for.
pub open spec fn expects(m: TransactionModel, ev: EventModel) -> bool {
    match (m.state, ev) {
        (StateModel::AwaitingCreate, EventModel::CreateOk) => true,
        (StateModel::AwaitingCreate, EventModel::CreateExists) => true,
        (StateModel::AwaitingCreate, EventModel::CreateError) => true,
        (StateModel::AwaitingPassphrase, EventModel::PassphraseRead { .. }) => true,
        (StateModel::AwaitingPassphrase, EventModel::PromptError) => true,
        (StateModel::AwaitingEnvelope { .. }, EventModel::EnvelopeRead { .. }) => true,
        (StateModel::AwaitingEnvelope { .. }, EventModel::KeyfileReadError) => true,
        (StateModel::AwaitingResize { .. }, EventModel::ResizeOk) => true,
        (StateModel::AwaitingResize { .. }, EventModel::ResizeError) => true,
        (StateModel::AwaitingMap { .. }, EventModel::MapOk) => true,
        (StateModel::AwaitingMap { .. }, EventModel::MapError) => true,
        (StateModel::AwaitingWrite { .. }, EventModel::WriteOk) => true,
        (StateModel::AwaitingWrite { .. }, EventModel::WriteError) => true,
        (StateModel::RollingBack { .. }, EventModel::RemoveOk) => true,
        (StateModel::RollingBack { .. }, EventModel::RemoveError) => true,
        _ => false,
    }
}

/// The state after a successful decryption: the plaintext is in hand and
/// the resize is outstanding.
pub open spec fn after_plaintext(m: TransactionModel, plaintext: Seq<u8>) -> TransactionModel {
    TransactionModel { state: StateModel::AwaitingResize { plaintext }, ..m }
}

/// The state after a failure that demands a rollback: the unlink is
/// outstanding, then the error will be surfaced.
pub open spec fn after_rollback_start(m: TransactionModel, error: UnwrapError) -> TransactionModel {
    TransactionModel { state: StateModel::RollingBack { error }, ..m }
}

/// The transition function of the transaction, for every event except
/// `EnvelopeRead` (whose outcome passes through the decryption backend and
/// is stated on [`UnwrapTransaction::step`] directly).
pub open spec fn next(m: TransactionModel, ev: EventModel) -> TransactionModel {
    match (m.state, ev) {
        (StateModel::AwaitingCreate, EventModel::CreateOk) => TransactionModel {
            state: StateModel::AwaitingPassphrase,
            created: true,
            ..m
        },
        (StateModel::AwaitingCreate, EventModel::CreateExists) => TransactionModel {
            state: StateModel::Complete { result: Err(UnwrapError::AlreadyExists) },
            ..m
        },
        (StateModel::AwaitingCreate, EventModel::CreateError) => TransactionModel {
            state: StateModel::Complete { result: Err(UnwrapError::CreateFailed) },
            ..m
        },
        (StateModel::AwaitingPassphrase, EventModel::PassphraseRead { passphrase }) =>
            TransactionModel {
            state: StateModel::AwaitingEnvelope { passphrase },
            ..m
        },
        (StateModel::AwaitingPassphrase, EventModel::PromptError) => after_rollback_start(
            m,
            UnwrapError::PromptFailed,
        ),
        (StateModel::AwaitingEnvelope { .. }, EventModel::KeyfileReadError) => after_rollback_start(
            m,
            UnwrapError::KeyfileReadFailed,
        ),
        (StateModel::AwaitingResize { plaintext }, EventModel::ResizeOk) => TransactionModel {
            state: StateModel::AwaitingMap { plaintext },
            sized: Some(plaintext.len() as usize),
            ..m
        },
        (StateModel::AwaitingResize { .. }, EventModel::ResizeError) => after_rollback_start(
            m,
            UnwrapError::ResizeFailed,
        ),
        (StateModel::AwaitingMap { plaintext }, EventModel::MapOk) => TransactionModel {
            state: StateModel::AwaitingWrite { plaintext },
            ..m
        },
        (StateModel::AwaitingMap { .. }, EventModel::MapError) => after_rollback_start(
            m,
            UnwrapError::MapFailed,
        ),
        (StateModel::AwaitingWrite { plaintext }, EventModel::WriteOk) => TransactionModel {
            state: StateModel::Complete { result: Ok(plaintext.len() as usize) },
            contents: Some(plaintext),
            ..m
        },
        (StateModel::AwaitingWrite { .. }, EventModel::WriteError) => after_rollback_start(
            m,
            UnwrapError::WriteFailed,
        ),
        (StateModel::RollingBack { error }, EventModel::RemoveOk) => TransactionModel {
            state: StateModel::Complete { result: Err(error) },
            removed: true,
            ..m
        },
        (StateModel::RollingBack { .. }, EventModel::RemoveError) => TransactionModel {
            state: StateModel::Complete { result: Err(UnwrapError::RollbackFailed) },
            ..m
        },
        _ => m,
    }
}

/// The action the transaction asks for next, alongside [`next`].
pub open spec fn action_for(m: TransactionModel, ev: EventModel) -> ActionModel {
    match (m.state, ev) {
        (StateModel::AwaitingCreate, EventModel::CreateOk) => ActionModel::PromptPassphrase,
        (StateModel::AwaitingPassphrase, EventModel::PassphraseRead { .. }) =>
            ActionModel::ReadKeyfile,
        (StateModel::AwaitingPassphrase, EventModel::PromptError) => ActionModel::RemoveEntry,
        (StateModel::AwaitingEnvelope { .. }, EventModel::KeyfileReadError) =>
            ActionModel::RemoveEntry,
        (StateModel::AwaitingResize { .. }, EventModel::ResizeOk) => ActionModel::MapEntry,
        (StateModel::AwaitingResize { .. }, EventModel::ResizeError) => ActionModel::RemoveEntry,
        (StateModel::AwaitingMap { plaintext }, EventModel::MapOk) => ActionModel::WriteEntry {
            bytes: plaintext,
        },
        (StateModel::AwaitingMap { .. }, EventModel::MapError) => ActionModel::RemoveEntry,
        (StateModel::AwaitingWrite { .. }, EventModel::WriteError) => ActionModel::RemoveEntry,
        _ => ActionModel::Done,
    }
}

/// One unwrap transaction: the machine that decides every step of the
/// create → prompt → read → decrypt → size → populate sequence, and the
/// rollback of the cache entry on every failure after its creation.
pub struct UnwrapTransaction {
    /// Where the transaction stands.
    pub state: UnwrapState,
    /// Whether this transaction has created the cache entry.
    pub created: bool,
    /// Whether this transaction has unlinked the entry again.
    pub removed: bool,
    /// The exact length the entry has been resized to, once it has been.
    pub sized: Option<usize>,
    /// Model of the bytes written into the entry, once they have been.
    pub contents: Ghost<Option<Seq<u8>>>,
}

impl View for UnwrapTransaction {
    type V = TransactionModel;

    open spec fn view(&self) -> TransactionModel {
        TransactionModel {
            state: self.state@,
            created: self.created,
            removed: self.removed,
            sized: self.sized,
            contents: self.contents@,
        }
    }
}

impl UnwrapTransaction {
    /// Starts an unwrap transaction for one key file. Nothing has been
    /// attempted yet; the first action to perform is [`Self::begin`]'s.
    pub fn new() -> (t: Self)
        ensures
            t@ == initial_model(),
            t@.wf(),
    {
        UnwrapTransaction {
            state: UnwrapState::AwaitingCreate,
            created: false,
            removed: false,
            sized: None,
            contents: Ghost(None),
        }
    }

    /// The transaction's opening action: create the cache entry,
    /// exclusively. Performing it early lets the transaction fail ahead of
    /// the passphrase prompt and the decryption work.
    pub fn begin(&self) -> (a: UnwrapAction)
        requires
            self@.state is AwaitingCreate,
        ensures
            a@ == ActionModel::CreateEntry,
    {
        UnwrapAction::CreateEntry
    }

    /// Feeds the outcome of the last action into the machine and returns
    /// the next action to perform.
    ///
    /// For every event but `EnvelopeRead` the transition is
    /// [`next`]/[`action_for`], exactly. For `EnvelopeRead` the machine
    /// hands the envelope to the decryption backend with the passphrase it
    /// holds: a successful decryption moves to the resize with exactly the
    /// decrypted plaintext; an envelope of the wrong variant rolls back
    /// with `NotPassphraseWrapped`; a failed decryption rolls back with
    /// `DecryptionFailed`.
    pub fn step(&mut self, ev: UnwrapEvent) -> (a: UnwrapAction)
        requires
            old(self)@.wf(),
            expects(old(self)@, ev@),
        ensures
            final(self)@.wf(),
            !(ev is EnvelopeRead) ==> final(self)@ == next(old(self)@, ev@) && a@ == action_for(
                old(self)@,
                ev@,
            ),
            ev matches UnwrapEvent::EnvelopeRead(envelope) ==> {
                let pw = old(self)@.state->AwaitingEnvelope_passphrase;
                match final(self)@.state {
                    StateModel::AwaitingResize { plaintext } => {
                        &&& is_passphrase_envelope(envelope@)
                        &&& unwrapped_plaintext(envelope@, pw) == Some(plaintext)
                        &&& final(self)@ == after_plaintext(old(self)@, plaintext)
                        &&& a@ == (ActionModel::ResizeEntry { len: plaintext.len() as usize })
                    },
                    StateModel::RollingBack { error } => {
                        &&& final(self)@ == after_rollback_start(old(self)@, error)
                        &&& a@ == ActionModel::RemoveEntry
                        &&& error is NotPassphraseWrapped || error is DecryptionFailed
                        &&& (error is NotPassphraseWrapped ==> !is_passphrase_envelope(envelope@))
                        &&& (error is DecryptionFailed ==> (is_passphrase_envelope(envelope@)
                            ==> unwrapped_plaintext(envelope@, pw) is None))
                    },
                    _ => false,
                }
            },
    {
        match ev {
            UnwrapEvent::CreateOk => {
                self.state = UnwrapState::AwaitingPassphrase;
                self.created = true;
                UnwrapAction::PromptPassphrase
            },
            UnwrapEvent::CreateExists => {
                self.state = UnwrapState::Complete {
                    result: Err(UnwrapError::AlreadyExists),
                };
                UnwrapAction::Done
            },
            UnwrapEvent::CreateError => {
                self.state = UnwrapState::Complete {
                    result: Err(UnwrapError::CreateFailed),
                };
                UnwrapAction::Done
            },
            UnwrapEvent::PassphraseRead(passphrase) => {
                self.state = UnwrapState::AwaitingEnvelope { passphrase };
                UnwrapAction::ReadKeyfile
            },
            UnwrapEvent::PromptError => {
                self.state = UnwrapState::RollingBack { error: UnwrapError::PromptFailed };
                UnwrapAction::RemoveEntry
            },
            UnwrapEvent::EnvelopeRead(envelope) => {
                let passphrase = match &self.state {
                    UnwrapState::AwaitingEnvelope { passphrase } => passphrase.clone(),
                    _ => String::new(),
                };
                let outcome = unwrap_envelope(&envelope, &passphrase);
                self.apply_decrypt_outcome(outcome)
            },
            UnwrapEvent::KeyfileReadError => {
                self.state = UnwrapState::RollingBack { error: UnwrapError::KeyfileReadFailed };
                UnwrapAction::RemoveEntry
            },
            UnwrapEvent::ResizeOk => {
                let plaintext = match &self.state {
                    UnwrapState::AwaitingResize { plaintext } => plaintext.clone(),
                    _ => Vec::new(),
                };
                self.sized = Some(plaintext.len());
                self.state = UnwrapState::AwaitingMap { plaintext };
                UnwrapAction::MapEntry
            },
            UnwrapEvent::ResizeError => {
                self.state = UnwrapState::RollingBack { error: UnwrapError::ResizeFailed };
                UnwrapAction::RemoveEntry
            },
            UnwrapEvent::MapOk => {
                let plaintext = match &self.state {
                    UnwrapState::AwaitingMap { plaintext } => plaintext.clone(),
                    _ => Vec::new(),
                };
                let bytes = plaintext.clone();
                self.state = UnwrapState::AwaitingWrite { plaintext };
                UnwrapAction::WriteEntry(bytes)
            },
            UnwrapEvent::MapError => {
                self.state = UnwrapState::RollingBack { error: UnwrapError::MapFailed };
                UnwrapAction::RemoveEntry
            },
            UnwrapEvent::WriteOk => {
                let ghost written: Seq<u8> = match self.state@ {
                    StateModel::AwaitingWrite { plaintext } => plaintext,
                    _ => Seq::empty(),
                };
                let len = match &self.state {
                    UnwrapState::AwaitingWrite { plaintext } => plaintext.len(),
                    _ => 0,
                };
                self.contents = Ghost(Some(written));
                self.state = UnwrapState::Complete { result: Ok(len) };
                UnwrapAction::Done
            },
            UnwrapEvent::WriteError => {
                self.state = UnwrapState::RollingBack { error: UnwrapError::WriteFailed };
                UnwrapAction::RemoveEntry
            },
            UnwrapEvent::RemoveOk => {
                let error = match &self.state {
                    UnwrapState::RollingBack { error } => *error,
                    _ => UnwrapError::RollbackFailed,
                };
                self.removed = true;
                self.state = UnwrapState::Complete { result: Err(error) };
                UnwrapAction::Done
            },
            UnwrapEvent::RemoveError => {
                self.state = UnwrapState::Complete {
                    result: Err(UnwrapError::RollbackFailed),
                };
                UnwrapAction::Done
            },
        }
    }

    /// Moves the transaction past the decryption step for a given backend
    /// answer: the step's whole decision logic, verified for every possible
    /// answer.
    pub fn apply_decrypt_outcome(&mut self, outcome: DecryptOutcome) -> (a: UnwrapAction)
        requires
            old(self)@.wf(),
            old(self)@.state is AwaitingEnvelope,
        ensures
            final(self)@.wf(),
            match outcome {
                DecryptOutcome::Plaintext(p) => final(self)@ == after_plaintext(old(self)@, p@)
                    && a@ == (ActionModel::ResizeEntry { len: p@.len() as usize }),
                DecryptOutcome::NotPassphrase => final(self)@ == after_rollback_start(
                    old(self)@,
                    UnwrapError::NotPassphraseWrapped,
                ) && a@ == ActionModel::RemoveEntry,
                DecryptOutcome::Failed => final(self)@ == after_rollback_start(
                    old(self)@,
                    UnwrapError::DecryptionFailed,
                ) && a@ == ActionModel::RemoveEntry,
            },
    {
        match outcome {
            DecryptOutcome::Plaintext(plaintext) => {
                let len = plaintext.len();
                self.state = UnwrapState::AwaitingResize { plaintext };
                UnwrapAction::ResizeEntry(len)
            },
            DecryptOutcome::NotPassphrase => {
                self.state = UnwrapState::RollingBack {
                    error: UnwrapError::NotPassphraseWrapped,
                };
                UnwrapAction::RemoveEntry
            },
            DecryptOutcome::Failed => {
                self.state = UnwrapState::RollingBack { error: UnwrapError::DecryptionFailed };
                UnwrapAction::RemoveEntry
            },
        }
    }
}

/// A transaction that finds the cache entry already present fails with
/// `AlreadyExists` and touches nothing: it neither resizes, writes, nor
/// unlinks, so the entry the earlier unwrap populated stands unchanged, and
/// of two racing transactions the loser cannot disturb the winner's entry.
pub proof fn lemma_already_exists_touches_nothing(m: TransactionModel)
    requires
        m.wf(),
        m.state is AwaitingCreate,
    ensures
        next(m, EventModel::CreateExists).state == (StateModel::Complete {
            result: Err::<usize, UnwrapError>(UnwrapError::AlreadyExists),
        }),
        !next(m, EventModel::CreateExists).created,
        !next(m, EventModel::CreateExists).removed,
        next(m, EventModel::CreateExists).sized is None,
        next(m, EventModel::CreateExists).contents is None,
        action_for(m, EventModel::CreateExists) is Done,
{
}

/// Rollback completeness: a transaction that completed with a
/// rollback-class failure created the cache entry and removed it again, so
/// nothing is left to make a later attempt fail with `AlreadyExists`.
pub proof fn lemma_rollback_completeness(m: TransactionModel, e: UnwrapError)
    requires
        m.wf(),
        m.state == (StateModel::Complete { result: Err::<usize, UnwrapError>(e) }),
        requires_rollback(e),
    ensures
        m.created,
        m.removed,
{
}

/// The transition function preserves the transaction invariant on every
/// expected event it defines.
pub proof fn lemma_next_preserves_wf(m: TransactionModel, ev: EventModel)
    requires
        m.wf(),
        expects(m, ev),
        !(ev is EnvelopeRead),
    ensures
        next(m, ev).wf(),
{
}

/// Whenever a step moves the transaction into its rollback leg, the action
/// it asks for is the unlink of the cache entry: no failure after the
/// create is surfaced without the entry's removal being ordered first.
pub proof fn lemma_failure_orders_rollback(m: TransactionModel, ev: EventModel)
    requires
        m.wf(),
        expects(m, ev),
        !(ev is EnvelopeRead),
        next(m, ev).state is RollingBack,
    ensures
        action_for(m, ev) is RemoveEntry,
{
}

/// A complete transaction is terminal: no event is expected any more, so
/// nothing can reopen it or touch the cache entry again on its behalf.
pub proof fn lemma_complete_is_terminal(m: TransactionModel, ev: EventModel)
    requires
        m.state is Complete,
    ensures
        !expects(m, ev),
{
}

/// Exactness: a transaction that committed sized the cache entry to
/// exactly the byte length of the plaintext it wrote, which is the length
/// it reports; no slack and no truncation.
pub proof fn lemma_exactness(m: TransactionModel, n: usize)
    requires
        m.wf(),
        m.state == (StateModel::Complete { result: Ok::<usize, UnwrapError>(n) }),
    ensures
        m.sized == Some(n),
        m.contents matches Some(b) && b.len() == n as nat,
{
}

} // verus!
