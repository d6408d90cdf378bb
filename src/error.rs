use vstd::prelude::*;

verus! {

/// The broad kind of a failure, which tells a caller what it may do next.
#[derive(Clone, Copy, Debug, PartialEq, Eq, Structural)]
pub enum ErrorClass {
    /// The request itself is wrong; it must be changed.
    Configuration,
    /// The tree-scoped authority could not be bound; fatal for that tree.
    Authorization,
    /// The tree moved under the caller; refetch the root and retry.
    ConcurrencyConflict,
    /// The tree has no room left; only a new tree helps.
    Capacity,
}

/// Every failure of a note operation.
#[derive(Clone, Copy, Debug, PartialEq, Eq, Structural)]
pub enum NoteError {
    /// The engine does not support the requested depth and buffer size.
    InvalidTreeParameters,
    /// The tree account has already been initialized.
    TreeAlreadyInitialized,
    /// No program address could be derived for the tree.
    AuthorityDerivationError,
    /// The authority account given is not the one derived for the tree.
    AuthorityMismatch,
    /// The old leaf is not at the index under the claimed root.
    LeafVerificationFailed,
    /// The root changed between verification and replacement.
    ConcurrentRootMismatch,
    /// Every leaf index of the tree is in use.
    TreeCapacityExceeded,
    /// The engine's buffer of recent changes is saturated.
    ConcurrentModificationLimitExceeded,
    /// The note text is longer than a log record can carry.
    NoteTooLong,
    /// The engine failed for a reason the protocol does not single out.
    EngineFailure,
}

impl NoteError {
    /// The class of each error.
    pub open spec fn spec_class(self) -> ErrorClass {
        match self {
            NoteError::InvalidTreeParameters => ErrorClass::Configuration,
            NoteError::TreeAlreadyInitialized => ErrorClass::Configuration,
            NoteError::NoteTooLong => ErrorClass::Configuration,
            NoteError::EngineFailure => ErrorClass::Configuration,
            NoteError::AuthorityDerivationError => ErrorClass::Authorization,
            NoteError::AuthorityMismatch => ErrorClass::Authorization,
            NoteError::LeafVerificationFailed => ErrorClass::ConcurrencyConflict,
            NoteError::ConcurrentRootMismatch => ErrorClass::ConcurrencyConflict,
            NoteError::ConcurrentModificationLimitExceeded => ErrorClass::ConcurrencyConflict,
            NoteError::TreeCapacityExceeded => ErrorClass::Capacity,
        }
    }

    /// The class of this error.
    pub fn class(&self) -> (r: ErrorClass)
        ensures
            r == self.spec_class(),
    {
        match self {
            NoteError::InvalidTreeParameters => ErrorClass::Configuration,
            NoteError::TreeAlreadyInitialized => ErrorClass::Configuration,
            NoteError::NoteTooLong => ErrorClass::Configuration,
            NoteError::EngineFailure => ErrorClass::Configuration,
            NoteError::AuthorityDerivationError => ErrorClass::Authorization,
            NoteError::AuthorityMismatch => ErrorClass::Authorization,
            NoteError::LeafVerificationFailed => ErrorClass::ConcurrencyConflict,
            NoteError::ConcurrentRootMismatch => ErrorClass::ConcurrencyConflict,
            NoteError::ConcurrentModificationLimitExceeded => ErrorClass::ConcurrencyConflict,
            NoteError::TreeCapacityExceeded => ErrorClass::Capacity,
        }
    }

    /// Whether the caller may retry after refetching the tree's root.
    pub fn is_retryable(&self) -> (r: bool)
        ensures
            r == (self.spec_class() == ErrorClass::ConcurrencyConflict),
    {
        match self.class() {
            ErrorClass::ConcurrencyConflict => true,
            _ => false,
        }
    }
}

} // verus!
