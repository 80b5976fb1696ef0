use vstd::prelude::*;

verus! {

/// Why a create or remove call failed.
#[derive(Clone, Debug)]
pub enum ProvisionError {
    /// The lock for the scoped name stayed contended past the retry budget.
    LockTimeout,
    /// An entity of this name already exists in the scope; nothing was created.
    NameConflict(String),
    /// No acting user: the call failed before any write.
    Forbidden,
    /// The repository failed.
    PersistenceFailure,
    /// Roles could not be ensured; the entity stays persisted.
    RoleProvisionFailure,
    /// The cache could not be updated; the entity stays persisted.
    CacheSyncFailure,
    /// The creation event could not be published; the entity stays persisted.
    EventPublishFailure,
    /// The lock could not be released.
    LockReleaseFailure,
    /// The initial user could not be created; the entity stays persisted.
    UserCreateFailure,
    /// The cleanup task could not be enqueued; the rows stay deleted.
    CleanupQueueFailure,
}

} // verus!
