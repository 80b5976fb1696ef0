use vstd::prelude::*;
use vstd::string::*;

use crate::access::{access_scope, access_string, lock_key, lock_key_text};
use crate::error::ProvisionError;
use crate::model::{copy_strings, Entity, Level};
use crate::user::{CreateUserInput, Owner, UserInput};

verus! {

/// Time to live of the creation lock, in milliseconds.
pub const LOCK_TTL_MS: u64 = 5000;

/// How many times acquiring the creation lock is retried.
pub const LOCK_RETRIES: u32 = 20;

/// Pause between two attempts to acquire the creation lock, in milliseconds.
pub const LOCK_RETRY_INTERVAL_MS: u64 = 250;

/// Where a create run stands.
#[derive(Clone, Copy, Debug, PartialEq, Eq, Structural)]
pub enum CreatePhase {
    Locking,
    Looking,
    Saving,
    Ensuring,
    CachingEntity,
    CachingRoles,
    Publishing,
    Releasing,
    CreatingUser,
    Finished,
}

impl CreatePhase {
    /// Position of the phase in a run; every step moves strictly forward.
    pub open spec fn rank(self) -> nat {
        match self {
            CreatePhase::Locking => 0,
            CreatePhase::Looking => 1,
            CreatePhase::Saving => 2,
            CreatePhase::Ensuring => 3,
            CreatePhase::CachingEntity => 4,
            CreatePhase::CachingRoles => 5,
            CreatePhase::Publishing => 6,
            CreatePhase::Releasing => 7,
            CreatePhase::CreatingUser => 8,
            CreatePhase::Finished => 9,
        }
    }

    /// The phases during which the run holds the lock.
    pub open spec fn locked(self) -> bool {
        1 <= self.rank() <= 7
    }
}

/// An entity to persist.
#[derive(Clone, Debug)]
pub struct NewEntity {
    pub level: Level,
    pub parents: Vec<String>,
    pub name: String,
    pub created_by: String,
}

/// The next outside operation a create run asks for.
#[derive(Debug)]
pub enum CreateAction {
    /// Acquire the distributed lock `key`.
    AcquireLock { key: String, ttl_ms: u64, retries: u32, interval_ms: u64 },
    /// Look up an entity of `name` in the scope given by `parents`.
    FindByName { level: Level, parents: Vec<String>, name: String },
    /// Persist a new entity.
    Save(NewEntity),
    /// Ensure that a role exists for each access-scope string.
    EnsureRoles(Vec<String>),
    /// Insert the entity into the cache.
    CacheEntity(Entity),
    /// Insert the ensured roles into the cache's user/role index.
    CacheRoles(Vec<String>),
    /// Publish a creation event.
    Publish { level: Level, collection: String, entity: Entity },
    /// Release the lock held under `token`.
    ReleaseLock { key: String, token: String },
    /// Create the initial user of the new entity.
    CreateUser(CreateUserInput),
    /// The run is over with this result.
    Finish(Result<Entity, ProvisionError>),
}

/// What came back from the operation asked for last.
#[derive(Debug)]
pub enum CreateEvent {
    LockAcquired(String),
    LockTimedOut,
    Found(Option<Entity>),
    Saved(Entity),
    RolesEnsured(Vec<String>),
    Completed,
    Failed,
}

/// One call of `create`: the request and how far it got.
#[derive(Debug)]
pub struct CreateRun {
    pub level: Level,
    pub parents: Vec<String>,
    pub name: String,
    /// The user on whose behalf the entity is created, if known.
    pub acting_user: Option<String>,
    /// Whether an event publisher is configured.
    pub publish_events: bool,
    pub initial_user: Option<UserInput>,
    /// Group of the initial user.
    pub owner_group: String,
    pub key: String,
    /// Token of the held lock.
    pub token: Option<String>,
    pub entity: Option<Entity>,
    pub roles: Vec<String>,
    /// The error the run ends with, once one occurred.
    pub error: Option<ProvisionError>,
    pub phase: CreatePhase,
}

impl CreateRun {
    pub open spec fn holds_lock(&self) -> bool {
        self.token is Some
    }

    pub open spec fn wf(&self) -> bool {
        &&& self.parents@.len() == self.level.depth()
        &&& self.key@ == lock_key_text(self.level, self.parents@, self.name@)
        &&& self.holds_lock() <==> self.phase.locked()
        &&& (3 <= self.phase.rank() <= 6 || self.phase == CreatePhase::CreatingUser
            ==> self.entity is Some)
        &&& (self.phase.rank() <= 6 || self.phase == CreatePhase::CreatingUser
            ==> self.error is None)
        &&& (self.phase == CreatePhase::Releasing && self.error is None ==> self.entity is Some)
    }
}

/// The run asks for the lock to be released and records `error` as its
/// outcome so far.
pub open spec fn releases(
    s: CreateRun,
    t: CreateRun,
    a: CreateAction,
    error: Option<ProvisionError>,
) -> bool {
    &&& t == CreateRun { phase: CreatePhase::Releasing, error, ..s }
    &&& a matches CreateAction::ReleaseLock { key, token } && key@ == s.key@ && Some(token)
        == s.token
}

/// The run is over, with the lock not held, and reports `result`.
pub open spec fn finishes(t: CreateRun, a: CreateAction, result: Result<Entity, ProvisionError>) -> bool {
    &&& t.phase == CreatePhase::Finished
    &&& t.token is None
    &&& a == CreateAction::Finish(result)
}

/// One step of a create run: from run `s`, on event `e`, to run `t`,
/// asking for `a`.
pub open spec fn create_step(s: CreateRun, e: CreateEvent, t: CreateRun, a: CreateAction) -> bool {
    match s.phase {
        CreatePhase::Locking => match e {
            CreateEvent::LockAcquired(tok) => {
                &&& t == CreateRun { phase: CreatePhase::Looking, token: Some(tok), ..s }
                &&& a matches CreateAction::FindByName { level, parents, name } && level == s.level
                    && parents@ == s.parents@ && name@ == s.name@
            },
            _ => t == CreateRun { phase: CreatePhase::Finished, error: Some(
                ProvisionError::LockTimeout,
            ), ..s } && a == CreateAction::Finish(Err(ProvisionError::LockTimeout)),
        },
        CreatePhase::Looking => match e {
            CreateEvent::Found(Some(_)) => releases(
                s,
                t,
                a,
                Some(ProvisionError::NameConflict(s.name)),
            ),
            CreateEvent::Found(None) => match s.acting_user {
                Some(user) => {
                    &&& t == CreateRun { phase: CreatePhase::Saving, ..s }
                    &&& a matches CreateAction::Save(n) && n.level == s.level && n.parents@
                        == s.parents@ && n.name@ == s.name@ && n.created_by@ == user@
                },
                None => releases(s, t, a, Some(ProvisionError::Forbidden)),
            },
            _ => releases(s, t, a, Some(ProvisionError::PersistenceFailure)),
        },
        CreatePhase::Saving => match e {
            CreateEvent::Saved(ent) => {
                &&& t == CreateRun { phase: CreatePhase::Ensuring, entity: Some(ent), ..s }
                &&& a matches CreateAction::EnsureRoles(v) && v@.len() == 1 && v@[0]@
                    == access_scope(s.level, ent.id@)
            },
            _ => releases(s, t, a, Some(ProvisionError::PersistenceFailure)),
        },
        CreatePhase::Ensuring => match e {
            CreateEvent::RolesEnsured(roles) => {
                &&& t == CreateRun { phase: CreatePhase::CachingEntity, roles, ..s }
                &&& a matches CreateAction::CacheEntity(x) && x@ == s.entity->0@
            },
            _ => releases(s, t, a, Some(ProvisionError::RoleProvisionFailure)),
        },
        CreatePhase::CachingEntity => match e {
            CreateEvent::Completed => {
                &&& t == CreateRun { phase: CreatePhase::CachingRoles, ..s }
                &&& a matches CreateAction::CacheRoles(r) && r@ == s.roles@
            },
            _ => releases(s, t, a, Some(ProvisionError::CacheSyncFailure)),
        },
        CreatePhase::CachingRoles => match e {
            CreateEvent::Completed => if s.publish_events {
                &&& t == CreateRun { phase: CreatePhase::Publishing, ..s }
                &&& a matches CreateAction::Publish { level, collection, entity } && level
                    == s.level && collection@ == s.level.collection_name() && entity@
                    == s.entity->0@
            } else {
                releases(s, t, a, None)
            },
            _ => releases(s, t, a, Some(ProvisionError::CacheSyncFailure)),
        },
        CreatePhase::Publishing => match e {
            CreateEvent::Completed => releases(s, t, a, None),
            _ => releases(s, t, a, Some(ProvisionError::EventPublishFailure)),
        },
        CreatePhase::Releasing => match (e, s.error) {
            (_, Some(err)) => finishes(t, a, Err(err)),
            (CreateEvent::Completed, None) => match s.initial_user {
                Some(user) => {
                    &&& t == CreateRun {
                        phase: CreatePhase::CreatingUser,
                        token: None,
                        initial_user: None,
                        ..s
                    }
                    &&& a matches CreateAction::CreateUser(req) && req.user == user
                        && req.group@ == s.owner_group@ && req.access@ == access_scope(
                        s.level,
                        s.entity->0.id@,
                    ) && req.context.level() == s.level && req.context.path()
                        == s.entity->0.path@
                },
                None => finishes(t, a, Ok(s.entity->0)),
            },
            (_, None) => finishes(t, a, Err(ProvisionError::LockReleaseFailure)),
        },
        CreatePhase::CreatingUser => match e {
            CreateEvent::Completed => finishes(t, a, Ok(s.entity->0)),
            _ => finishes(t, a, Err(ProvisionError::UserCreateFailure)),
        },
        CreatePhase::Finished => false,
    }
}

impl CreateRun {
    /// Starts a create run: the first operation is to acquire the lock of the
    /// scoped name.
    pub fn start(
        level: Level,
        parents: Vec<String>,
        name: String,
        acting_user: Option<String>,
        publish_events: bool,
        initial_user: Option<UserInput>,
        owner_group: String,
    ) -> (r: (CreateRun, CreateAction))
        requires
            parents@.len() == level.depth(),
        ensures
            r.0.wf(),
            r.0.phase == CreatePhase::Locking,
            r.0.level == level,
            r.0.parents == parents,
            r.0.name == name,
            r.0.acting_user == acting_user,
            r.0.publish_events == publish_events,
            r.0.initial_user == initial_user,
            r.0.owner_group == owner_group,
            r.0.token is None,
            r.0.entity is None,
            r.0.error is None,
            r.1 matches CreateAction::AcquireLock { key, ttl_ms, retries, interval_ms } && key@
                == lock_key_text(level, parents@, name@) && ttl_ms == LOCK_TTL_MS && retries
                == LOCK_RETRIES && interval_ms == LOCK_RETRY_INTERVAL_MS,
    {
        let key = lock_key(level, &parents, name.as_str());
        let action = CreateAction::AcquireLock {
            key: key.clone(),
            ttl_ms: LOCK_TTL_MS,
            retries: LOCK_RETRIES,
            interval_ms: LOCK_RETRY_INTERVAL_MS,
        };
        let run = CreateRun {
            level,
            parents,
            name,
            acting_user,
            publish_events,
            initial_user,
            owner_group,
            key,
            token: None,
            entity: None,
            roles: Vec::new(),
            error: None,
            phase: CreatePhase::Locking,
        };
        (run, action)
    }

    fn release(&mut self, error: Option<ProvisionError>) -> (a: CreateAction)
        requires
            old(self).holds_lock(),
        ensures
            releases(*old(self), *final(self), a, error),
    {
        let token = self.token.as_ref().unwrap().clone();
        self.phase = CreatePhase::Releasing;
        self.error = error;
        CreateAction::ReleaseLock { key: self.key.clone(), token }
    }

    fn finish(&mut self, result: Result<Entity, ProvisionError>) -> (a: CreateAction)
        ensures
            finishes(*final(self), a, result),
            *final(self) == (CreateRun { phase: CreatePhase::Finished, token: None, ..*old(self) }),
    {
        self.phase = CreatePhase::Finished;
        self.token = None;
        CreateAction::Finish(result)
    }

    fn take_entity(&mut self) -> (r: Entity)
        requires
            old(self).entity is Some,
        ensures
            r == old(self).entity->0,
            *final(self) == (CreateRun { entity: None, ..*old(self) }),
    {
        self.entity.take().unwrap()
    }

    /// Takes the result of the last operation and names the next one.
    pub fn step(&mut self, e: CreateEvent) -> (a: CreateAction)
        requires
            old(self).wf(),
            old(self).phase != CreatePhase::Finished,
        ensures
            final(self).wf(),
            create_step(*old(self), e, *final(self), a),
    {
        match self.phase {
            CreatePhase::Locking => match e {
                CreateEvent::LockAcquired(tok) => {
                    self.token = Some(tok);
                    self.phase = CreatePhase::Looking;
                    CreateAction::FindByName {
                        level: self.level,
                        parents: copy_strings(&self.parents),
                        name: self.name.clone(),
                    }
                },
                _ => {
                    self.phase = CreatePhase::Finished;
                    self.error = Some(ProvisionError::LockTimeout);
                    CreateAction::Finish(Err(ProvisionError::LockTimeout))
                },
            },
            CreatePhase::Looking => match e {
                CreateEvent::Found(Some(_)) => {
                    let conflict = ProvisionError::NameConflict(self.name.clone());
                    self.release(Some(conflict))
                },
                CreateEvent::Found(None) => match &self.acting_user {
                    Some(user) => {
                        let record = NewEntity {
                            level: self.level,
                            parents: copy_strings(&self.parents),
                            name: self.name.clone(),
                            created_by: user.clone(),
                        };
                        self.phase = CreatePhase::Saving;
                        CreateAction::Save(record)
                    },
                    None => self.release(Some(ProvisionError::Forbidden)),
                },
                _ => self.release(Some(ProvisionError::PersistenceFailure)),
            },
            CreatePhase::Saving => match e {
                CreateEvent::Saved(ent) => {
                    let access = access_string(self.level, ent.id.as_str());
                    let mut scopes: Vec<String> = Vec::new();
                    scopes.push(access);
                    self.entity = Some(ent);
                    self.phase = CreatePhase::Ensuring;
                    CreateAction::EnsureRoles(scopes)
                },
                _ => self.release(Some(ProvisionError::PersistenceFailure)),
            },
            CreatePhase::Ensuring => match e {
                CreateEvent::RolesEnsured(roles) => {
                    self.roles = roles;
                    self.phase = CreatePhase::CachingEntity;
                    CreateAction::CacheEntity(self.entity.as_ref().unwrap().duplicate())
                },
                _ => self.release(Some(ProvisionError::RoleProvisionFailure)),
            },
            CreatePhase::CachingEntity => match e {
                CreateEvent::Completed => {
                    self.phase = CreatePhase::CachingRoles;
                    CreateAction::CacheRoles(copy_strings(&self.roles))
                },
                _ => self.release(Some(ProvisionError::CacheSyncFailure)),
            },
            CreatePhase::CachingRoles => match e {
                CreateEvent::Completed => {
                    if self.publish_events {
                        self.phase = CreatePhase::Publishing;
                        CreateAction::Publish {
                            level: self.level,
                            collection: String::from_str(self.level.collection()),
                            entity: self.entity.as_ref().unwrap().duplicate(),
                        }
                    } else {
                        self.release(None)
                    }
                },
                _ => self.release(Some(ProvisionError::CacheSyncFailure)),
            },
            CreatePhase::Publishing => match e {
                CreateEvent::Completed => self.release(None),
                _ => self.release(Some(ProvisionError::EventPublishFailure)),
            },
            CreatePhase::Releasing => {
                match self.error.take() {
                    Some(err) => self.finish(Err(err)),
                    None => match e {
                        CreateEvent::Completed => {
                            if self.initial_user.is_some() {
                                let user = self.initial_user.take().unwrap();
                                let ent = self.entity.as_ref().unwrap();
                                let access = access_string(self.level, ent.id.as_str());
                                let context = Owner::new(self.level, copy_strings(&ent.path));
                                let req = CreateUserInput {
                                    user,
                                    group: self.owner_group.clone(),
                                    access,
                                    context,
                                };
                                self.token = None;
                                self.phase = CreatePhase::CreatingUser;
                                CreateAction::CreateUser(req)
                            } else {
                                let ent = self.take_entity();
                                self.finish(Ok(ent))
                            }
                        },
                        _ => self.finish(Err(ProvisionError::LockReleaseFailure)),
                    },
                }
            },
            CreatePhase::CreatingUser => match e {
                CreateEvent::Completed => {
                    let ent = self.take_entity();
                    self.finish(Ok(ent))
                },
                _ => self.finish(Err(ProvisionError::UserCreateFailure)),
            },
            CreatePhase::Finished => self.finish(Err(ProvisionError::LockReleaseFailure)),
        }
    }
}


/// No create run leaks its lock: a run that reports its result does not hold
/// the lock, the lock is given up only by the release step, every step that
/// enters the release step asks for the release, the lock is taken only by
/// the step that acquired it, and every step moves the run forward, so a run
/// reaches its end in a bounded number of steps whatever the outside
/// operations return.
pub proof fn lemma_lock_never_leaks(s: CreateRun, e: CreateEvent, t: CreateRun, a: CreateAction)
    requires
        s.wf(),
        s.phase != CreatePhase::Finished,
        create_step(s, e, t, a),
    ensures
        a is Finish ==> !t.holds_lock(),
        s.holds_lock() && !t.holds_lock() ==> s.phase == CreatePhase::Releasing,
        t.phase == CreatePhase::Releasing && s.phase != CreatePhase::Releasing
            ==> a is ReleaseLock,
        !s.holds_lock() && t.holds_lock() ==> a is FindByName,
        t.phase.rank() > s.phase.rank(),
{
}

/// A create run asks to persist an entity only when it knows the acting
/// user, and records that user as the creator; without one it ends with
/// `Forbidden` and persists nothing.
pub proof fn lemma_no_save_without_user(s: CreateRun, e: CreateEvent, t: CreateRun, a: CreateAction)
    requires
        s.wf(),
        s.phase != CreatePhase::Finished,
        create_step(s, e, t, a),
    ensures
        a is Save ==> s.acting_user is Some && a->Save_0.created_by@ == s.acting_user->0@,
        s.acting_user is None ==> !(a is Save),
        s.phase == CreatePhase::Looking && e == CreateEvent::Found(None) && s.acting_user is None
            ==> t.error == Some(ProvisionError::Forbidden),
{
}

/// Whether a run that holds the lock persists, given whether its lookup
/// found the name and whether it knows the acting user.
pub open spec fn persists_after_lookup(found: bool, has_user: bool) -> bool {
    !found && has_user
}

/// The lookup decides: a run that finds the name asks for no save and ends
/// with a conflict naming it; a run that does not find it, with a user,
/// asks to save.
pub proof fn lemma_lookup_decides(s: CreateRun, found: Option<Entity>, t: CreateRun, a: CreateAction)
    requires
        s.wf(),
        s.phase == CreatePhase::Looking,
        create_step(s, CreateEvent::Found(found), t, a),
    ensures
        a is Save <==> persists_after_lookup(found is Some, s.acting_user is Some),
        found is Some ==> t.error == Some(ProvisionError::NameConflict(s.name)) && a is ReleaseLock,
{
}

/// Whether the `i`-th of a series of runs on one scoped name, which the lock
/// lets through one at a time, finds the name: it does when the name existed
/// before the first run or an earlier run persisted it.
pub open spec fn serial_found(existed: bool, i: nat) -> bool
    decreases i,
{
    if i == 0 {
        existed
    } else {
        serial_found(existed, (i - 1) as nat) || persists_after_lookup(
            serial_found(existed, (i - 1) as nat),
            true,
        )
    }
}

/// Of `n` runs that create one new name in one scope on behalf of a user,
/// exactly one persists an entity (the first through the lock); every other
/// one finds the name and so ends with a conflict naming it.
pub proof fn lemma_one_creator(n: nat)
    ensures
        forall|i: nat| i < n ==> (#[trigger] persists_after_lookup(serial_found(false, i), true)
            <==> i == 0),
        forall|i: nat| 0 < i < n ==> #[trigger] serial_found(false, i),
{
    assert forall|i: nat| i < n implies serial_found(false, i) == (i > 0) by {
        lemma_serial_found(i);
    }
}

proof fn lemma_serial_found(i: nat)
    ensures
        serial_found(false, i) == (i > 0),
    decreases i,
{
    if i > 0 {
        lemma_serial_found((i - 1) as nat);
    }
}

} // verus!
