use customer::access::{access_string, lock_key};
use customer::create::{CreateAction, CreateEvent, CreateRun, LOCK_RETRIES, LOCK_RETRY_INTERVAL_MS, LOCK_TTL_MS};
use customer::customer::{CreateCustomerInput, Ctx, CustomerMutationRoot};
use customer::error::ProvisionError;
use customer::institution::{self as institution, CreateInstitutionInput, InstitutionMutationRoot, OrganizationFilter};
use customer::model::{Entity, Level};
use customer::remove::{RemoveAction, RemoveEvent};
use customer::user::{Owner, UserInput};

fn ctx(user: Option<&str>, publish: bool) -> Ctx {
    Ctx {
        acting_user: user.map(|u| u.to_string()),
        publish_events: publish,
        owner_group: "customer_owner".to_string(),
    }
}

fn customer_entity(id: &str, name: &str) -> Entity {
    Entity {
        level: Level::Customer,
        id: id.to_string(),
        path: vec![id.to_string()],
        name: name.to_string(),
        created_by: "u1".to_string(),
    }
}

/// Drives a create run whose lock is granted and whose lookup returns `found`.
fn lock_and_lookup(run: &mut CreateRun, first: CreateAction, found: Option<Entity>) -> CreateAction {
    assert!(matches!(first, CreateAction::AcquireLock { .. }));
    let a = run.step(CreateEvent::LockAcquired("tok".to_string()));
    assert!(matches!(a, CreateAction::FindByName { .. }));
    run.step(CreateEvent::Found(found))
}

#[test]
fn access_string_has_level_and_id() {
    assert_eq!(access_string(Level::Customer, "c1").as_str(), "customer:access@c1");
    assert_eq!(access_string(Level::Institution, "i9").as_str(), "institution:access@i9");
    assert_eq!(
        access_string(Level::OrganizationUnit, "u2").as_str(),
        "organization_unit:access@u2"
    );
}

#[test]
fn access_string_is_repeatable() {
    let a = access_string(Level::Organization, "o7");
    let b = access_string(Level::Organization, "o7");
    assert_eq!(a.as_bytes(), b.as_bytes());
}

#[test]
fn lock_keys_are_scoped() {
    assert_eq!(lock_key(Level::Customer, &vec![], "acme").as_str(), "v1_customer_lock_acme");
    assert_eq!(
        lock_key(Level::Institution, &vec!["c1".to_string(), "o1".to_string()], "main").as_str(),
        "v1_institution_lock_c1_o1_main"
    );
}

#[test]
fn create_asks_for_the_lock_first() {
    let (_, a) = ctx(Some("u1"), false).create("acme".to_string());
    match a {
        CreateAction::AcquireLock { key, ttl_ms, retries, interval_ms } => {
            assert_eq!(key.as_str(), "v1_customer_lock_acme");
            assert_eq!((ttl_ms, retries, interval_ms), (5000, 20, 250));
            assert_eq!((LOCK_TTL_MS, LOCK_RETRIES, LOCK_RETRY_INTERVAL_MS), (5000, 20, 250));
        }
        other => panic!("unexpected {:?}", other),
    }
}

#[test]
fn two_concurrent_customer_creates_one_wins() {
    let c = ctx(Some("u1"), true);
    // The first run through the lock finds nothing and persists.
    let (mut first, a) = c.create("acme".to_string());
    let a = lock_and_lookup(&mut first, a, None);
    match &a {
        CreateAction::Save(n) => {
            assert_eq!(n.name.as_str(), "acme");
            assert_eq!(n.created_by.as_str(), "u1");
            assert_eq!(n.level, Level::Customer);
        }
        other => panic!("unexpected {:?}", other),
    }
    let saved = customer_entity("c1", "acme");
    let a = first.step(CreateEvent::Saved(saved.clone()));
    match &a {
        CreateAction::EnsureRoles(v) => assert_eq!(v, &vec!["customer:access@c1".to_string()]),
        other => panic!("unexpected {:?}", other),
    }
    let a = first.step(CreateEvent::RolesEnsured(vec!["customer:access@c1".to_string()]));
    assert!(matches!(a, CreateAction::CacheEntity(ref e) if e.id == "c1"));
    let a = first.step(CreateEvent::Completed);
    assert!(matches!(a, CreateAction::CacheRoles(ref r) if r == &vec!["customer:access@c1".to_string()]));
    let a = first.step(CreateEvent::Completed);
    match &a {
        CreateAction::Publish { level, collection, entity } => {
            assert_eq!(*level, Level::Customer);
            assert_eq!(collection.as_str(), "customers");
            assert_eq!(entity.name.as_str(), "acme");
        }
        other => panic!("unexpected {:?}", other),
    }
    let a = first.step(CreateEvent::Completed);
    assert!(matches!(a, CreateAction::ReleaseLock { ref key, ref token } if key == "v1_customer_lock_acme" && token == "tok"));
    let a = first.step(CreateEvent::Completed);
    assert!(matches!(a, CreateAction::Finish(Ok(ref e)) if e.id == "c1"));
    assert!(first.token.is_none());

    // The second run finds the first one's customer.
    let (mut second, a) = c.create("acme".to_string());
    let a = lock_and_lookup(&mut second, a, Some(saved));
    assert!(matches!(a, CreateAction::ReleaseLock { .. }));
    let a = second.step(CreateEvent::Completed);
    assert!(matches!(a, CreateAction::Finish(Err(ProvisionError::NameConflict(ref n))) if n == "acme"));
    assert!(second.token.is_none());
}

#[test]
fn many_serialized_creates_have_one_creator() {
    let c = ctx(Some("u1"), false);
    let mut stored: Option<Entity> = None;
    let mut saves = 0;
    let mut conflicts = 0;
    for i in 0..5 {
        let (mut run, a) = c.create("acme".to_string());
        let mut a = lock_and_lookup(&mut run, a, stored.clone());
        loop {
            a = match a {
                CreateAction::Save(_) => {
                    saves += 1;
                    let e = customer_entity(&format!("c{}", i), "acme");
                    stored = Some(e.clone());
                    run.step(CreateEvent::Saved(e))
                }
                CreateAction::EnsureRoles(v) => run.step(CreateEvent::RolesEnsured(v)),
                CreateAction::Finish(Err(ProvisionError::NameConflict(n))) => {
                    assert_eq!(n.as_str(), "acme");
                    conflicts += 1;
                    break;
                }
                CreateAction::Finish(r) => {
                    assert!(r.is_ok());
                    break;
                }
                _ => run.step(CreateEvent::Completed),
            };
        }
        assert!(run.token.is_none());
    }
    assert_eq!((saves, conflicts), (1, 4));
}

#[test]
fn institution_conflict_has_no_side_effects() {
    let c = institution::Ctx {
        acting_user: Some("u1".to_string()),
        publish_events: true,
        owner_group: "institution_owner".to_string(),
    };
    let org = OrganizationFilter { customer: "c1".to_string(), organization: "o1".to_string() };
    let (mut run, a) = c.create(org, "main".to_string());
    assert!(matches!(a, CreateAction::AcquireLock { ref key, .. } if key == "v1_institution_lock_c1_o1_main"));
    let existing = Entity {
        level: Level::Institution,
        id: "i1".to_string(),
        path: vec!["c1".to_string(), "o1".to_string(), "i1".to_string()],
        name: "main".to_string(),
        created_by: "u0".to_string(),
    };
    let a = run.step(CreateEvent::LockAcquired("tok".to_string()));
    match &a {
        CreateAction::FindByName { level, parents, name } => {
            assert_eq!(*level, Level::Institution);
            assert_eq!(parents, &vec!["c1".to_string(), "o1".to_string()]);
            assert_eq!(name.as_str(), "main");
        }
        other => panic!("unexpected {:?}", other),
    }
    let a = run.step(CreateEvent::Found(Some(existing)));
    assert!(matches!(a, CreateAction::ReleaseLock { .. }));
    let a = run.step(CreateEvent::Completed);
    assert!(matches!(a, CreateAction::Finish(Err(ProvisionError::NameConflict(ref n))) if n == "main"));
}

#[test]
fn create_without_user_is_forbidden() {
    let (mut run, a) = ctx(None, false).create("acme".to_string());
    let a = lock_and_lookup(&mut run, a, None);
    assert!(matches!(a, CreateAction::ReleaseLock { .. }));
    let a = run.step(CreateEvent::Completed);
    assert!(matches!(a, CreateAction::Finish(Err(ProvisionError::Forbidden))));
    assert!(run.token.is_none());
}

#[test]
fn lock_timeout_releases_nothing() {
    let (mut run, _) = ctx(Some("u1"), false).create("acme".to_string());
    let a = run.step(CreateEvent::LockTimedOut);
    assert!(matches!(a, CreateAction::Finish(Err(ProvisionError::LockTimeout))));
    assert!(run.token.is_none());
}

#[test]
fn failures_after_the_lock_release_it() {
    // Repository failure on save.
    let (mut run, a) = ctx(Some("u1"), false).create("acme".to_string());
    lock_and_lookup(&mut run, a, None);
    assert!(matches!(run.step(CreateEvent::Failed), CreateAction::ReleaseLock { .. }));
    assert!(matches!(
        run.step(CreateEvent::Completed),
        CreateAction::Finish(Err(ProvisionError::PersistenceFailure))
    ));

    // Role provisioning failure.
    let (mut run, a) = ctx(Some("u1"), false).create("acme".to_string());
    lock_and_lookup(&mut run, a, None);
    run.step(CreateEvent::Saved(customer_entity("c1", "acme")));
    assert!(matches!(run.step(CreateEvent::Failed), CreateAction::ReleaseLock { .. }));
    assert!(matches!(
        run.step(CreateEvent::Completed),
        CreateAction::Finish(Err(ProvisionError::RoleProvisionFailure))
    ));

    // Cache failure.
    let (mut run, a) = ctx(Some("u1"), false).create("acme".to_string());
    lock_and_lookup(&mut run, a, None);
    run.step(CreateEvent::Saved(customer_entity("c1", "acme")));
    run.step(CreateEvent::RolesEnsured(vec![]));
    assert!(matches!(run.step(CreateEvent::Failed), CreateAction::ReleaseLock { .. }));
    assert!(matches!(
        run.step(CreateEvent::Failed),
        CreateAction::Finish(Err(ProvisionError::CacheSyncFailure))
    ));

    // Event publish failure.
    let (mut run, a) = ctx(Some("u1"), true).create("acme".to_string());
    lock_and_lookup(&mut run, a, None);
    run.step(CreateEvent::Saved(customer_entity("c1", "acme")));
    run.step(CreateEvent::RolesEnsured(vec![]));
    run.step(CreateEvent::Completed);
    assert!(matches!(run.step(CreateEvent::Completed), CreateAction::Publish { .. }));
    assert!(matches!(run.step(CreateEvent::Failed), CreateAction::ReleaseLock { .. }));
    assert!(matches!(
        run.step(CreateEvent::Completed),
        CreateAction::Finish(Err(ProvisionError::EventPublishFailure))
    ));
    assert!(run.token.is_none());
}

#[test]
fn release_failure_is_reported() {
    let (mut run, a) = ctx(Some("u1"), false).create("acme".to_string());
    lock_and_lookup(&mut run, a, None);
    run.step(CreateEvent::Saved(customer_entity("c1", "acme")));
    run.step(CreateEvent::RolesEnsured(vec![]));
    run.step(CreateEvent::Completed);
    assert!(matches!(run.step(CreateEvent::Completed), CreateAction::ReleaseLock { .. }));
    assert!(matches!(
        run.step(CreateEvent::Failed),
        CreateAction::Finish(Err(ProvisionError::LockReleaseFailure))
    ));
}

#[test]
fn customer_with_initial_user() {
    let user = UserInput { username: "alice".to_string(), ..Default::default() };
    let input = CreateCustomerInput { name: "newco".to_string(), initial_user: Some(user) };
    let (mut run, a) = CustomerMutationRoot::default().create_customer(&ctx(Some("u1"), false), input);
    lock_and_lookup(&mut run, a, None);
    run.step(CreateEvent::Saved(customer_entity("c42", "newco")));
    run.step(CreateEvent::RolesEnsured(vec!["customer:access@c42".to_string()]));
    run.step(CreateEvent::Completed);
    assert!(matches!(run.step(CreateEvent::Completed), CreateAction::ReleaseLock { .. }));
    match run.step(CreateEvent::Completed) {
        CreateAction::CreateUser(req) => {
            assert_eq!(req.access.as_str(), "customer:access@c42");
            assert_eq!(req.group.as_str(), "customer_owner");
            assert_eq!(req.user.username.as_str(), "alice");
            assert!(matches!(req.context, Owner::Customer(ref p) if p == &vec!["c42".to_string()]));
        }
        other => panic!("unexpected {:?}", other),
    }
    assert!(run.token.is_none());
    assert!(matches!(run.step(CreateEvent::Completed), CreateAction::Finish(Ok(ref e)) if e.name == "newco"));
}

#[test]
fn initial_user_failure_is_reported() {
    let user = UserInput::default();
    let input = CreateInstitutionInput { name: "main".to_string(), initial_user: Some(user) };
    let c = institution::Ctx {
        acting_user: Some("u1".to_string()),
        publish_events: false,
        owner_group: "institution_owner".to_string(),
    };
    let org = OrganizationFilter { customer: "c1".to_string(), organization: "o1".to_string() };
    let (mut run, a) = InstitutionMutationRoot::default().create_institution(&c, org, input);
    lock_and_lookup(&mut run, a, None);
    let ent = Entity {
        level: Level::Institution,
        id: "i1".to_string(),
        path: vec!["c1".to_string(), "o1".to_string(), "i1".to_string()],
        name: "main".to_string(),
        created_by: "u1".to_string(),
    };
    run.step(CreateEvent::Saved(ent));
    run.step(CreateEvent::RolesEnsured(vec![]));
    run.step(CreateEvent::Completed);
    run.step(CreateEvent::Completed);
    match run.step(CreateEvent::Completed) {
        CreateAction::CreateUser(req) => {
            assert_eq!(req.access.as_str(), "institution:access@i1");
            assert_eq!(req.group.as_str(), "institution_owner");
            assert!(matches!(req.context, Owner::Institution(ref p) if p.len() == 3));
        }
        other => panic!("unexpected {:?}", other),
    }
    assert!(matches!(
        run.step(CreateEvent::Failed),
        CreateAction::Finish(Err(ProvisionError::UserCreateFailure))
    ));
}

#[test]
fn remove_nothing_does_nothing() {
    let (run, a) = ctx(Some("u1"), false).remove(vec![], "t1".to_string());
    assert!(matches!(a, RemoveAction::Finish(Ok(0))));
    assert_eq!(run.deleted, 0);
}

#[test]
fn remove_matching_nothing_queues_nothing() {
    let (mut run, a) = ctx(Some("u1"), false).remove(vec!["x".to_string()], "t1".to_string());
    assert!(matches!(a, RemoveAction::DeleteMany { .. }));
    assert!(matches!(run.step(RemoveEvent::Deleted(0)), RemoveAction::Finish(Ok(0))));
}

#[test]
fn remove_two_customers_one_exists() {
    let ids = vec!["A".to_string(), "B".to_string()];
    let (mut run, a) = CustomerMutationRoot::default().remove_customers(&ctx(Some("u1"), false), ids.clone(), "t1".to_string());
    match &a {
        RemoveAction::DeleteMany { level, ids: batch } => {
            assert_eq!(*level, Level::Customer);
            assert_eq!(batch, &ids);
        }
        other => panic!("unexpected {:?}", other),
    }
    assert!(matches!(run.step(RemoveEvent::Deleted(1)), RemoveAction::ReloadCache(Level::Customer)));
    match run.step(RemoveEvent::Completed) {
        RemoveAction::Enqueue(task) => {
            assert_eq!(task.ids, ids);
            assert_eq!(task.id.as_str(), "t1");
            assert_eq!(task.level, Level::Customer);
        }
        other => panic!("unexpected {:?}", other),
    }
    assert!(matches!(run.step(RemoveEvent::Completed), RemoveAction::Finish(Ok(1))));
}

#[test]
fn remove_failures_are_reported() {
    let (mut run, _) = ctx(Some("u1"), false).remove(vec!["A".to_string()], "t1".to_string());
    assert!(matches!(run.step(RemoveEvent::Failed), RemoveAction::Finish(Err(ProvisionError::PersistenceFailure))));
    let (mut run, _) = ctx(Some("u1"), false).remove(vec!["A".to_string()], "t1".to_string());
    run.step(RemoveEvent::Deleted(1));
    assert!(matches!(run.step(RemoveEvent::Failed), RemoveAction::Finish(Err(ProvisionError::CacheSyncFailure))));
    let (mut run, _) = ctx(Some("u1"), false).remove(vec!["A".to_string()], "t1".to_string());
    run.step(RemoveEvent::Deleted(1));
    run.step(RemoveEvent::Completed);
    assert!(matches!(run.step(RemoveEvent::Failed), RemoveAction::Finish(Err(ProvisionError::CleanupQueueFailure))));
}

#[test]
fn organization_levels_use_the_same_flow() {
    let (mut run, a) = CreateRun::start(
        Level::OrganizationUnit,
        vec!["c1".to_string(), "o1".to_string(), "i1".to_string()],
        "lab".to_string(),
        Some("u1".to_string()),
        true,
        None,
        "unit_owner".to_string(),
    );
    assert!(matches!(a, CreateAction::AcquireLock { ref key, .. } if key == "v1_organization_unit_lock_c1_o1_i1_lab"));
    let a = lock_and_lookup(&mut run, a, None);
    assert!(matches!(a, CreateAction::Save(ref n) if n.parents.len() == 3));
    let unit = Entity {
        level: Level::OrganizationUnit,
        id: "u9".to_string(),
        path: vec!["c1".to_string(), "o1".to_string(), "i1".to_string(), "u9".to_string()],
        name: "lab".to_string(),
        created_by: "u1".to_string(),
    };
    assert!(matches!(run.step(CreateEvent::Saved(unit)), CreateAction::EnsureRoles(ref v) if v == &vec!["organization_unit:access@u9".to_string()]));
    run.step(CreateEvent::RolesEnsured(vec![]));
    run.step(CreateEvent::Completed);
    assert!(matches!(run.step(CreateEvent::Completed), CreateAction::Publish { ref collection, .. } if collection == "organization_units"));

    let (_, a) = CreateRun::start(Level::Organization, vec!["c1".to_string()], "north".to_string(), None, false, None, String::new());
    assert!(matches!(a, CreateAction::AcquireLock { ref key, .. } if key == "v1_organization_lock_c1_north"));
    assert_eq!(Level::Organization.depth_of(), 1);
    assert_eq!(Level::Organization.collection(), "organizations");
}
