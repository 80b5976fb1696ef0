use vstd::prelude::*;

use crate::access::lock_key_text;
use crate::create::{CreateAction, CreatePhase, CreateRun};
use crate::model::Level;
use crate::remove::{RemoveAction, RemovePhase, RemoveRun};
use crate::user::UserInput;

verus! {

/// Request to create a customer, with an optional first user.
#[derive(Clone, Debug)]
pub struct CreateCustomerInput {
    pub name: String,
    pub initial_user: Option<UserInput>,
}

/// What a customer call runs with: the acting user, whether creation events
/// are published, and the group that a customer's first user joins.
#[derive(Clone, Debug)]
pub struct Ctx {
    pub acting_user: Option<String>,
    pub publish_events: bool,
    pub owner_group: String,
}

impl Ctx {
    /// Starts creating a customer named `name`.
    pub fn create(&self, name: String) -> (r: (CreateRun, CreateAction))
        ensures
            r.0.wf(),
            r.0.phase == CreatePhase::Locking,
            r.0.level == Level::Customer,
            r.0.parents@.len() == 0,
            r.0.name == name,
            r.0.acting_user == self.acting_user,
            r.0.publish_events == self.publish_events,
            r.0.initial_user is None,
            r.0.token is None,
            r.0.entity is None,
            r.0.error is None,
            r.1 matches CreateAction::AcquireLock { key, .. } && key@ == lock_key_text(
                Level::Customer,
                r.0.parents@,
                name@,
            ),
    {
        CreateRun::start(
            Level::Customer,
            Vec::new(),
            name,
            self.acting_user.clone(),
            self.publish_events,
            None,
            self.owner_group.clone(),
        )
    }

    /// Starts removing the customers whose ids are in `ids`; `task_id` names
    /// the cleanup task, should one be queued.
    pub fn remove(&self, ids: Vec<String>, task_id: String) -> (r: (RemoveRun, RemoveAction))
        ensures
            r.0.wf(),
            r.0.level == Level::Customer,
            r.0.ids == ids,
            r.0.task_id == task_id,
            ids@.len() == 0 ==> r.0.phase == RemovePhase::Finished && r.1 == RemoveAction::Finish(
                Ok(0),
            ),
            ids@.len() > 0 ==> r.0.phase == RemovePhase::Deleting,
            ids@.len() > 0 ==> (r.1 matches RemoveAction::DeleteMany { level: l, ids: v } && l
                == Level::Customer && v@ == ids@),
    {
        RemoveRun::start(Level::Customer, ids, task_id)
    }
}

/// Entry point of the customer queries.
pub struct CustomerQueryRoot {}

impl Default for CustomerQueryRoot {
    fn default() -> (r: Self)
        ensures
            r == (CustomerQueryRoot {}),
    {
        CustomerQueryRoot {  }
    }
}

/// Entry point of the customer mutations.
pub struct CustomerMutationRoot {}

impl Default for CustomerMutationRoot {
    fn default() -> (r: Self)
        ensures
            r == (CustomerMutationRoot {}),
    {
        CustomerMutationRoot {  }
    }
}

impl CustomerMutationRoot {
    /// Starts creating a customer; once it is persisted and the lock is
    /// released, its first user (if any) is created with the customer's
    /// access-scope string and the customer owner group.
    pub fn create_customer(&self, ctx: &Ctx, input: CreateCustomerInput) -> (r: (
        CreateRun,
        CreateAction,
    ))
        ensures
            r.0.wf(),
            r.0.phase == CreatePhase::Locking,
            r.0.level == Level::Customer,
            r.0.parents@.len() == 0,
            r.0.name == input.name,
            r.0.acting_user == ctx.acting_user,
            r.0.publish_events == ctx.publish_events,
            r.0.initial_user == input.initial_user,
            r.0.owner_group@ == ctx.owner_group@,
            r.0.token is None,
            r.0.entity is None,
            r.0.error is None,
            r.1 matches CreateAction::AcquireLock { key, .. } && key@ == lock_key_text(
                Level::Customer,
                r.0.parents@,
                input.name@,
            ),
    {
        CreateRun::start(
            Level::Customer,
            Vec::new(),
            input.name,
            ctx.acting_user.clone(),
            ctx.publish_events,
            input.initial_user,
            ctx.owner_group.clone(),
        )
    }

    /// Starts removing customers; see [`Ctx::remove`].
    pub fn remove_customers(&self, ctx: &Ctx, ids: Vec<String>, task_id: String) -> (r: (
        RemoveRun,
        RemoveAction,
    ))
        ensures
            r.0.wf(),
            r.0.level == Level::Customer,
            r.0.ids == ids,
            r.0.task_id == task_id,
            ids@.len() == 0 ==> r.0.phase == RemovePhase::Finished && r.1 == RemoveAction::Finish(
                Ok(0),
            ),
            ids@.len() > 0 ==> r.0.phase == RemovePhase::Deleting,
            ids@.len() > 0 ==> (r.1 matches RemoveAction::DeleteMany { level: l, ids: v } && l
                == Level::Customer && v@ == ids@),
    {
        ctx.remove(ids, task_id)
    }
}

} // verus!
