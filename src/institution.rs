use vstd::prelude::*;

use crate::access::lock_key_text;
use crate::create::{CreateAction, CreatePhase, CreateRun};
use crate::model::Level;
use crate::user::UserInput;

verus! {

/// The organization under which an institution is created: the object ids
/// of its customer and of the organization itself, in hex.
#[derive(Clone, Debug)]
pub struct OrganizationFilter {
    pub customer: String,
    pub organization: String,
}

/// Request to create an institution, with an optional first user.
#[derive(Clone, Debug)]
pub struct CreateInstitutionInput {
    pub name: String,
    pub initial_user: Option<UserInput>,
}

/// What an institution call runs with: the acting user, whether creation
/// events are published, and the group that an institution's first user
/// joins.
#[derive(Clone, Debug)]
pub struct Ctx {
    pub acting_user: Option<String>,
    pub publish_events: bool,
    pub owner_group: String,
}

impl Ctx {
    fn start(&self, context: OrganizationFilter, input: CreateInstitutionInput) -> (r: (
        CreateRun,
        CreateAction,
    ))
        ensures
            r.0.wf(),
            r.0.phase == CreatePhase::Locking,
            r.0.level == Level::Institution,
            r.0.parents@ == seq![context.customer, context.organization],
            r.0.name == input.name,
            r.0.acting_user == self.acting_user,
            r.0.publish_events == self.publish_events,
            r.0.initial_user == input.initial_user,
            r.0.owner_group@ == self.owner_group@,
            r.0.token is None,
            r.0.entity is None,
            r.0.error is None,
            r.1 matches CreateAction::AcquireLock { key, .. } && key@ == lock_key_text(
                Level::Institution,
                seq![context.customer, context.organization],
                input.name@,
            ),
    {
        let ghost scope = seq![context.customer, context.organization];
        let mut parents: Vec<String> = Vec::new();
        parents.push(context.customer);
        parents.push(context.organization);
        assert(parents@ =~= scope);
        CreateRun::start(
            Level::Institution,
            parents,
            input.name,
            self.acting_user.clone(),
            self.publish_events,
            input.initial_user,
            self.owner_group.clone(),
        )
    }

    /// Starts creating an institution named `name` under `organization`.
    pub fn create(&self, organization: OrganizationFilter, name: String) -> (r: (
        CreateRun,
        CreateAction,
    ))
        ensures
            r.0.wf(),
            r.0.phase == CreatePhase::Locking,
            r.0.level == Level::Institution,
            r.0.parents@ == seq![organization.customer, organization.organization],
            r.0.name == name,
            r.0.acting_user == self.acting_user,
            r.0.publish_events == self.publish_events,
            r.0.initial_user is None,
            r.0.token is None,
            r.0.entity is None,
            r.0.error is None,
            r.1 matches CreateAction::AcquireLock { key, .. } && key@ == lock_key_text(
                Level::Institution,
                seq![organization.customer, organization.organization],
                name@,
            ),
    {
        self.start(organization, CreateInstitutionInput { name, initial_user: None })
    }
}

/// Entry point of the institution queries.
pub struct InstitutionQueryRoot {}

impl Default for InstitutionQueryRoot {
    fn default() -> (r: Self)
        ensures
            r == (InstitutionQueryRoot {}),
    {
        InstitutionQueryRoot {  }
    }
}

/// Entry point of the institution mutations.
pub struct InstitutionMutationRoot {}

impl Default for InstitutionMutationRoot {
    fn default() -> (r: Self)
        ensures
            r == (InstitutionMutationRoot {}),
    {
        InstitutionMutationRoot {  }
    }
}

impl InstitutionMutationRoot {
    /// Starts creating an institution under `context`; once it is persisted
    /// and the lock is released, its first user (if any) is created with the
    /// institution's access-scope string and the institution owner group.
    pub fn create_institution(
        &self,
        ctx: &Ctx,
        context: OrganizationFilter,
        input: CreateInstitutionInput,
    ) -> (r: (CreateRun, CreateAction))
        ensures
            r.0.wf(),
            r.0.phase == CreatePhase::Locking,
            r.0.level == Level::Institution,
            r.0.parents@ == seq![context.customer, context.organization],
            r.0.name == input.name,
            r.0.acting_user == ctx.acting_user,
            r.0.publish_events == ctx.publish_events,
            r.0.initial_user == input.initial_user,
            r.0.owner_group@ == ctx.owner_group@,
            r.0.token is None,
            r.0.entity is None,
            r.0.error is None,
            r.1 matches CreateAction::AcquireLock { key, .. } && key@ == lock_key_text(
                Level::Institution,
                seq![context.customer, context.organization],
                input.name@,
            ),
    {
        ctx.start(context, input)
    }
}

} // verus!
