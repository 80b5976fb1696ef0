use vstd::prelude::*;

verus! {

/// One of the four levels of the tenant hierarchy.
#[derive(Clone, Copy, Debug, PartialEq, Eq, Structural)]
pub enum Level {
    Customer,
    Organization,
    Institution,
    OrganizationUnit,
}

impl Level {
    /// Number of ancestors an entity of this level has.
    pub open spec fn depth(self) -> nat {
        match self {
            Level::Customer => 0,
            Level::Organization => 1,
            Level::Institution => 2,
            Level::OrganizationUnit => 3,
        }
    }

    /// Name of the access level, as used in access-scope strings.
    pub open spec fn access_name(self) -> Seq<char> {
        match self {
            Level::Customer => "customer"@,
            Level::Organization => "organization"@,
            Level::Institution => "institution"@,
            Level::OrganizationUnit => "organization_unit"@,
        }
    }

    /// Name of the repository collection that stores entities of this level.
    pub open spec fn collection_name(self) -> Seq<char> {
        match self {
            Level::Customer => "customers"@,
            Level::Organization => "organizations"@,
            Level::Institution => "institutions"@,
            Level::OrganizationUnit => "organization_units"@,
        }
    }

    pub fn depth_of(&self) -> (r: usize)
        ensures
            r as nat == self.depth(),
    {
        match self {
            Level::Customer => 0,
            Level::Organization => 1,
            Level::Institution => 2,
            Level::OrganizationUnit => 3,
        }
    }

    pub fn access_level(&self) -> (r: &'static str)
        ensures
            r@ == self.access_name(),
    {
        match self {
            Level::Customer => "customer",
            Level::Organization => "organization",
            Level::Institution => "institution",
            Level::OrganizationUnit => "organization_unit",
        }
    }

    pub fn collection(&self) -> (r: &'static str)
        ensures
            r@ == self.collection_name(),
    {
        match self {
            Level::Customer => "customers",
            Level::Organization => "organizations",
            Level::Institution => "institutions",
            Level::OrganizationUnit => "organization_units",
        }
    }
}

/// Copies a list of strings, element by element.
pub fn copy_strings(v: &Vec<String>) -> (r: Vec<String>)
    ensures
        r@ == v@,
{
    let mut r: Vec<String> = Vec::new();
    let mut i: usize = 0;
    while i < v.len()
        invariant
            i <= v@.len(),
            r@ == v@.subrange(0, i as int),
        decreases v@.len() - i,
    {
        r.push(v[i].clone());
        i = i + 1;
        assert(r@ =~= v@.subrange(0, i as int));
    }
    assert(r@ =~= v@);
    r
}

/// A persisted hierarchy entity, as the repository returns it.
#[derive(Clone, Debug)]
pub struct Entity {
    pub level: Level,
    /// Scoped id in its text form (the form used in access-scope strings).
    pub id: String,
    /// Object ids from the top of the hierarchy down to this entity, in hex.
    pub path: Vec<String>,
    pub name: String,
    /// Id of the user that created the entity.
    pub created_by: String,
}

/// Mathematical model of an [`Entity`].
pub ghost struct EntityView {
    pub level: Level,
    pub id: Seq<char>,
    pub path: Seq<String>,
    pub name: Seq<char>,
    pub created_by: Seq<char>,
}

impl View for Entity {
    type V = EntityView;

    open spec fn view(&self) -> EntityView {
        EntityView {
            level: self.level,
            id: self.id@,
            path: self.path@,
            name: self.name@,
            created_by: self.created_by@,
        }
    }
}

impl Entity {
    pub fn duplicate(&self) -> (r: Entity)
        ensures
            r@ == self@,
    {
        let path = copy_strings(&self.path);
        let r = Entity {
            level: self.level,
            id: self.id.clone(),
            path,
            name: self.name.clone(),
            created_by: self.created_by.clone(),
        };
        r
    }
}

} // verus!
