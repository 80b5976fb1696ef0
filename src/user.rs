use vstd::prelude::*;
use vstd::string::*;

use crate::error::ProvisionError;
use crate::model::Level;

verus! {

/// Where in the hierarchy a user (or a sub-level entity) lives: the level,
/// with the object ids from the top of the hierarchy down to the owning
/// entity.
#[derive(Clone, Debug)]
pub enum Owner {
    Customer(Vec<String>),
    Organization(Vec<String>),
    Institution(Vec<String>),
    OrganizationUnit(Vec<String>),
}

impl Owner {
    pub open spec fn level(&self) -> Level {
        match self {
            Owner::Customer(_) => Level::Customer,
            Owner::Organization(_) => Level::Organization,
            Owner::Institution(_) => Level::Institution,
            Owner::OrganizationUnit(_) => Level::OrganizationUnit,
        }
    }

    pub open spec fn path(&self) -> Seq<String> {
        match self {
            Owner::Customer(p) => p@,
            Owner::Organization(p) => p@,
            Owner::Institution(p) => p@,
            Owner::OrganizationUnit(p) => p@,
        }
    }

    /// Builds the owner of the given level.
    pub fn new(level: Level, path: Vec<String>) -> (r: Owner)
        ensures
            r.level() == level,
            r.path() == path@,
    {
        match level {
            Level::Customer => Owner::Customer(path),
            Level::Organization => Owner::Organization(path),
            Level::Institution => Owner::Institution(path),
            Level::OrganizationUnit => Owner::OrganizationUnit(path),
        }
    }
}

/// An action a user must take at the next login.
#[derive(Clone, Copy, Debug, PartialEq, Eq, Structural)]
pub enum RequiredUserAction {
    UpdatePassword,
}

impl RequiredUserAction {
    pub open spec fn text(self) -> Seq<char> {
        match self {
            RequiredUserAction::UpdatePassword => "UPDATE_PASSWORD"@,
        }
    }

    /// The action's name as the identity provider spells it.
    pub fn as_str(&self) -> (r: &'static str)
        ensures
            r@ == self.text(),
    {
        match self {
            RequiredUserAction::UpdatePassword => "UPDATE_PASSWORD",
        }
    }
}

/// Profile data of a user to create.
#[derive(Clone, Debug, Default)]
pub struct UserInput {
    pub username: String,
    pub firstname: String,
    pub lastname: String,
    pub password: String,
    pub email: String,
    pub phone: Option<String>,
    pub salutation: Option<String>,
    pub room_number: Option<String>,
    pub job_title: Option<String>,
    pub enabled: Option<bool>,
    pub required_actions: Option<Vec<RequiredUserAction>>,
}

/// Request to create a user attached to an owner in the hierarchy.
#[derive(Clone, Debug)]
pub struct CreateUserInput {
    pub user: UserInput,
    pub group: String,
    pub access: String,
    pub context: Owner,
}


/// The text of an optional string, as a sequence.
pub open spec fn opt_text(o: Option<String>) -> Option<Seq<char>> {
    match o {
        Some(s) => Some(s@),
        None => None,
    }
}

/// The text of an optional string, empty when there is none.
pub open spec fn text_or_empty(o: Option<String>) -> Seq<char> {
    match o {
        Some(s) => s@,
        None => Seq::empty(),
    }
}

fn string_or_empty(o: Option<String>) -> (r: String)
    ensures
        r@ == text_or_empty(o),
{
    match o {
        Some(s) => s,
        None => String::new(),
    }
}

/// Value of a profile attribute, as far as it is read here.
#[derive(Clone, Debug)]
pub enum AttributeValue {
    Text(String),
    /// A list: the text of each element that is a string, none for others.
    List(Vec<Option<String>>),
    Other,
}

/// The text an attribute value stands for: the string itself, or the first
/// element of a list when that is a string.
pub open spec fn value_text(v: AttributeValue) -> Option<Seq<char>> {
    match v {
        AttributeValue::Text(s) => Some(s@),
        AttributeValue::List(items) => if items@.len() > 0 {
            opt_text(items@[0])
        } else {
            None
        },
        AttributeValue::Other => None,
    }
}

/// The value stored under `key`: the first entry with that key.
pub open spec fn lookup(attrs: Seq<(String, AttributeValue)>, key: Seq<char>) -> Option<
    AttributeValue,
>
    decreases attrs.len(),
{
    if attrs.len() == 0 {
        None
    } else if attrs[0].0@ == key {
        Some(attrs[0].1)
    } else {
        lookup(attrs.drop_first(), key)
    }
}

/// The text of the attribute `key`, if there is one.
pub open spec fn attribute_text(attrs: Seq<(String, AttributeValue)>, key: Seq<char>) -> Option<
    Seq<char>,
> {
    match lookup(attrs, key) {
        Some(v) => value_text(v),
        None => None,
    }
}

fn text_of(v: &AttributeValue) -> (r: Option<String>)
    ensures
        opt_text(r) == value_text(*v),
{
    match v {
        AttributeValue::Text(s) => Some(s.clone()),
        AttributeValue::List(items) => {
            if items.len() > 0 {
                match &items[0] {
                    Some(s) => Some(s.clone()),
                    None => None,
                }
            } else {
                None
            }
        },
        AttributeValue::Other => None,
    }
}

/// Reads the text of the attribute `key` from a user's attributes.
pub fn get_attribute(attributes: Option<&Vec<(String, AttributeValue)>>, key: &str) -> (r: Option<
    String,
>)
    ensures
        attributes is None ==> r is None,
        attributes matches Some(a) ==> opt_text(r) == attribute_text(a@, key@),
{
    match attributes {
        None => None,
        Some(a) => {
            let k = String::from_str(key);
            let mut i: usize = 0;
            assert(a@.subrange(0, a@.len() as int) =~= a@);
            while i < a.len()
                invariant
                    i <= a@.len(),
                    attributes == Some(a),
                    k@ == key@,
                    lookup(a@, key@) == lookup(a@.subrange(i as int, a@.len() as int), key@),
                decreases a@.len() - i,
            {
                let ghost rest = a@.subrange(i as int, a@.len() as int);
                assert(rest[0] == a@[i as int]);
                if a[i].0 == k {
                    assert(rest[0].0@ == key@);
                    assert(lookup(rest, key@) == Some(rest[0].1));
                    return text_of(&a[i].1);
                }
                assert(rest.drop_first() =~= a@.subrange(i + 1, a@.len() as int));
                i = i + 1;
            }
            None
        },
    }
}

/// A user as the identity provider describes it.
#[derive(Clone, Debug, Default)]
pub struct UserRepresentation {
    pub id: Option<String>,
    pub first_name: Option<String>,
    pub last_name: Option<String>,
    pub username: Option<String>,
    pub email: Option<String>,
    pub enabled: Option<bool>,
    pub attributes: Option<Vec<(String, AttributeValue)>>,
}

/// Profile details of a user.
#[derive(Clone, Debug)]
pub struct UserDetails {
    /// The sixteen bytes of the user's uuid.
    pub user_id: [u8; 16],
    pub firstname: String,
    pub lastname: String,
    pub username: String,
    pub email: String,
    pub phone: Option<String>,
    pub salutation: Option<String>,
    pub job_title: Option<String>,
    pub enabled: bool,
}

/// Why user details could not be read from a representation.
#[derive(Clone, Copy, Debug, PartialEq, Eq, Structural)]
pub enum DetailsError {
    /// The representation has no id, or its id is no uuid.
    MissingUserId,
}

/// The bytes of the uuid that a text spells, if it spells one.
pub uninterp spec fn uuid_parse(s: Seq<char>) -> Option<Seq<u8>>;

/// Relies on bson::Uuid::parse_str (which hands the text to
/// uuid::Uuid::parse_str) and bson::Uuid::bytes: the result depends on the
/// text alone.
#[verifier::external_body]
fn parse_uuid(s: &str) -> (r: Option<[u8; 16]>)
    ensures
        r is Some <==> uuid_parse(s@) is Some,
        r matches Some(b) ==> uuid_parse(s@) == Some(b@),
{
    match bson::Uuid::parse_str(s) {
        Ok(u) => Some(u.bytes()),
        Err(_) => None,
    }
}

impl UserDetails {
    /// Whether `d` holds what `value` says, with `user_id` as the user's id.
    pub open spec fn describes(d: UserDetails, user_id: [u8; 16], value: UserRepresentation) -> bool {
        &&& d.user_id == user_id
        &&& d.firstname@ == text_or_empty(value.first_name)
        &&& d.lastname@ == text_or_empty(value.last_name)
        &&& d.username@ == text_or_empty(value.username)
        &&& d.email@ == text_or_empty(value.email)
        &&& opt_text(d.phone) == match value.attributes {
            Some(a) => attribute_text(a@, "phone"@),
            None => None,
        }
        &&& opt_text(d.salutation) == match value.attributes {
            Some(a) => attribute_text(a@, "salutation"@),
            None => None,
        }
        &&& opt_text(d.job_title) == match value.attributes {
            Some(a) => attribute_text(a@, "job-title"@),
            None => None,
        }
        &&& d.enabled == value.enabled.unwrap_or(false)
    }

    /// Builds user details from a representation whose id has already been
    /// read as `user_id` (none when it is missing or no uuid).
    pub fn from_parsed(user_id: Option<[u8; 16]>, value: UserRepresentation) -> (r: Result<
        UserDetails,
        DetailsError,
    >)
        ensures
            user_id is None ==> r == Err::<UserDetails, DetailsError>(DetailsError::MissingUserId),
            user_id matches Some(id) ==> (r matches Ok(d) && UserDetails::describes(d, id, value)),
    {
        match user_id {
            None => Err(DetailsError::MissingUserId),
            Some(id) => {
                let phone = get_attribute(value.attributes.as_ref(), "phone");
                let salutation = get_attribute(value.attributes.as_ref(), "salutation");
                let job_title = get_attribute(value.attributes.as_ref(), "job-title");
                let enabled = match value.enabled {
                    Some(b) => b,
                    None => false,
                };
                Ok(
                    UserDetails {
                        user_id: id,
                        firstname: string_or_empty(value.first_name),
                        lastname: string_or_empty(value.last_name),
                        username: string_or_empty(value.username),
                        email: string_or_empty(value.email),
                        phone,
                        salutation,
                        job_title,
                        enabled,
                    },
                )
            },
        }
    }

    /// Reads user details from the identity provider's representation; fails
    /// when the representation has no id or its id is no uuid.
    pub fn try_from(value: UserRepresentation) -> (r: Result<UserDetails, DetailsError>)
        ensures
            match value.id {
                None => r == Err::<UserDetails, DetailsError>(DetailsError::MissingUserId),
                Some(id) => match uuid_parse(id@) {
                    None => r == Err::<UserDetails, DetailsError>(DetailsError::MissingUserId),
                    Some(b) => r matches Ok(d) && d.user_id@ == b && UserDetails::describes(
                        d,
                        d.user_id,
                        value,
                    ),
                },
            },
    {
        let user_id = match &value.id {
            Some(id) => parse_uuid(id.as_str()),
            None => None,
        };
        UserDetails::from_parsed(user_id, value)
    }
}

/// Who changed a record, and when (milliseconds since the Unix epoch).
#[derive(Clone, Debug)]
pub struct Modification {
    pub user_id: String,
    pub at: i64,
}

/// A user attached to an owner in the hierarchy.
#[derive(Clone, Debug)]
pub struct User {
    pub owner: Owner,
    pub groups: Vec<String>,
    pub access: String,
    pub custom_groups: Vec<String>,
    pub details: UserDetails,
    pub created: Modification,
    pub modified: Option<Modification>,
}

impl User {
    /// The owner's object ids, to be changed in place.
    pub fn as_mut(&mut self) -> (r: &mut Vec<String>)
        ensures
            r@ == old(self).owner.path(),
            final(self).owner.level() == old(self).owner.level(),
            final(self).owner.path() == final(r)@,
            final(self).access == old(self).access,
            final(self).groups == old(self).groups,
    {
        match &mut self.owner {
            Owner::Customer(v) => v,
            Owner::Organization(v) => v,
            Owner::Institution(v) => v,
            Owner::OrganizationUnit(v) => v,
        }
    }
}

/// What a new user is made of.
#[derive(Clone, Debug)]
pub struct UserData {
    pub owner: Owner,
    pub groups: Vec<String>,
    pub details: UserDetails,
    pub access: String,
}

impl UserData {
    /// Makes the user record, created by `acting_user` at `now`; without an
    /// acting user the call is forbidden.
    pub fn create(self, acting_user: Option<String>, now: i64) -> (r: Result<User, ProvisionError>)
        ensures
            acting_user is None ==> r == Err::<User, ProvisionError>(ProvisionError::Forbidden),
            acting_user matches Some(u) ==> (r matches Ok(user) && user.owner == self.owner
                && user.groups == self.groups && user.access == self.access
                && user.custom_groups@.len() == 0 && user.details == self.details
                && user.created == (Modification { user_id: u, at: now })
                && user.modified is None),
    {
        match acting_user {
            None => Err(ProvisionError::Forbidden),
            Some(u) => Ok(
                User {
                    owner: self.owner,
                    groups: self.groups,
                    access: self.access,
                    custom_groups: Vec::new(),
                    details: self.details,
                    created: Modification { user_id: u, at: now },
                    modified: None,
                },
            ),
        }
    }
}

/// A page of users.
#[derive(Clone, Debug, Default)]
pub struct UserList {
    pub items: Vec<User>,
    pub limit: Option<i64>,
    pub total: Option<i64>,
    pub page: Option<i64>,
}

} // verus!
