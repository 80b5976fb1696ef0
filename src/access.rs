use vstd::prelude::*;
use vstd::string::*;

use crate::model::Level;

verus! {

/// The access-scope string of an entity: the identifier of the authorization
/// role that grants access to it.
pub open spec fn access_scope(level: Level, id: Seq<char>) -> Seq<char> {
    level.access_name() + ":access@"@ + id
}

/// The ancestor ids of a scope, each followed by an underscore.
pub open spec fn scope_text(parents: Seq<String>) -> Seq<char>
    decreases parents.len(),
{
    if parents.len() == 0 {
        Seq::empty()
    } else {
        scope_text(parents.drop_last()) + parents.last()@ + "_"@
    }
}

/// The key of the distributed lock that guards creation of `name` under the
/// scope given by `parents`.
pub open spec fn lock_key_text(level: Level, parents: Seq<String>, name: Seq<char>) -> Seq<char> {
    "v1_"@ + level.access_name() + "_lock_"@ + scope_text(parents) + name
}

/// Relies on qm_role::Access::new, Access::with_fmt_id and Access's Display:
/// an access with type `ty` and id `id` prints as "{ty}:access@{id}".
#[verifier::external_body]
fn format_access(ty: &str, id: &str) -> (r: String)
    ensures
        r@ == ty@ + ":access@"@ + id@,
{
    qm_role::Access::new(std::sync::Arc::from(ty)).with_fmt_id(Some(&id)).to_string()
}

/// Computes the access-scope string of the entity of `level` whose scoped id
/// reads `id`.
pub fn access_string(level: Level, id: &str) -> (r: String)
    ensures
        r@ == access_scope(level, id@),
{
    format_access(level.access_level(), id)
}

/// Computes the lock key for creating `name` under `parents`.
pub fn lock_key(level: Level, parents: &Vec<String>, name: &str) -> (r: String)
    ensures
        r@ == lock_key_text(level, parents@, name@),
{
    let mut key = String::from_str("v1_");
    key.append(level.access_level());
    key.append("_lock_");
    let ghost head = "v1_"@ + level.access_name() + "_lock_"@;
    assert(key@ == head);
    let mut i: usize = 0;
    while i < parents.len()
        invariant
            i <= parents@.len(),
            key@ == head + scope_text(parents@.subrange(0, i as int)),
        decreases parents@.len() - i,
    {
        key.append(parents[i].as_str());
        key.append("_");
        proof {
            let next = parents@.subrange(0, i + 1);
            assert(next.drop_last() =~= parents@.subrange(0, i as int));
            assert(next.last() == parents@[i as int]);
            assert(key@ =~= head + scope_text(next));
        }
        i = i + 1;
    }
    assert(parents@.subrange(0, parents@.len() as int) =~= parents@);
    key.append(name);
    assert(key@ =~= lock_key_text(level, parents@, name@));
    key
}

/// The access-scope string depends on the access level and the entity id
/// alone: computing it twice for the same pair gives the same text, so
/// ensuring its role twice asks for one role.
pub proof fn lemma_access_scope_is_pure(level: Level, id_a: Seq<char>, id_b: Seq<char>)
    requires
        id_a == id_b,
    ensures
        access_scope(level, id_a) == access_scope(level, id_b),
{
}

/// Different entity ids of one level have different access-scope strings.
pub proof fn lemma_access_scope_injective(level: Level, id_a: Seq<char>, id_b: Seq<char>)
    requires
        access_scope(level, id_a) == access_scope(level, id_b),
    ensures
        id_a == id_b,
{
    let n = (level.access_name() + ":access@"@).len();
    assert(access_scope(level, id_a).subrange(n as int, access_scope(level, id_a).len() as int) =~= id_a);
    assert(access_scope(level, id_b).subrange(n as int, access_scope(level, id_b).len() as int) =~= id_b);
}

} // verus!
