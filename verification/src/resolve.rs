//! Name resolution: turning a human-authored name into a backend identifier
//! through a freshly fetched name-to-identifier mapping.
//!
//! A mapping is the listing a backend returned, in the order it returned it,
//! as (name, identifier) pairs.  Names are matched exactly and
//! case-sensitively.  When two entries share a name the last-seen entry wins,
//! mirroring how the listings were previously folded into a hash table.
use vstd::prelude::*;

verus! {

/// Resolution failed because the name is absent from the live mapping.  This
/// is distinct from any fetch-time failure, which prevents a mapping from
/// being built at all and never reaches the resolver.
#[derive(Debug, Clone, Copy, PartialEq, Eq, Structural)]
pub enum ResolveError {
    NameNotFound,
}

impl ResolveError {
    /// The human-readable description of this error.
    pub fn message(&self) -> (r: String)
        ensures
            r@ == "name not found in the live mapping"@,
    {
        "name not found in the live mapping".to_owned()
    }
}

/// The identifier paired with the last occurrence of `name` in `mapping`,
/// or `None` when no entry carries that name.
pub open spec fn resolved(mapping: Seq<(String, String)>, name: Seq<char>) -> Option<String>
    decreases mapping.len(),
{
    if mapping.len() == 0 {
        None
    } else if mapping.last().0@ == name {
        Some(mapping.last().1)
    } else {
        resolved(mapping.drop_last(), name)
    }
}

/// Look a name up in a mapping, yielding the paired identifier if present.
pub fn lookup(mapping: &Vec<(String, String)>, name: &String) -> (r: Option<String>)
    ensures
        r == resolved(mapping@, name@),
{
    let mut i: usize = mapping.len();
    proof {
        assert(mapping@.subrange(0, mapping@.len() as int) =~= mapping@);
    }
    while i > 0
        invariant
            i <= mapping.len(),
            resolved(mapping@, name@) == resolved(mapping@.subrange(0, i as int), name@),
        decreases i,
    {
        proof {
            assert(mapping@.subrange(0, i as int).last() == mapping@[i - 1]);
            assert(mapping@.subrange(0, i as int).drop_last() =~= mapping@.subrange(
                0,
                i as int - 1,
            ));
        }
        if mapping[i - 1].0 == *name {
            return Some(mapping[i - 1].1.clone());
        }
        i = i - 1;
    }
    proof {
        assert(mapping@.subrange(0, 0) =~= Seq::<(String, String)>::empty());
    }
    None
}

/// Resolve a configured name against a live mapping, failing with
/// `NameNotFound` exactly when the name is absent.
pub fn resolve(mapping: &Vec<(String, String)>, name: &String) -> (r: Result<
    String,
    ResolveError,
>)
    ensures
        r matches Ok(id) ==> resolved(mapping@, name@) == Some(id),
        r is Err ==> r == Err::<String, ResolveError>(ResolveError::NameNotFound) && resolved(
            mapping@,
            name@,
        ) is None,
{
    match lookup(mapping, name) {
        Some(id) => Ok(id),
        None => Err(ResolveError::NameNotFound),
    }
}

/// Resolution is total and exact: a name carried by some entry resolves to
/// the identifier paired with its last occurrence, and a name carried by no
/// entry does not resolve at all.
#[verifier::rlimit(100)]
pub proof fn lemma_resolution_total_exact(mapping: Seq<(String, String)>, name: Seq<char>)
    ensures
        (resolved(mapping, name) is Some) <==> (exists|i: int|
            0 <= i < mapping.len() && (#[trigger] mapping[i]).0@ == name),
        forall|i: int|
            0 <= i < mapping.len() && (#[trigger] mapping[i]).0@ == name && (forall|j: int|
                i < j < mapping.len() ==> mapping[j].0@ != name) ==> resolved(mapping, name)
                == Some(mapping[i].1),
    decreases mapping.len(),
{
    if mapping.len() == 0 {
    } else {
        let prefix = mapping.drop_last();
        lemma_resolution_total_exact(prefix, name);
        assert(forall|i: int| 0 <= i < prefix.len() ==> prefix[i] == mapping[i]);
        let n = mapping.len() as int;
        assert(mapping[n - 1] == mapping.last());
        if mapping.last().0@ == name {
            assert(resolved(mapping, name) == Some(mapping[n - 1].1));
            assert forall|i: int|
                0 <= i < n && (#[trigger] mapping[i]).0@ == name && (forall|j: int|
                    i < j < n ==> mapping[j].0@ != name) implies resolved(mapping, name) == Some(
                mapping[i].1,
            ) by {
                if i < n - 1 {
                    assert(mapping[n - 1].0@ != name);
                    assert(false);
                }
            }
        } else {
            assert(resolved(mapping, name) == resolved(prefix, name));
            if exists|i: int| 0 <= i < n && (#[trigger] mapping[i]).0@ == name {
                let i = choose|i: int| 0 <= i < n && (#[trigger] mapping[i]).0@ == name;
                assert(i < n - 1);
                assert(prefix[i].0@ == name);
            }
            if exists|i: int| 0 <= i < prefix.len() && (#[trigger] prefix[i]).0@ == name {
                let i = choose|i: int| 0 <= i < prefix.len() && (#[trigger] prefix[i]).0@ == name;
                assert(mapping[i].0@ == name);
            }
            assert forall|i: int|
                0 <= i < n && (#[trigger] mapping[i]).0@ == name && (forall|j: int|
                    i < j < n ==> mapping[j].0@ != name) implies resolved(mapping, name) == Some(
                mapping[i].1,
            ) by {
                assert(i < prefix.len());
                assert(forall|j: int| i < j < prefix.len() ==> prefix[j].0@ != name);
                assert(resolved(prefix, name) == Some(prefix[i].1));
            }
        }
    }
}

} // verus!
