//! Listing actors together with the user and the guest behind each of them.
use crate::models::ActorId;
use std::collections::HashMap;
use vstd::prelude::*;

verus! {

/// An actor with the user and the guest that belong to it, where there are such.
pub struct ActorWithDetails<A, U, G> {
    pub actor: A,
    pub user: Option<U>,
    pub guest: Option<G>,
}

/// The records of a list keyed by actor: where several records have one actor,
/// the last of them.
pub open spec fn by_actor<T>(entries: Seq<(ActorId, T)>) -> Map<u128, T>
    decreases entries.len(),
{
    if entries.len() == 0 {
        Map::empty()
    } else {
        by_actor(entries.drop_last()).insert(entries.last().0@, entries.last().1)
    }
}

/// The value of a map at a key, if it has one.
pub open spec fn lookup<T>(m: Map<u128, T>, k: u128) -> Option<T> {
    if m.dom().contains(k) {
        Some(m[k])
    } else {
        None
    }
}

/// The actor ids of a list of actors.
pub open spec fn actor_keys<A>(actors: Seq<(ActorId, A)>) -> Seq<u128> {
    actors.map_values(|e: (ActorId, A)| e.0@)
}

/// The actor ids among the first `n` of a list.
pub open spec fn keys_before(keys: Seq<u128>, n: int) -> Set<u128> {
    Set::new(|k: u128| exists|j: int| 0 <= j < n && keys[j] == k)
}

/// The record of `records` that goes with the actor at `i`: the last record of its actor,
/// unless an earlier actor in the list has the same id (a record goes to one actor only).
pub open spec fn detail_at<T>(keys: Seq<u128>, records: Map<u128, T>, i: int) -> Option<T> {
    if keys_before(keys, i).contains(keys[i]) {
        None
    } else {
        lookup(records, keys[i])
    }
}

fn keyed_records<T>(entries: Vec<(ActorId, T)>) -> (m: HashMap<u128, T>)
    ensures
        m@ == by_actor(entries@),
{
    broadcast use vstd::std_specs::hash::group_hash_axioms;

    let ghost all = entries@;
    let mut m: HashMap<u128, T> = HashMap::new();
    for entry in it: entries
        invariant
            it.seq() == all,
            m@ == by_actor(all.take(it.index() as int)),
    {
        let (k, v) = entry;
        assert(all.take(it.index() + 1).drop_last() =~= all.take(it.index() as int));
        m.insert(k.into_inner(), v);
    }
    assert(all.take(all.len() as int) =~= all);
    m
}

/// Each actor with its user and its guest: the user (guest) whose actor id is the actor's,
/// the last one where several have it, and none for an actor whose id came earlier in
/// the list.
pub fn list_actors<A, U, G>(
    actors: Vec<(ActorId, A)>,
    users: Vec<(ActorId, U)>,
    guests: Vec<(ActorId, G)>,
) -> (details: Vec<ActorWithDetails<A, U, G>>)
    ensures
        details@.len() == actors@.len(),
        forall|i: int|
            0 <= i < details@.len() ==> {
                &&& (#[trigger] details@[i]).actor == actors@[i].1
                &&& details@[i].user == detail_at(actor_keys(actors@), by_actor(users@), i)
                &&& details@[i].guest == detail_at(actor_keys(actors@), by_actor(guests@), i)
            },
{
    broadcast use vstd::std_specs::hash::group_hash_axioms;

    let ghost all = actors@;
    let ghost keys = actor_keys(actors@);
    let ghost user_records = by_actor(users@);
    let ghost guest_records = by_actor(guests@);
    let mut users_map = keyed_records(users);
    let mut guests_map = keyed_records(guests);
    let mut details: Vec<ActorWithDetails<A, U, G>> = Vec::new();
    for entry in it: actors
        invariant
            it.seq() == all,
            keys == actor_keys(all),
            details@.len() == it.index(),
            users_map@ == user_records.remove_keys(keys_before(keys, it.index() as int)),
            guests_map@ == guest_records.remove_keys(keys_before(keys, it.index() as int)),
            forall|i: int|
                0 <= i < details@.len() ==> {
                    &&& (#[trigger] details@[i]).actor == all[i].1
                    &&& details@[i].user == detail_at(keys, user_records, i)
                    &&& details@[i].guest == detail_at(keys, guest_records, i)
                },
    {
        let ghost i = it.index() as int;
        let (id, actor) = entry;
        let key = id.into_inner();
        assert(keys[i] == key);
        let user = users_map.remove(&key);
        let guest = guests_map.remove(&key);
        assert(keys_before(keys, i + 1) =~= keys_before(keys, i).insert(key));
        details.push(ActorWithDetails { actor, user, guest });
    }
    details
}

/// A record goes to one actor at most: where two actors of the list share an id, the
/// later one gets none.
pub proof fn lemma_record_goes_to_one_actor<T>(keys: Seq<u128>, records: Map<u128, T>, i: int, j: int)
    requires
        0 <= i < j < keys.len(),
        keys[i] == keys[j],
    ensures
        detail_at(keys, records, j) is None,
{
    assert(keys_before(keys, j).contains(keys[j]));
}

} // verus!
