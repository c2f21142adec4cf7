//! The client's searches through what the database manager hands back:
//! finding an entity by its number and the local player by its identity, and
//! reading a yes/no reply as a connection status.
//!
//! The engine's dictionaries are read into plain values first: for each
//! entry, the value that the search compares, or `None` where the entry is
//! not a dictionary, lacks the field or holds it in another type.
use vstd::prelude::*;

verus! {

/// `i` is the first position of `key` in `keys`.
pub open spec fn first_match<K>(keys: Seq<Option<K>>, key: K, i: int) -> bool {
    &&& 0 <= i < keys.len()
    &&& keys[i] == Some(key)
    &&& forall|j: int| 0 <= j < i ==> keys[j] != Some(key)
}

/// `key` occurs nowhere in `keys`.
pub open spec fn no_match<K>(keys: Seq<Option<K>>, key: K) -> bool {
    forall|j: int| 0 <= j < keys.len() ==> keys[j] != Some(key)
}

/// Finds the first entity whose number is `entity_id`, given the number read
/// from each entry of the entity table in order.
pub fn get_entity_by_id(entity_ids: &Vec<Option<u32>>, entity_id: u32) -> (r: Option<usize>)
    ensures
        r matches Some(i) ==> first_match(entity_ids@, entity_id, i as int),
        r is None ==> no_match(entity_ids@, entity_id),
        r matches Some(i) ==> i < entity_ids.len() && entity_ids@[i as int] == Some(entity_id),
        r matches Some(i) ==> forall|j: int| 0 <= j < i ==> entity_ids@[j] != Some(entity_id),
        r is None ==> forall|j: int| 0 <= j < entity_ids.len() ==> entity_ids@[j] != Some(entity_id),
{
    let mut i: usize = 0;
    while i < entity_ids.len()
        invariant
            i <= entity_ids.len(),
            forall|j: int| 0 <= j < i ==> entity_ids@[j] != Some(entity_id),
        decreases entity_ids.len() - i,
    {
        match entity_ids[i] {
            Some(id) => {
                if id == entity_id {
                    return Some(i);
                }
            },
            None => {},
        }
        i = i + 1;
    }
    None
}

/// The entries' identities as plain character sequences.
pub open spec fn identity_views(identities: Seq<Option<String>>) -> Seq<Option<Seq<char>>> {
    identities.map_values(|o: Option<String>| match o {
        Some(s) => Some(s@),
        None => None,
    })
}

/// Finds the first player whose identity is `identity`, given the identity
/// read from each entry of the player table in order.
pub fn get_my_player(identities: &Vec<Option<String>>, identity: &String) -> (r: Option<usize>)
    ensures
        r matches Some(i) ==> first_match(identity_views(identities@), identity@, i as int),
        r is None ==> no_match(identity_views(identities@), identity@),
        r matches Some(i) ==> i < identities.len() && (identities@[i as int] matches Some(s) && s@ == identity@),
        r matches Some(i) ==> forall|j: int| 0 <= j < i ==> !(#[trigger] identities@[j] matches Some(s) && s@ == identity@),
        r is None ==> forall|j: int| 0 <= j < identities.len() ==> !(#[trigger] identities@[j] matches Some(s) && s@ == identity@),
{
    let ghost views = identity_views(identities@);
    let mut i: usize = 0;
    while i < identities.len()
        invariant
            i <= identities.len(),
            views == identity_views(identities@),
            forall|j: int| 0 <= j < i ==> views[j] != Some(identity@),
            forall|j: int| 0 <= j < i ==> !(#[trigger] identities@[j] matches Some(s) && s@ == identity@),
        decreases identities.len() - i,
    {
        assert(views[i as int] == (match identities@[i as int] {
            Some(s) => Some(s@),
            None => None,
        }));
        match &identities[i] {
            Some(id) => {
                if *id == *identity {
                    return Some(i);
                }
            },
            None => {},
        }
        i = i + 1;
    }
    None
}

/// The connection status that a reply gives: connected only when the reply
/// came and said so; no reply, or one that is not a yes/no, counts as not
/// connected.
pub fn connection_status(reply: Option<bool>) -> (connected: bool)
    ensures
        connected == (reply == Some(true)),
{
    match reply {
        Some(b) => b,
        None => false,
    }
}

} // verus!
