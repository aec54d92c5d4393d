use vstd::prelude::*;
use crate::error::ApiError;
use crate::models::User;
use crate::repo::{StoreFailure, create_user_spec, count_spec};

verus! {

/// A collection of the document store: identifier and document, in the
/// store's natural order.
pub type Collection<T> = Seq<(Seq<u8>, T)>;

pub open spec fn holds_id<T>(c: Collection<T>, id: Seq<u8>) -> bool {
    exists|i: int| 0 <= i < c.len() && (#[trigger] c[i]).0 == id
}

/// The store keeps identifiers unique within a collection.
pub open spec fn ids_unique<T>(c: Collection<T>) -> bool {
    forall|i: int, j: int| 0 <= i < c.len() && 0 <= j < c.len() && i != j ==> (#[trigger] c[i]).0 != (#[trigger] c[j]).0
}

/// The number of accounts with username `name`.
pub open spec fn username_count(c: Collection<User>, name: Seq<char>) -> nat
    decreases c.len(),
{
    if c.len() == 0 {
        0
    } else {
        username_count(c.drop_last(), name) + if c.last().1.user@ == name {
            1nat
        } else {
            0nat
        }
    }
}

/// The store's `find_one` by username.
pub open spec fn find_username(c: Collection<User>, name: Seq<char>) -> Option<User> {
    if exists|i: int| 0 <= i < c.len() && (#[trigger] c[i]).1.user@ == name {
        let i = choose|i: int| 0 <= i < c.len() && (#[trigger] c[i]).1.user@ == name;
        Some(c[i].1)
    } else {
        None
    }
}

/// Account creation against a collection: the username lookup, then the
/// insert under the identifier `fresh` that the store picks.
pub open spec fn create_account(c: Collection<User>, new_user: User, fresh: Seq<u8>) -> (Result<Seq<u8>, ApiError>, Collection<User>) {
    match create_user_spec::<User>(Ok(find_username(c, new_user.user@)), new_user) {
        Ok(doc) => (Ok(fresh), c.push((fresh, doc))),
        Err(e) => (Err(e), c),
    }
}

/// The fields an update writes: all but the identifier.
pub open spec fn user_set(stored: User, fields: User) -> User {
    User { id: stored.id, user: fields.user, password: fields.password, name: fields.name }
}

/// The store's `update_one` by identifier, without upsert: the match count
/// and the collection after it.
pub open spec fn update_one(c: Collection<User>, id: Seq<u8>, fields: User) -> (u64, Collection<User>) {
    if holds_id(c, id) {
        let i = choose|i: int| 0 <= i < c.len() && (#[trigger] c[i]).0 == id;
        (1, c.update(i, (id, user_set(c[i].1, fields))))
    } else {
        (0, c)
    }
}

/// The store's `delete_one` by identifier: the deletion count and the
/// collection after it.
pub open spec fn delete_one<T>(c: Collection<T>, id: Seq<u8>) -> (u64, Collection<T>) {
    if holds_id(c, id) {
        let i = choose|i: int| 0 <= i < c.len() && (#[trigger] c[i]).0 == id;
        (1, c.remove(i))
    } else {
        (0, c)
    }
}

proof fn lemma_no_username_when_count_zero(c: Collection<User>, name: Seq<char>)
    requires
        username_count(c, name) == 0,
    ensures
        find_username(c, name) is None,
    decreases c.len(),
{
    if c.len() > 0 {
        lemma_no_username_when_count_zero(c.drop_last(), name);
        assert forall|i: int| 0 <= i < c.len() implies (#[trigger] c[i]).1.user@ != name by {
            if i < c.len() - 1 {
                assert(c[i] == c.drop_last()[i]);
                if c[i].1.user@ == name {
                    assert(exists|k: int| 0 <= k < c.drop_last().len() && (#[trigger] c.drop_last()[k]).1.user@ == name);
                }
            }
        }
    }
}

/// Creating an account and then another with the same username: the first
/// is inserted, the second is a conflict that leaves the collection as it
/// was, and the collection holds exactly one account with that username.
pub proof fn lemma_duplicate_username_conflicts(c: Collection<User>, first: User, second: User, id1: Seq<u8>, id2: Seq<u8>)
    requires
        first.user@ == second.user@,
        username_count(c, first.user@) == 0,
    ensures
        ({
            let (r1, c1) = create_account(c, first, id1);
            let (r2, c2) = create_account(c1, second, id2);
            &&& r1 == Ok::<Seq<u8>, ApiError>(id1)
            &&& r2 == Err::<Seq<u8>, ApiError>(ApiError::Conflict)
            &&& c2 == c1
            &&& username_count(c2, first.user@) == 1
        }),
{
    let name = first.user@;
    lemma_no_username_when_count_zero(c, name);
    let c1 = c.push((id1, crate::repo::user_doc(first)));
    assert(create_account(c, first, id1) == (Ok::<Seq<u8>, ApiError>(id1), c1));
    assert(c1.drop_last() =~= c);
    assert(c1[c.len() as int].1.user@ == second.user@);
    assert(find_username(c1, second.user@) is Some);
}

/// An update of an identifier that no document holds matches nothing, is a
/// not-found outcome, and creates no document.
pub proof fn lemma_update_missing_is_not_found(c: Collection<User>, id: Seq<u8>, fields: User)
    requires
        !holds_id(c, id),
    ensures
        ({
            let (matched, after) = update_one(c, id, fields);
            &&& count_spec(Ok::<u64, StoreFailure>(matched)) == Err::<(), ApiError>(ApiError::NotFound)
            &&& after == c
        }),
{
}

/// Deleting the same identifier twice: the first deletion of a held
/// identifier succeeds, after it no document holds the identifier, and the
/// second is a not-found outcome that changes nothing.
pub proof fn lemma_second_delete_not_found<T>(c: Collection<T>, id: Seq<u8>)
    requires
        ids_unique(c),
    ensures
        ({
            let (n1, c1) = delete_one(c, id);
            let (n2, c2) = delete_one(c1, id);
            &&& holds_id(c, id) ==> count_spec(Ok::<u64, StoreFailure>(n1)) is Ok
            &&& !holds_id(c1, id)
            &&& count_spec(Ok::<u64, StoreFailure>(n2)) == Err::<(), ApiError>(ApiError::NotFound)
            &&& c2 == c1
        }),
{
    if holds_id(c, id) {
        let i = choose|i: int| 0 <= i < c.len() && (#[trigger] c[i]).0 == id;
        let c1 = c.remove(i);
        assert forall|k: int| 0 <= k < c1.len() implies (#[trigger] c1[k]).0 != id by {
            if k < i {
                assert(c1[k] == c[k]);
            } else {
                assert(c1[k] == c[k + 1]);
            }
        }
    }
}

} // verus!
