//! The entity repository: user records keyed by a unique, monotonically
//! assigned identifier, with create/read/update/delete/list operations.
//!
//! The model of a repository is a `Map<u32, UserView>` together with the
//! next-identifier counter. Every operation's contract is stated over
//! that map, and a failed operation leaves it exactly as it was.
use vstd::prelude::*;

use std::collections::HashMap;

use crate::utils::CustomError;

verus! {

broadcast use vstd::std_specs::hash::group_hash_axioms;

/// A user record: a unique identifier with a display name and a
/// contact address. The identifier never changes once assigned; the
/// two text fields are mutable through the repository.
#[derive(Debug)]
pub struct User {
    pub id: u32,
    pub name: String,
    pub email: String,
}

/// The mathematical value of a [`User`]: the identifier and the
/// character sequences of the two text fields.
#[verifier::ext_equal]
pub ghost struct UserView {
    pub id: u32,
    pub name: Seq<char>,
    pub email: Seq<char>,
}

impl View for User {
    type V = UserView;

    open spec fn view(&self) -> UserView {
        UserView { id: self.id, name: self.name@, email: self.email@ }
    }
}

impl PartialEq for User {
    fn eq(&self, other: &User) -> (r: bool) {
        self.id == other.id && self.name == other.name && self.email == other.email
    }
}

impl vstd::std_specs::cmp::PartialEqSpecImpl for User {
    open spec fn obeys_eq_spec() -> bool {
        true
    }

    open spec fn eq_spec(&self, other: &User) -> bool {
        self.id == other.id && self.name@ == other.name@ && self.email@ == other.email@
    }
}

/// The repository invariant, over the model: every record is stored
/// under its own identifier, and the counter is strictly greater than
/// every identifier in use.
pub open spec fn repo_inv(m: Map<u32, UserView>, next_id: u32) -> bool {
    forall|k: u32| #[trigger] m.contains_key(k) ==> m[k].id == k && k < next_id
}

/// The record an update produces: the supplied fields overwrite, the
/// omitted ones keep the stored value; the identifier never changes.
pub open spec fn updated_view(
    stored: UserView,
    id: u32,
    name: Option<String>,
    email: Option<String>,
) -> UserView {
    UserView {
        id: id,
        name: match name {
            Some(n) => n@,
            None => stored.name,
        },
        email: match email {
            Some(e) => e@,
            None => stored.email,
        },
    }
}

/// Owns the mapping from identifier to record, and the counter from
/// which new identifiers are drawn. Identifiers are never reused, not
/// even after a delete.
#[derive(Debug)]
pub struct UserRepository {
    users: HashMap<u32, User>,
    next_id: u32,
}

impl View for UserRepository {
    type V = Map<u32, UserView>;

    closed spec fn view(&self) -> Map<u32, UserView> {
        self.users@.map_values(|u: User| u@)
    }
}

impl UserRepository {
    /// The identifier that the next create will assign.
    pub closed spec fn spec_next_id(&self) -> u32 {
        self.next_id
    }

    /// Well-formedness: the invariant holds of the model. Constructors
    /// establish it and every operation preserves it.
    pub open spec fn wf(&self) -> bool {
        repo_inv(self@, self.spec_next_id())
    }

    /// Creates a repository seeded with two records under identifiers
    /// 1 and 2, the counter set to 3.
    pub fn new() -> (r: UserRepository)
        ensures
            r.wf(),
            r.spec_next_id() == 3,
            r@.dom() =~= set![1u32, 2u32],
            r@[1] == (UserView { id: 1, name: "Alice Johnson"@, email: "alice@example.com"@ }),
            r@[2] == (UserView { id: 2, name: "Bob Smith"@, email: "bob@example.com"@ }),
    {
        let mut users: HashMap<u32, User> = HashMap::new();
        users.insert(
            1,
            User {
                id: 1,
                name: String::from_str("Alice Johnson"),
                email: String::from_str("alice@example.com"),
            },
        );
        users.insert(
            2,
            User {
                id: 2,
                name: String::from_str("Bob Smith"),
                email: String::from_str("bob@example.com"),
            },
        );
        let r = UserRepository { users, next_id: 3 };
        proof {
            assert(r@.dom() =~= set![1u32, 2u32]);
        }
        r
    }

    /// Looks a record up by identifier. A missing identifier is an
    /// expected outcome, answered with `None`, never an error.
    pub fn get_user(&self, id: u32) -> (r: Option<&User>)
        ensures
            match r {
                Some(u) => self@.contains_key(id) && u@ == self@[id],
                None => !self@.contains_key(id),
            },
    {
        let r = self.users.get(&id);
        proof {
            if self.users@.contains_key(id) {
                assert(self@.contains_key(id) && self@[id] == self.users@[id]@);
            }
        }
        r
    }

    /// Allocates the next identifier, inserts a record with the given
    /// fields under it, and returns a copy of the created record.
    /// Creation always succeeds, and the new identifier is fresh: it was
    /// never in the map before.
    pub fn create_user(&mut self, name: String, email: String) -> (r: User)
        requires
            old(self).wf(),
            old(self).spec_next_id() < u32::MAX,
        ensures
            final(self).wf(),
            r@ == (UserView { id: old(self).spec_next_id(), name: name@, email: email@ }),
            !old(self)@.contains_key(r.id),
            final(self)@ == old(self)@.insert(r.id, r@),
            final(self).spec_next_id() == old(self).spec_next_id() + 1,
    {
        let id = self.next_id;
        let r = User { id: id, name: name.clone(), email: email.clone() };
        self.users.insert(id, User { id: id, name: name, email: email });
        self.next_id = id + 1;
        proof {
            assert(final(self)@ =~= old(self)@.insert(id, r@));
        }
        r
    }

    /// Overwrites the supplied fields of the record under `id`, leaving
    /// the omitted ones untouched, and returns a copy of the updated
    /// record; supplying neither field returns the record unchanged.
    /// Fails with `NotFound`, and changes nothing, exactly when `id` is
    /// absent.
    pub fn update_user(&mut self, id: u32, name: Option<String>, email: Option<String>) -> (r:
        Result<User, CustomError>)
        requires
            old(self).wf(),
        ensures
            final(self).wf(),
            final(self).spec_next_id() == old(self).spec_next_id(),
            !old(self)@.contains_key(id) ==> r == Result::<User, CustomError>::Err(
                CustomError::NotFound,
            ) && final(self)@ == old(self)@,
            old(self)@.contains_key(id) ==> (r matches Ok(u) && u@ == updated_view(
                old(self)@[id],
                id,
                name,
                email,
            ) && final(self)@ == old(self)@.insert(id, u@)),
    {
        let (cur_name, cur_email) = match self.users.get(&id) {
            None => {
                return Err(CustomError::NotFound);
            },
            Some(u) => (u.name.clone(), u.email.clone()),
        };
        let new_name = match name {
            Some(n) => n,
            None => cur_name,
        };
        let new_email = match email {
            Some(e) => e,
            None => cur_email,
        };
        let r = User { id: id, name: new_name.clone(), email: new_email.clone() };
        self.users.insert(id, User { id: id, name: new_name, email: new_email });
        proof {
            assert(old(self)@.contains_key(id));
            assert(final(self)@ =~= old(self)@.insert(id, r@));
            assert forall|k: u32| #[trigger] final(self)@.contains_key(k) implies final(self)@[k].id
                == k && k < final(self).spec_next_id() by {
                if k != id {
                    assert(old(self)@.contains_key(k));
                }
            }
        }
        Ok(r)
    }

    /// Removes and returns the record under `id`. Fails with
    /// `NotFound`, and changes nothing, exactly when `id` is absent.
    pub fn delete_user(&mut self, id: u32) -> (r: Result<User, CustomError>)
        requires
            old(self).wf(),
        ensures
            final(self).wf(),
            final(self).spec_next_id() == old(self).spec_next_id(),
            !old(self)@.contains_key(id) ==> r == Result::<User, CustomError>::Err(
                CustomError::NotFound,
            ) && final(self)@ == old(self)@,
            old(self)@.contains_key(id) ==> (r matches Ok(u) && u@ == old(self)@[id]
                && final(self)@ == old(self)@.remove(id)),
    {
        match self.users.remove(&id) {
            None => {
                proof {
                    assert(final(self)@ =~= old(self)@);
                }
                Err(CustomError::NotFound)
            },
            Some(u) => {
                proof {
                    assert(final(self)@ =~= old(self)@.remove(id));
                }
                Ok(u)
            },
        }
    }

    /// Returns a copy of every stored record, in increasing identifier
    /// order. The contract pins the output completely: its elements are
    /// exactly the stored records, each under its own identifier, with
    /// strictly increasing identifiers.
    pub fn list_users(&self) -> (r: Vec<User>)
        requires
            self.wf(),
        ensures
            forall|j: int|
                0 <= j < r@.len() ==> self@.contains_key((#[trigger] r@[j]).id) && r@[j]@
                    == self@[r@[j].id],
            forall|k: u32|
                #[trigger] self@.contains_key(k) ==> exists|j: int|
                    0 <= j < r@.len() && (#[trigger] r@[j]).id == k,
            forall|j1: int, j2: int| 0 <= j1 < j2 < r@.len() ==> r@[j1].id < r@[j2].id,
    {
        let mut r: Vec<User> = Vec::new();
        let mut id: u32 = 0;
        while id < self.next_id
            invariant
                self.wf(),
                id <= self.next_id,
                forall|j: int|
                    0 <= j < r@.len() ==> self@.contains_key((#[trigger] r@[j]).id) && r@[j]@
                        == self@[r@[j].id] && r@[j].id < id,
                forall|k: u32|
                    #[trigger] self@.contains_key(k) && k < id ==> exists|j: int|
                        0 <= j < r@.len() && (#[trigger] r@[j]).id == k,
                forall|j1: int, j2: int| 0 <= j1 < j2 < r@.len() ==> r@[j1].id < r@[j2].id,
            decreases self.next_id - id,
        {
            match self.users.get(&id) {
                Some(u) => {
                    proof {
                        assert(self@.contains_key(id) && self@[id] == self.users@[id]@);
                        assert(u.id == id);
                    }
                    let ghost r0 = r@;
                    r.push(User { id: u.id, name: u.name.clone(), email: u.email.clone() });
                    proof {
                        assert(r@[r@.len() - 1].id == id);
                        assert forall|k: u32|
                            #[trigger] self@.contains_key(k) && k < id + 1 implies exists|j: int|
                            0 <= j < r@.len() && (#[trigger] r@[j]).id == k by {
                            if k == id {
                                assert(r@[r@.len() - 1].id == k);
                            } else {
                                let j = choose|j: int|
                                    0 <= j < r0.len() && (#[trigger] r0[j]).id == k;
                                assert(r@[j].id == k);
                            }
                        }
                    }
                },
                None => {
                    proof {
                        assert(!self@.contains_key(id));
                    }
                },
            }
            id += 1;
        }
        r
    }
}

/// Law: creation followed by lookup. When the counter dominates every
/// identifier in use, the freshly assigned identifier is absent from
/// the map, looking it up right after the insertion yields exactly the
/// created record, and it is strictly greater than every identifier
/// present before.
pub proof fn lemma_create_then_get(
    m: Map<u32, UserView>,
    next_id: u32,
    name: Seq<char>,
    email: Seq<char>,
)
    requires
        repo_inv(m, next_id),
    ensures
        !m.contains_key(next_id),
        m.insert(next_id, UserView { id: next_id, name: name, email: email })[next_id] == (UserView {
            id: next_id,
            name: name,
            email: email,
        }),
        forall|k: u32| #[trigger] m.contains_key(k) ==> k < next_id,
{
}

} // verus!
