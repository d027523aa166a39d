use vstd::prelude::*;
use crate::api_error::{already_exists, not_found, ApiError};
use crate::keyed::{entry_refs, lemma_values_where_all, lemma_values_where_step, values_where};
use crate::principal::{principal_text, Principal};

verus! {

/// A user and the ids of their circuits.
#[derive(Clone, Debug)]
pub struct User {
    pub user_id: Principal,
    pub username: Option<String>,
    pub created_at: u64,
    pub circuits: Vec<u32>,
}

impl User {
    /// The anonymous user, with no name and no circuits.
    pub fn default() -> (r: User)
        ensures
            r.user_id@ == seq![4u8],
            r.username is None,
            r.created_at == 0,
            r.circuits@.len() == 0,
    {
        User { user_id: Principal::anonymous(), username: None, created_at: 0, circuits: Vec::new() }
    }
}

/// Every user key.
pub open spec fn any_user() -> spec_fn(String) -> bool {
    |k: String| true
}

/// The users, keyed by the text of their principal, in the order they were created.
pub struct UsersStore {
    pub users: Vec<(String, User)>,
}

impl UsersStore {
    /// No two entries share a key.
    pub open spec fn wf(&self) -> bool {
        forall|i: int, j: int|
            0 <= i < j < self.users@.len() ==> #[trigger] self.users@[i].0@ != #[trigger] self.users@[j].0@
    }

    /// Whether entry `i` is the user with the given key.
    pub open spec fn holds_at(&self, i: int, key: Seq<char>) -> bool {
        0 <= i < self.users@.len() && self.users@[i].0@ == key
    }

    /// Whether the store holds a user with the given key.
    pub open spec fn holds(&self, key: Seq<char>) -> bool {
        exists|i: int| self.holds_at(i, key)
    }

    /// An empty store.
    pub fn new() -> (r: UsersStore)
        ensures
            r.wf(),
            r.users@.len() == 0,
    {
        UsersStore { users: Vec::new() }
    }

    fn find(&self, key: &String) -> (r: Option<usize>)
        ensures
            r is Some <==> self.holds(key@),
            r matches Some(i) ==> self.holds_at(i as int, key@),
    {
        let n = self.users.len();
        let mut i: usize = 0;
        while i < n
            invariant
                n == self.users@.len(),
                i <= n,
                forall|j: int| 0 <= j < i ==> !#[trigger] self.holds_at(j, key@),
            decreases n - i,
        {
            if self.users[i].0 == *key {
                assert(self.holds_at(i as int, key@));
                return Some(i);
            }
            i = i + 1;
        }
        None
    }

    /// All users.
    pub fn get_users(&self) -> (r: Vec<&User>)
        ensures
            r@ == values_where(entry_refs(&self.users), any_user()),
    {
        let ghost p = any_user();
        let n = self.users.len();
        let mut r: Vec<&User> = Vec::new();
        let mut i: usize = 0;
        proof { lemma_values_where_all(&self.users, p); }
        while i < n
            invariant
                n == self.users@.len(),
                i <= n,
                p == any_user(),
                r@ == values_where(entry_refs(&self.users).subrange(0, i as int), p),
            decreases n - i,
        {
            proof {
                lemma_values_where_step(&self.users, i as int, p);
                assert(p(self.users@[i as int].0));
            }
            r.push(&self.users[i].1);
            i = i + 1;
        }
        r
    }

    /// The caller's user.
    pub fn get_user(&self, caller_principal: &Principal) -> (r: Result<&User, ApiError>)
        ensures
            r is Ok <==> self.holds(principal_text(caller_principal@)),
            r matches Ok(u) ==> exists|i: int|
                self.holds_at(i, principal_text(caller_principal@)) && u == &self.users@[i].1,
            r matches Err(e) ==> e matches ApiError::NotFound(m) && m@ == "USER_NOT_FOUND"@,
    {
        let key = caller_principal.to_text();
        match self.find(&key) {
            Some(i) => Ok(&self.users[i].1),
            None => Err(not_found("USER_NOT_FOUND")),
        }
    }

    /// Creates the caller's user, created `now` with no circuits, unless it exists.
    pub fn create_user(&mut self, caller_principal: &Principal, username: Option<String>, now: u64) -> (r: Result<&User, ApiError>)
        requires
            old(self).wf(),
        ensures
            final(self).wf(),
            r is Ok <==> !old(self).holds(principal_text(caller_principal@)),
            r is Err ==> *final(self) == *old(self),
            r matches Err(e) ==> e matches ApiError::AlreadyExists(m) && m@ == "USER_EXISTS"@,
            r is Ok ==> final(self).users@.len() == old(self).users@.len() + 1
                && final(self).users@.drop_last() == old(self).users@
                && final(self).users@.last().0@ == principal_text(caller_principal@)
                && r == Ok::<&User, ApiError>(&final(self).users@.last().1),
            r matches Ok(u) ==> u.user_id == *caller_principal && u.username == username
                && u.created_at == now && u.circuits@.len() == 0,
    {
        let key = caller_principal.to_text();
        if self.find(&key).is_some() {
            return Err(already_exists("USER_EXISTS"));
        }
        let user = User { user_id: *caller_principal, username, created_at: now, circuits: Vec::new() };
        let n = self.users.len();
        self.users.push((key, user));
        proof {
            assert(final(self).users@.drop_last() =~= old(self).users@);
            assert forall|i: int, j: int| 0 <= i < j < final(self).users@.len() implies
                #[trigger] final(self).users@[i].0@ != #[trigger] final(self).users@[j].0@ by {
                if j == n {
                    assert(!old(self).holds_at(i, key@));
                }
            }
        }
        Ok(&self.users[n].1)
    }
}

} // verus!
