//! The table of accounts.

use vstd::prelude::*;
use crate::authentication::{StoredCredentials, UserId};
use crate::entities::{UserRow, UserView};
use crate::text::same_text;

verus! {

/// The table of accounts. No identity and no user name occurs twice.
pub struct Users {
    rows: Vec<UserRow>,
}

/// Whether an account with this identity is stored.
pub open spec fn has_user(rows: Seq<UserView>, user_id: u128) -> bool {
    exists|i: int| 0 <= i < rows.len() && (#[trigger] rows[i]).user_id == user_id
}

/// Whether an account with this user name is stored.
pub open spec fn has_username(rows: Seq<UserView>, username: Seq<char>) -> bool {
    exists|i: int| 0 <= i < rows.len() && (#[trigger] rows[i]).username == username
}

/// The account with this user name, if one is stored.
pub open spec fn user_named(rows: Seq<UserView>, username: Seq<char>) -> Option<UserView> {
    if has_username(rows, username) {
        Some(rows[choose|i: int| 0 <= i < rows.len() && (#[trigger] rows[i]).username == username])
    } else {
        None
    }
}

/// The account with this identity, if one is stored.
pub open spec fn user_with_id(rows: Seq<UserView>, user_id: u128) -> Option<UserView> {
    if has_user(rows, user_id) {
        Some(rows[choose|i: int| 0 <= i < rows.len() && (#[trigger] rows[i]).user_id == user_id])
    } else {
        None
    }
}

/// The table after the password hash of one account was overwritten:
/// that account holds the new hash, and every other row is as before.
pub open spec fn with_password_hash(rows: Seq<UserView>, user_id: u128, hash: Seq<char>) -> Seq<
    UserView,
> {
    Seq::new(
        rows.len(),
        |i: int|
            if rows[i].user_id == user_id {
                UserView { password_hash: hash, ..rows[i] }
            } else {
                rows[i]
            },
    )
}

/// The constraints of the table of accounts.
pub open spec fn users_consistent(rows: Seq<UserView>) -> bool {
    &&& forall|i: int, j: int|
        0 <= i < j < rows.len() ==> (#[trigger] rows[i]).user_id != (#[trigger] rows[j]).user_id
    &&& forall|i: int, j: int|
        0 <= i < j < rows.len() ==> (#[trigger] rows[i]).username != (#[trigger] rows[j]).username
}

impl View for Users {
    type V = Seq<UserView>;

    closed spec fn view(&self) -> Seq<UserView> {
        Seq::new(self.rows@.len(), |i: int| self.rows@[i]@)
    }
}

impl Users {
    /// Whether the table meets its constraints.
    pub open spec fn consistent(&self) -> bool {
        users_consistent(self@)
    }

    /// An empty table.
    pub fn new() -> (users: Users)
        ensures
            users.consistent(),
            users@ == Seq::<UserView>::empty(),
    {
        let users = Users { rows: Vec::new() };
        assert(users@ =~= Seq::<UserView>::empty());
        users
    }

    fn position_of_name(&self, username: &str) -> (at: Option<usize>)
        requires
            self.consistent(),
        ensures
            at is Some <==> has_username(self@, username@),
            at matches Some(i) ==> i < self.rows@.len() && self@[i as int].username == username@
                && user_named(self@, username@) == Some(self@[i as int]),
    {
        let mut i: usize = 0;
        while i < self.rows.len()
            invariant
                self.consistent(),
                i <= self.rows.len(),
                forall|j: int| 0 <= j < i ==> (#[trigger] self@[j]).username != username@,
            decreases self.rows.len() - i,
        {
            if same_text(self.rows[i].username.as_str(), username) {
                proof {
                    let rows = self@;
                    assert(rows[i as int].username == username@);
                    let k = choose|k: int|
                        0 <= k < rows.len() && (#[trigger] rows[k]).username == username@;
                    if k < i {
                        assert(rows[k].username != rows[i as int].username);
                    } else if k > i {
                        assert(rows[i as int].username != rows[k].username);
                    }
                }
                return Some(i);
            }
            i += 1;
        }
        None
    }

    fn position_of_id(&self, user_id: u128) -> (at: Option<usize>)
        requires
            self.consistent(),
        ensures
            at is Some <==> has_user(self@, user_id),
            at matches Some(i) ==> i < self.rows@.len() && self@[i as int].user_id == user_id
                && user_with_id(self@, user_id) == Some(self@[i as int]),
    {
        let mut i: usize = 0;
        while i < self.rows.len()
            invariant
                self.consistent(),
                i <= self.rows.len(),
                forall|j: int| 0 <= j < i ==> (#[trigger] self@[j]).user_id != user_id,
            decreases self.rows.len() - i,
        {
            if self.rows[i].user_id == user_id {
                proof {
                    let rows = self@;
                    assert(rows[i as int].user_id == user_id);
                    let k = choose|k: int|
                        0 <= k < rows.len() && (#[trigger] rows[k]).user_id == user_id;
                    if k < i {
                        assert(rows[k].user_id != rows[i as int].user_id);
                    } else if k > i {
                        assert(rows[i as int].user_id != rows[k].user_id);
                    }
                }
                return Some(i);
            }
            i += 1;
        }
        None
    }

    /// Stores a new account, unless its identity or its user name is
    /// taken.
    pub fn insert(&mut self, user: UserRow) -> (stored: bool)
        requires
            old(self).consistent(),
        ensures
            final(self).consistent(),
            stored == (!has_user(old(self)@, user.user_id) && !has_username(
                old(self)@,
                user.username@,
            )),
            stored ==> final(self)@ == old(self)@.push(user@),
            !stored ==> final(self)@ == old(self)@,
    {
        if self.position_of_id(user.user_id).is_some() || self.position_of_name(
            user.username.as_str(),
        ).is_some() {
            return false;
        }
        let ghost before = self@;
        let ghost u = user@;
        self.rows.push(user);
        assert(self@ =~= before.push(u));
        true
    }

    /// What is stored for a user name: the identity and the password
    /// hash of the account, or nothing for an unknown name.
    pub fn get_stored_credentials(&self, username: &str) -> (stored: Option<StoredCredentials>)
        requires
            self.consistent(),
        ensures
            match user_named(self@, username@) {
                Some(user) => stored is Some && stored->Some_0.user_id == UserId(user.user_id)
                    && stored->Some_0.password_hash@ == user.password_hash,
                None => stored is None,
            },
    {
        match self.position_of_name(username) {
            None => None,
            Some(i) => Some(
                StoredCredentials {
                    user_id: UserId(self.rows[i].user_id),
                    password_hash: self.rows[i].password_hash.clone(),
                },
            ),
        }
    }

    /// The account with the given identity, if it is stored.
    pub fn get_user(&self, user_id: UserId) -> (user: Option<UserRow>)
        requires
            self.consistent(),
        ensures
            match user_with_id(self@, user_id.0) {
                Some(found) => user is Some && user->Some_0@ == found,
                None => user is None,
            },
    {
        match self.position_of_id(user_id.0) {
            None => None,
            Some(i) => Some(
                UserRow {
                    user_id: self.rows[i].user_id,
                    username: self.rows[i].username.clone(),
                    password_hash: self.rows[i].password_hash.clone(),
                },
            ),
        }
    }

    /// Overwrites the password hash of one account. An identity that is
    /// not stored changes nothing.
    pub fn set_password_hash(&mut self, user_id: UserId, password_hash: String)
        requires
            old(self).consistent(),
        ensures
            final(self).consistent(),
            final(self)@ == with_password_hash(old(self)@, user_id.0, password_hash@),
    {
        let ghost before = self@;
        match self.position_of_id(user_id.0) {
            None => {
                assert(self@ =~= with_password_hash(before, user_id.0, password_hash@)) by {
                    assert forall|i: int| 0 <= i < before.len() implies (#[trigger] before[i]).user_id
                        != user_id.0 by {}
                }
            },
            Some(i) => {
                let ghost rows = self.rows@;
                self.rows[i].password_hash = password_hash;
                proof {
                    assert(self.rows@.len() == rows.len());
                    assert forall|j: int| 0 <= j < rows.len() && j != i implies self.rows@[j]
                        == rows[j] by {}
                    assert forall|j: int| 0 <= j < rows.len() implies #[trigger] self@[j]
                        == with_password_hash(before, user_id.0, password_hash@)[j] by {
                        if j != i {
                            assert(self.rows@[j] == rows[j]);
                            assert(before[j].user_id != before[i as int].user_id);
                        }
                    }
                    assert(self@ =~= with_password_hash(before, user_id.0, password_hash@));
                }
            },
        }
    }
}

} // verus!
