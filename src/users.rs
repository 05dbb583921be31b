//! The user directory: registered users, each with a unique e-mail address
//! and a password hash.

use crate::text::same_text;
use vstd::prelude::*;

verus! {

/// A registered user. `created_at` is in seconds since the Unix epoch.
pub struct User {
    pub id: u128,
    pub email: String,
    pub password: String,
    pub created_at: i64,
}

pub ghost struct UserView {
    pub id: u128,
    pub email: Seq<char>,
    pub password: Seq<char>,
    pub created_at: i64,
}

impl View for User {
    type V = UserView;

    open spec fn view(&self) -> UserView {
        UserView { id: self.id, email: self.email@, password: self.password@, created_at: self.created_at }
    }
}

impl Clone for User {
    fn clone(&self) -> (r: Self)
        ensures
            r == *self,
    {
        User { id: self.id, email: self.email.clone(), password: self.password.clone(), created_at: self.created_at }
    }
}

/// Why a user could not be added.
#[derive(PartialEq, Eq, Structural, Clone, Copy, Debug)]
pub enum UserError {
    /// The e-mail address is already registered.
    DuplicateEmail,
    /// The identifier is already taken.
    DuplicateId,
}

/// Some user has the address `email`.
pub open spec fn has_email(users: Seq<UserView>, email: Seq<char>) -> bool {
    exists|i: int| 0 <= i < users.len() && (#[trigger] users[i]).email == email
}

/// Some user has the identifier `id`.
pub open spec fn has_id(users: Seq<UserView>, id: u128) -> bool {
    exists|i: int| 0 <= i < users.len() && (#[trigger] users[i]).id == id
}

/// The user with the address `email`, if any.
pub open spec fn user_by_email(users: Seq<UserView>, email: Seq<char>) -> Option<UserView> {
    if has_email(users, email) {
        Some(users[choose|i: int| 0 <= i < users.len() && (#[trigger] users[i]).email == email])
    } else {
        None
    }
}

/// The user with the identifier `id`, if any.
pub open spec fn user_by_id(users: Seq<UserView>, id: u128) -> Option<UserView> {
    if has_id(users, id) {
        Some(users[choose|i: int| 0 <= i < users.len() && (#[trigger] users[i]).id == id])
    } else {
        None
    }
}

/// The registered users, in the order of registration.
pub struct UserDirectory {
    rows: Vec<User>,
}

impl UserDirectory {
    pub closed spec fn view(&self) -> Seq<UserView> {
        self.rows@.map_values(|u: User| u@)
    }

    /// No two users share an address or an identifier.
    pub open spec fn wf(&self) -> bool {
        &&& forall|i: int, j: int|
            0 <= i < j < self@.len() ==> (#[trigger] self@[i]).email != (#[trigger] self@[j]).email
        &&& forall|i: int, j: int|
            0 <= i < j < self@.len() ==> (#[trigger] self@[i]).id != (#[trigger] self@[j]).id
    }

    /// An empty directory.
    pub fn new() -> (r: Self)
        ensures
            r.wf(),
            r@ == Seq::<UserView>::empty(),
    {
        let r = UserDirectory { rows: Vec::new() };
        assert(r@ =~= Seq::<UserView>::empty());
        r
    }

    /// The user registered with `email`, if any.
    pub fn get_user_by_email(&self, email: &str) -> (r: Option<User>)
        requires
            self.wf(),
        ensures
            match r {
                Some(u) => user_by_email(self@, email@) == Some(u@),
                None => user_by_email(self@, email@) is None,
            },
    {
        let mut i: usize = 0;
        while i < self.rows.len()
            invariant
                self.wf(),
                i <= self.rows@.len(),
                forall|j: int| 0 <= j < i ==> self@[j].email != email@,
            decreases self.rows.len() - i,
        {
            assert(self@[i as int] == self.rows@[i as int]@);
            if same_text(self.rows[i].email.as_str(), email) {
                let u = self.rows[i].clone();
                proof {
                    assert(has_email(self@, email@));
                    let k = choose|k: int| 0 <= k < self@.len() && (#[trigger] self@[k]).email == email@;
                    if k != i {
                        if k < i {
                            assert(self@[k].email != self@[i as int].email);
                        } else {
                            assert(self@[i as int].email != self@[k].email);
                        }
                    }
                }
                return Some(u);
            }
            i = i + 1;
        }
        None
    }

    /// The user with identifier `id`, if any.
    pub fn get_user_by_id(&self, id: u128) -> (r: Option<User>)
        requires
            self.wf(),
        ensures
            match r {
                Some(u) => user_by_id(self@, id) == Some(u@),
                None => user_by_id(self@, id) is None,
            },
    {
        let mut i: usize = 0;
        while i < self.rows.len()
            invariant
                self.wf(),
                i <= self.rows@.len(),
                forall|j: int| 0 <= j < i ==> self@[j].id != id,
            decreases self.rows.len() - i,
        {
            assert(self@[i as int] == self.rows@[i as int]@);
            if self.rows[i].id == id {
                let u = self.rows[i].clone();
                proof {
                    assert(has_id(self@, id));
                    let k = choose|k: int| 0 <= k < self@.len() && (#[trigger] self@[k]).id == id;
                    if k != i {
                        if k < i {
                            assert(self@[k].id != self@[i as int].id);
                        } else {
                            assert(self@[i as int].id != self@[k].id);
                        }
                    }
                }
                return Some(u);
            }
            i = i + 1;
        }
        None
    }

    /// Adds a user; refused when the address, or else the identifier, is taken.
    pub fn insert_user(&mut self, id: u128, email: String, password: String, created_at: i64) -> (r: Result<User, UserError>)
        requires
            old(self).wf(),
        ensures
            final(self).wf(),
            r matches Err(e) ==> final(self)@ == old(self)@ && if has_email(old(self)@, email@) {
                e == UserError::DuplicateEmail
            } else {
                e == UserError::DuplicateId && has_id(old(self)@, id)
            },
            r is Ok <==> !has_email(old(self)@, email@) && !has_id(old(self)@, id),
            r matches Ok(u) ==> u@ == (UserView { id, email: email@, password: password@, created_at })
                && final(self)@ == old(self)@.push(u@),
    {
        if self.get_user_by_email(email.as_str()).is_some() {
            return Err(UserError::DuplicateEmail);
        }
        if self.get_user_by_id(id).is_some() {
            return Err(UserError::DuplicateId);
        }
        let u = User { id, email, password, created_at };
        let out = u.clone();
        let ghost before = self@;
        self.rows.push(u);
        assert(self@ =~= before.push(out@));
        Ok(out)
    }
}

} // verus!
