//! Users, and the partial form in which an update to a user arrives.

use vstd::prelude::*;
use crate::domain::vo::email::Email;
use crate::domain::vo::id::Id;
use crate::domain::vo::name::Name;
use crate::domain::vo::password::Password;
use crate::domain::vo::temporal::DateTime;

verus! {

/// A user of the directory.
#[derive(Debug)]
pub struct User {
    pub id: Id,
    pub name: Name,
    pub email: Email,
    pub password: Password,
    pub deleted: bool,
    pub created_at: DateTime,
    pub updated_at: DateTime,
    pub deleted_at: Option<DateTime>,
}

/// What a user holds, as plain values.
pub ghost struct UserView {
    pub id: u128,
    pub name: Seq<char>,
    pub email: Seq<char>,
    pub password: Seq<char>,
    pub deleted: bool,
    pub created_at: (i64, u32),
    pub updated_at: (i64, u32),
    pub deleted_at: Option<(i64, u32)>,
}

/// An update to a user: each field is there or is not.
#[derive(Debug)]
pub struct UserPartial {
    pub id: Option<Id>,
    pub name: Option<Name>,
    pub email: Option<Email>,
    pub password: Option<Password>,
    pub deleted: Option<bool>,
}

/// What an update holds, as plain values.
pub ghost struct UserPartialView {
    pub id: Option<u128>,
    pub name: Option<Seq<char>>,
    pub email: Option<Seq<char>>,
    pub password: Option<Seq<char>>,
    pub deleted: Option<bool>,
}

/// The moment of an optional moment.
pub open spec fn moment_of(at: Option<DateTime>) -> Option<(i64, u32)> {
    match at {
        Some(m) => Some(m@),
        None => None,
    }
}

impl View for User {
    type V = UserView;

    open spec fn view(&self) -> UserView {
        UserView {
            id: self.id@,
            name: self.name@,
            email: self.email@,
            password: self.password@,
            deleted: self.deleted,
            created_at: self.created_at@,
            updated_at: self.updated_at@,
            deleted_at: moment_of(self.deleted_at),
        }
    }
}

impl View for UserPartial {
    type V = UserPartialView;

    open spec fn view(&self) -> UserPartialView {
        UserPartialView {
            id: match self.id {
                Some(v) => Some(v@),
                None => None,
            },
            name: match self.name {
                Some(v) => Some(v@),
                None => None,
            },
            email: match self.email {
                Some(v) => Some(v@),
                None => None,
            },
            password: match self.password {
                Some(v) => Some(v@),
                None => None,
            },
            deleted: self.deleted,
        }
    }
}

/// A copy of an optional moment.
fn clone_moment(at: &Option<DateTime>) -> (copy: Option<DateTime>)
    ensures
        moment_of(copy) == moment_of(*at),
{
    match at {
        Some(m) => Some(m.clone()),
        None => None,
    }
}

impl Clone for User {
    fn clone(&self) -> (copy: Self)
        ensures
            copy@ == self@,
    {
        User {
            id: self.id,
            name: self.name.clone(),
            email: self.email.clone(),
            password: self.password.clone(),
            deleted: self.deleted,
            created_at: self.created_at.clone(),
            updated_at: self.updated_at.clone(),
            deleted_at: clone_moment(&self.deleted_at),
        }
    }
}

impl Clone for UserPartial {
    fn clone(&self) -> (copy: Self)
        ensures
            copy@ == self@,
    {
        UserPartial {
            id: self.id,
            name: match &self.name {
                Some(v) => Some(v.clone()),
                None => None,
            },
            email: match &self.email {
                Some(v) => Some(v.clone()),
                None => None,
            },
            password: match &self.password {
                Some(v) => Some(v.clone()),
                None => None,
            },
            deleted: self.deleted,
        }
    }
}

/// What an update makes of a user: each field that the update holds
/// replaces the user's; every other field stays. The moments of creation,
/// change and deletion are no part of an update and stay.
pub open spec fn merged(persisted: UserView, patch: UserPartialView) -> UserView {
    UserView {
        id: match patch.id {
            Some(v) => v,
            None => persisted.id,
        },
        name: match patch.name {
            Some(v) => v,
            None => persisted.name,
        },
        email: match patch.email {
            Some(v) => v,
            None => persisted.email,
        },
        password: match patch.password {
            Some(v) => v,
            None => persisted.password,
        },
        deleted: match patch.deleted {
            Some(v) => v,
            None => persisted.deleted,
        },
        created_at: persisted.created_at,
        updated_at: persisted.updated_at,
        deleted_at: persisted.deleted_at,
    }
}

impl User {
    /// A user made of its parts.
    pub fn new(
        id: Id,
        name: Name,
        email: Email,
        password: Password,
        deleted: bool,
        created_at: DateTime,
        updated_at: DateTime,
        deleted_at: Option<DateTime>,
    ) -> (user: Self)
        ensures
            user == (User { id, name, email, password, deleted, created_at, updated_at, deleted_at }),
    {
        Self { id, name, email, password, deleted, created_at, updated_at, deleted_at }
    }

    /// The user that an update makes of a stored one. The stored user is
    /// left as it is; the result is a new record.
    pub fn merge(persisted: &User, patch: &UserPartial) -> (user: User)
        requires
            patch.id is Some,
        ensures
            user@ == merged(persisted@, patch@),
    {
        User {
            id: match patch.id {
                Some(v) => v,
                None => persisted.id,
            },
            name: match &patch.name {
                Some(v) => v.clone(),
                None => persisted.name.clone(),
            },
            email: match &patch.email {
                Some(v) => v.clone(),
                None => persisted.email.clone(),
            },
            password: match &patch.password {
                Some(v) => v.clone(),
                None => persisted.password.clone(),
            },
            deleted: match patch.deleted {
                Some(v) => v,
                None => persisted.deleted,
            },
            created_at: persisted.created_at.clone(),
            updated_at: persisted.updated_at.clone(),
            deleted_at: clone_moment(&persisted.deleted_at),
        }
    }
}

impl UserPartial {
    /// An update made of its parts.
    pub fn new(
        id: Option<Id>,
        name: Option<Name>,
        email: Option<Email>,
        password: Option<Password>,
        deleted: Option<bool>,
    ) -> (patch: Self)
        ensures
            patch == (UserPartial { id, name, email, password, deleted }),
    {
        Self { id, name, email, password, deleted }
    }

    /// Names the user that the update is for.
    pub fn set_id(&mut self, id: Id)
        ensures
            final(self).id == Some(id),
            final(self).name == old(self).name,
            final(self).email == old(self).email,
            final(self).password == old(self).password,
            final(self).deleted == old(self).deleted,
    {
        self.id = Some(id);
    }
}

/// Where an update and a stored user name the same user, the merged user
/// equals the stored one in every field that the update leaves out, and
/// holds the update's value in every field that it sets.
pub proof fn lemma_merge_field_by_field(persisted: UserView, patch: UserPartialView)
    requires
        patch.id == Some(persisted.id),
    ensures
        merged(persisted, patch).id == persisted.id,
        patch.name is None ==> merged(persisted, patch).name == persisted.name,
        patch.name matches Some(v) ==> merged(persisted, patch).name == v,
        patch.email is None ==> merged(persisted, patch).email == persisted.email,
        patch.email matches Some(v) ==> merged(persisted, patch).email == v,
        patch.password is None ==> merged(persisted, patch).password == persisted.password,
        patch.password matches Some(v) ==> merged(persisted, patch).password == v,
        patch.deleted is None ==> merged(persisted, patch).deleted == persisted.deleted,
        patch.deleted matches Some(v) ==> merged(persisted, patch).deleted == v,
        merged(persisted, patch).created_at == persisted.created_at,
        merged(persisted, patch).updated_at == persisted.updated_at,
        merged(persisted, patch).deleted_at == persisted.deleted_at,
{
}

} // verus!
