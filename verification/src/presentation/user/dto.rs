//! Requests and responses about users, and how a request becomes a user.

use vstd::prelude::*;
use crate::common::result::ResultApp;
use crate::domain::entity::user::{User, UserPartial};
use crate::domain::vo::email::{is_email, Email};
use crate::domain::vo::id::{hyphenated, is_version_7, Id};
use crate::domain::vo::name::{name_of, Name};
use crate::domain::vo::password::{digest_of, Password};
use crate::domain::vo::temporal::DateTime;

verus! {

/// The request to create a user.
#[derive(Debug, Clone)]
pub struct UserDataDto {
    name: String,
    email: String,
    password: String,
}

/// The request to change a user: each field is there or is not.
#[derive(Debug, Clone)]
pub struct UserPartialDataDto {
    name: Option<String>,
    email: Option<String>,
    password: Option<String>,
    deleted: Option<bool>,
}

/// The query for a user by email.
#[derive(Debug, Clone)]
pub struct QueryFilter {
    pub email: String,
}

/// What a client is told of a user.
#[derive(Debug, Clone)]
pub struct UserDataResponseDto {
    id: String,
    name: String,
    email: String,
}

/// The chars of an optional string.
pub open spec fn text_of(s: Option<String>) -> Option<Seq<char>> {
    match s {
        Some(t) => Some(t@),
        None => None,
    }
}

impl UserDataDto {
    /// The name, email and password of the request.
    pub closed spec fn fields(&self) -> (Seq<char>, Seq<char>, Seq<char>) {
        (self.name@, self.email@, self.password@)
    }

    /// A request made of its parts.
    pub fn new(name: String, email: String, password: String) -> (dto: Self)
        ensures
            dto.fields() == (name@, email@, password@),
    {
        UserDataDto { name, email, password }
    }

    /// The name asked for.
    pub fn name(&self) -> (s: String)
        ensures
            s@ == self.fields().0,
    {
        self.name.clone()
    }

    /// The email asked for.
    pub fn email(&self) -> (s: String)
        ensures
            s@ == self.fields().1,
    {
        self.email.clone()
    }

    /// The password asked for.
    pub fn password(&self) -> (s: String)
        ensures
            s@ == self.fields().2,
    {
        self.password.clone()
    }
}

impl UserPartialDataDto {
    /// The name, email, password and deletion mark of the request.
    pub closed spec fn fields(&self) -> (
        Option<Seq<char>>,
        Option<Seq<char>>,
        Option<Seq<char>>,
        Option<bool>,
    ) {
        (text_of(self.name), text_of(self.email), text_of(self.password), self.deleted)
    }

    /// A request made of its parts.
    pub fn new(
        name: Option<String>,
        email: Option<String>,
        password: Option<String>,
        deleted: Option<bool>,
    ) -> (dto: Self)
        ensures
            dto.fields() == (text_of(name), text_of(email), text_of(password), deleted),
    {
        UserPartialDataDto { name, email, password, deleted }
    }

    /// The name asked for, if one is.
    pub fn name(&self) -> (s: Option<String>)
        ensures
            text_of(s) == self.fields().0,
    {
        self.name.clone()
    }

    /// The email asked for, if one is.
    pub fn email(&self) -> (s: Option<String>)
        ensures
            text_of(s) == self.fields().1,
    {
        self.email.clone()
    }

    /// The password asked for, if one is.
    pub fn password(&self) -> (s: Option<String>)
        ensures
            text_of(s) == self.fields().2,
    {
        self.password.clone()
    }

    /// The deletion mark asked for, if one is.
    pub fn deleted(&self) -> (d: Option<bool>)
        ensures
            d == self.fields().3,
    {
        self.deleted
    }
}

impl UserDataResponseDto {
    /// The identifier, name and email told.
    pub closed spec fn fields(&self) -> (Seq<char>, Seq<char>, Seq<char>) {
        (self.id@, self.name@, self.email@)
    }

    /// What a client is told of `value`: the text of its identifier, its
    /// name and its email.
    pub fn from(value: &User) -> (dto: Self)
        ensures
            dto.fields() == (hyphenated(value.id@), value.name@, value.email@),
    {
        Self { id: value.id.value(), name: value.name.value(), email: value.email.value() }
    }

    /// The text of the identifier.
    pub fn id(&self) -> (s: &str)
        ensures
            s@ == self.fields().0,
    {
        self.id.as_str()
    }

    /// The name.
    pub fn name(&self) -> (s: &str)
        ensures
            s@ == self.fields().1,
    {
        self.name.as_str()
    }

    /// The email.
    pub fn email(&self) -> (s: &str)
        ensures
            s@ == self.fields().2,
    {
        self.email.as_str()
    }
}

impl User {
    /// The new user that a request to create one stands for: a fresh
    /// identifier, the validated name and email, the digest of the
    /// password, not deleted, created and changed now. A name that is no
    /// name is reported first, then an email that is none.
    pub fn try_from(value: UserDataDto) -> (r: ResultApp<Self>)
        ensures
            match r {
                Ok(user) => {
                    &&& is_version_7(user.id@)
                    &&& name_of(value.fields().0) == Some(user.name@)
                    &&& is_email(value.fields().1)
                    &&& user.email@ == value.fields().1
                    &&& user.password@ == digest_of(value.fields().2)
                    &&& !user.deleted
                    &&& user.deleted_at is None
                },
                Err(e) => if name_of(value.fields().0) is None {
                    Name::is_rejection(e)
                } else {
                    !is_email(value.fields().1) && Email::is_rejection(e)
                },
            },
    {
        let id = match Id::new() {
            Ok(id) => id,
            Err(e) => {
                return Err(e);
            },
        };
        let name = match Name::new(value.name.as_str()) {
            Ok(name) => name,
            Err(e) => {
                return Err(e);
            },
        };
        let email = match Email::new(value.email) {
            Ok(email) => email,
            Err(e) => {
                return Err(e);
            },
        };
        let password = match Password::new(value.password) {
            Ok(password) => password,
            Err(e) => {
                return Err(e);
            },
        };
        Ok(User::new(id, name, email, password, false, DateTime::new(), DateTime::new(), None))
    }
}

/// What a field of an update must be, given the field of the request: the
/// validated value where the request has one, nothing where it has none.
pub open spec fn name_field(asked: Option<Seq<char>>, made: Option<Seq<char>>) -> bool {
    match asked {
        Some(raw) => name_of(raw) == made && made is Some,
        None => made is None,
    }
}

impl UserPartial {
    /// The update that a request to change a user stands for. Each field
    /// that the request holds is validated; the first that fails, in the
    /// order name, email, is reported. The update names a fresh
    /// identifier, which the caller replaces by that of the user.
    pub fn try_from(value: UserPartialDataDto) -> (r: ResultApp<Self>)
        ensures
            match r {
                Ok(patch) => {
                    &&& patch@.id matches Some(id)
                    &&& is_version_7(id)
                    &&& name_field(value.fields().0, patch@.name)
                    &&& patch@.email == value.fields().1
                    &&& value.fields().1 matches Some(raw) ==> is_email(raw)
                    &&& match value.fields().2 {
                        Some(plain) => patch@.password == Some(digest_of(plain)),
                        None => patch@.password is None,
                    }
                    &&& patch@.deleted == value.fields().3
                },
                Err(e) => if value.fields().0 matches Some(raw) && name_of(raw) is None {
                    Name::is_rejection(e)
                } else {
                    &&& value.fields().1 matches Some(raw)
                    &&& !is_email(raw)
                    &&& Email::is_rejection(e)
                },
            },
    {
        let id = match Id::new() {
            Ok(id) => Some(id),
            Err(e) => {
                return Err(e);
            },
        };
        let name = match value.name {
            Some(raw) => match Name::new(raw.as_str()) {
                Ok(n) => Some(n),
                Err(e) => {
                    return Err(e);
                },
            },
            None => None,
        };
        let email = match value.email {
            Some(raw) => match Email::new(raw) {
                Ok(e) => Some(e),
                Err(e) => {
                    return Err(e);
                },
            },
            None => None,
        };
        let password = match value.password {
            Some(raw) => match Password::new(raw) {
                Ok(p) => Some(p),
                Err(e) => {
                    return Err(e);
                },
            },
            None => None,
        };
        let deleted = value.deleted;
        Ok(UserPartial::new(id, name, email, password, deleted))
    }
}

} // verus!
