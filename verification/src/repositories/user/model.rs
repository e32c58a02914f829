//! The row of a user.

use vstd::prelude::*;
use crate::common::result::ResultApp;
use crate::domain::entity::user::{moment_of, User, UserView};
use crate::domain::vo::email::{email_of, Email};
use crate::domain::vo::id::{hyphenated, parsed_uuid, Id};
use crate::domain::vo::name::{lemma_name_round_trip, name_of, Name};
use crate::domain::vo::password::Password;
use crate::domain::vo::temporal::DateTime;

verus! {

/// A user as it is stored. A row may lack a digest; it then stands for a
/// user whose digest is empty, which no password hashes to.
#[derive(Debug)]
pub struct UserModel {
    pub id: String,
    pub name: String,
    pub email: String,
    pub password: Option<String>,
    pub auth_token: Option<String>,
    pub deleted: bool,
    pub created_at: DateTime,
    pub updated_at: DateTime,
    pub deleted_at: Option<DateTime>,
}

/// The digest that a row holds: the empty one where it holds none.
pub open spec fn digest_in(password: Option<String>) -> Seq<char> {
    match password {
        Some(p) => p@,
        None => Seq::empty(),
    }
}

/// The user that a row stands for, where its identifier, name and email
/// are valid.
pub open spec fn user_of(row: UserModel) -> Option<UserView> {
    if parsed_uuid(row.id@) is Some && name_of(row.name@) is Some && email_of(row.email@) is Some {
        Some(
            UserView {
                id: parsed_uuid(row.id@)->0,
                name: name_of(row.name@)->0,
                email: row.email@,
                password: digest_in(row.password),
                deleted: row.deleted,
                created_at: row.created_at@,
                updated_at: row.updated_at@,
                deleted_at: moment_of(row.deleted_at),
            },
        )
    } else {
        None
    }
}

impl User {
    /// The failure that a row which stands for no user is reported with:
    /// that of the first of identifier, name and email that is not valid.
    pub open spec fn is_row_rejection(row: UserModel, e: crate::common::error::AppError) -> bool {
        if parsed_uuid(row.id@) is None {
            Id::is_rejection(e, row.id@)
        } else if name_of(row.name@) is None {
            Name::is_rejection(e)
        } else {
            email_of(row.email@) is None && Email::is_rejection(e)
        }
    }

    /// The user that a row stands for. The digest is taken as it is stored
    /// and the token of the row is left behind; a row whose identifier,
    /// name or email is not valid is rejected.
    pub fn from(user_model: UserModel) -> (r: ResultApp<Self>)
        ensures
            match r {
                Ok(user) => user_of(user_model) == Some(user@),
                Err(e) => user_of(user_model) is None && Self::is_row_rejection(user_model, e),
            },
    {
        let id = match Id::new_from_string(user_model.id) {
            Ok(id) => id,
            Err(e) => {
                return Err(e);
            },
        };
        let name = match Name::new(user_model.name.as_str()) {
            Ok(name) => name,
            Err(e) => {
                return Err(e);
            },
        };
        let email = match Email::new(user_model.email) {
            Ok(email) => email,
            Err(e) => {
                return Err(e);
            },
        };
        let password = match user_model.password {
            Some(digest) => Password::new_from_hashed_value(digest),
            None => Password::new_from_hashed_value(String::new()),
        };
        Ok(
            User::new(
                id,
                name,
                email,
                password,
                user_model.deleted,
                user_model.created_at,
                user_model.updated_at,
                user_model.deleted_at,
            ),
        )
    }
}

impl UserModel {
    /// The row in which a user is stored: the text of its identifier, its
    /// name, email and digest, and no token. An empty digest is stored as
    /// none. The row stands for the user it was made of.
    pub fn from(user: User) -> (row: Self)
        ensures
            user_of(row) == Some(user@),
            row.id@ == hyphenated(user.id@),
            row.name@ == user.name@,
            row.password is None <==> user.password@.len() == 0,
            row.auth_token is None,
    {
        let digest = user.password.value();
        let name = user.name.value();
        proof {
            lemma_name_round_trip(name@);
            if digest@.len() == 0 {
                assert(digest@ =~= Seq::<char>::empty());
            }
        }
        Self {
            id: user.id.value(),
            name,
            email: user.email.value(),
            password: if digest.as_str().is_empty() {
                None
            } else {
                Some(digest)
            },
            auth_token: None,
            deleted: user.deleted,
            created_at: user.created_at,
            updated_at: user.updated_at,
            deleted_at: user.deleted_at,
        }
    }
}

} // verus!
