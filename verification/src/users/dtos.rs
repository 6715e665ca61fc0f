use crate::shared::hash;
use crate::users::entities::{people_view, NameTriple, PersonName, User, UserModel};
use vstd::prelude::*;
use vstd::std_specs::convert::FromSpecImpl;

verus! {

/// What is needed to create a user: the names by locale, the email address
/// and the password in plain text.
#[derive(Debug)]
pub struct CreateUserRequest {
    pub name: hash::Hash<PersonName>,
    pub email: String,
    pub password: String,
}

/// A partial update: a field that is absent leaves the stored value as it is.
#[derive(Debug)]
pub struct UpdateUserRequest {
    pub name: Option<hash::Hash<PersonName>>,
    pub email: Option<String>,
    pub password: Option<String>,
}

/// A user as it is shown: everything but the password digest, as text.
pub struct UserResponseModel {
    pub id: u128,
    pub name: Map<Seq<char>, NameTriple>,
    pub email: Seq<char>,
    pub created_at: i64,
    pub updated_at: i64,
}

/// A user as it is shown: everything but the password digest.
#[derive(Debug)]
pub struct UserResponse {
    pub id: u128,
    pub name: hash::Hash<PersonName>,
    pub email: String,
    pub created_at: i64,
    pub updated_at: i64,
}

impl View for UserResponse {
    type V = UserResponseModel;

    open spec fn view(&self) -> UserResponseModel {
        UserResponseModel {
            id: self.id,
            name: people_view(self.name),
            email: self.email@,
            created_at: self.created_at,
            updated_at: self.updated_at,
        }
    }
}

/// What is shown of a user.
pub open spec fn shown(user: UserModel) -> UserResponseModel {
    UserResponseModel {
        id: user.id,
        name: user.name,
        email: user.email,
        created_at: user.created_at,
        updated_at: user.updated_at,
    }
}

/// The response that shows a user.
pub open spec fn response_of(user: User) -> UserResponse {
    UserResponse {
        id: user.id,
        name: user.name,
        email: user.email,
        created_at: user.created_at,
        updated_at: user.updated_at,
    }
}

impl From<User> for UserResponse {
    fn from(user: User) -> (r: UserResponse) {
        UserResponse {
            id: user.id,
            name: user.name,
            email: user.email,
            created_at: user.created_at,
            updated_at: user.updated_at,
        }
    }
}

impl FromSpecImpl<User> for UserResponse {
    open spec fn obeys_from_spec() -> bool {
        true
    }

    open spec fn from_spec(user: User) -> UserResponse {
        response_of(user)
    }
}

/// The password digest is not part of what is shown; the rest is the
/// user's own.
pub proof fn lemma_response_shows_user(user: User)
    ensures
        response_of(user)@ == shown(user@),
{
}

} // verus!
