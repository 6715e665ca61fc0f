use crate::shared::hash;
use vstd::prelude::*;

verus! {

/// A name in one locale, as text.
pub struct NameTriple {
    pub first: Seq<char>,
    pub middle: Seq<char>,
    pub last: Seq<char>,
}

/// A name in one locale. The middle name may be empty.
#[derive(Debug)]
pub struct PersonName {
    pub first: String,
    pub middle: String,
    pub last: String,
}

impl View for PersonName {
    type V = NameTriple;

    open spec fn view(&self) -> NameTriple {
        NameTriple { first: self.first@, middle: self.middle@, last: self.last@ }
    }
}

impl PersonName {
    /// A copy with the same three texts.
    pub fn duplicate(&self) -> (r: PersonName)
        ensures
            r@ == self@,
    {
        PersonName {
            first: self.first.clone(),
            middle: self.middle.clone(),
            last: self.last.clone(),
        }
    }
}

/// The names of one person, keyed by locale code.
pub type LocalizedPersonName = hash::Hash<PersonName>;

/// What a locale-keyed mapping of names holds, as text.
pub open spec fn people_view(names: hash::Hash<PersonName>) -> Map<Seq<char>, NameTriple> {
    names@.map_values(|n: PersonName| n@)
}

/// The entries of a locale-keyed mapping in their order, as text.
pub open spec fn entries_view(entries: Seq<(String, PersonName)>) -> Seq<(Seq<char>, NameTriple)> {
    entries.map_values(|e: (String, PersonName)| (e.0@, e.1@))
}

/// One stored name: the name of one user in one locale, as text.
pub struct NameRow {
    pub user_id: u128,
    pub lang: Seq<char>,
    pub first_name: Seq<char>,
    pub middle_name: Seq<char>,
    pub last_name: Seq<char>,
}

impl NameRow {
    /// The name that the row carries.
    pub open spec fn name(self) -> NameTriple {
        NameTriple { first: self.first_name, middle: self.middle_name, last: self.last_name }
    }
}

/// One stored name: the name of one user in one locale.
#[derive(Debug, Clone)]
pub struct UserNameEntity {
    pub user_id: u128,
    pub lang: String,
    pub first_name: String,
    pub middle_name: String,
    pub last_name: String,
}

impl View for UserNameEntity {
    type V = NameRow;

    open spec fn view(&self) -> NameRow {
        NameRow {
            user_id: self.user_id,
            lang: self.lang@,
            first_name: self.first_name@,
            middle_name: self.middle_name@,
            last_name: self.last_name@,
        }
    }
}

/// The stored names of a list of rows, as text.
pub open spec fn rows_view(rows: Seq<UserNameEntity>) -> Seq<NameRow> {
    rows.map_values(|r: UserNameEntity| r@)
}

/// One stored user record, as text. Times are microseconds since the Unix
/// epoch.
pub struct UserRow {
    pub id: u128,
    pub email: Seq<char>,
    pub password: Seq<char>,
    pub created_at: i64,
    pub updated_at: i64,
}

/// One stored user record. `password` is the digest, never the plain text.
/// Times are microseconds since the Unix epoch.
#[derive(Debug, Clone)]
pub struct UserEntity {
    pub id: u128,
    pub email: String,
    pub password: String,
    pub created_at: i64,
    pub updated_at: i64,
}

impl View for UserEntity {
    type V = UserRow;

    open spec fn view(&self) -> UserRow {
        UserRow {
            id: self.id,
            email: self.email@,
            password: self.password@,
            created_at: self.created_at,
            updated_at: self.updated_at,
        }
    }
}

/// The stored user records of a list, as text.
pub open spec fn users_view(users: Seq<UserEntity>) -> Seq<UserRow> {
    users.map_values(|u: UserEntity| u@)
}

/// A user with the names it owns, as text.
pub struct UserModel {
    pub id: u128,
    pub name: Map<Seq<char>, NameTriple>,
    pub email: Seq<char>,
    pub password: Seq<char>,
    pub created_at: i64,
    pub updated_at: i64,
}

/// A user with the names it owns.
#[derive(Debug)]
pub struct User {
    pub id: u128,
    pub name: hash::Hash<PersonName>,
    pub email: String,
    pub password: String,
    pub created_at: i64,
    pub updated_at: i64,
}

impl View for User {
    type V = UserModel;

    open spec fn view(&self) -> UserModel {
        UserModel {
            id: self.id,
            name: people_view(self.name),
            email: self.email@,
            password: self.password@,
            created_at: self.created_at,
            updated_at: self.updated_at,
        }
    }
}

/// The users of a list, as text.
pub open spec fn user_models(users: Seq<User>) -> Seq<UserModel> {
    users.map_values(|u: User| u@)
}

/// The user that a stored record and a mapping of names make.
pub open spec fn user_of(row: UserRow, name: Map<Seq<char>, NameTriple>) -> UserModel {
    UserModel {
        id: row.id,
        name,
        email: row.email,
        password: row.password,
        created_at: row.created_at,
        updated_at: row.updated_at,
    }
}

} // verus!
