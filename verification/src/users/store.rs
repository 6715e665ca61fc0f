use crate::users::entities::{
    rows_view, users_view, NameRow, UserEntity, UserNameEntity, UserRow,
};
use vstd::prelude::*;

verus! {

/// One statement for the relational store, as text.
pub enum StatementModel {
    Begin,
    Commit,
    SelectUsers,
    SelectUser { id: u128 },
    SelectNames { user_ids: Seq<u128> },
    SelectNamesOf { user_id: u128 },
    InsertUser { email: Seq<char>, password: Seq<char> },
    UpdateUser { id: u128, new_email: Option<Seq<char>>, new_password: Option<Seq<char>> },
    DeleteNames { user_id: u128 },
    InsertName { row: NameRow },
    DeleteUser { id: u128 },
}

/// One statement for the relational store. The caller that holds the
/// connection runs it and hands back a [`Reply`].
#[derive(Debug)]
pub enum Statement {
    /// Open a transaction; the statements that follow run inside it.
    Begin,
    /// Commit the open transaction.
    Commit,
    /// Every user record, newest first.
    SelectUsers,
    /// The user record with this id, if there is one.
    SelectUser { id: u128 },
    /// Every stored name whose user is one of these.
    SelectNames { user_ids: Vec<u128> },
    /// Every stored name of this user.
    SelectNamesOf { user_id: u128 },
    /// A new user record; the store gives the id and the times and
    /// returns the record.
    InsertUser { email: String, password: String },
    /// Set the fields that are present, leave the others as they are,
    /// and return the record; no record if the id is unknown.
    UpdateUser { id: u128, new_email: Option<String>, new_password: Option<String> },
    /// Remove every stored name of this user.
    DeleteNames { user_id: u128 },
    /// Add one stored name.
    InsertName { row: UserNameEntity },
    /// Remove the user record with this id, and with it the names it owns.
    DeleteUser { id: u128 },
}

/// The text of an optional string.
pub open spec fn text_of(s: Option<String>) -> Option<Seq<char>> {
    match s {
        Some(t) => Some(t@),
        None => None,
    }
}

impl View for Statement {
    type V = StatementModel;

    open spec fn view(&self) -> StatementModel {
        match *self {
            Statement::Begin => StatementModel::Begin,
            Statement::Commit => StatementModel::Commit,
            Statement::SelectUsers => StatementModel::SelectUsers,
            Statement::SelectUser { id } => StatementModel::SelectUser { id },
            Statement::SelectNames { user_ids } => StatementModel::SelectNames {
                user_ids: user_ids@,
            },
            Statement::SelectNamesOf { user_id } => StatementModel::SelectNamesOf { user_id },
            Statement::InsertUser { email, password } => StatementModel::InsertUser {
                email: email@,
                password: password@,
            },
            Statement::UpdateUser { id, new_email, new_password } => StatementModel::UpdateUser {
                id,
                new_email: text_of(new_email),
                new_password: text_of(new_password),
            },
            Statement::DeleteNames { user_id } => StatementModel::DeleteNames { user_id },
            Statement::InsertName { row } => StatementModel::InsertName { row: row@ },
            Statement::DeleteUser { id } => StatementModel::DeleteUser { id },
        }
    }
}

/// A list of statements, as text.
pub open spec fn statements_view(s: Seq<Statement>) -> Seq<StatementModel> {
    s.map_values(|x: Statement| x@)
}

/// What the store answered, as text.
pub enum ReplyModel {
    Done,
    Affected(nat),
    Users(Seq<UserRow>),
    Names(Seq<NameRow>),
    Failed(Seq<char>),
}

/// What the store answered to a list of statements run in order: the answer
/// to the last of them, or the first failure.
#[derive(Debug)]
pub enum Reply {
    /// The transaction was opened or committed.
    Done,
    /// The number of rows that the statement changed.
    Affected(u64),
    /// The user records that the statement returned.
    Users(Vec<UserEntity>),
    /// The stored names that the statement returned.
    Names(Vec<UserNameEntity>),
    /// The store failed, with its message.
    Failed(String),
}

impl View for Reply {
    type V = ReplyModel;

    open spec fn view(&self) -> ReplyModel {
        match *self {
            Reply::Done => ReplyModel::Done,
            Reply::Affected(n) => ReplyModel::Affected(n as nat),
            Reply::Users(rows) => ReplyModel::Users(users_view(rows@)),
            Reply::Names(rows) => ReplyModel::Names(rows_view(rows@)),
            Reply::Failed(message) => ReplyModel::Failed(message@),
        }
    }
}

/// The rows of user `user_id`.
pub open spec fn owned_by(user_id: u128) -> spec_fn(NameRow) -> bool {
    |r: NameRow| r.user_id == user_id
}

/// The rows of every user but `user_id`.
pub open spec fn not_owned_by(user_id: u128) -> spec_fn(NameRow) -> bool {
    |r: NameRow| r.user_id != user_id
}

/// The rows of the users in `user_ids`.
pub open spec fn owned_by_any(user_ids: Seq<u128>) -> spec_fn(NameRow) -> bool {
    |r: NameRow| user_ids.contains(r.user_id)
}

/// The record with id `id`.
pub open spec fn has_id(id: u128) -> spec_fn(UserRow) -> bool {
    |u: UserRow| u.id == id
}

/// Every record but the one with id `id`.
pub open spec fn lacks_id(id: u128) -> spec_fn(UserRow) -> bool {
    |u: UserRow| u.id != id
}

/// The update of the record with id `id`, which leaves the others as they are.
pub open spec fn update_of(
    id: u128,
    email: Option<Seq<char>>,
    password: Option<Seq<char>>,
    now: i64,
) -> spec_fn(UserRow) -> UserRow {
    |u: UserRow|
        if u.id == id {
            coalesce(u, email, password, now)
        } else {
            u
        }
}

/// The two tables of the store. `users` holds the newest record first.
pub struct Tables {
    pub users: Seq<UserRow>,
    pub names: Seq<NameRow>,
}

/// What the store itself decides when it runs a statement: the id of a new
/// record, and the time.
pub struct Chosen {
    pub id: u128,
    pub now: i64,
}

/// The record after an update that sets the fields that are present.
pub open spec fn coalesce(
    row: UserRow,
    email: Option<Seq<char>>,
    password: Option<Seq<char>>,
    now: i64,
) -> UserRow {
    UserRow {
        id: row.id,
        email: match email {
            Some(e) => e,
            None => row.email,
        },
        password: match password {
            Some(p) => p,
            None => row.password,
        },
        created_at: row.created_at,
        updated_at: now,
    }
}

/// The tables after the store has run one statement with success.
#[verifier::opaque]
pub open spec fn apply(t: Tables, s: StatementModel, c: Chosen) -> Tables {
    match s {
        StatementModel::InsertUser { email, password } => Tables {
            users: seq![
                UserRow { id: c.id, email, password, created_at: c.now, updated_at: c.now },
            ] + t.users,
            names: t.names,
        },
        StatementModel::UpdateUser { id, new_email, new_password } => Tables {
            users: t.users.map_values(update_of(id, new_email, new_password, c.now)),
            names: t.names,
        },
        StatementModel::DeleteNames { user_id } => Tables {
            users: t.users,
            names: t.names.filter(not_owned_by(user_id)),
        },
        StatementModel::InsertName { row } => Tables { users: t.users, names: t.names.push(row) },
        StatementModel::DeleteUser { id } => Tables {
            users: t.users.filter(lacks_id(id)),
            names: t.names.filter(not_owned_by(id)),
        },
        _ => t,
    }
}

/// What the store answers to one statement that it runs with success on
/// tables `t`.
#[verifier::opaque]
pub open spec fn answer(t: Tables, s: StatementModel, c: Chosen) -> ReplyModel {
    match s {
        StatementModel::Begin => ReplyModel::Done,
        StatementModel::Commit => ReplyModel::Done,
        StatementModel::SelectUsers => ReplyModel::Users(t.users),
        StatementModel::SelectUser { id } => ReplyModel::Users(
            t.users.filter(has_id(id)),
        ),
        StatementModel::SelectNames { user_ids } => ReplyModel::Names(
            t.names.filter(owned_by_any(user_ids)),
        ),
        StatementModel::SelectNamesOf { user_id } => ReplyModel::Names(
            t.names.filter(owned_by(user_id)),
        ),
        StatementModel::InsertUser { email, password } => ReplyModel::Users(
            seq![UserRow { id: c.id, email, password, created_at: c.now, updated_at: c.now }],
        ),
        StatementModel::UpdateUser { id, new_email, new_password } => ReplyModel::Users(
            apply(t, s, c).users.filter(has_id(id)),
        ),
        StatementModel::DeleteNames { user_id } => ReplyModel::Affected(
            t.names.filter(owned_by(user_id)).len(),
        ),
        StatementModel::InsertName { row } => ReplyModel::Affected(1),
        StatementModel::DeleteUser { id } => ReplyModel::Affected(
            t.users.filter(has_id(id)).len(),
        ),
    }
}

/// The tables after the store has run a list of statements in order, each
/// with success.
pub open spec fn apply_all(t: Tables, s: Seq<StatementModel>, c: Chosen) -> Tables
    decreases s.len(),
{
    if s.len() == 0 {
        t
    } else {
        apply(apply_all(t, s.drop_last(), c), s.last(), c)
    }
}

/// What the store answers to a list of statements that it runs in order,
/// each with success: the answer to the last of them.
pub open spec fn answer_all(t: Tables, s: Seq<StatementModel>, c: Chosen) -> ReplyModel {
    if s.len() == 0 {
        ReplyModel::Done
    } else {
        answer(apply_all(t, s.drop_last(), c), s.last(), c)
    }
}

} // verus!
