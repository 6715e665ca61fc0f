use crate::shared::hash;
use crate::shared::password::{argon2_digest, digest_text, hash_password, verifies};
use crate::shared::result::DomainResult;
use crate::users::dtos::{CreateUserRequest, UpdateUserRequest};
use crate::users::entities::{
    entries_view, people_view, rows_view, user_models, user_of, users_view, NameRow, NameTriple,
    PersonName, User, UserEntity, UserModel, UserNameEntity, UserRow,
};
use crate::users::names::{
    duplicate_names, fold_names, fold_rows, group_names, lemma_people_view, names_map,
    names_of, names_query, query_statements, replace_names, replace_statements,
};
use crate::users::store::{
    statements_view, text_of, Reply, ReplyModel, Statement, StatementModel,
};
use vstd::prelude::*;

verus! {

broadcast use vstd::std_specs::hash::group_hash_axioms;

/// What a use case gives when it succeeds, as text.
pub enum OutputModel {
    Listed(Seq<UserModel>),
    Single(UserModel),
    Deleted,
}

/// What a use case gives when it succeeds.
#[derive(Debug)]
pub enum Output {
    /// Every user, from listing them.
    Listed(Vec<User>),
    /// One user, from reading, creating or updating it.
    Single(User),
    /// The user is gone.
    Deleted,
}

impl View for Output {
    type V = OutputModel;

    open spec fn view(&self) -> OutputModel {
        match *self {
            Output::Listed(users) => OutputModel::Listed(user_models(users@)),
            Output::Single(user) => OutputModel::Single(user@),
            Output::Deleted => OutputModel::Deleted,
        }
    }
}

/// The outcome of a use case, as text.
pub open spec fn outcome_view(r: DomainResult<Output, String>) -> DomainResult<
    OutputModel,
    Seq<char>,
> {
    match r {
        DomainResult::Success(o) => DomainResult::Success(o@),
        DomainResult::NotFound => DomainResult::NotFound,
        DomainResult::Failure(e) => DomainResult::Failure(e@),
    }
}

/// What a use case does next, as text.
pub enum StepModel {
    Ask(Seq<StatementModel>),
    Finish(DomainResult<OutputModel, Seq<char>>),
}

/// What a use case does next.
#[derive(Debug)]
pub enum Step {
    /// Run these statements in order, stop at the first that fails, and come
    /// back with the answer to the last one, or with the failure.
    Ask(Vec<Statement>),
    /// The use case has ended with this outcome. A transaction that is still
    /// open is to be rolled back.
    Finish(DomainResult<Output, String>),
}

impl View for Step {
    type V = StepModel;

    open spec fn view(&self) -> StepModel {
        match *self {
            Step::Ask(statements) => StepModel::Ask(statements_view(statements@)),
            Step::Finish(outcome) => StepModel::Finish(outcome_view(outcome)),
        }
    }
}

/// Where a use case stands while the store works, as text.
pub enum PendingModel {
    ListUsers,
    ListCommit,
    ListNames { listed: Seq<UserRow> },
    FindUser { wanted: u128 },
    FindNames { found: UserRow },
    CreateUser { entries: Seq<(Seq<char>, NameTriple)> },
    CreateNames { created: UserRow, given: Seq<(Seq<char>, NameTriple)> },
    UpdateUser { target: u128, replacement: Option<Seq<(Seq<char>, NameTriple)>> },
    UpdateNames { updated: u128 },
    DeleteUser,
    Finished,
}

/// Where a use case stands while the store works: what it has asked for and
/// what it keeps for the answer.
#[derive(Debug)]
pub enum Pending {
    /// Listing: the user records were asked for.
    ListUsers,
    /// Listing: there is no user, the commit was asked for.
    ListCommit,
    /// Listing: the names of these users were asked for, in one query.
    ListNames { listed: Vec<UserEntity> },
    /// Reading: the user record was asked for.
    FindUser { wanted: u128 },
    /// Reading: the names of this user were asked for.
    FindNames { found: UserEntity },
    /// Creating: the insertion of the record was asked for.
    CreateUser { entries: hash::Hash<PersonName> },
    /// Creating: the names of the new record and the commit were asked for.
    CreateNames { created: UserEntity, given: hash::Hash<PersonName> },
    /// Updating: the update of the record was asked for.
    UpdateUser { target: u128, replacement: Option<hash::Hash<PersonName>> },
    /// Updating: the replacement of the names, if any, and the commit were
    /// asked for.
    UpdateNames { updated: u128 },
    /// Deleting: the removal of the record was asked for.
    DeleteUser,
    /// The use case has ended.
    Finished,
}

/// The entries of an optional mapping of names, as text.
pub open spec fn optional_entries(names: Option<hash::Hash<PersonName>>) -> Option<
    Seq<(Seq<char>, NameTriple)>,
> {
    match names {
        Some(n) => Some(entries_view(n.values@)),
        None => None,
    }
}

impl View for Pending {
    type V = PendingModel;

    open spec fn view(&self) -> PendingModel {
        match *self {
            Pending::ListUsers => PendingModel::ListUsers,
            Pending::ListCommit => PendingModel::ListCommit,
            Pending::ListNames { listed } => PendingModel::ListNames { listed: users_view(listed@) },
            Pending::FindUser { wanted } => PendingModel::FindUser { wanted },
            Pending::FindNames { found } => PendingModel::FindNames { found: found@ },
            Pending::CreateUser { entries } => PendingModel::CreateUser {
                entries: entries_view(entries.values@),
            },
            Pending::CreateNames { created, given } => PendingModel::CreateNames {
                created: created@,
                given: entries_view(given.values@),
            },
            Pending::UpdateUser { target, replacement } => PendingModel::UpdateUser {
                target,
                replacement: optional_entries(replacement),
            },
            Pending::UpdateNames { updated } => PendingModel::UpdateNames { updated },
            Pending::DeleteUser => PendingModel::DeleteUser,
            Pending::Finished => PendingModel::Finished,
        }
    }
}

/// The message of the failure that ends a use case when the answer is not
/// one that the statements asked could have.
pub open spec fn unexpected_reply() -> Seq<char> {
    "unexpected reply from the store"@
}

/// A use case that ends in failure.
pub open spec fn failed(message: Seq<char>) -> (PendingModel, StepModel) {
    (PendingModel::Finished, StepModel::Finish(DomainResult::Failure(message)))
}

/// A use case that ends with the given outcome.
pub open spec fn ended(outcome: DomainResult<OutputModel, Seq<char>>) -> (PendingModel, StepModel) {
    (PendingModel::Finished, StepModel::Finish(outcome))
}

/// The ids of a list of user records, in their order.
pub open spec fn ids_of(rows: Seq<UserRow>) -> Seq<u128> {
    Seq::new(rows.len(), |i: int| rows[i].id)
}

/// The users that a list of records and the rows of one query for their
/// names make: each record with the names of its own rows.
pub open spec fn listed_users(users: Seq<UserRow>, rows: Seq<NameRow>) -> Seq<UserModel> {
    Seq::new(users.len(), |i: int| user_of(users[i], names_of(rows, users[i].id)))
}

/// The statements of the second part of an update: the replacement of the
/// names where the request has names, then the commit.
pub open spec fn names_update(target: u128, replacement: Option<Seq<(Seq<char>, NameTriple)>>) -> Seq<
    StatementModel,
> {
    match replacement {
        Some(entries) => replace_statements(target, entries) + seq![StatementModel::Commit],
        None => seq![StatementModel::Commit],
    }
}

/// How listing starts: a transaction, and all the user records.
pub open spec fn list_model() -> (PendingModel, StepModel) {
    (
        PendingModel::ListUsers,
        StepModel::Ask(seq![StatementModel::Begin, StatementModel::SelectUsers]),
    )
}

/// How reading one user starts: its record.
pub open spec fn find_model(id: u128) -> (PendingModel, StepModel) {
    (PendingModel::FindUser { wanted: id }, StepModel::Ask(seq![StatementModel::SelectUser { id }]))
}

/// How creating starts, given what hashing the password gave: nothing is
/// sent to the store where hashing failed; else a transaction and the new
/// record with the digest.
pub open spec fn create_model(
    email: Seq<char>,
    entries: Seq<(Seq<char>, NameTriple)>,
    digest: Result<Seq<char>, Seq<char>>,
) -> (PendingModel, StepModel) {
    match digest {
        Err(e) => failed(e),
        Ok(d) => (
            PendingModel::CreateUser { entries },
            StepModel::Ask(
                seq![StatementModel::Begin, StatementModel::InsertUser { email, password: d }],
            ),
        ),
    }
}

/// The digest that an update stores: none where no password was given.
pub open spec fn new_digest(digest: Option<Result<Seq<char>, Seq<char>>>) -> Option<Seq<char>> {
    match digest {
        Some(Ok(d)) => Some(d),
        _ => None,
    }
}

/// How updating starts, given what hashing the new password gave, if the
/// request has one: nothing is sent to the store where hashing failed;
/// else a transaction and an update of the record that names only the fields
/// that the request has.
pub open spec fn update_model(
    id: u128,
    email: Option<Seq<char>>,
    replacement: Option<Seq<(Seq<char>, NameTriple)>>,
    digest: Option<Result<Seq<char>, Seq<char>>>,
) -> (PendingModel, StepModel) {
    match digest {
        Some(Err(e)) => failed(e),
        _ => (
            PendingModel::UpdateUser { target: id, replacement },
            StepModel::Ask(
                seq![
                    StatementModel::Begin,
                    StatementModel::UpdateUser {
                        id,
                        new_email: email,
                        new_password: new_digest(digest),
                    },
                ],
            ),
        ),
    }
}

/// How deleting starts: the removal of the record.
pub open spec fn delete_model(id: u128) -> (PendingModel, StepModel) {
    (PendingModel::DeleteUser, StepModel::Ask(seq![StatementModel::DeleteUser { id }]))
}

/// How a use case goes on when the store has answered.
pub open spec fn resume_model(p: PendingModel, r: ReplyModel) -> (PendingModel, StepModel) {
    match p {
        PendingModel::ListUsers => match r {
            ReplyModel::Users(rows) => if rows.len() == 0 {
                (PendingModel::ListCommit, StepModel::Ask(seq![StatementModel::Commit]))
            } else {
                (
                    PendingModel::ListNames { listed: rows },
                    StepModel::Ask(query_statements(ids_of(rows))),
                )
            },
            ReplyModel::Failed(e) => failed(e),
            _ => failed(unexpected_reply()),
        },
        PendingModel::ListCommit => match r {
            ReplyModel::Done => ended(DomainResult::Success(OutputModel::Listed(Seq::empty()))),
            ReplyModel::Failed(e) => failed(e),
            _ => failed(unexpected_reply()),
        },
        PendingModel::ListNames { listed } => match r {
            ReplyModel::Names(rows) => ended(
                DomainResult::Success(OutputModel::Listed(listed_users(listed, rows))),
            ),
            ReplyModel::Failed(e) => failed(e),
            _ => failed(unexpected_reply()),
        },
        PendingModel::FindUser { wanted } => match r {
            ReplyModel::Users(rows) => if rows.len() == 0 {
                ended(DomainResult::NotFound)
            } else {
                (
                    PendingModel::FindNames { found: rows[0] },
                    StepModel::Ask(seq![StatementModel::SelectNamesOf { user_id: wanted }]),
                )
            },
            ReplyModel::Failed(e) => failed(e),
            _ => failed(unexpected_reply()),
        },
        PendingModel::FindNames { found } => match r {
            ReplyModel::Names(rows) => ended(
                DomainResult::Success(OutputModel::Single(user_of(found, fold_names(rows)))),
            ),
            ReplyModel::Failed(e) => failed(e),
            _ => failed(unexpected_reply()),
        },
        PendingModel::CreateUser { entries } => match r {
            ReplyModel::Users(rows) => if rows.len() == 0 {
                failed(unexpected_reply())
            } else {
                (
                    PendingModel::CreateNames { created: rows[0], given: entries },
                    StepModel::Ask(
                        replace_statements(rows[0].id, entries) + seq![StatementModel::Commit],
                    ),
                )
            },
            ReplyModel::Failed(e) => failed(e),
            _ => failed(unexpected_reply()),
        },
        PendingModel::CreateNames { created, given } => match r {
            ReplyModel::Done => ended(
                DomainResult::Success(OutputModel::Single(user_of(created, names_map(given)))),
            ),
            ReplyModel::Failed(e) => failed(e),
            _ => failed(unexpected_reply()),
        },
        PendingModel::UpdateUser { target, replacement } => match r {
            ReplyModel::Users(rows) => if rows.len() == 0 {
                ended(DomainResult::NotFound)
            } else {
                (
                    PendingModel::UpdateNames { updated: target },
                    StepModel::Ask(names_update(target, replacement)),
                )
            },
            ReplyModel::Failed(e) => failed(e),
            _ => failed(unexpected_reply()),
        },
        PendingModel::UpdateNames { updated } => match r {
            ReplyModel::Done => find_model(updated),
            ReplyModel::Failed(e) => failed(e),
            _ => failed(unexpected_reply()),
        },
        PendingModel::DeleteUser => match r {
            ReplyModel::Affected(n) => if n == 0 {
                ended(DomainResult::NotFound)
            } else {
                ended(DomainResult::Success(OutputModel::Deleted))
            },
            ReplyModel::Failed(e) => failed(e),
            _ => failed(unexpected_reply()),
        },
        PendingModel::Finished => failed(unexpected_reply()),
    }
}

/// What hashing a new password gave, where there was one, as text.
pub open spec fn optional_digest_text(digest: Option<Result<String, String>>) -> Option<
    Result<Seq<char>, Seq<char>>,
> {
    match digest {
        Some(d) => Some(digest_text(d)),
        None => None,
    }
}

fn fail(message: String) -> (r: (Pending, Step))
    ensures
        (r.0@, r.1@) == failed(message@),
{
    (Pending::Finished, Step::Finish(DomainResult::Failure(message)))
}

fn unexpected() -> (r: (Pending, Step))
    ensures
        (r.0@, r.1@) == failed(unexpected_reply()),
{
    fail("unexpected reply from the store".to_owned())
}

fn end(outcome: DomainResult<Output, String>) -> (r: (Pending, Step))
    ensures
        (r.0@, r.1@) == ended(outcome_view(outcome)),
{
    (Pending::Finished, Step::Finish(outcome))
}

fn ask_one(pending: Pending, statement: Statement) -> (r: (Pending, Step))
    ensures
        r.0 == pending,
        r.1@ == StepModel::Ask(seq![statement@]),
{
    let mut plan: Vec<Statement> = Vec::new();
    plan.push(statement);
    assert(statements_view(plan@) =~= seq![statement@]);
    (pending, Step::Ask(plan))
}

fn ask_two(pending: Pending, first: Statement, second: Statement) -> (r: (Pending, Step))
    ensures
        r.0 == pending,
        r.1@ == StepModel::Ask(seq![first@, second@]),
{
    let mut plan: Vec<Statement> = Vec::new();
    plan.push(first);
    plan.push(second);
    assert(statements_view(plan@) =~= seq![first@, second@]);
    (pending, Step::Ask(plan))
}

/// The ids of the given user records, in their order.
pub fn user_ids(users: &Vec<UserEntity>) -> (ids: Vec<u128>)
    ensures
        ids@ == ids_of(users_view(users@)),
{
    let mut ids: Vec<u128> = Vec::new();
    let mut i: usize = 0;
    while i < users.len()
        invariant
            i <= users.len(),
            ids@ == ids_of(users_view(users@)).take(i as int),
        decreases users.len() - i,
    {
        ids.push(users[i].id);
        assert(ids@ =~= ids_of(users_view(users@)).take(i + 1));
        i = i + 1;
    }
    assert(ids_of(users_view(users@)).take(users.len() as int) =~= ids_of(users_view(users@)));
    ids
}

/// Makes a user of its stored record and the rows of its names.
pub fn map_to_domain(entity: UserEntity, names: Vec<UserNameEntity>) -> (user: User)
    ensures
        user@ == user_of(entity@, fold_names(rows_view(names@))),
        user.name.has_distinct_keys(),
{
    let name = fold_rows(&names);
    User {
        id: entity.id,
        name,
        email: entity.email,
        password: entity.password,
        created_at: entity.created_at,
        updated_at: entity.updated_at,
    }
}

/// Makes the users of their stored records and the rows that one query for
/// all their names returned: each user gets the names of its own rows, and
/// an empty mapping where it has none.
pub fn assemble_users(listed: &Vec<UserEntity>, rows: &Vec<UserNameEntity>) -> (users: Vec<User>)
    ensures
        user_models(users@) == listed_users(users_view(listed@), rows_view(rows@)),
        forall|i: int| 0 <= i < users@.len() ==> (#[trigger] users@[i]).name.has_distinct_keys(),
{
    let ids = user_ids(listed);
    let grouped = group_names(&ids, rows);
    let ghost target = listed_users(users_view(listed@), rows_view(rows@));
    let mut users: Vec<User> = Vec::new();
    let mut i: usize = 0;
    while i < listed.len()
        invariant
            i <= listed.len(),
            ids@ == ids_of(users_view(listed@)),
            target == listed_users(users_view(listed@), rows_view(rows@)),
            forall|id: u128| grouped@.contains_key(id) <==> ids@.contains(id),
            forall|id: u128| #[trigger]
                grouped@.contains_key(id) ==> people_view(grouped@[id]) == names_of(
                    rows_view(rows@),
                    id,
                ) && grouped@[id].has_distinct_keys(),
            users@.len() == i,
            forall|j: int| 0 <= j < i ==> (#[trigger] users@[j])@ == target[j],
            forall|j: int| 0 <= j < i ==> (#[trigger] users@[j]).name.has_distinct_keys(),
        decreases listed.len() - i,
    {
        let entity = &listed[i];
        assert(ids@[i as int] == entity.id);
        assert(ids@.contains(entity.id));
        let name = match grouped.get(&entity.id) {
            Some(names) => duplicate_names(names),
            None => hash::Hash::empty(),
        };
        let user = User {
            id: entity.id,
            name,
            email: entity.email.clone(),
            password: entity.password.clone(),
            created_at: entity.created_at,
            updated_at: entity.updated_at,
        };
        assert(user@ == target[i as int]);
        users.push(user);
        i = i + 1;
    }
    assert(user_models(users@) =~= target);
    users
}

/// Starts listing every user.
pub fn get_all_users() -> (r: (Pending, Step))
    ensures
        (r.0@, r.1@) == list_model(),
{
    ask_two(Pending::ListUsers, Statement::Begin, Statement::SelectUsers)
}

/// Starts reading the user with the given id.
pub fn find_one_user(id: u128) -> (r: (Pending, Step))
    ensures
        (r.0@, r.1@) == find_model(id),
{
    ask_one(Pending::FindUser { wanted: id }, Statement::SelectUser { id })
}

/// Starts creating a user, given what hashing its password gave.
pub fn begin_create(email: String, names: hash::Hash<PersonName>, digest: Result<String, String>) -> (r:
    (Pending, Step))
    ensures
        (r.0@, r.1@) == create_model(email@, entries_view(names.values@), digest_text(digest)),
{
    match digest {
        Err(e) => fail(e),
        Ok(d) => ask_two(
            Pending::CreateUser { entries: names },
            Statement::Begin,
            Statement::InsertUser { email, password: d },
        ),
    }
}

/// Starts creating a user: hashes the password under a fresh salt, and goes
/// on as [`begin_create`] does with what that gave. Where hashing fails
/// nothing is sent to the store. The digest that is sent in place of the
/// password is one that the password verifies against.
pub fn create_user(req: CreateUserRequest) -> (r: (Pending, Step))
    ensures
        exists|salt: Seq<char>|
            verifies(req.password@, argon2_digest(req.password@, salt)) && (r.0@, r.1@)
                == create_model(
                req.email@,
                entries_view(req.name.values@),
                #[trigger] argon2_digest(req.password@, salt),
            ),
{
    let digest = hash_password(req.password.as_str());
    let ghost salt = choose|salt: Seq<char>|
        digest_text(digest) == #[trigger] argon2_digest(req.password@, salt);
    let r = begin_create(req.email, req.name, digest);
    assert(verifies(req.password@, argon2_digest(req.password@, salt)) && (r.0@, r.1@)
        == create_model(
        req.email@,
        entries_view(req.name.values@),
        argon2_digest(req.password@, salt),
    ));
    r
}

/// Starts updating a user, given what hashing the new password gave where
/// the request has one.
pub fn begin_update(
    id: u128,
    email: Option<String>,
    names: Option<hash::Hash<PersonName>>,
    digest: Option<Result<String, String>>,
) -> (r: (Pending, Step))
    ensures
        (r.0@, r.1@) == update_model(
            id,
            text_of(email),
            optional_entries(names),
            optional_digest_text(digest),
        ),
{
    let new_password = match digest {
        Some(Err(e)) => {
            return fail(e);
        },
        Some(Ok(d)) => Some(d),
        None => None,
    };
    ask_two(
        Pending::UpdateUser { target: id, replacement: names },
        Statement::Begin,
        Statement::UpdateUser { id, new_email: email, new_password },
    )
}

/// What hashing the new password of an update under a salt gives; nothing
/// where the request has no password.
pub open spec fn rehashed(password: Option<String>, salt: Seq<char>) -> Option<
    Result<Seq<char>, Seq<char>>,
> {
    match password {
        Some(p) => Some(argon2_digest(p@, salt)),
        None => None,
    }
}

/// Where an update has a new password, the password verifies against the
/// digest made of it under the salt.
pub open spec fn rehashed_verifies(password: Option<String>, salt: Seq<char>) -> bool {
    match password {
        Some(p) => verifies(p@, argon2_digest(p@, salt)),
        None => true,
    }
}

/// Starts updating a user: hashes the new password under a fresh salt where
/// the request has one, and goes on as [`begin_update`] does. A request
/// without a password hashes nothing. The digest that is sent in place of a
/// new password is one that the password verifies against.
pub fn update_user(id: u128, req: UpdateUserRequest) -> (r: (Pending, Step))
    ensures
        exists|salt: Seq<char>|
            rehashed_verifies(req.password, salt) && (r.0@, r.1@) == update_model(
                id,
                text_of(req.email),
                optional_entries(req.name),
                #[trigger] rehashed(req.password, salt),
            ),
{
    let digest = match &req.password {
        Some(p) => Some(hash_password(p.as_str())),
        None => None,
    };
    let ghost salt = match req.password {
        Some(p) => choose|salt: Seq<char>|
            digest_text(digest->0) == #[trigger] argon2_digest(p@, salt),
        None => Seq::<char>::empty(),
    };
    let r = begin_update(id, req.email, req.name, digest);
    assert(rehashed_verifies(req.password, salt) && (r.0@, r.1@) == update_model(
        id,
        text_of(req.email),
        optional_entries(req.name),
        rehashed(req.password, salt),
    ));
    r
}

/// Starts deleting the user with the given id.
pub fn delete_user(id: u128) -> (r: (Pending, Step))
    ensures
        (r.0@, r.1@) == delete_model(id),
{
    ask_one(Pending::DeleteUser, Statement::DeleteUser { id })
}

impl Pending {
    /// Goes on with the use case when the store has answered.
    pub fn resume(self, reply: Reply) -> (r: (Pending, Step))
        ensures
            (r.0@, r.1@) == resume_model(self@, reply@),
    {
        match self {
            Pending::ListUsers => match reply {
                Reply::Users(rows) => {
                    if rows.len() == 0 {
                        ask_one(Pending::ListCommit, Statement::Commit)
                    } else {
                        let ids = user_ids(&rows);
                        let plan = names_query(&ids);
                        (Pending::ListNames { listed: rows }, Step::Ask(plan))
                    }
                },
                Reply::Failed(e) => fail(e),
                _ => unexpected(),
            },
            Pending::ListCommit => match reply {
                Reply::Done => {
                    let none: Vec<User> = Vec::new();
                    assert(user_models(none@) =~= Seq::<UserModel>::empty());
                    end(DomainResult::Success(Output::Listed(none)))
                },
                Reply::Failed(e) => fail(e),
                _ => unexpected(),
            },
            Pending::ListNames { listed } => match reply {
                Reply::Names(rows) => {
                    let users = assemble_users(&listed, &rows);
                    end(DomainResult::Success(Output::Listed(users)))
                },
                Reply::Failed(e) => fail(e),
                _ => unexpected(),
            },
            Pending::FindUser { wanted } => match reply {
                Reply::Users(rows) => {
                    if rows.len() == 0 {
                        end(DomainResult::NotFound)
                    } else {
                        let mut rows = rows;
                        let ghost first = users_view(rows@)[0];
                        let found = rows.remove(0);
                        assert(found@ == first);
                        ask_one(
                            Pending::FindNames { found },
                            Statement::SelectNamesOf { user_id: wanted },
                        )
                    }
                },
                Reply::Failed(e) => fail(e),
                _ => unexpected(),
            },
            Pending::FindNames { found } => match reply {
                Reply::Names(rows) => {
                    let user = map_to_domain(found, rows);
                    end(DomainResult::Success(Output::Single(user)))
                },
                Reply::Failed(e) => fail(e),
                _ => unexpected(),
            },
            Pending::CreateUser { entries } => match reply {
                Reply::Users(rows) => {
                    if rows.len() == 0 {
                        unexpected()
                    } else {
                        let mut rows = rows;
                        let ghost first = users_view(rows@)[0];
                        let created = rows.remove(0);
                        assert(created@ == first);
                        let mut plan = replace_names(created.id, &entries);
                        let ghost replacement = statements_view(plan@);
                        plan.push(Statement::Commit);
                        assert(statements_view(plan@) =~= replacement + seq![
                            StatementModel::Commit,
                        ]);
                        (Pending::CreateNames { created, given: entries }, Step::Ask(plan))
                    }
                },
                Reply::Failed(e) => fail(e),
                _ => unexpected(),
            },
            Pending::CreateNames { created, given } => match reply {
                Reply::Done => {
                    proof {
                        lemma_people_view(given);
                    }
                    let user = User {
                        id: created.id,
                        name: given,
                        email: created.email,
                        password: created.password,
                        created_at: created.created_at,
                        updated_at: created.updated_at,
                    };
                    end(DomainResult::Success(Output::Single(user)))
                },
                Reply::Failed(e) => fail(e),
                _ => unexpected(),
            },
            Pending::UpdateUser { target, replacement } => match reply {
                Reply::Users(rows) => {
                    if rows.len() == 0 {
                        end(DomainResult::NotFound)
                    } else {
                        let mut plan = match &replacement {
                            Some(names) => replace_names(target, names),
                            None => Vec::new(),
                        };
                        let ghost before = statements_view(plan@);
                        plan.push(Statement::Commit);
                        assert(statements_view(plan@) =~= before + seq![StatementModel::Commit]);
                        assert(statements_view(plan@) =~= names_update(
                            target,
                            optional_entries(replacement),
                        ));
                        (Pending::UpdateNames { updated: target }, Step::Ask(plan))
                    }
                },
                Reply::Failed(e) => fail(e),
                _ => unexpected(),
            },
            Pending::UpdateNames { updated } => match reply {
                Reply::Done => find_one_user(updated),
                Reply::Failed(e) => fail(e),
                _ => unexpected(),
            },
            Pending::DeleteUser => match reply {
                Reply::Affected(n) => {
                    if n == 0 {
                        end(DomainResult::NotFound)
                    } else {
                        end(DomainResult::Success(Output::Deleted))
                    }
                },
                Reply::Failed(e) => fail(e),
                _ => unexpected(),
            },
            Pending::Finished => unexpected(),
        }
    }
}

} // verus!
