use std::collections::HashMap;
use user_service::shared::hash;
use user_service::shared::password::verify_password;
use user_service::shared::result::DomainResult;
use user_service::users::dtos::{CreateUserRequest, UpdateUserRequest};
use user_service::users::entities::{PersonName, User, UserEntity, UserNameEntity};
use user_service::users::handlers;
use user_service::users::store::{Reply, Statement};
use user_service::users::usecases::{
    assemble_users, begin_create, begin_update, create_user, delete_user, find_one_user,
    get_all_users, map_to_domain, update_user, user_ids, Output, Pending, Step,
};
use user_service::shared::error::AppError;

/// A store in memory that answers the statements as a relational store does.
struct Store {
    users: Vec<UserEntity>,
    names: Vec<UserNameEntity>,
    next_id: u128,
    clock: i64,
    /// Every list of statements that was asked, in order.
    asked: Vec<Vec<String>>,
    /// The statement, counted from 1 over the whole run, that fails.
    fail_at: Option<usize>,
    run: usize,
}

fn new_store() -> Store {
    Store {
        users: Vec::new(),
        names: Vec::new(),
        next_id: 100,
        clock: 1_000,
        asked: Vec::new(),
        fail_at: None,
        run: 0,
    }
}

fn kind(s: &Statement) -> String {
    match s {
        Statement::Begin => "begin",
        Statement::Commit => "commit",
        Statement::SelectUsers => "select users",
        Statement::SelectUser { .. } => "select user",
        Statement::SelectNames { .. } => "select names",
        Statement::SelectNamesOf { .. } => "select names of",
        Statement::InsertUser { .. } => "insert user",
        Statement::UpdateUser { .. } => "update user",
        Statement::DeleteNames { .. } => "delete names",
        Statement::InsertName { .. } => "insert name",
        Statement::DeleteUser { .. } => "delete user",
    }
    .to_string()
}

fn perform(store: &mut Store, s: Statement) -> Reply {
    store.clock += 1;
    match s {
        Statement::Begin | Statement::Commit => Reply::Done,
        Statement::SelectUsers => Reply::Users(store.users.clone()),
        Statement::SelectUser { id } => {
            Reply::Users(store.users.iter().filter(|u| u.id == id).cloned().collect())
        }
        Statement::SelectNames { user_ids } => Reply::Names(
            store.names.iter().filter(|r| user_ids.contains(&r.user_id)).cloned().collect(),
        ),
        Statement::SelectNamesOf { user_id } => {
            Reply::Names(store.names.iter().filter(|r| r.user_id == user_id).cloned().collect())
        }
        Statement::InsertUser { email, password } => {
            store.next_id += 1;
            let row = UserEntity {
                id: store.next_id,
                email,
                password,
                created_at: store.clock,
                updated_at: store.clock,
            };
            store.users.insert(0, row.clone());
            Reply::Users(vec![row])
        }
        Statement::UpdateUser { id, new_email, new_password } => {
            let mut out = Vec::new();
            for u in store.users.iter_mut() {
                if u.id == id {
                    if let Some(e) = &new_email {
                        u.email = e.clone();
                    }
                    if let Some(p) = &new_password {
                        u.password = p.clone();
                    }
                    u.updated_at = store.clock;
                    out.push(u.clone());
                }
            }
            Reply::Users(out)
        }
        Statement::DeleteNames { user_id } => {
            let before = store.names.len();
            store.names.retain(|r| r.user_id != user_id);
            Reply::Affected((before - store.names.len()) as u64)
        }
        Statement::InsertName { row } => {
            store.names.push(row);
            Reply::Affected(1)
        }
        Statement::DeleteUser { id } => {
            let before = store.users.len();
            store.users.retain(|u| u.id != id);
            store.names.retain(|r| r.user_id != id);
            Reply::Affected((before - store.users.len()) as u64)
        }
    }
}

/// Runs a use case to its end against the store. A failure inside a
/// transaction puts the tables back as they were when it began.
fn run(store: &mut Store, start: (Pending, Step)) -> DomainResult<Output, String> {
    let (mut pending, mut step) = start;
    let mut saved: Option<(Vec<UserEntity>, Vec<UserNameEntity>)> = None;
    loop {
        match step {
            Step::Finish(outcome) => {
                if let Some((users, names)) = saved {
                    store.users = users;
                    store.names = names;
                }
                return outcome;
            }
            Step::Ask(statements) => {
                store.asked.push(statements.iter().map(kind).collect());
                let mut reply = Reply::Done;
                for s in statements {
                    store.run += 1;
                    if store.fail_at == Some(store.run) {
                        reply = Reply::Failed("store is down".to_string());
                        break;
                    }
                    if matches!(s, Statement::Begin) {
                        saved = Some((store.users.clone(), store.names.clone()));
                    }
                    if matches!(s, Statement::Commit) {
                        saved = None;
                    }
                    reply = perform(store, s);
                }
                let next = pending.resume(reply);
                pending = next.0;
                step = next.1;
            }
        }
    }
}

fn name(first: &str, middle: &str, last: &str) -> PersonName {
    PersonName { first: first.to_string(), middle: middle.to_string(), last: last.to_string() }
}

fn names_of(entries: Vec<(&str, PersonName)>) -> hash::Hash<PersonName> {
    let mut names = hash::Hash::empty();
    for (k, v) in entries {
        names.insert(k.to_string(), v);
    }
    names
}

fn as_map(names: &hash::Hash<PersonName>) -> HashMap<String, (String, String, String)> {
    let mut m = HashMap::new();
    for (k, v) in &names.values {
        m.insert(k.clone(), (v.first.clone(), v.middle.clone(), v.last.clone()));
    }
    m
}

fn single(outcome: DomainResult<Output, String>) -> User {
    match outcome {
        DomainResult::Success(Output::Single(user)) => user,
        DomainResult::Success(_) => panic!("not one user"),
        DomainResult::NotFound => panic!("not found"),
        DomainResult::Failure(e) => panic!("failed: {}", e),
    }
}

fn listed(outcome: DomainResult<Output, String>) -> Vec<User> {
    match outcome {
        DomainResult::Success(Output::Listed(users)) => users,
        DomainResult::Success(_) => panic!("not a list"),
        DomainResult::NotFound => panic!("not found"),
        DomainResult::Failure(e) => panic!("failed: {}", e),
    }
}

fn create(store: &mut Store, email: &str, password: &str, names: hash::Hash<PersonName>) -> User {
    single(run(
        store,
        create_user(CreateUserRequest {
            name: names,
            email: email.to_string(),
            password: password.to_string(),
        }),
    ))
}

/// Creates a user with a digest that is given, so that no hashing runs.
fn create_plain(store: &mut Store, email: &str, digest: &str, names: hash::Hash<PersonName>) -> User {
    single(run(store, begin_create(email.to_string(), names, Ok(digest.to_string()))))
}

#[test]
fn created_user_is_read_back_with_its_digest_and_its_one_locale() {
    let mut store = new_store();
    let created =
        create(&mut store, "a@x.com", "secret", names_of(vec![("en", name("Jane", "", "Doe"))]));
    assert_eq!(created.email, "a@x.com");
    let read = single(run(&mut store, find_one_user(created.id)));
    assert_eq!(read.id, created.id);
    assert_eq!(read.email, "a@x.com");
    assert_ne!(read.password, "secret");
    assert_eq!(verify_password("secret", &read.password), Ok(true));
    assert_eq!(verify_password("other", &read.password), Ok(false));
    assert_eq!(read.name.values.len(), 1);
    assert_eq!(read.name.values[0].0, "en");
    assert_eq!(read.name.values[0].1.first, "Jane");
    assert_eq!(read.name.values[0].1.middle, "");
    assert_eq!(read.name.values[0].1.last, "Doe");
}

#[test]
fn create_asks_for_the_record_and_then_replaces_names_and_commits() {
    let mut store = new_store();
    let names = names_of(vec![("en", name("Jane", "", "Doe")), ("th", name("S", "", "J"))]);
    let user = create_plain(&mut store, "a@x.com", "digest", names);
    assert_eq!(
        store.asked,
        vec![
            vec!["begin".to_string(), "insert user".to_string()],
            vec![
                "delete names".to_string(),
                "insert name".to_string(),
                "insert name".to_string(),
                "commit".to_string()
            ],
        ]
    );
    assert_eq!(user.password, "digest");
    assert_eq!(user.name.values.len(), 2);
    assert_eq!(store.names.len(), 2);
    assert!(store.names.iter().all(|r| r.user_id == user.id));
}

#[test]
fn create_with_no_names_stores_no_name() {
    let mut store = new_store();
    let user = create_plain(&mut store, "a@x.com", "digest", hash::Hash::empty());
    assert!(user.name.values.is_empty());
    assert!(store.names.is_empty());
    let read = single(run(&mut store, find_one_user(user.id)));
    assert!(read.name.values.is_empty());
}

#[test]
fn create_sends_nothing_when_hashing_failed() {
    let mut store = new_store();
    let outcome = run(
        &mut store,
        begin_create("a@x.com".to_string(), hash::Hash::empty(), Err("no entropy".to_string())),
    );
    assert!(matches!(outcome, DomainResult::Failure(e) if e == "no entropy"));
    assert!(store.asked.is_empty());
    assert!(store.users.is_empty());
}

#[test]
fn create_that_fails_at_a_name_leaves_no_record() {
    let mut store = new_store();
    store.fail_at = Some(4);
    let names = names_of(vec![("en", name("Jane", "", "Doe")), ("th", name("S", "", "J"))]);
    let outcome = run(&mut store, begin_create("a@x.com".to_string(), names, Ok("d".to_string())));
    assert!(matches!(outcome, DomainResult::Failure(e) if e == "store is down"));
    assert!(store.users.is_empty());
    assert!(store.names.is_empty());
}

#[test]
fn reading_an_unknown_id_is_not_found() {
    let mut store = new_store();
    let outcome = run(&mut store, find_one_user(5));
    assert!(matches!(outcome, DomainResult::NotFound));
    assert_eq!(store.asked, vec![vec!["select user".to_string()]]);
}

#[test]
fn reading_fails_with_the_message_of_the_store() {
    let mut store = new_store();
    let user = create_plain(&mut store, "a@x.com", "d", hash::Hash::empty());
    store.fail_at = Some(store.run + 2);
    let outcome = run(&mut store, find_one_user(user.id));
    assert!(matches!(outcome, DomainResult::Failure(e) if e == "store is down"));
}

#[test]
fn deleting_an_unknown_id_is_not_found_and_no_internal_error() {
    let mut store = new_store();
    let outcome = run(&mut store, delete_user(77));
    assert!(matches!(outcome, DomainResult::NotFound));
    let answer = handlers::delete_user(DomainResult::NotFound);
    match answer {
        Err(AppError::NotFound(m)) => assert_eq!(m, "User not found"),
        Err(other) => panic!("wrong error: {:?}", other),
        Ok(_) => panic!("no error"),
    }
}

#[test]
fn deleting_a_user_removes_it_and_its_names() {
    let mut store = new_store();
    let a = create_plain(&mut store, "a@x.com", "d", names_of(vec![("en", name("A", "", "A"))]));
    let b = create_plain(&mut store, "b@x.com", "d", names_of(vec![("th", name("B", "", "B"))]));
    let outcome = run(&mut store, delete_user(a.id));
    assert!(matches!(outcome, DomainResult::Success(Output::Deleted)));
    assert!(matches!(run(&mut store, find_one_user(a.id)), DomainResult::NotFound));
    let left = single(run(&mut store, find_one_user(b.id)));
    assert_eq!(left.name.values.len(), 1);
    assert_eq!(store.names.len(), 1);
    assert!(matches!(run(&mut store, delete_user(a.id)), DomainResult::NotFound));
}

#[test]
fn update_to_an_empty_mapping_clears_the_names() {
    let mut store = new_store();
    let user =
        create_plain(&mut store, "a@x.com", "d", names_of(vec![("en", name("Jane", "", "Doe"))]));
    let updated = single(run(
        &mut store,
        update_user(
            user.id,
            UpdateUserRequest { name: Some(hash::Hash::empty()), email: None, password: None },
        ),
    ));
    assert!(updated.name.values.is_empty());
    let read = single(run(&mut store, find_one_user(user.id)));
    assert!(read.name.values.is_empty());
    assert_eq!(read.email, "a@x.com");
}

#[test]
fn update_of_the_email_alone_leaves_digest_and_names() {
    let mut store = new_store();
    let user = create_plain(
        &mut store,
        "a@x.com",
        "digest",
        names_of(vec![("en", name("Jane", "", "Doe")), ("th", name("S", "", "J"))]),
    );
    let before = as_map(&user.name);
    store.asked.clear();
    let updated = single(run(
        &mut store,
        update_user(
            user.id,
            UpdateUserRequest { name: None, email: Some("b@x.com".to_string()), password: None },
        ),
    ));
    assert_eq!(updated.id, user.id);
    assert_eq!(updated.email, "b@x.com");
    assert_eq!(updated.password, "digest");
    assert_eq!(updated.created_at, user.created_at);
    assert!(updated.updated_at > user.updated_at);
    assert_eq!(as_map(&updated.name), before);
    assert_eq!(
        store.asked,
        vec![
            vec!["begin".to_string(), "update user".to_string()],
            vec!["commit".to_string()],
            vec!["select user".to_string()],
            vec!["select names of".to_string()],
        ]
    );
}

#[test]
fn update_of_the_password_alone_stores_a_new_digest() {
    let mut store = new_store();
    let user =
        create(&mut store, "a@x.com", "secret", names_of(vec![("en", name("Jane", "", "Doe"))]));
    let updated = single(run(
        &mut store,
        update_user(
            user.id,
            UpdateUserRequest { name: None, email: None, password: Some("fresh".to_string()) },
        ),
    ));
    assert_eq!(updated.email, "a@x.com");
    assert_ne!(updated.password, user.password);
    assert_eq!(verify_password("fresh", &updated.password), Ok(true));
    assert_eq!(verify_password("secret", &updated.password), Ok(false));
    assert_eq!(updated.name.values.len(), 1);
}

#[test]
fn update_of_names_replaces_them_and_no_others() {
    let mut store = new_store();
    let a = create_plain(&mut store, "a@x.com", "d", names_of(vec![("en", name("A", "", "A"))]));
    let b = create_plain(&mut store, "b@x.com", "d", names_of(vec![("en", name("B", "", "B"))]));
    store.asked.clear();
    let updated = single(run(
        &mut store,
        begin_update(
            a.id,
            None,
            Some(names_of(vec![("th", name("T", "", "T")), ("fr", name("F", "", "F"))])),
            None,
        ),
    ));
    assert_eq!(
        store.asked[1],
        vec![
            "delete names".to_string(),
            "insert name".to_string(),
            "insert name".to_string(),
            "commit".to_string()
        ]
    );
    let m = as_map(&updated.name);
    assert_eq!(m.len(), 2);
    assert_eq!(m["th"].0, "T");
    assert_eq!(m["fr"].0, "F");
    let other = single(run(&mut store, find_one_user(b.id)));
    assert_eq!(as_map(&other.name), as_map(&b.name));
    assert_eq!(other.email, "b@x.com");
}

#[test]
fn replacing_names_twice_is_as_replacing_them_once() {
    let mut store = new_store();
    let a = create_plain(&mut store, "a@x.com", "d", names_of(vec![("en", name("A", "", "A"))]));
    let _b = create_plain(&mut store, "b@x.com", "d", names_of(vec![("en", name("B", "", "B"))]));
    let fresh = || names_of(vec![("th", name("T", "", "T")), ("en", name("E", "", "E"))]);
    single(run(&mut store, begin_update(a.id, None, Some(fresh()), None)));
    let once: Vec<String> = store.names.iter().map(|r| format!("{:?}", r)).collect();
    single(run(&mut store, begin_update(a.id, None, Some(fresh()), None)));
    let twice: Vec<String> = store.names.iter().map(|r| format!("{:?}", r)).collect();
    assert_eq!(once, twice);
    assert_eq!(store.names.len(), 3);
}

#[test]
fn update_of_an_unknown_id_is_not_found_and_writes_nothing() {
    let mut store = new_store();
    let a = create_plain(&mut store, "a@x.com", "d", names_of(vec![("en", name("A", "", "A"))]));
    store.asked.clear();
    let outcome = run(
        &mut store,
        begin_update(
            a.id + 1,
            Some("z@x.com".to_string()),
            Some(hash::Hash::empty()),
            None,
        ),
    );
    assert!(matches!(outcome, DomainResult::NotFound));
    assert_eq!(store.asked, vec![vec!["begin".to_string(), "update user".to_string()]]);
    assert_eq!(store.names.len(), 1);
    assert_eq!(store.users[0].email, "a@x.com");
}

#[test]
fn update_sends_nothing_when_hashing_failed() {
    let mut store = new_store();
    let outcome =
        run(&mut store, begin_update(1, None, None, Some(Err("no entropy".to_string()))));
    assert!(matches!(outcome, DomainResult::Failure(e) if e == "no entropy"));
    assert!(store.asked.is_empty());
}

#[test]
fn update_that_fails_at_an_insert_keeps_the_old_names() {
    let mut store = new_store();
    let a = create_plain(&mut store, "a@x.com", "d", names_of(vec![("en", name("A", "", "A"))]));
    store.fail_at = Some(store.run + 5);
    let outcome = run(
        &mut store,
        begin_update(
            a.id,
            Some("z@x.com".to_string()),
            Some(names_of(vec![("th", name("T", "", "T")), ("fr", name("F", "", "F"))])),
            None,
        ),
    );
    assert!(matches!(outcome, DomainResult::Failure(e) if e == "store is down"));
    store.fail_at = None;
    let read = single(run(&mut store, find_one_user(a.id)));
    assert_eq!(read.email, "a@x.com");
    assert_eq!(read.name.values.len(), 1);
    assert_eq!(read.name.values[0].0, "en");
}

#[test]
fn listing_no_user_commits_and_gives_an_empty_list() {
    let mut store = new_store();
    let users = listed(run(&mut store, get_all_users()));
    assert!(users.is_empty());
    assert_eq!(
        store.asked,
        vec![vec!["begin".to_string(), "select users".to_string()], vec!["commit".to_string()]]
    );
}

#[test]
fn listing_no_user_fails_when_the_commit_fails() {
    let mut store = new_store();
    store.fail_at = Some(3);
    let outcome = run(&mut store, get_all_users());
    assert!(matches!(outcome, DomainResult::Failure(e) if e == "store is down"));
    let (pending, _) = get_all_users();
    let (pending, _) = pending.resume(Reply::Users(Vec::new()));
    assert!(matches!(pending, Pending::ListCommit));
    let (_, step) = pending.resume(Reply::Affected(1));
    match step {
        Step::Finish(DomainResult::Failure(e)) => assert_eq!(e, "unexpected reply from the store"),
        _ => panic!("did not fail"),
    }
}

#[test]
fn listing_fetches_all_names_in_one_query() {
    let mut store = new_store();
    let a = create_plain(&mut store, "a@x.com", "d", names_of(vec![("en", name("A", "", "A"))]));
    let b = create_plain(&mut store, "b@x.com", "d", names_of(vec![("th", name("B", "", "B"))]));
    let c = create_plain(&mut store, "c@x.com", "d", hash::Hash::empty());
    store.asked.clear();
    let users = listed(run(&mut store, get_all_users()));
    assert_eq!(
        store.asked,
        vec![
            vec!["begin".to_string(), "select users".to_string()],
            vec!["select names".to_string()],
        ]
    );
    assert_eq!(users.len(), 3);
    assert_eq!(users[0].id, c.id);
    assert!(users[0].name.values.is_empty());
    assert_eq!(users[1].id, b.id);
    assert_eq!(users[1].name.values.len(), 1);
    assert_eq!(users[1].name.values[0].0, "th");
    assert_eq!(users[2].id, a.id);
    assert_eq!(users[2].name.values.len(), 1);
    assert_eq!(users[2].name.values[0].0, "en");
    assert_eq!(users[2].email, "a@x.com");
}

#[test]
fn listing_fails_with_the_message_of_the_store() {
    let mut store = new_store();
    store.fail_at = Some(1);
    let outcome = run(&mut store, get_all_users());
    assert!(matches!(outcome, DomainResult::Failure(e) if e == "store is down"));
}

#[test]
fn an_answer_of_the_wrong_kind_ends_the_use_case() {
    let (pending, _) = find_one_user(1);
    let (next, step) = pending.resume(Reply::Affected(3));
    assert!(matches!(next, Pending::Finished));
    match step {
        Step::Finish(DomainResult::Failure(e)) => assert_eq!(e, "unexpected reply from the store"),
        _ => panic!("did not fail"),
    }
    let (_, again) = next.resume(Reply::Done);
    assert!(matches!(again, Step::Finish(DomainResult::Failure(_))));
}

#[test]
fn an_insert_that_returns_no_record_ends_the_creation() {
    let (pending, _) = begin_create("a@x.com".to_string(), hash::Hash::empty(), Ok("d".to_string()));
    let (_, step) = pending.resume(Reply::Users(Vec::new()));
    match step {
        Step::Finish(DomainResult::Failure(e)) => assert_eq!(e, "unexpected reply from the store"),
        _ => panic!("did not fail"),
    }
}

#[test]
fn map_to_domain_joins_record_and_rows() {
    let entity = UserEntity {
        id: 9,
        email: "a@x.com".to_string(),
        password: "d".to_string(),
        created_at: 5,
        updated_at: 6,
    };
    let rows = vec![UserNameEntity {
        user_id: 9,
        lang: "en".to_string(),
        first_name: "Jane".to_string(),
        middle_name: "Q".to_string(),
        last_name: "Doe".to_string(),
    }];
    let user = map_to_domain(entity, rows);
    assert_eq!(user.id, 9);
    assert_eq!(user.email, "a@x.com");
    assert_eq!(user.password, "d");
    assert_eq!(user.created_at, 5);
    assert_eq!(user.updated_at, 6);
    assert_eq!(user.name.values.len(), 1);
    assert_eq!(user.name.values[0].1.middle, "Q");
}

#[test]
fn assembling_gives_a_record_listed_twice_its_names_twice() {
    let entity = |id: u128| UserEntity {
        id,
        email: format!("{}@x.com", id),
        password: "d".to_string(),
        created_at: 1,
        updated_at: 1,
    };
    let listed = vec![entity(1), entity(2), entity(1)];
    assert_eq!(user_ids(&listed), vec![1u128, 2, 1]);
    let rows = vec![UserNameEntity {
        user_id: 1,
        lang: "en".to_string(),
        first_name: "A".to_string(),
        middle_name: "".to_string(),
        last_name: "A".to_string(),
    }];
    let users = assemble_users(&listed, &rows);
    assert_eq!(users.len(), 3);
    assert_eq!(users[0].name.values.len(), 1);
    assert!(users[1].name.values.is_empty());
    assert_eq!(users[2].name.values.len(), 1);
    assert_eq!(users[1].email, "2@x.com");
}

#[test]
fn answers_carry_status_and_message_for_each_outcome() {
    let user = || User {
        id: 3,
        name: names_of(vec![("en", name("Jane", "", "Doe"))]),
        email: "a@x.com".to_string(),
        password: "digest".to_string(),
        created_at: 1,
        updated_at: 2,
    };
    let found = handlers::find_one_user(DomainResult::Success(Output::Single(user()))).unwrap();
    assert_eq!(found.status_code(), 200);
    assert_eq!(found.message(), "success");
    let shown = found.data().as_ref().unwrap();
    assert_eq!(shown.id, 3);
    assert_eq!(shown.email, "a@x.com");
    assert_eq!(shown.created_at, 1);
    assert_eq!(shown.updated_at, 2);
    assert_eq!(shown.name.values.len(), 1);

    let created = handlers::create_user(DomainResult::Success(Output::Single(user()))).unwrap();
    assert_eq!(created.status_code(), 201);
    assert_eq!(created.message(), "created");

    let updated = handlers::update_user(DomainResult::Success(Output::Single(user()))).unwrap();
    assert_eq!(updated.status_code(), 200);

    let all = handlers::get_all_users(DomainResult::Success(Output::Listed(vec![user(), user()])))
        .unwrap();
    assert_eq!(all.status_code(), 200);
    assert_eq!(all.data().as_ref().unwrap().len(), 2);

    let gone = handlers::delete_user(DomainResult::Success(Output::Deleted)).unwrap();
    assert_eq!(gone.status_code(), 200);
    assert_eq!(gone.message(), "success");
    assert!(gone.data().is_some());
}

#[test]
fn answers_turn_failures_into_internal_errors() {
    match handlers::find_one_user(DomainResult::Failure("db: connection refused".to_string())) {
        Err(e) => {
            assert!(matches!(&e, AppError::Internal(m) if m == "db: connection refused"));
            assert_eq!(e.status_code(), 500);
            assert_eq!(e.message(), "internal server error");
        }
        Ok(_) => panic!("no error"),
    }
    match handlers::get_all_users(DomainResult::NotFound) {
        Err(AppError::Internal(m)) => assert_eq!(m, "Unexpected error"),
        _ => panic!("wrong answer"),
    }
    match handlers::create_user(DomainResult::NotFound) {
        Err(AppError::Internal(m)) => assert_eq!(m, "Unexpected error"),
        _ => panic!("wrong answer"),
    }
    match handlers::find_one_user(DomainResult::Success(Output::Deleted)) {
        Err(AppError::Internal(m)) => assert_eq!(m, "Unexpected error"),
        _ => panic!("wrong answer"),
    }
    match handlers::update_user(DomainResult::NotFound) {
        Err(e) => {
            assert!(matches!(&e, AppError::NotFound(m) if m == "User not found"));
            assert_eq!(e.status_code(), 404);
            assert_eq!(e.message(), "User not found");
        }
        Ok(_) => panic!("no error"),
    }
    match handlers::delete_user(DomainResult::Failure("boom".to_string())) {
        Err(AppError::Internal(m)) => assert_eq!(m, "boom"),
        _ => panic!("wrong answer"),
    }
}
