use crate::shared::filtering::{
    lemma_filter_all, lemma_filter_disjoint, lemma_filter_narrower, lemma_filter_none,
    lemma_filter_some,
};
use crate::shared::result::DomainResult;
use crate::users::entities::{user_of, NameRow, NameTriple, UserRow};
use crate::users::names::{
    fold_names, grouped_names, lemma_fold_name_rows, name_rows, names_map, names_of,
    query_statements, replace_statements, rows_of,
};
use crate::users::store::{
    answer, answer_all, apply, apply_all, coalesce, has_id, lacks_id, not_owned_by, owned_by,
    owned_by_any, update_of, Chosen, ReplyModel, StatementModel, Tables,
};
use crate::users::usecases::{
    create_model, delete_model, ended, failed, find_model, ids_of, list_model, listed_users,
    names_update, resume_model, update_model, OutputModel, PendingModel, StepModel,
};
use vstd::prelude::*;

verus! {

/// The names that a batched fetch for `user_ids` assembles from tables `t`:
/// the rows that the store answers, grouped by user.
pub open spec fn loaded_names(t: Tables, user_ids: Seq<u128>, c: Chosen) -> Map<
    u128,
    Map<Seq<char>, NameTriple>,
> {
    match answer_all(t, query_statements(user_ids), c) {
        ReplyModel::Names(rows) => grouped_names(user_ids, rows),
        _ => grouped_names(user_ids, Seq::empty()),
    }
}

/// The tables after the names of `user_id` were replaced by `entries`.
pub open spec fn replaced(t: Tables, user_id: u128, entries: Seq<(Seq<char>, NameTriple)>) -> Tables {
    Tables {
        users: t.users,
        names: t.names.filter(not_owned_by(user_id)) + name_rows(user_id, entries),
    }
}

/// Running the statements of a replacement removes the user's rows, keeps
/// every other row in place and adds the new rows at the end.
pub proof fn lemma_replace_applied(
    t: Tables,
    user_id: u128,
    entries: Seq<(Seq<char>, NameTriple)>,
    c: Chosen,
)
    ensures
        apply_all(t, replace_statements(user_id, entries), c) == replaced(t, user_id, entries),
    decreases entries.len(),
{
    reveal(apply);
    reveal(answer);
    let plan = replace_statements(user_id, entries);
    let kept = t.names.filter(not_owned_by(user_id));
    if entries.len() == 0 {
        assert(plan.drop_last() =~= Seq::<StatementModel>::empty());
        assert(plan.last() == StatementModel::DeleteNames { user_id });
        assert(apply_all(t, plan.drop_last(), c) == t);
        assert(kept + name_rows(user_id, entries) =~= kept);
    } else {
        let shorter = entries.drop_last();
        lemma_replace_applied(t, user_id, shorter, c);
        assert(plan.drop_last() =~= replace_statements(user_id, shorter));
        assert(plan.last() == StatementModel::InsertName {
            row: name_rows(user_id, entries).last(),
        });
        assert((kept + name_rows(user_id, shorter)).push(name_rows(user_id, entries).last()) =~= kept
            + name_rows(user_id, entries));
    }
}

/// Among the rows after a replacement, those of the user are the new rows
/// and those of any other user are the ones it had.
pub proof fn lemma_rows_after_replace(
    t: Tables,
    user_id: u128,
    entries: Seq<(Seq<char>, NameTriple)>,
    other: u128,
)
    ensures
        rows_of(replaced(t, user_id, entries).names, other) == if other == user_id {
            name_rows(user_id, entries)
        } else {
            rows_of(t.names, other)
        },
        replaced(t, user_id, entries).names.filter(not_owned_by(user_id)) == t.names.filter(
            not_owned_by(user_id),
        ),
{
    let kept = t.names.filter(not_owned_by(user_id));
    let added = name_rows(user_id, entries);
    Seq::filter_distributes_over_add(kept, added, owned_by(other));
    Seq::filter_distributes_over_add(kept, added, not_owned_by(user_id));
    lemma_filter_narrower(t.names, not_owned_by(user_id), not_owned_by(user_id));
    lemma_filter_none(added, not_owned_by(user_id));
    assert(kept + Seq::<NameRow>::empty() =~= kept);
    if other == user_id {
        lemma_filter_disjoint(t.names, not_owned_by(user_id), owned_by(user_id));
        lemma_filter_all(added, owned_by(user_id));
        assert(Seq::<NameRow>::empty() + added =~= added);
    } else {
        lemma_filter_narrower(t.names, not_owned_by(user_id), owned_by(other));
        lemma_filter_none(added, owned_by(other));
    }
}

/// A batched fetch sends one query whatever the number of users, and none
/// for no user. What it assembles has one entry for each id asked for and
/// none for any other id; each entry holds the names of that user in the
/// store, an empty mapping where the user has none.
pub proof fn law_batched_fetch(t: Tables, user_ids: Seq<u128>, c: Chosen)
    ensures
        query_statements(user_ids).len() == if user_ids.len() > 0 {
            1nat
        } else {
            0nat
        },
        forall|id: u128| loaded_names(t, user_ids, c).contains_key(id) <==> user_ids.contains(id),
        forall|id: u128|
            user_ids.contains(id) ==> #[trigger] loaded_names(t, user_ids, c)[id] == names_of(
                t.names,
                id,
            ),
        forall|id: u128|
            user_ids.contains(id) && rows_of(t.names, id).len() == 0 ==> #[trigger] loaded_names(
                t,
                user_ids,
                c,
            )[id] == Map::<Seq<char>, NameTriple>::empty(),
{
    reveal(apply);
    reveal(answer);
    if user_ids.len() > 0 {
        let plan = query_statements(user_ids);
        assert(plan.drop_last() =~= Seq::<StatementModel>::empty());
        assert(plan.last() == StatementModel::SelectNames { user_ids });
        assert(apply_all(t, plan.drop_last(), c) == t);
        let rows = t.names.filter(owned_by_any(user_ids));
        assert(answer_all(t, plan, c) == ReplyModel::Names(rows));
        assert forall|id: u128| user_ids.contains(id) implies #[trigger] loaded_names(
            t,
            user_ids,
            c,
        )[id] == names_of(t.names, id) by {
            lemma_filter_narrower(t.names, owned_by_any(user_ids), owned_by(id));
        }
    } else {
        assert forall|id: u128| !user_ids.contains(id) by {}
    }
}

/// After the names of a user were replaced by a mapping, a fetch of that
/// user's names gives back the mapping, whatever the store held before
/// and also where the mapping is empty. The user records and the names of
/// every other user are as they were.
pub proof fn law_replace_round_trip(
    t: Tables,
    user_id: u128,
    entries: Seq<(Seq<char>, NameTriple)>,
    c: Chosen,
)
    ensures
        ({
            let after = apply_all(t, replace_statements(user_id, entries), c);
            &&& answer(after, StatementModel::SelectNamesOf { user_id }, c) == ReplyModel::Names(
                name_rows(user_id, entries),
            )
            &&& fold_names(name_rows(user_id, entries)) == names_map(entries)
            &&& names_of(after.names, user_id) == names_map(entries)
            &&& loaded_names(after, seq![user_id], c) == map![user_id => names_map(entries)]
            &&& after.users == t.users
            &&& forall|other: u128|
                other != user_id ==> rows_of(after.names, other) == rows_of(t.names, other)
        }),
{
    lemma_replace_applied(t, user_id, entries, c);
    lemma_replaced_holds(t, user_id, entries, c);
}

/// What holds of the tables in which the names of a user were replaced.
proof fn lemma_replaced_holds(
    t: Tables,
    user_id: u128,
    entries: Seq<(Seq<char>, NameTriple)>,
    c: Chosen,
)
    ensures
        ({
            let after = replaced(t, user_id, entries);
            &&& answer(after, StatementModel::SelectNamesOf { user_id }, c) == ReplyModel::Names(
                name_rows(user_id, entries),
            )
            &&& fold_names(name_rows(user_id, entries)) == names_map(entries)
            &&& names_of(after.names, user_id) == names_map(entries)
            &&& loaded_names(after, seq![user_id], c) == map![user_id => names_map(entries)]
            &&& after.users == t.users
            &&& forall|other: u128|
                other != user_id ==> rows_of(after.names, other) == rows_of(t.names, other)
        }),
{
    lemma_replaced_own(t, user_id, entries);
    lemma_replaced_others(t, user_id, entries);
    lemma_replaced_fetch(t, user_id, entries, c);
    lemma_answer_names_of(replaced(t, user_id, entries), user_id, c);
}

/// A query for the names of one user is answered with that user's rows.
proof fn lemma_answer_names_of(t: Tables, user_id: u128, c: Chosen)
    ensures
        answer(t, StatementModel::SelectNamesOf { user_id }, c) == ReplyModel::Names(
            rows_of(t.names, user_id),
        ),
{
    reveal(answer);
}

/// A batched fetch for the user whose names were replaced gives the new names.
proof fn lemma_replaced_fetch(
    t: Tables,
    user_id: u128,
    entries: Seq<(Seq<char>, NameTriple)>,
    c: Chosen,
)
    ensures
        loaded_names(replaced(t, user_id, entries), seq![user_id], c) == map![
            user_id => names_map(entries),
        ],
{
    let after = replaced(t, user_id, entries);
    lemma_single_fetch(after, user_id, c);
    lemma_replaced_own(t, user_id, entries);
}

/// After a replacement the rows of the user are the new rows, which fold
/// into the mapping given.
proof fn lemma_replaced_own(t: Tables, user_id: u128, entries: Seq<(Seq<char>, NameTriple)>)
    ensures
        rows_of(replaced(t, user_id, entries).names, user_id) == name_rows(user_id, entries),
        fold_names(name_rows(user_id, entries)) == names_map(entries),
        names_of(replaced(t, user_id, entries).names, user_id) == names_map(entries),
{
    lemma_rows_after_replace(t, user_id, entries, user_id);
    lemma_fold_name_rows(user_id, entries);
}

/// A replacement leaves the rows of every other user as they were.
proof fn lemma_replaced_others(t: Tables, user_id: u128, entries: Seq<(Seq<char>, NameTriple)>)
    ensures
        forall|other: u128|
            other != user_id ==> rows_of(replaced(t, user_id, entries).names, other) == rows_of(
                t.names,
                other,
            ),
{
    assert forall|other: u128| other != user_id implies rows_of(
        replaced(t, user_id, entries).names,
        other,
    ) == rows_of(t.names, other) by {
        lemma_rows_after_replace(t, user_id, entries, other);
    }
}

/// A batched fetch for one user assembles that user's names and nothing else.
proof fn lemma_single_fetch(t: Tables, user_id: u128, c: Chosen)
    ensures
        loaded_names(t, seq![user_id], c) == map![user_id => names_of(t.names, user_id)],
{
    let ids = seq![user_id];
    law_batched_fetch(t, ids, c);
    assert(ids[0] == user_id);
    assert(ids.contains(user_id));
    let m = loaded_names(t, ids, c);
    assert(m.contains_key(user_id));
    assert(m[user_id] == names_of(t.names, user_id));
    assert forall|id: u128| m.contains_key(id) implies id == user_id by {
        assert(ids.contains(id));
    }
    assert(m =~= map![user_id => names_of(t.names, user_id)]);
}

/// Replacing the names of a user twice in a row by the same mapping leaves
/// the store as replacing them once does.
pub proof fn law_replace_idempotent(
    t: Tables,
    user_id: u128,
    entries: Seq<(Seq<char>, NameTriple)>,
    c: Chosen,
)
    ensures
        ({
            let plan = replace_statements(user_id, entries);
            apply_all(apply_all(t, plan, c), plan, c) == apply_all(t, plan, c)
        }),
{
    let plan = replace_statements(user_id, entries);
    let once = apply_all(t, plan, c);
    lemma_replace_applied(t, user_id, entries, c);
    lemma_replace_applied(once, user_id, entries, c);
    lemma_rows_after_replace(t, user_id, entries, user_id);
}

/// Whether the store holds a record with the given id.
pub open spec fn has_user(t: Tables, id: u128) -> bool {
    exists|i: int| 0 <= i < t.users.len() && (#[trigger] t.users[i]).id == id
}

/// What hashing gave for an update that stores the given digest, if any.
pub open spec fn hashed(digest: Option<Seq<char>>) -> Option<Result<Seq<char>, Seq<char>>> {
    match digest {
        Some(d) => Some(Ok(d)),
        None => None,
    }
}

/// The first statements of an update: a transaction and the update of the
/// record.
pub open spec fn record_update(
    id: u128,
    email: Option<Seq<char>>,
    digest: Option<Seq<char>>,
) -> Seq<StatementModel> {
    seq![
        StatementModel::Begin,
        StatementModel::UpdateUser { id, new_email: email, new_password: digest },
    ]
}

/// The tables after every statement of an update has run with success.
pub open spec fn updated(
    t: Tables,
    id: u128,
    email: Option<Seq<char>>,
    digest: Option<Seq<char>>,
    replacement: Option<Seq<(Seq<char>, NameTriple)>>,
    c: Chosen,
) -> Tables {
    apply_all(
        apply_all(t, record_update(id, email, digest), c),
        names_update(id, replacement),
        c,
    )
}

/// Running one more statement after a list of statements.
pub proof fn lemma_apply_push(t: Tables, plan: Seq<StatementModel>, s: StatementModel, c: Chosen)
    ensures
        apply_all(t, plan.push(s), c) == apply(apply_all(t, plan, c), s, c),
        answer_all(t, plan.push(s), c) == answer(apply_all(t, plan, c), s, c),
{
    assert(plan.push(s).drop_last() =~= plan);
    assert(plan.push(s).last() == s);
}

/// The record with the given id is among those that a filter by id keeps
/// exactly when the table has such a record.
proof fn lemma_found_by_id(users: Seq<UserRow>, id: u128)
    ensures
        users.filter(has_id(id)).len() > 0 <==> exists|i: int|
            0 <= i < users.len() && (#[trigger] users[i]).id == id,
{
    let p = has_id(id);
    if exists|i: int| 0 <= i < users.len() && (#[trigger] users[i]).id == id {
        let i = choose|i: int| 0 <= i < users.len() && (#[trigger] users[i]).id == id;
        assert(p(users[i]));
        lemma_filter_some(users, p, i);
    } else {
        assert forall|i: int| 0 <= i < users.len() implies !p(#[trigger] users[i]) by {}
        lemma_filter_none(users, p);
    }
}

/// How an update goes between the library and the store. Where hashing
/// worked, the update first sends a transaction and the update of the
/// record, which names only the fields that the request has. Where the store
/// has no record with that id, the update ends as not found and nothing
/// else is sent. Where it has one, the replacement of the names follows if
/// the request has names, then the commit, and after it the user is read
/// again.
pub proof fn law_update_steps(
    t: Tables,
    id: u128,
    email: Option<Seq<char>>,
    digest: Option<Seq<char>>,
    replacement: Option<Seq<(Seq<char>, NameTriple)>>,
    c: Chosen,
)
    ensures
        ({
            let start = update_model(id, email, replacement, hashed(digest));
            let first = record_update(id, email, digest);
            let next = resume_model(start.0, answer_all(t, first, c));
            &&& start.1 == StepModel::Ask(first)
            &&& !has_user(t, id) ==> next == ended(DomainResult::NotFound) && apply_all(t, first, c)
                == t
            &&& has_user(t, id) ==> next == (
                PendingModel::UpdateNames { updated: id },
                StepModel::Ask(names_update(id, replacement)),
            ) && resume_model(next.0, ReplyModel::Done) == find_model(id)
        }),
{
    reveal(apply);
    reveal(answer);
    let first = record_update(id, email, digest);
    let statement = StatementModel::UpdateUser { id, new_email: email, new_password: digest };
    let begin = seq![StatementModel::Begin];
    assert(first =~= begin.push(statement));
    lemma_apply_push(t, Seq::empty(), StatementModel::Begin, c);
    assert(Seq::<StatementModel>::empty().push(StatementModel::Begin) =~= begin);
    lemma_apply_push(t, begin, statement, c);
    let changed = t.users.map_values(update_of(id, email, digest, c.now));
    assert(apply(t, statement, c).users == changed);
    lemma_found_by_id(changed, id);
    if has_user(t, id) {
        let i = choose|i: int| 0 <= i < t.users.len() && (#[trigger] t.users[i]).id == id;
        assert(changed[i].id == id);
    } else {
        assert forall|i: int| 0 <= i < changed.len() implies (#[trigger] changed[i]).id != id by {
            assert(t.users[i].id != id);
        }
        assert(changed =~= t.users);
    }
}

/// An update leaves every field that the request does not have as it was.
/// After all its statements have run, each record but the one with the given
/// id is unchanged; that one keeps its id and its time of creation, has
/// the new email address if the request has one and the old one if not,
/// and likewise for the password digest. Without names in the request
/// every stored name is as before; with names, those of this user are the
/// ones given and those of every other user are as before.
pub proof fn law_update_coalesces(
    t: Tables,
    id: u128,
    email: Option<Seq<char>>,
    digest: Option<Seq<char>>,
    replacement: Option<Seq<(Seq<char>, NameTriple)>>,
    c: Chosen,
)
    ensures
        ({
            let after = updated(t, id, email, digest, replacement, c);
            &&& after.users.len() == t.users.len()
            &&& forall|i: int|
                0 <= i < t.users.len() ==> #[trigger] after.users[i] == if t.users[i].id == id {
                    coalesce(t.users[i], email, digest, c.now)
                } else {
                    t.users[i]
                }
            &&& email is None ==> forall|i: int|
                0 <= i < t.users.len() ==> (#[trigger] after.users[i]).email == t.users[i].email
            &&& digest is None ==> forall|i: int|
                0 <= i < t.users.len() ==> (#[trigger] after.users[i]).password
                    == t.users[i].password
            &&& replacement is None ==> after.names == t.names
            &&& forall|entries: Seq<(Seq<char>, NameTriple)>|
                replacement == Some(entries) ==> after.names == #[trigger] replaced(
                    t,
                    id,
                    entries,
                ).names && names_of(after.names, id) == names_map(entries)
            &&& forall|other: u128|
                other != id ==> #[trigger] rows_of(after.names, other) == rows_of(t.names, other)
        }),
{
    reveal(apply);
    reveal(answer);
    let first = record_update(id, email, digest);
    let statement = StatementModel::UpdateUser { id, new_email: email, new_password: digest };
    let begin = seq![StatementModel::Begin];
    assert(first =~= begin.push(statement));
    lemma_apply_push(t, Seq::empty(), StatementModel::Begin, c);
    assert(Seq::<StatementModel>::empty().push(StatementModel::Begin) =~= begin);
    lemma_apply_push(t, begin, statement, c);
    let t1 = apply_all(t, first, c);
    assert(t1.names == t.names);
    assert(t1.users == t.users.map_values(update_of(id, email, digest, c.now)));
    match replacement {
        Some(entries) => {
            let plan = replace_statements(id, entries);
            assert(names_update(id, replacement) =~= plan.push(StatementModel::Commit));
            lemma_apply_push(t1, plan, StatementModel::Commit, c);
            lemma_replace_applied(t1, id, entries, c);
            lemma_replaced_holds(t1, id, entries, c);
            lemma_replaced_holds(t, id, entries, c);
            assert(replaced(t1, id, entries).names == replaced(t, id, entries).names);
        },
        None => {
            assert(names_update(id, replacement) =~= Seq::<StatementModel>::empty().push(
                StatementModel::Commit,
            ));
            lemma_apply_push(t1, Seq::empty(), StatementModel::Commit, c);
        },
    }
}

/// The answer of the store to a single statement.
pub proof fn lemma_apply_one(t: Tables, s: StatementModel, c: Chosen)
    ensures
        apply_all(t, seq![s], c) == apply(t, s, c),
        answer_all(t, seq![s], c) == answer(t, s, c),
{
    lemma_apply_push(t, Seq::empty(), s, c);
    assert(Seq::<StatementModel>::empty().push(s) =~= seq![s]);
}

/// Reading one user against the store. Where the store has no record with
/// the id, the outcome is "not found" after one statement. Where it has one,
/// a second statement fetches the names of that user, and the outcome is the
/// record with the names that the store holds for it.
pub proof fn law_read_one(t: Tables, id: u128, c: Chosen)
    ensures
        ({
            let start = find_model(id);
            let first = seq![StatementModel::SelectUser { id }];
            let second = seq![StatementModel::SelectNamesOf { user_id: id }];
            let next = resume_model(start.0, answer_all(t, first, c));
            &&& start.1 == StepModel::Ask(first)
            &&& !has_user(t, id) ==> next == ended(DomainResult::NotFound)
            &&& has_user(t, id) ==> next.1 == StepModel::Ask(second) && resume_model(
                next.0,
                answer_all(t, second, c),
            ) == ended(
                DomainResult::Success(
                    OutputModel::Single(
                        user_of(t.users.filter(has_id(id))[0], names_of(t.names, id)),
                    ),
                ),
            )
        }),
{
    reveal(apply);
    reveal(answer);
    lemma_apply_one(t, StatementModel::SelectUser { id }, c);
    lemma_apply_one(t, StatementModel::SelectNamesOf { user_id: id }, c);
    lemma_found_by_id(t.users, id);
}

/// Listing against the store. With no user record the listing commits and
/// gives the empty list. With records it sends one query for the names of
/// all of them, and gives each record with the names that the store holds
/// for it, in the order of the records.
pub proof fn law_list(t: Tables, c: Chosen)
    ensures
        ({
            let start = list_model();
            let first = seq![StatementModel::Begin, StatementModel::SelectUsers];
            let next = resume_model(start.0, answer_all(t, first, c));
            let query = seq![StatementModel::SelectNames { user_ids: ids_of(t.users) }];
            &&& start.1 == StepModel::Ask(first)
            &&& t.users.len() == 0 ==> next.1 == StepModel::Ask(seq![StatementModel::Commit])
                && resume_model(next.0, ReplyModel::Done) == ended(
                DomainResult::Success(OutputModel::Listed(Seq::empty())),
            )
            &&& t.users.len() > 0 ==> next.1 == StepModel::Ask(query) && resume_model(
                next.0,
                answer_all(t, query, c),
            ) == ended(DomainResult::Success(OutputModel::Listed(listed_users(t.users, t.names))))
        }),
{
    reveal(apply);
    reveal(answer);
    let begin = seq![StatementModel::Begin];
    let first = seq![StatementModel::Begin, StatementModel::SelectUsers];
    assert(first =~= begin.push(StatementModel::SelectUsers));
    lemma_apply_one(t, StatementModel::Begin, c);
    lemma_apply_push(t, begin, StatementModel::SelectUsers, c);
    assert(answer_all(t, first, c) == ReplyModel::Users(t.users));
    if t.users.len() > 0 {
        let ids = ids_of(t.users);
        lemma_apply_one(t, StatementModel::SelectNames { user_ids: ids }, c);
        let rows = t.names.filter(owned_by_any(ids));
        assert forall|i: int| 0 <= i < t.users.len() implies names_of(rows, t.users[i].id)
            == names_of(t.names, t.users[i].id) by {
            assert(ids[i] == t.users[i].id);
            assert(ids.contains(t.users[i].id));
            lemma_filter_narrower(t.names, owned_by_any(ids), owned_by(t.users[i].id));
        }
        assert(listed_users(t.users, rows) =~= listed_users(t.users, t.names));
    }
}

/// Deleting against the store. Where the store has no record with the id,
/// the outcome is "not found", which is no failure, and the store is as it
/// was. Where it has one, the outcome is success, and afterwards the store
/// has neither a record with that id nor a name of that user.
pub proof fn law_delete(t: Tables, id: u128, c: Chosen)
    ensures
        ({
            let start = delete_model(id);
            let only = seq![StatementModel::DeleteUser { id }];
            let after = apply_all(t, only, c);
            let end = resume_model(start.0, answer_all(t, only, c));
            &&& start.1 == StepModel::Ask(only)
            &&& !has_user(t, id) ==> end == ended(DomainResult::NotFound) && after.users == t.users
            &&& has_user(t, id) ==> end == ended(DomainResult::Success(OutputModel::Deleted))
            &&& !has_user(after, id)
            &&& rows_of(after.names, id) == Seq::<NameRow>::empty()
            &&& forall|other: u128|
                other != id ==> #[trigger] rows_of(after.names, other) == rows_of(t.names, other)
        }),
{
    reveal(apply);
    reveal(answer);
    let only = seq![StatementModel::DeleteUser { id }];
    lemma_apply_one(t, StatementModel::DeleteUser { id }, c);
    lemma_found_by_id(t.users, id);
    let after = apply_all(t, only, c);
    assert(after.users == t.users.filter(lacks_id(id)));
    lemma_filter_disjoint(t.users, lacks_id(id), has_id(id));
    lemma_found_by_id(after.users, id);
    lemma_filter_disjoint(t.names, not_owned_by(id), owned_by(id));
    assert forall|other: u128| other != id implies #[trigger] rows_of(after.names, other)
        == rows_of(t.names, other) by {
        lemma_filter_narrower(t.names, not_owned_by(id), owned_by(other));
    }
    if !has_user(t, id) {
        assert forall|i: int| 0 <= i < t.users.len() implies lacks_id(id)(#[trigger] t.users[i]) by {}
        lemma_filter_all(t.users, lacks_id(id));
    }
}

/// The record that the store makes of a new user.
pub open spec fn new_record(email: Seq<char>, digest: Seq<char>, c: Chosen) -> UserRow {
    UserRow { id: c.id, email, password: digest, created_at: c.now, updated_at: c.now }
}

/// Creating against the store, where hashing gave a digest. The creation
/// first sends a transaction and the new record with the digest in place of
/// the password; then, under the id that the store gave, the replacement of
/// the names by the ones given, and the commit. Its outcome is the new
/// record with those names. Afterwards the store holds the new record
/// before the others, the names given for the new user, and for every other
/// user the names it had; reading the new user gives the outcome of the
/// creation again.
pub proof fn law_create(
    t: Tables,
    email: Seq<char>,
    entries: Seq<(Seq<char>, NameTriple)>,
    digest: Seq<char>,
    c: Chosen,
)
    ensures
        ({
            let start = create_model(email, entries, Ok(digest));
            let first = seq![
                StatementModel::Begin,
                StatementModel::InsertUser { email, password: digest },
            ];
            let second = replace_statements(c.id, entries).push(StatementModel::Commit);
            let row = new_record(email, digest, c);
            let next = resume_model(start.0, answer_all(t, first, c));
            let middle = apply_all(t, first, c);
            let after = apply_all(middle, second, c);
            let created = ended(
                DomainResult::Success(OutputModel::Single(user_of(row, names_map(entries)))),
            );
            let read = resume_model(find_model(c.id).0, answer_all(after, seq![
                StatementModel::SelectUser { id: c.id },
            ], c));
            &&& start.1 == StepModel::Ask(first)
            &&& next.1 == StepModel::Ask(second)
            &&& resume_model(next.0, answer_all(middle, second, c)) == created
            &&& after.users == seq![row] + t.users
            &&& names_of(after.names, c.id) == names_map(entries)
            &&& forall|other: u128|
                other != c.id ==> #[trigger] rows_of(after.names, other) == rows_of(t.names, other)
            &&& resume_model(
                read.0,
                answer_all(after, seq![StatementModel::SelectNamesOf { user_id: c.id }], c),
            ) == created
        }),
{
    let begin = seq![StatementModel::Begin];
    let insert = StatementModel::InsertUser { email, password: digest };
    let first = seq![StatementModel::Begin, insert];
    let plan = replace_statements(c.id, entries);
    let second = plan.push(StatementModel::Commit);
    let row = new_record(email, digest, c);
    assert(first =~= begin.push(insert));
    lemma_apply_one(t, StatementModel::Begin, c);
    lemma_apply_push(t, begin, insert, c);
    let middle = apply_all(t, first, c);
    assert(middle == Tables { users: seq![row] + t.users, names: t.names }
        && answer_all(t, first, c) == ReplyModel::Users(seq![row])) by {
        reveal(apply);
        reveal(answer);
    }
    assert(plan + seq![StatementModel::Commit] =~= second);
    lemma_apply_push(middle, plan, StatementModel::Commit, c);
    lemma_replace_applied(middle, c.id, entries, c);
    let after = apply_all(middle, second, c);
    assert(after == replaced(middle, c.id, entries) && answer_all(middle, second, c)
        == ReplyModel::Done) by {
        reveal(apply);
        reveal(answer);
    }
    lemma_replaced_own(middle, c.id, entries);
    lemma_replaced_others(middle, c.id, entries);
    law_read_one(after, c.id, c);
    assert(has_user(after, c.id) && after.users.filter(has_id(c.id))[0] == row) by {
        assert(after.users[0] == row);
        lemma_first_found(seq![row], t.users, c.id);
    }
}

/// Where the one record at the head of a table has the id looked for, it is
/// the first that a filter by that id keeps.
proof fn lemma_first_found(head: Seq<UserRow>, rest: Seq<UserRow>, id: u128)
    requires
        head.len() == 1,
        head[0].id == id,
    ensures
        (head + rest).filter(has_id(id)).len() > 0,
        (head + rest).filter(has_id(id))[0] == head[0],
{
    let p = has_id(id);
    Seq::filter_distributes_over_add(head, rest, p);
    assert(p(head[0]));
    lemma_filter_all(head, p);
}

/// A failure of the store ends a use case at once, with the message of the
/// store as its outcome: no statement follows it, and so no commit. Since
/// the statements that change the store stand between the opening of a
/// transaction and its commit, a use case that fails leaves the store as it
/// was once the open transaction is rolled back.
pub proof fn law_failure_ends(p: PendingModel, message: Seq<char>)
    requires
        p != PendingModel::Finished,
    ensures
        resume_model(p, ReplyModel::Failed(message)) == failed(message),
{
}

} // verus!
