use crate::shared::hash;
use crate::users::entities::{
    entries_view, people_view, rows_view, NameRow, NameTriple, PersonName, UserNameEntity,
};
use crate::users::store::{owned_by, statements_view, Statement, StatementModel};
use std::collections::HashMap;
use vstd::prelude::*;

verus! {

broadcast use vstd::std_specs::hash::group_hash_axioms;

/// The locale-keyed mapping that a list of stored names folds into. Where two
/// rows have the same locale the later one wins.
pub open spec fn fold_names(rows: Seq<NameRow>) -> Map<Seq<char>, NameTriple>
    decreases rows.len(),
{
    if rows.len() == 0 {
        Map::empty()
    } else {
        fold_names(rows.drop_last()).insert(rows.last().lang, rows.last().name())
    }
}

/// The rows of one user, in their order.
pub open spec fn rows_of(rows: Seq<NameRow>, user_id: u128) -> Seq<NameRow> {
    rows.filter(owned_by(user_id))
}

/// The names of one user among the rows.
pub open spec fn names_of(rows: Seq<NameRow>, user_id: u128) -> Map<Seq<char>, NameTriple> {
    fold_names(rows_of(rows, user_id))
}

/// The names of each of the given users among the rows: one entry for each
/// id asked for, and no other.
pub open spec fn grouped_names(user_ids: Seq<u128>, rows: Seq<NameRow>) -> Map<
    u128,
    Map<Seq<char>, NameTriple>,
> {
    Map::new(|id: u128| user_ids.contains(id), |id: u128| names_of(rows, id))
}

/// What a grouping by user holds, as text.
pub open spec fn grouped_view(grouped: Map<u128, hash::Hash<PersonName>>) -> Map<
    u128,
    Map<Seq<char>, NameTriple>,
> {
    grouped.map_values(|names: hash::Hash<PersonName>| people_view(names))
}

/// A further row adds to the names of its own user and to no other's.
pub proof fn lemma_names_of_push(rows: Seq<NameRow>, row: NameRow, user_id: u128)
    ensures
        names_of(rows.push(row), user_id) == if row.user_id == user_id {
            names_of(rows, user_id).insert(row.lang, row.name())
        } else {
            names_of(rows, user_id)
        },
{
    let pred = owned_by(user_id);
    reveal(Seq::filter);
    assert(rows.push(row).drop_last() =~= rows);
    assert(rows.push(row).last() == row);
    if row.user_id == user_id {
        assert(rows.push(row).filter(pred) == rows.filter(pred).push(row));
        assert(rows.filter(pred).push(row).drop_last() =~= rows.filter(pred));
    }
}

/// Folds the rows that a query for one user returned into that user's names.
pub fn fold_rows(rows: &Vec<UserNameEntity>) -> (names: hash::Hash<PersonName>)
    ensures
        people_view(names) == fold_names(rows_view(rows@)),
        names.has_distinct_keys(),
{
    let mut names: hash::Hash<PersonName> = hash::Hash::empty();
    let mut i: usize = 0;
    assert(people_view(names) =~= fold_names(rows_view(rows@).take(0)));
    while i < rows.len()
        invariant
            i <= rows.len(),
            people_view(names) == fold_names(rows_view(rows@).take(i as int)),
            names.has_distinct_keys(),
        decreases rows.len() - i,
    {
        let row = &rows[i];
        let name = PersonName {
            first: row.first_name.clone(),
            middle: row.middle_name.clone(),
            last: row.last_name.clone(),
        };
        let ghost before = names;
        names.insert(row.lang.clone(), name);
        proof {
            let all = rows_view(rows@);
            assert(all.take(i + 1).drop_last() =~= all.take(i as int));
            assert(all.take(i + 1).last() == rows@[i as int]@);
            assert(people_view(names) =~= people_view(before).insert(row.lang@, name@));
        }
        i = i + 1;
    }
    assert(rows_view(rows@).take(rows.len() as int) =~= rows_view(rows@));
    names
}

/// Groups the rows that one query returned by user: each id asked for gets
/// the names of its own rows, an empty mapping where it has none. Rows of
/// users that were not asked for are left out.
pub fn group_names(user_ids: &Vec<u128>, rows: &Vec<UserNameEntity>) -> (grouped: HashMap<
    u128,
    hash::Hash<PersonName>,
>)
    ensures
        grouped_view(grouped@) == grouped_names(user_ids@, rows_view(rows@)),
        forall|id: u128|
            #![trigger grouped@.contains_key(id)]
            #![trigger user_ids@.contains(id)]
            grouped@.contains_key(id) <==> user_ids@.contains(id),
        forall|id: u128| #[trigger]
            grouped@.contains_key(id) ==> people_view(grouped@[id]) == names_of(
                rows_view(rows@),
                id,
            ) && grouped@[id].has_distinct_keys(),
{
    let mut grouped: HashMap<u128, hash::Hash<PersonName>> = HashMap::new();
    let mut k: usize = 0;
    while k < user_ids.len()
        invariant
            k <= user_ids.len(),
            forall|id: u128| grouped@.contains_key(id) <==> user_ids@.take(k as int).contains(id),
            forall|id: u128| #[trigger]
                grouped@.contains_key(id) ==> people_view(grouped@[id]) == Map::<
                    Seq<char>,
                    NameTriple,
                >::empty() && grouped@[id].has_distinct_keys(),
        decreases user_ids.len() - k,
    {
        let id = user_ids[k];
        let empty: hash::Hash<PersonName> = hash::Hash::empty();
        assert(people_view(empty) =~= Map::<Seq<char>, NameTriple>::empty());
        grouped.insert(id, empty);
        proof {
            let s0 = user_ids@.take(k as int);
            let s1 = user_ids@.take(k + 1);
            assert(s1 =~= s0.push(id));
            assert forall|x: u128| grouped@.contains_key(x) <==> s1.contains(x) by {
                if s0.contains(x) {
                    let j = choose|j: int| 0 <= j < s0.len() && s0[j] == x;
                    assert(s1[j] == x);
                }
                if x == id {
                    assert(s1[k as int] == x);
                }
            }
        }
        k = k + 1;
    }
    assert(user_ids@.take(user_ids.len() as int) =~= user_ids@);
    proof {
        reveal(Seq::filter);
        assert forall|id: u128| #[trigger] grouped@.contains_key(id) implies people_view(
            grouped@[id],
        ) == names_of(rows_view(rows@).take(0), id) by {
            assert(rows_view(rows@).take(0) =~= Seq::<NameRow>::empty());
        }
    }
    let mut i: usize = 0;
    while i < rows.len()
        invariant
            i <= rows.len(),
            forall|id: u128| grouped@.contains_key(id) <==> user_ids@.contains(id),
            forall|id: u128| #[trigger]
                grouped@.contains_key(id) ==> people_view(grouped@[id]) == names_of(
                    rows_view(rows@).take(i as int),
                    id,
                ) && grouped@[id].has_distinct_keys(),
        decreases rows.len() - i,
    {
        let row = &rows[i];
        let ghost all = rows_view(rows@);
        let ghost before = grouped@;
        proof {
            assert(all.take(i + 1) =~= all.take(i as int).push(row@));
            assert forall|id: u128| true implies names_of(all.take(i + 1), id) == if row@.user_id
                == id {
                names_of(all.take(i as int), id).insert(row@.lang, row@.name())
            } else {
                names_of(all.take(i as int), id)
            } by {
                lemma_names_of_push(all.take(i as int), row@, id);
            }
        }
        match grouped.remove(&row.user_id) {
            Some(mut names) => {
                let name = PersonName {
                    first: row.first_name.clone(),
                    middle: row.middle_name.clone(),
                    last: row.last_name.clone(),
                };
                let ghost old_names = names;
                names.insert(row.lang.clone(), name);
                assert(people_view(names) =~= people_view(old_names).insert(row@.lang, name@));
                grouped.insert(row.user_id, names);
                assert(forall|id: u128| grouped@.contains_key(id) <==> before.contains_key(id));
            },
            None => {
                assert(grouped@ =~= before);
            },
        }
        i = i + 1;
    }
    assert(rows_view(rows@).take(rows.len() as int) =~= rows_view(rows@));
    assert(grouped_view(grouped@) =~= grouped_names(user_ids@, rows_view(rows@)));
    grouped
}

/// The locale-keyed mapping that a list of entries stands for. Where two
/// entries have the same locale the later one wins.
pub open spec fn names_map(entries: Seq<(Seq<char>, NameTriple)>) -> Map<Seq<char>, NameTriple>
    decreases entries.len(),
{
    if entries.len() == 0 {
        Map::empty()
    } else {
        names_map(entries.drop_last()).insert(entries.last().0, entries.last().1)
    }
}

/// The row that stores one entry of a user's names.
pub open spec fn name_row(user_id: u128, entry: (Seq<char>, NameTriple)) -> NameRow {
    NameRow {
        user_id,
        lang: entry.0,
        first_name: entry.1.first,
        middle_name: entry.1.middle,
        last_name: entry.1.last,
    }
}

/// The rows that store a user's names, one for each entry, in their order.
pub open spec fn name_rows(user_id: u128, entries: Seq<(Seq<char>, NameTriple)>) -> Seq<NameRow> {
    Seq::new(entries.len(), |i: int| name_row(user_id, entries[i]))
}

/// The statements that add a user's names, one for each entry, in their
/// order.
pub open spec fn insert_statements(user_id: u128, entries: Seq<(Seq<char>, NameTriple)>) -> Seq<
    StatementModel,
> {
    Seq::new(
        entries.len(),
        |i: int| StatementModel::InsertName { row: name_row(user_id, entries[i]) },
    )
}

/// The statements that replace a user's names: first every stored name of
/// the user is removed, then one row is added for each entry.
pub open spec fn replace_statements(user_id: u128, entries: Seq<(Seq<char>, NameTriple)>) -> Seq<
    StatementModel,
> {
    seq![StatementModel::DeleteNames { user_id }] + insert_statements(user_id, entries)
}

/// The statements that fetch the names of the given users: one query for all
/// of them, and none where no user is asked for.
pub open spec fn query_statements(user_ids: Seq<u128>) -> Seq<StatementModel> {
    if user_ids.len() == 0 {
        Seq::empty()
    } else {
        seq![StatementModel::SelectNames { user_ids }]
    }
}

/// What a mapping of names holds is what its entries stand for.
pub proof fn lemma_people_view(names: hash::Hash<PersonName>)
    ensures
        people_view(names) == names_map(entries_view(names.values@)),
{
    lemma_entries_names(names.values@);
}

proof fn lemma_entries_names(s: Seq<(String, PersonName)>)
    ensures
        hash::entries_map(s).map_values(|n: PersonName| n@) == names_map(entries_view(s)),
    decreases s.len(),
{
    let f = |n: PersonName| n@;
    if s.len() == 0 {
        assert(hash::entries_map(s).map_values(f) =~= names_map(entries_view(s)));
    } else {
        let t = s.drop_last();
        lemma_entries_names(t);
        assert(entries_view(s).drop_last() =~= entries_view(t));
        assert(entries_view(s).last() == (s.last().0@, s.last().1@));
        assert(hash::entries_map(s).map_values(f) =~= hash::entries_map(t).map_values(f).insert(
            s.last().0@,
            s.last().1@,
        ));
    }
}

/// The rows of a user's entries fold back into what the entries stand for.
pub proof fn lemma_fold_name_rows(user_id: u128, entries: Seq<(Seq<char>, NameTriple)>)
    ensures
        fold_names(name_rows(user_id, entries)) == names_map(entries),
    decreases entries.len(),
{
    if entries.len() > 0 {
        lemma_fold_name_rows(user_id, entries.drop_last());
        assert(name_rows(user_id, entries).drop_last() =~= name_rows(user_id, entries.drop_last()));
    }
}

/// A copy of the mapping with the same entries in the same order.
pub fn duplicate_names(names: &hash::Hash<PersonName>) -> (copy: hash::Hash<PersonName>)
    ensures
        entries_view(copy.values@) == entries_view(names.values@),
        people_view(copy) == people_view(*names),
        names.has_distinct_keys() ==> copy.has_distinct_keys(),
{
    let mut values: Vec<(String, PersonName)> = Vec::new();
    let mut i: usize = 0;
    while i < names.values.len()
        invariant
            i <= names.values.len(),
            values@.len() == i,
            forall|j: int|
                0 <= j < i ==> (#[trigger] values@[j]).0@ == names.values@[j].0@ && values@[j].1@
                    == names.values@[j].1@,
        decreases names.values.len() - i,
    {
        let entry = &names.values[i];
        values.push((entry.0.clone(), entry.1.duplicate()));
        i = i + 1;
    }
    let copy = hash::Hash::new(values);
    proof {
        assert(entries_view(copy.values@) =~= entries_view(names.values@));
        lemma_people_view(copy);
        lemma_people_view(*names);
        if names.has_distinct_keys() {
            assert forall|a: int, b: int| 0 <= a < b < copy.values@.len() implies (
            #[trigger] copy.values@[a]).0@ != (#[trigger] copy.values@[b]).0@ by {
                assert(names.values@[a].0@ != names.values@[b].0@);
            }
        }
    }
    copy
}

/// Adds to `plan` the statements that add the given names for a user, one
/// for each entry in the order of the entries. Locale codes are passed on as
/// they are.
fn append_inserts(plan: &mut Vec<Statement>, user_id: u128, names: &hash::Hash<PersonName>)
    ensures
        statements_view(final(plan)@) == statements_view(old(plan)@) + insert_statements(
            user_id,
            entries_view(names.values@),
        ),
{
    let ghost entries = entries_view(names.values@);
    let ghost base = statements_view(plan@);
    let mut i: usize = 0;
    assert(statements_view(plan@) =~= base + insert_statements(user_id, entries).take(0));
    while i < names.values.len()
        invariant
            i <= names.values.len(),
            entries == entries_view(names.values@),
            statements_view(plan@) == base + insert_statements(user_id, entries).take(i as int),
        decreases names.values.len() - i,
    {
        let entry = &names.values[i];
        let row = UserNameEntity {
            user_id,
            lang: entry.0.clone(),
            first_name: entry.1.first.clone(),
            middle_name: entry.1.middle.clone(),
            last_name: entry.1.last.clone(),
        };
        let ghost before = plan@;
        plan.push(Statement::InsertName { row });
        proof {
            assert(row@ == name_row(user_id, entries[i as int]));
            assert(statements_view(plan@) =~= statements_view(before).push(
                StatementModel::InsertName { row: row@ },
            ));
            assert(insert_statements(user_id, entries).take(i + 1) =~= insert_statements(
                user_id,
                entries,
            ).take(i as int).push(StatementModel::InsertName { row: row@ }));
            assert(statements_view(plan@) =~= base + insert_statements(user_id, entries).take(
                i + 1,
            ));
        }
        i = i + 1;
    }
    assert(insert_statements(user_id, entries).take(names.values.len() as int)
        =~= insert_statements(user_id, entries));
}

/// The statements that replace the names of a user by the given ones: the
/// removal of every stored name of the user, then one insertion for each
/// entry. An empty mapping leaves the user without names.
pub fn replace_names(user_id: u128, names: &hash::Hash<PersonName>) -> (plan: Vec<Statement>)
    ensures
        statements_view(plan@) == replace_statements(user_id, entries_view(names.values@)),
{
    let mut plan: Vec<Statement> = Vec::new();
    plan.push(Statement::DeleteNames { user_id });
    assert(statements_view(plan@) =~= seq![StatementModel::DeleteNames { user_id }]);
    append_inserts(&mut plan, user_id, names);
    plan
}

/// The statements that fetch the names of the given users: one query for
/// all of them. With no user to ask for, nothing is sent.
pub fn names_query(user_ids: &Vec<u128>) -> (plan: Vec<Statement>)
    ensures
        statements_view(plan@) == query_statements(user_ids@),
        user_ids@.len() > 0 ==> plan@.len() == 1,
        user_ids@.len() == 0 ==> plan@.len() == 0,
{
    let mut plan: Vec<Statement> = Vec::new();
    if user_ids.len() == 0 {
        assert(statements_view(plan@) =~= query_statements(user_ids@));
        return plan;
    }
    let mut ids: Vec<u128> = Vec::new();
    let mut i: usize = 0;
    while i < user_ids.len()
        invariant
            i <= user_ids.len(),
            ids@ == user_ids@.take(i as int),
        decreases user_ids.len() - i,
    {
        ids.push(user_ids[i]);
        assert(ids@ =~= user_ids@.take(i + 1));
        i = i + 1;
    }
    assert(user_ids@.take(user_ids.len() as int) =~= user_ids@);
    plan.push(Statement::SelectNames { user_ids: ids });
    assert(statements_view(plan@) =~= query_statements(user_ids@));
    plan
}

} // verus!
