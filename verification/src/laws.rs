//! What the stores promise across operations. Each store keeps its
//! records in a `Vec` whose view the store methods state their results
//! over (`index_of`, `without_id`, `push`, `update`), so these laws hold
//! for tasks, projects and users alike.
use vstd::prelude::*;
use crate::auth::{key_lookup, ApiKeyEntry};
use crate::extractors::{present_messages, reports_fields, FieldIssues, FieldMessages};
use crate::model::{priority_name, status_name, task_matches, Priority, Task, TaskFilter, TaskStatus};
use crate::tasks::title_taken;
use crate::text::occurs_in;
use crate::records::{holds_id, index_of, lemma_index_of, lemma_index_of_first, other_than, well_keyed, without_id, Record};
use crate::tasks::matching;
use vstd::string::*;

verus! {

/// A record stored with a fresh id (the store's next id, when the ids are
/// well kept) is what a later lookup of that id finds: a read gives back
/// what a create wrote.
pub proof fn law_lookup_after_create<T: Record>(before: Seq<T>, next: u64, r: T)
    requires
        well_keyed(before, next),
        r.key() == next,
    ensures
        index_of(before.push(r), r.key()) == Some(before.len() as int),
        before.push(r)[before.len() as int] == r,
{
    let after = before.push(r);
    assert forall|j: int| 0 <= j < before.len() implies #[trigger] after[j].key() != r.key() by {
        assert(after[j] == before[j]);
        assert(before[j].key() < next);
    }
    lemma_index_of_first(after, r.key(), before.len() as int);
}

/// The id a create hands out was never held by a stored record, so ids
/// are not reused.
pub proof fn law_created_id_is_new<T: Record>(before: Seq<T>, next: u64)
    requires
        well_keyed(before, next),
    ensures
        !holds_id(before, next),
{
    if holds_id(before, next) {
        let k = choose|k: int| 0 <= k < before.len() && #[trigger] before[k].key() == next;
        assert(before[k].key() < next);
    }
}

/// After a delete of an id, no record has that id, so a lookup of it
/// fails.
pub proof fn law_lookup_after_delete<T: Record>(before: Seq<T>, id: u64)
    ensures
        !holds_id(without_id(before, id), id),
        index_of(without_id(before, id), id) is None,
{
    let after = without_id(before, id);
    broadcast use vstd::seq_lib::group_filter_ensures;
    if holds_id(after, id) {
        let k = choose|k: int| 0 <= k < after.len() && #[trigger] after[k].key() == id;
        before.lemma_filter_pred(other_than::<T>(id), k);
    }
    lemma_index_of(after, id);
}

/// A delete of one id leaves what a lookup of any other id finds, when no
/// two records share an id.
pub proof fn law_delete_keeps_others<T: Record>(before: Seq<T>, next: u64, id: u64, other: u64)
    requires
        well_keyed(before, next),
        other != id,
    ensures
        index_of(without_id(before, id), other) matches Some(i)
            ==> index_of(before, other) matches Some(j) && without_id(before, id)[i] == before[j],
        index_of(without_id(before, id), other) is None <==> index_of(before, other) is None,
{
    let after = without_id(before, id);
    let pred = other_than::<T>(id);
    broadcast use vstd::seq_lib::group_filter_ensures;
    lemma_index_of(before, other);
    lemma_index_of(after, other);
    if let Some(i) = index_of(after, other) {
        before.lemma_filter_contains_rev(pred, after[i]);
        let j = choose|j: int| 0 <= j < before.len() && before[j] == after[i];
        let j0 = index_of(before, other)->0;
        if j != j0 {
            assert(before[j].key() == before[j0].key());
        }
    }
    if let Some(j) = index_of(before, other) {
        before.lemma_filter_contains(pred, j);
        let i = choose|i: int| 0 <= i < after.len() && after[i] == before[j];
        assert(after[i].key() == other);
    }
}

/// After an update or status change of the record found for an id, a
/// lookup of that id finds the new record at the same place.
pub proof fn law_lookup_after_update<T: Record>(before: Seq<T>, id: u64, i: int, r: T)
    requires
        index_of(before, id) == Some(i),
        r.key() == id,
    ensures
        index_of(before.update(i, r), id) == Some(i),
        before.update(i, r)[i] == r,
{
    lemma_index_of(before, id);
    let after = before.update(i, r);
    assert forall|j: int| 0 <= j < i implies #[trigger] after[j].key() != id by {
        assert(after[j] == before[j]);
    }
    lemma_index_of_first(after, id, i);
}

/// Listing selects exactly the stored tasks that pass the filter: every
/// listed task is stored and passes, and every stored task that passes is
/// listed.
pub proof fn law_list_selects_matching(tasks: Seq<Task>, f: TaskFilter)
    ensures
        forall|i: int|
            0 <= i < tasks.filter(matching(f)).len() ==> {
                &&& task_matches(f, #[trigger] tasks.filter(matching(f))[i])
                &&& tasks.contains(tasks.filter(matching(f))[i])
            },
        forall|i: int| 0 <= i < tasks.len() && task_matches(f, #[trigger] tasks[i]) ==> tasks.filter(matching(f)).contains(tasks[i]),
{
    broadcast use vstd::seq_lib::group_filter_ensures;
    let r = tasks.filter(matching(f));
    assert forall|i: int| 0 <= i < r.len() implies task_matches(f, #[trigger] r[i]) && tasks.contains(r[i]) by {
        tasks.lemma_filter_pred(matching(f), i);
        assert(r.contains(r[i]));
        tasks.lemma_filter_contains_rev(matching(f), r[i]);
    }
    assert forall|i: int| 0 <= i < tasks.len() && task_matches(f, #[trigger] tasks[i]) implies r.contains(tasks[i]) by {
        tasks.lemma_filter_contains(matching(f), i);
    }
}

/// A filter that sets no condition lists every task, in store order.
pub proof fn law_empty_filter_lists_all(tasks: Seq<Task>, f: TaskFilter)
    requires
        f.status is None,
        f.priority is None,
        f.search is None,
    ensures
        tasks.filter(matching(f)) == tasks,
    decreases tasks.len(),
{
    reveal(Seq::filter);
    if tasks.len() > 0 {
        law_empty_filter_lists_all(tasks.drop_last(), f);
        assert(tasks.drop_last().push(tasks.last()) =~= tasks);
    }
}

/// A listed task meets every condition the filter sets, read off the
/// task's own fields: the status equals the filter's status, the priority
/// equals the filter's priority, and the search text occurs in the title
/// or the description. Conversely every stored task that meets them is
/// listed.
pub proof fn law_list_meets_filter_fields(tasks: Seq<Task>, f: TaskFilter)
    ensures
        forall|i: int| 0 <= i < tasks.filter(matching(f)).len() ==> {
            &&& tasks.contains(#[trigger] tasks.filter(matching(f))[i])
            &&& (f.status matches Some(s) ==> tasks.filter(matching(f))[i].status == s)
            &&& (f.priority matches Some(p) ==> tasks.filter(matching(f))[i].priority == p)
            &&& (f.search matches Some(q) ==> {
                ||| occurs_in(tasks.filter(matching(f))[i].title@, q@)
                ||| (tasks.filter(matching(f))[i].description matches Some(d) && occurs_in(d@, q@))
            })
        },
        forall|i: int| 0 <= i < tasks.len()
            && (f.status is None || f.status == Some(tasks[i].status))
            && (f.priority is None || f.priority == Some(tasks[i].priority))
            && (f.search matches Some(q) ==> {
                ||| occurs_in(tasks[i].title@, q@)
                ||| (tasks[i].description matches Some(d) && occurs_in(d@, q@))
            })
            ==> tasks.filter(matching(f)).contains(#[trigger] tasks[i]),
{
    law_list_selects_matching(tasks, f);
    let r = tasks.filter(matching(f));
    assert forall|i: int| 0 <= i < r.len() implies {
        &&& tasks.contains(#[trigger] r[i])
        &&& (f.status matches Some(s) ==> r[i].status == s)
        &&& (f.priority matches Some(p) ==> r[i].priority == p)
        &&& (f.search matches Some(q) ==> {
            ||| occurs_in(r[i].title@, q@)
            ||| (r[i].description matches Some(d) && occurs_in(d@, q@))
        })
    } by {
        assert(task_matches(f, r[i]));
    }
    assert forall|i: int| 0 <= i < tasks.len()
        && (f.status is None || f.status == Some(tasks[i].status))
        && (f.priority is None || f.priority == Some(tasks[i].priority))
        && (f.search matches Some(q) ==> {
            ||| occurs_in(tasks[i].title@, q@)
            ||| (tasks[i].description matches Some(d) && occurs_in(d@, q@))
        }) implies r.contains(#[trigger] tasks[i]) by {
        assert(task_matches(f, tasks[i]));
    }
}

/// A title counts as taken exactly when some stored task, whatever its
/// status, has that very title; so a create is refused for every title
/// already in the store and accepted for every other.
pub proof fn law_title_taken_by_any_task(tasks: Seq<Task>, title: Seq<char>)
    ensures
        title_taken(tasks, title) <==> exists|i: int| 0 <= i < tasks.len() && #[trigger] tasks[i].title@ == title,
        !title_taken(tasks, title) ==> forall|i: int| 0 <= i < tasks.len() ==> #[trigger] tasks[i].title@ != title,
{
}

/// Every registered key is found: for an entry with no later entry of the
/// same key, looking its key up gives that entry's client name and role.
pub proof fn law_registered_key_found(s: Seq<ApiKeyEntry>, i: int)
    requires
        0 <= i < s.len(),
        forall|j: int| i < j < s.len() ==> #[trigger] s[j].key_name@ != s[i].key_name@,
    ensures
        key_lookup(s, s[i].key_name@) == Some((s[i].user_name, s[i].role)),
    decreases s.len(),
{
    if i < s.len() - 1 {
        let d = s.drop_last();
        assert(s[s.len() - 1].key_name@ != s[i].key_name@);
        assert forall|j: int| i < j < d.len() implies #[trigger] d[j].key_name@ != d[i].key_name@ by {
            assert(d[j] == s[j]);
        }
        law_registered_key_found(d, i);
        assert(d[i] == s[i]);
    }
}

/// A key is unknown exactly when no entry registers it.
pub proof fn law_unknown_key_has_no_entry(s: Seq<ApiKeyEntry>, key: Seq<char>)
    ensures
        key_lookup(s, key) is None <==> forall|j: int| 0 <= j < s.len() ==> #[trigger] s[j].key_name@ != key,
    decreases s.len(),
{
    if s.len() > 0 {
        let d = s.drop_last();
        law_unknown_key_has_no_entry(d, key);
        assert forall|j: int| 0 <= j < d.len() implies #[trigger] d[j] == s[j] by {}
        if key_lookup(s, key) is None {
            assert forall|j: int| 0 <= j < s.len() implies #[trigger] s[j].key_name@ != key by {
                if j < d.len() {
                    assert(d[j].key_name@ != key);
                }
            }
        } else if forall|j: int| 0 <= j < s.len() ==> #[trigger] s[j].key_name@ != key {
            assert(s[s.len() - 1].key_name@ != key);
            assert forall|j: int| 0 <= j < d.len() implies #[trigger] d[j].key_name@ != key by {
                assert(s[j].key_name@ != key);
            }
        }
    }
}

/// Statuses are named by their variant names, and no two statuses share a
/// name.
pub proof fn law_status_names()
    ensures
        status_name(TaskStatus::Pending) == "Pending"@,
        status_name(TaskStatus::InProgress) == "InProgress"@,
        status_name(TaskStatus::Done) == "Done"@,
        forall|a: TaskStatus, b: TaskStatus| #[trigger] status_name(a) == #[trigger] status_name(b) ==> a == b,
{
    reveal_strlit("Pending");
    reveal_strlit("InProgress");
    reveal_strlit("Done");
    assert forall|a: TaskStatus, b: TaskStatus| #[trigger] status_name(a) == #[trigger] status_name(b) implies a == b by {
        assert(status_name(a).len() == status_name(b).len());
    }
}

/// Priorities are named by their variant names, and no two priorities
/// share a name.
pub proof fn law_priority_names()
    ensures
        priority_name(Priority::Low) == "Low"@,
        priority_name(Priority::Medium) == "Medium"@,
        priority_name(Priority::High) == "High"@,
        forall|a: Priority, b: Priority| #[trigger] priority_name(a) == #[trigger] priority_name(b) ==> a == b,
{
    reveal_strlit("Low");
    reveal_strlit("Medium");
    reveal_strlit("High");
    assert forall|a: Priority, b: Priority| #[trigger] priority_name(a) == #[trigger] priority_name(b) implies a == b by {
        assert(priority_name(a).len() == priority_name(b).len());
    }
}

/// A refusal report has one entry for every failing field, in order: entry
/// `i` names field `i` and carries its messages.
pub proof fn law_one_entry_per_failing_field(issues: Seq<FieldIssues>, out: Seq<FieldMessages>)
    requires
        reports_fields(issues, out),
    ensures
        out.len() == issues.len(),
        forall|i: int| #![trigger out[i]] 0 <= i < issues.len() ==> {
            &&& out[i].field == issues[i].field
            &&& out[i].messages@ == present_messages(issues[i].messages@)
        },
{
    assert forall|i: int| #![trigger out[i]] 0 <= i < issues.len() implies {
        &&& out[i].field == issues[i].field
        &&& out[i].messages@ == present_messages(issues[i].messages@)
    } by {
        assert(out[i].field == issues[i].field);
    }
}

/// The messages reported for a field are its present messages in order:
/// a missing message contributes nothing, a present one contributes
/// itself, and the report of two runs of failures is the report of the
/// first followed by that of the second.
pub proof fn law_present_messages(a: Seq<Option<String>>, b: Seq<Option<String>>, m: String)
    ensures
        present_messages(Seq::empty()) == Seq::<String>::empty(),
        present_messages(seq![Some(m)]) == seq![m],
        present_messages(seq![None::<String>]) == Seq::<String>::empty(),
        present_messages(a + b) == present_messages(a) + present_messages(b),
    decreases b.len(),
{
    assert(seq![Some(m)].drop_last() =~= Seq::<Option<String>>::empty());
    assert(seq![Some(m)].last() == Some(m));
    assert(present_messages(Seq::<Option<String>>::empty()).push(m) =~= seq![m]);
    assert(seq![None::<String>].drop_last() =~= Seq::<Option<String>>::empty());
    if b.len() == 0 {
        assert(a + b =~= a);
        assert(present_messages(a) + present_messages(b) =~= present_messages(a));
    } else {
        let d = b.drop_last();
        law_present_messages(a, d, m);
        assert((a + b).drop_last() =~= a + d);
        assert((a + b).last() == b.last());
        match b.last() {
            Some(x) => {
                assert(present_messages(a) + present_messages(d).push(x) =~= (present_messages(a) + present_messages(d)).push(x));
            },
            None => {},
        }
    }
}

} // verus!
