//! Operations shared by the three stores: each keeps its records in a
//! `Vec` in insertion order and finds them by numeric id.
use vstd::prelude::*;

verus! {

/// A stored value with a numeric id that can be copied exactly.
pub trait Record: Sized {
    /// The id of the record.
    spec fn key(&self) -> u64;

    /// Reads the id.
    fn record_id(&self) -> (id: u64)
        ensures
            id == self.key(),
    ;

    /// Copies the record; the copy equals the original.
    fn duplicate(&self) -> (r: Self)
        ensures
            r == *self,
    ;
}

/// The position of the first record with id `id`, if any.
pub open spec fn index_of<T: Record>(s: Seq<T>, id: u64) -> Option<int>
    decreases s.len(),
{
    if s.len() == 0 {
        None
    } else if s[0].key() == id {
        Some(0)
    } else {
        match index_of(s.drop_first(), id) {
            Some(i) => Some(i + 1),
            None => None,
        }
    }
}

/// The first record with id `id`, if any.
pub open spec fn lookup<T: Record>(s: Seq<T>, id: u64) -> Option<T> {
    match index_of(s, id) {
        Some(i) => Some(s[i]),
        None => None,
    }
}

/// Whether some record has id `id`.
pub open spec fn holds_id<T: Record>(s: Seq<T>, id: u64) -> bool {
    exists|i: int| 0 <= i < s.len() && #[trigger] s[i].key() == id
}

/// The test that keeps a record whose id is not `id`.
pub open spec fn other_than<T: Record>(id: u64) -> spec_fn(T) -> bool {
    |r: T| r.key() != id
}

/// The records whose id is not `id`, in their order.
pub open spec fn without_id<T: Record>(s: Seq<T>, id: u64) -> Seq<T> {
    s.filter(other_than(id))
}

/// Every id is below `next` and no two records share an id.
pub open spec fn well_keyed<T: Record>(s: Seq<T>, next: u64) -> bool {
    &&& forall|i: int| 0 <= i < s.len() ==> #[trigger] s[i].key() < next
    &&& forall|i: int, j: int|
        #![trigger s[i].key(), s[j].key()]
        0 <= i < s.len() && 0 <= j < s.len() && i != j ==> s[i].key() != s[j].key()
}

/// Appending a record with id `next` keeps the ids well kept, with the
/// next id one further on.
pub proof fn lemma_well_keyed_push<T: Record>(s: Seq<T>, next: u64, r: T)
    requires
        well_keyed(s, next),
        r.key() == next,
        next < u64::MAX,
    ensures
        well_keyed(s.push(r), (next + 1) as u64),
        !holds_id(s, next),
{
    let t = s.push(r);
    assert forall|i: int| 0 <= i < t.len() implies #[trigger] t[i].key() < next + 1 by {
        if i < s.len() {
            assert(t[i] == s[i]);
        }
    }
    assert forall|i: int, j: int|
        0 <= i < t.len() && 0 <= j < t.len() && i != j implies #[trigger] t[i].key() != #[trigger] t[j].key() by {
        if i < s.len() {
            assert(t[i] == s[i]);
        }
        if j < s.len() {
            assert(t[j] == s[j]);
        }
    }
}

/// Dropping the records with one id keeps the ids well kept.
pub proof fn lemma_well_keyed_without<T: Record>(s: Seq<T>, next: u64, id: u64)
    requires
        well_keyed(s, next),
    ensures
        well_keyed(without_id(s, id), next),
    decreases s.len(),
{
    reveal(Seq::filter);
    if s.len() > 0 {
        let d = s.drop_last();
        assert forall|i: int| 0 <= i < d.len() implies #[trigger] d[i] == s[i] by {}
        lemma_well_keyed_without(d, next, id);
        let f = without_id(d, id);
        let last = s.last();
        if other_than::<T>(id)(last) {
            let g = f.push(last);
            assert(without_id(s, id) == g);
            assert forall|i: int| 0 <= i < f.len() implies #[trigger] f[i].key() != last.key() by {
                d.lemma_filter_contains_rev(other_than::<T>(id), f[i]);
                let j = choose|j: int| 0 <= j < d.len() && d[j] == f[i];
                assert(s[j].key() != s[s.len() - 1].key());
            }
            assert forall|i: int| 0 <= i < g.len() implies #[trigger] g[i].key() < next by {
                if i < f.len() {
                    assert(g[i] == f[i]);
                }
            }
            assert forall|i: int, j: int|
                0 <= i < g.len() && 0 <= j < g.len() && i != j implies #[trigger] g[i].key() != #[trigger] g[j].key() by {
                if i < f.len() {
                    assert(g[i] == f[i]);
                }
                if j < f.len() {
                    assert(g[j] == f[j]);
                }
            }
        } else {
            assert(without_id(s, id) == f);
        }
    }
}

/// Replacing a record by one with the same id keeps the ids well kept.
pub proof fn lemma_well_keyed_update<T: Record>(s: Seq<T>, next: u64, i: int, r: T)
    requires
        well_keyed(s, next),
        0 <= i < s.len(),
        r.key() == s[i].key(),
    ensures
        well_keyed(s.update(i, r), next),
{
    let t = s.update(i, r);
    assert forall|k: int| 0 <= k < t.len() implies #[trigger] t[k].key() == s[k].key() by {}
    assert forall|a: int, b: int|
        0 <= a < t.len() && 0 <= b < t.len() && a != b implies #[trigger] t[a].key() != #[trigger] t[b].key() by {
        assert(t[a].key() == s[a].key());
        assert(t[b].key() == s[b].key());
    }
}

/// `index_of` finds the first record with the id, and nothing when no
/// record has it.
pub proof fn lemma_index_of<T: Record>(s: Seq<T>, id: u64)
    ensures
        index_of(s, id) matches Some(i) ==> {
            &&& 0 <= i < s.len()
            &&& s[i].key() == id
            &&& forall|j: int| 0 <= j < i ==> #[trigger] s[j].key() != id
        },
        index_of(s, id) is None <==> !holds_id(s, id),
    decreases s.len(),
{
    if s.len() > 0 && s[0].key() != id {
        let t = s.drop_first();
        lemma_index_of(t, id);
        assert forall|j: int| 0 <= j < t.len() implies #[trigger] t[j].key() == s[j + 1].key() by {}
        if holds_id(s, id) {
            let k = choose|k: int| 0 <= k < s.len() && #[trigger] s[k].key() == id;
            assert(t[k - 1].key() == id);
        }
        if holds_id(t, id) {
            let k = choose|k: int| 0 <= k < t.len() && #[trigger] t[k].key() == id;
            assert(s[k + 1].key() == id);
        }
        if let Some(i) = index_of(t, id) {
            assert forall|j: int| 0 <= j < i + 1 implies #[trigger] s[j].key() != id by {
                if j > 0 {
                    assert(t[j - 1].key() != id);
                }
            }
        }
    } else if s.len() > 0 {
        assert(s[0].key() == id);
    }
}

/// The first record with an id that no earlier record has is found at
/// its position.
pub proof fn lemma_index_of_first<T: Record>(s: Seq<T>, id: u64, i: int)
    requires
        0 <= i < s.len(),
        s[i].key() == id,
        forall|j: int| 0 <= j < i ==> #[trigger] s[j].key() != id,
    ensures
        index_of(s, id) == Some(i),
{
    lemma_index_of(s, id);
    assert(holds_id(s, id));
    let k = index_of(s, id)->0;
    if k < i {
        assert(s[k].key() != id);
    } else if k > i {
        assert(s[i].key() != id);
    }
}

/// The position of the first record with id `id`, if any.
pub fn find_index<T: Record>(v: &Vec<T>, id: u64) -> (r: Option<usize>)
    ensures
        match r {
            Some(i) => i < v.len() && v@[i as int].key() == id && index_of(v@, id) == Some(i as int),
            None => index_of(v@, id) is None,
        },
{
    let mut i: usize = 0;
    while i < v.len()
        invariant
            i <= v.len(),
            forall|j: int| 0 <= j < i ==> #[trigger] v@[j].key() != id,
        decreases v.len() - i,
    {
        if v[i].record_id() == id {
            proof {
                lemma_index_of_first(v@, id, i as int);
            }
            return Some(i);
        }
        i = i + 1;
    }
    proof {
        lemma_index_of(v@, id);
        if holds_id(v@, id) {
            let k = choose|k: int| 0 <= k < v@.len() && #[trigger] v@[k].key() == id;
            assert(v@[k].key() != id);
        }
    }
    None
}

/// Copies every record, in order.
pub fn copy_all<T: Record>(v: &Vec<T>) -> (r: Vec<T>)
    ensures
        r@ == v@,
{
    let mut out: Vec<T> = Vec::new();
    let mut i: usize = 0;
    while i < v.len()
        invariant
            i <= v.len(),
            out@ == v@.take(i as int),
        decreases v.len() - i,
    {
        let c = v[i].duplicate();
        out.push(c);
        i = i + 1;
        assert(out@ =~= v@.take(i as int));
    }
    assert(v@.take(v.len() as int) =~= v@);
    out
}

/// Keeps the records whose id is not `id`, in order; reports whether any
/// record was dropped.
pub fn remove_with_id<T: Record>(v: &mut Vec<T>, id: u64) -> (removed: bool)
    ensures
        final(v)@ == without_id(old(v)@, id),
        removed == holds_id(old(v)@, id),
{
    let ghost pred = other_than::<T>(id);
    let mut out: Vec<T> = Vec::new();
    let mut i: usize = 0;
    let len = v.len();
    while i < v.len()
        invariant
            i <= v.len(),
            len == v.len(),
            out@ == v@.take(i as int).filter(pred),
            out.len() <= i,
            (out.len() == i) <==> (forall|j: int| 0 <= j < i ==> #[trigger] v@[j].key() != id),
            pred == other_than::<T>(id),
        decreases v.len() - i,
    {
        proof {
            assert(v@.take(i as int + 1) =~= v@.take(i as int).push(v@[i as int]));
            v@.take(i as int).lemma_filter_push(v@[i as int], pred);
        }
        if v[i].record_id() != id {
            let c = v[i].duplicate();
            out.push(c);
        } else {
            assert(out.len() < i + 1);
        }
        i = i + 1;
    }
    assert(v@.take(len as int) =~= v@);
    let removed = out.len() < len;
    proof {
        if !removed {
            assert(!holds_id(v@, id));
        } else {
            assert(holds_id(v@, id));
        }
    }
    *v = out;
    removed
}

} // verus!
