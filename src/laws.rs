//! Properties of number sets that span several calls, proved over the model.

use vstd::prelude::*;

use crate::model::{accepted, built, run, Op, SetModel};

verus! {

broadcast use vstd::seq_lib::group_seq_properties;

/// Inserting into a set whose members are distinct keeps them distinct.
pub proof fn lemma_insert_keeps_distinct(s: SetModel, x: int)
    requires
        s.distinct(),
    ensures
        s.insert(x).distinct(),
{
    if s.admits(x) {
        let v = s.values.push(x);
        assert forall|i: int, j: int| 0 <= i < v.len() && 0 <= j < v.len() && i != j implies v[i] != v[j] by {
            if i == s.values.len() as int {
                assert(s.values[j] == v[j]);
            } else if j == s.values.len() as int {
                assert(s.values[i] == v[i]);
            }
        }
    }
}

/// Inserting into a set whose bounds are exact keeps them exact.
pub proof fn lemma_insert_keeps_bounds(s: SetModel, x: int)
    requires
        s.bounds_exact(),
    ensures
        s.insert(x).bounds_exact(),
{
    if s.admits(x) {
        let t = s.insert(x);
        assert(t.values[s.values.len() as int] == x);
        if s.values.len() > 0 {
            assert forall|i: int| 0 <= i < t.values.len() implies t.min <= #[trigger] t.values[i] <= t.max by {
                if i < s.values.len() {
                    assert(t.values[i] == s.values[i]);
                }
            }
            assert(t.values.contains(s.max)) by {
                let j = choose|j: int| 0 <= j < s.values.len() && s.values[j] == s.max;
                assert(t.values[j] == s.max);
            }
            assert(t.values.contains(s.min)) by {
                let j = choose|j: int| 0 <= j < s.values.len() && s.values[j] == s.min;
                assert(t.values[j] == s.min);
            }
        }
    }
}

/// Inserting `xs` into a fresh set leaves exactly the values of `xs` as
/// members, each once, with exact bounds.
pub proof fn lemma_built_members(xs: Seq<int>)
    ensures
        built(xs).values.to_set() == xs.to_set(),
        built(xs).distinct(),
        built(xs).bounds_exact(),
    decreases xs.len(),
{
    if xs.len() == 0 {
        assert(xs.to_set() =~= Set::<int>::empty());
        assert(built(xs).values.to_set() =~= Set::<int>::empty());
    } else {
        let rest = xs.drop_last();
        let x = xs.last();
        lemma_built_members(rest);
        lemma_insert_keeps_distinct(built(rest), x);
        lemma_insert_keeps_bounds(built(rest), x);
        assert(xs =~= rest.push(x));
        assert(xs.to_set() =~= rest.to_set().insert(x));
        if built(rest).admits(x) {
            assert(built(xs).values.to_set() =~= built(rest).values.to_set().insert(x));
        } else {
            assert(built(rest).values.to_set().contains(x));
            assert(built(xs).values.to_set() =~= xs.to_set());
        }
    }
}

/// However many repeats a sequence of inserts into a fresh set holds, the
/// set ends with one member for each distinct value inserted.
pub proof fn lemma_dedup(xs: Seq<int>)
    ensures
        built(xs).values.len() == xs.to_set().len(),
{
    lemma_built_members(xs);
    built(xs).values.unique_seq_to_set();
}

/// After a non-empty sequence of inserts into a fresh set, the maximum is
/// the greatest value inserted and the minimum the least.
pub proof fn lemma_bounds_after_inserts(xs: Seq<int>)
    requires
        xs.len() > 0,
    ensures
        xs.contains(built(xs).max),
        xs.contains(built(xs).min),
        forall|i: int| 0 <= i < xs.len() ==> built(xs).min <= #[trigger] xs[i] <= built(xs).max,
{
    lemma_built_members(xs);
    let s = built(xs);
    assert(s.values.len() > 0) by {
        assert(xs.to_set().contains(xs[0]));
        assert(s.values.to_set().contains(xs[0]));
    }
    assert(s.values.to_set().contains(s.max));
    assert(s.values.to_set().contains(s.min));
    assert forall|i: int| 0 <= i < xs.len() implies s.min <= #[trigger] xs[i] <= s.max by {
        assert(xs.to_set().contains(xs[i]));
        assert(s.values.to_set().contains(xs[i]));
        let j = choose|j: int| 0 <= j < s.values.len() && s.values[j] == xs[i];
        assert(s.min <= s.values[j] <= s.max);
    }
}

/// Whatever inserts and scalings are made on a fresh set, its length is the
/// number of inserts that returned `true`.
pub proof fn lemma_len_counts_accepted(ops: Seq<Op>)
    ensures
        run(ops).values.len() == accepted(ops),
    decreases ops.len(),
{
    if ops.len() > 0 {
        lemma_len_counts_accepted(ops.drop_last());
    }
}

} // verus!
