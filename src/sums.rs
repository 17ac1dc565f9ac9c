//! Sums of progress values over a map of entries, and how they change when
//! one entry is written.

use vstd::arithmetic::div_mod::{lemma_add_mod_noop, lemma_small_mod};
use vstd::prelude::*;
use vstd::set::fold::{is_fun_commutative, lemma_fold_empty, lemma_fold_insert};

use crate::progress::{wrap, HiddenProgress, Progress};

verus! {

/// The value stored for one entry: its visible and its hidden progress.
pub type Entry = (Progress, HiddenProgress);

/// The value of an entry that was never written.
pub open spec fn empty_entry() -> Entry {
    (Progress::zero(), HiddenProgress(Progress::zero()))
}

/// The entry stored under `id`, or the empty entry where there is none.
pub open spec fn entry_of(m: Map<usize, Entry>, id: usize) -> Entry {
    if m.contains_key(id) {
        m[id]
    } else {
        empty_entry()
    }
}

/// The visible and hidden progress of an entry, added together.
pub open spec fn combined(e: Entry) -> Progress {
    e.0.plus(e.1.0)
}

/// Sum, as an unbounded integer, of `sel` over the entries under `keys`.
pub open spec fn sum_over(keys: Set<usize>, m: Map<usize, Entry>, sel: spec_fn(Entry) -> int) -> int {
    keys.fold(0int, |acc: int, k: usize| acc + sel(m[k]))
}

/// Sum of `sel` over every entry of `m`.
pub open spec fn sum_of(m: Map<usize, Entry>, sel: spec_fn(Entry) -> int) -> int {
    sum_over(m.dom(), m, sel)
}

/// Selects the visible `done` of an entry.
pub open spec fn visible_done() -> spec_fn(Entry) -> int {
    |e: Entry| e.0.done as int
}

/// Selects the visible `total` of an entry.
pub open spec fn visible_total() -> spec_fn(Entry) -> int {
    |e: Entry| e.0.total as int
}

/// Selects the hidden `done` of an entry.
pub open spec fn hidden_done() -> spec_fn(Entry) -> int {
    |e: Entry| e.1.0.done as int
}

/// Selects the hidden `total` of an entry.
pub open spec fn hidden_total() -> spec_fn(Entry) -> int {
    |e: Entry| e.1.0.total as int
}

/// Selects visible plus hidden `done` of an entry.
pub open spec fn combined_done() -> spec_fn(Entry) -> int {
    |e: Entry| e.0.done + e.1.0.done
}

/// Selects visible plus hidden `total` of an entry.
pub open spec fn combined_total() -> spec_fn(Entry) -> int {
    |e: Entry| e.0.total + e.1.0.total
}

/// The sum of the visible progress of all entries, wrapped into `u32`.
pub open spec fn visible_sum(m: Map<usize, Entry>) -> Progress {
    Progress { done: wrap(sum_of(m, visible_done())), total: wrap(sum_of(m, visible_total())) }
}

/// The sum of the hidden progress of all entries, wrapped into `u32`.
pub open spec fn hidden_sum(m: Map<usize, Entry>) -> Progress {
    Progress { done: wrap(sum_of(m, hidden_done())), total: wrap(sum_of(m, hidden_total())) }
}

/// The sum of visible and hidden progress over all entries.
pub open spec fn combined_sum(m: Map<usize, Entry>) -> Progress {
    visible_sum(m).plus(hidden_sum(m))
}

proof fn lemma_step_commutes(m: Map<usize, Entry>, sel: spec_fn(Entry) -> int)
    ensures
        is_fun_commutative(|acc: int, k: usize| acc + sel(m[k])),
{
}

/// Two maps that agree on `keys` have the same sums over `keys`.
proof fn lemma_sum_congruent(
    keys: Set<usize>,
    m1: Map<usize, Entry>,
    m2: Map<usize, Entry>,
    sel: spec_fn(Entry) -> int,
)
    requires
        keys.finite(),
        forall|k: usize| keys.contains(k) ==> m1[k] == m2[k],
    ensures
        sum_over(keys, m1, sel) == sum_over(keys, m2, sel),
    decreases keys.len(),
{
    let f1 = |acc: int, k: usize| acc + sel(m1[k]);
    let f2 = |acc: int, k: usize| acc + sel(m2[k]);
    if keys.is_empty() {
        assert(keys == Set::<usize>::empty());
        lemma_fold_empty(0int, f1);
        lemma_fold_empty(0int, f2);
    } else {
        let a = keys.choose();
        let rest = keys.remove(a);
        assert(rest.insert(a) == keys);
        lemma_step_commutes(m1, sel);
        lemma_step_commutes(m2, sel);
        lemma_fold_insert(rest, 0int, f1, a);
        lemma_fold_insert(rest, 0int, f2, a);
        lemma_sum_congruent(rest, m1, m2, sel);
    }
}

/// Splits one key off a sum.
proof fn lemma_sum_remove(keys: Set<usize>, m: Map<usize, Entry>, sel: spec_fn(Entry) -> int, k: usize)
    requires
        keys.finite(),
        keys.contains(k),
    ensures
        sum_over(keys, m, sel) == sum_over(keys.remove(k), m, sel) + sel(m[k]),
{
    let f = |acc: int, j: usize| acc + sel(m[j]);
    assert(keys.remove(k).insert(k) == keys);
    lemma_step_commutes(m, sel);
    lemma_fold_insert(keys.remove(k), 0int, f, k);
}

/// Writing `e` under `k` moves a sum by the difference between `e` and the
/// entry that was there before (the empty entry where there was none).
pub proof fn lemma_sum_insert(m: Map<usize, Entry>, k: usize, e: Entry, sel: spec_fn(Entry) -> int)
    requires
        m.dom().finite(),
        sel(empty_entry()) == 0,
    ensures
        sum_of(m.insert(k, e), sel) == sum_of(m, sel) - sel(entry_of(m, k)) + sel(e),
{
    let m2 = m.insert(k, e);
    let rest = m.dom().remove(k);
    assert(m2.dom().remove(k) == rest);
    lemma_sum_remove(m2.dom(), m2, sel, k);
    lemma_sum_congruent(rest, m, m2, sel);
    if m.contains_key(k) {
        lemma_sum_remove(m.dom(), m, sel, k);
    } else {
        assert(rest == m.dom());
    }
}

/// The sum of two selections is the sum of their sums.
pub proof fn lemma_sum_linear(
    keys: Set<usize>,
    m: Map<usize, Entry>,
    s1: spec_fn(Entry) -> int,
    s2: spec_fn(Entry) -> int,
    s3: spec_fn(Entry) -> int,
)
    requires
        keys.finite(),
        forall|e: Entry| #[trigger] s3(e) == s1(e) + s2(e),
    ensures
        sum_over(keys, m, s3) == sum_over(keys, m, s1) + sum_over(keys, m, s2),
    decreases keys.len(),
{
    if keys.is_empty() {
        assert(keys == Set::<usize>::empty());
        lemma_fold_empty(0int, |acc: int, k: usize| acc + s1(m[k]));
        lemma_fold_empty(0int, |acc: int, k: usize| acc + s2(m[k]));
        lemma_fold_empty(0int, |acc: int, k: usize| acc + s3(m[k]));
    } else {
        let a = keys.choose();
        lemma_sum_remove(keys, m, s1, a);
        lemma_sum_remove(keys, m, s2, a);
        lemma_sum_remove(keys, m, s3, a);
        lemma_sum_linear(keys.remove(a), m, s1, s2, s3);
    }
}

/// Writing `e` under `k` moves each global sum by exactly the difference
/// between `e` and the entry that was there before (the empty entry where
/// there was none), in wrapping arithmetic.
pub proof fn lemma_sums_after_write(m: Map<usize, Entry>, k: usize, e: Entry)
    requires
        m.dom().finite(),
    ensures
        visible_sum(m.insert(k, e)) == visible_sum(m).minus(entry_of(m, k).0).plus(e.0),
        hidden_sum(m.insert(k, e)) == hidden_sum(m).minus(entry_of(m, k).1.0).plus(e.1.0),
{
    let old_e = entry_of(m, k);
    lemma_sum_insert(m, k, e, visible_done());
    lemma_sum_insert(m, k, e, visible_total());
    lemma_sum_insert(m, k, e, hidden_done());
    lemma_sum_insert(m, k, e, hidden_total());
    lemma_wrap_shift(sum_of(m, visible_done()), old_e.0.done as int, e.0.done as int);
    lemma_wrap_shift(sum_of(m, visible_total()), old_e.0.total as int, e.0.total as int);
    lemma_wrap_shift(sum_of(m, hidden_done()), old_e.1.0.done as int, e.1.0.done as int);
    lemma_wrap_shift(sum_of(m, hidden_total()), old_e.1.0.total as int, e.1.0.total as int);
}

/// The sum of the visible progress of all entries plus the sum of their
/// hidden progress is the sum, over all entries, of visible and hidden
/// progress together (all of it wrapped into `u32`).
pub proof fn lemma_combined_is_sum_of_entries(m: Map<usize, Entry>)
    requires
        m.dom().finite(),
    ensures
        combined_sum(m) == (Progress {
            done: wrap(sum_of(m, combined_done())),
            total: wrap(sum_of(m, combined_total())),
        }),
{
    lemma_sum_linear(m.dom(), m, visible_done(), hidden_done(), combined_done());
    lemma_sum_linear(m.dom(), m, visible_total(), hidden_total(), combined_total());
    lemma_wrap_both(sum_of(m, visible_done()), sum_of(m, hidden_done()));
    lemma_wrap_both(sum_of(m, visible_total()), sum_of(m, hidden_total()));
}

proof fn lemma_wrap_both(a: int, b: int)
    ensures
        wrap(wrap(a) + wrap(b)) == wrap(a + b),
{
    lemma_wrap_wrap(a, wrap(b) as int);
    lemma_wrap_wrap(b, a);
}

/// Wrapping is insensitive to an earlier wrap of a summand.
proof fn lemma_wrap_wrap(b: int, c: int)
    ensures
        wrap(wrap(b) + c) == wrap(b + c),
{
    let n: int = 0x1_0000_0000;
    lemma_add_mod_noop(b, c, n);
    lemma_add_mod_noop(b % n, c, n);
    lemma_small_mod((b % n) as nat, n as nat);
}

proof fn lemma_wrap_shift(a: int, x: int, y: int)
    ensures
        wrap(wrap(wrap(a) - x) + y) == wrap(a - x + y),
{
    lemma_wrap_wrap(wrap(a) - x, y);
    lemma_wrap_wrap(a, y - x);
}

} // verus!
