//! The vote tally: a list of vote options, each with its count.
//!
//! At the specification level a tally is a sequence of pairs of an option
//! name (as a character sequence) and its count. The helpers here define the
//! total of all counts, incrementing the entry of a given option, and the
//! facts about them that the election machine's invariant rests on.

use vstd::prelude::*;

verus! {

/// The counts list of an executable tally, each option name as its
/// character sequence.
pub open spec fn counts_view(counts: Seq<(String, u32)>) -> Seq<(Seq<char>, u32)> {
    counts.map_values(|p: (String, u32)| (p.0@, p.1))
}

/// The option names of a tally, in order.
pub open spec fn tally_keys(t: Seq<(Seq<char>, u32)>) -> Seq<Seq<char>> {
    t.map_values(|p: (Seq<char>, u32)| p.0)
}

/// Whether no option name occurs twice.
pub open spec fn distinct_keys(t: Seq<(Seq<char>, u32)>) -> bool {
    tally_keys(t).no_duplicates()
}

/// The total of all counts.
pub open spec fn sum_counts(t: Seq<(Seq<char>, u32)>) -> int
    decreases t.len(),
{
    if t.len() == 0 {
        0
    } else {
        sum_counts(t.drop_last()) + t.last().1
    }
}

/// Whether every count is zero.
pub open spec fn all_zero(t: Seq<(Seq<char>, u32)>) -> bool {
    forall|i: int| 0 <= i < t.len() ==> (#[trigger] t[i]).1 == 0
}

/// A tally of the given options, every count zero.
pub open spec fn zero_tally(keys: Seq<Seq<char>>) -> Seq<(Seq<char>, u32)> {
    keys.map_values(|k: Seq<char>| (k, 0u32))
}

/// The tally with the first entry for `key` incremented by one (counts wrap
/// only in the specification; callers rule overflow out).
pub open spec fn bump_first(t: Seq<(Seq<char>, u32)>, key: Seq<char>) -> Seq<(Seq<char>, u32)>
    decreases t.len(),
{
    if t.len() == 0 {
        t
    } else if t[0].0 == key {
        t.update(0, (key, (t[0].1 + 1) as u32))
    } else {
        seq![t[0]] + bump_first(t.drop_first(), key)
    }
}

/// A tally with no entries sums to zero, and one of all-zero counts as well.
pub proof fn lemma_sum_all_zero(t: Seq<(Seq<char>, u32)>)
    requires
        all_zero(t),
    ensures
        sum_counts(t) == 0,
    decreases t.len(),
{
    if t.len() > 0 {
        lemma_sum_all_zero(t.drop_last());
    }
}

/// Replacing the entry at `i` changes the total by the change of that count.
pub proof fn lemma_sum_update(t: Seq<(Seq<char>, u32)>, i: int, p: (Seq<char>, u32))
    requires
        0 <= i < t.len(),
    ensures
        sum_counts(t.update(i, p)) == sum_counts(t) - t[i].1 + p.1,
    decreases t.len(),
{
    if i == t.len() - 1 {
        assert(t.update(i, p).drop_last() =~= t.drop_last());
    } else {
        assert(t.update(i, p).drop_last() =~= t.drop_last().update(i, p));
        assert(t.update(i, p).last() == t.last());
        lemma_sum_update(t.drop_last(), i, p);
    }
}

/// No single count exceeds the total.
pub proof fn lemma_entry_le_sum(t: Seq<(Seq<char>, u32)>, i: int)
    requires
        0 <= i < t.len(),
    ensures
        t[i].1 <= sum_counts(t),
        sum_counts(t) >= 0,
    decreases t.len(),
{
    if t.len() > 0 {
        if i < t.len() - 1 {
            lemma_entry_le_sum(t.drop_last(), i);
        } else if t.len() > 1 {
            lemma_entry_le_sum(t.drop_last(), 0);
        }
    }
}

/// Where `i` is the first entry for `key`, incrementing the first entry is
/// replacing the entry at `i`.
pub proof fn lemma_bump_first_is_update(t: Seq<(Seq<char>, u32)>, key: Seq<char>, i: int)
    requires
        0 <= i < t.len(),
        t[i].0 == key,
        forall|j: int| 0 <= j < i ==> (#[trigger] t[j]).0 != key,
    ensures
        bump_first(t, key) == t.update(i, (key, (t[i].1 + 1) as u32)),
    decreases t.len(),
{
    if i == 0 {
        assert(t.update(0, (key, (t[0].1 + 1) as u32)) == bump_first(t, key));
    } else {
        lemma_bump_first_is_update(t.drop_first(), key, i - 1);
        assert(bump_first(t, key) =~= t.update(i, (key, (t[i].1 + 1) as u32)));
    }
}

/// Zeroed options sum to zero and keep their names.
pub proof fn lemma_zero_tally(keys: Seq<Seq<char>>)
    ensures
        tally_keys(zero_tally(keys)) =~= keys,
        all_zero(zero_tally(keys)),
        sum_counts(zero_tally(keys)) == 0,
{
    lemma_sum_all_zero(zero_tally(keys));
}

/// The index of the first entry for `key`, if one is there: its position,
/// its name, and that no earlier entry has that name.
pub fn find_key(counts: &Vec<(String, u32)>, key: &str) -> (r: Option<usize>)
    ensures
        (match r {
            Some(i) => {
                &&& i < counts@.len()
                &&& counts@[i as int].0@ == key@
                &&& forall|j: int| 0 <= j < i ==> (#[trigger] counts@[j]).0@ != key@
            },
            None => forall|j: int|
                0 <= j < counts@.len() ==> (#[trigger] counts@[j]).0@ != key@,
        }),
{
    let mut i: usize = 0;
    while i < counts.len()
        invariant
            i <= counts@.len(),
            forall|j: int| 0 <= j < i ==> (#[trigger] counts@[j]).0@ != key@,
        decreases counts@.len() - i,
    {
        if crate::ids::same_id(counts[i].0.as_str(), key) {
            return Some(i);
        }
        i = i + 1;
    }
    None
}

/// Sets every count back to zero, keeping the option names.
pub fn zero_counts(counts: &mut Vec<(String, u32)>)
    ensures
        counts_view(final(counts)@) == zero_tally(tally_keys(counts_view(old(counts)@))),
{
    let mut i: usize = 0;
    while i < counts.len()
        invariant
            i <= counts@.len(),
            counts@.len() == old(counts)@.len(),
            forall|j: int|
                0 <= j < i ==> (#[trigger] counts@[j]).0@ == old(counts)@[j].0@
                    && counts@[j].1 == 0u32,
            forall|j: int| i <= j < counts@.len() ==> #[trigger] counts@[j] == old(counts)@[j],
        decreases counts@.len() - i,
    {
        let entry = counts.remove(i);
        counts.insert(i, (entry.0, 0u32));
        i = i + 1;
    }
    proof {
        assert(counts_view(counts@) =~= zero_tally(tally_keys(counts_view(old(counts)@))));
    }
}

} // verus!
