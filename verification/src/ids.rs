//! Lists of caller identities.
//!
//! Registered voters and voters who have cast a vote are kept as vectors of
//! identity strings with a no-duplicates invariant. At the specification
//! level such a list is the sequence of its identities' character sequences.

use vstd::prelude::*;

verus! {

/// The identities held by a list, each as its character sequence.
pub open spec fn id_view(ids: Seq<String>) -> Seq<Seq<char>> {
    ids.map_values(|s: String| s@)
}

/// Whether every identity of `a` also occurs in `b`.
pub open spec fn ids_subset(a: Seq<Seq<char>>, b: Seq<Seq<char>>) -> bool {
    forall|x: Seq<char>| a.contains(x) ==> b.contains(x)
}

/// Appending a fresh identity keeps a list free of duplicates.
pub proof fn lemma_push_no_duplicates(ids: Seq<Seq<char>>, x: Seq<char>)
    requires
        ids.no_duplicates(),
        !ids.contains(x),
    ensures
        ids.push(x).no_duplicates(),
{
    assert forall|i: int, j: int|
        0 <= i < ids.push(x).len() && 0 <= j < ids.push(x).len() && i != j implies ids.push(x)[i]
        != ids.push(x)[j] by {
        if i < ids.len() && j < ids.len() {
        } else if j == ids.len() {
            assert(ids.contains(ids[i]));
        } else {
            assert(ids.contains(ids[j]));
        }
    }
}

/// Whether two identity strings spell the same identity.
pub fn same_id(a: &str, b: &str) -> (r: bool)
    ensures
        r == (a@ == b@),
{
    let a_owned: String = a.to_owned();
    let b_owned: String = b.to_owned();
    a_owned == b_owned
}

/// Whether `id` occurs in the identity list `ids`.
pub fn contains_id(ids: &Vec<String>, id: &str) -> (r: bool)
    ensures
        r == id_view(ids@).contains(id@),
{
    let mut i: usize = 0;
    while i < ids.len()
        invariant
            i <= ids@.len(),
            forall|j: int| 0 <= j < i ==> id_view(ids@)[j] != id@,
        decreases ids@.len() - i,
    {
        if same_id(ids[i].as_str(), id) {
            assert(id_view(ids@)[i as int] == id@);
            return true;
        }
        i = i + 1;
    }
    false
}

} // verus!
