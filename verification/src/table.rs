//! The meaning of the generated conversions, as a verified lookup over a
//! variant table.
//!
//! The generated fallible conversion tries the table's entries in order and
//! returns the first variant whose discriminant equals the input, or the
//! rejected input itself as the error; the generated total conversion
//! returns a variant's own discriminant. `from_repr` and `to_repr` are
//! those two functions over an explicit table, and the lemmas here pin down
//! the guarantees the emitted tests give: totality, first-match tie-break,
//! and the round trip.

use vstd::prelude::*;

use crate::model::{entries_view, VariantEntry, VariantEntryV};
use crate::repr::{in_range, ReprTag};

verus! {

/// The index of the first table entry whose discriminant is `x`, or `x`
/// itself when no entry carries it.
pub open spec fn spec_from_repr(t: Seq<VariantEntryV>, x: int) -> Result<int, int>
    decreases t.len(),
{
    if t.len() == 0 {
        Err(x)
    } else if t[0].value == x {
        Ok(0)
    } else {
        match spec_from_repr(t.subrange(1, t.len() as int), x) {
            Ok(i) => Ok(i + 1),
            Err(e) => Err(e),
        }
    }
}

/// The discriminant of the table entry at index `i`.
pub open spec fn spec_to_repr(t: Seq<VariantEntryV>, i: int) -> int
    recommends
        0 <= i < t.len(),
{
    t[i].value
}

/// `spec_from_repr` succeeds exactly when some entry carries the input, it
/// answers with the first such entry, and it returns every unmatched input
/// unchanged as the error.
pub proof fn lemma_from_repr_first_match(t: Seq<VariantEntryV>, x: int)
    ensures
        (spec_from_repr(t, x) is Ok) <==> (exists|i: int|
            0 <= i < t.len() && t[i].value == x),
        spec_from_repr(t, x) is Ok ==> {
            let i = spec_from_repr(t, x)->Ok_0;
            &&& 0 <= i < t.len()
            &&& t[i].value == x
            &&& forall|j: int| 0 <= j < i ==> t[j].value != x
        },
        spec_from_repr(t, x) is Err ==> spec_from_repr(t, x)->Err_0 == x,
    decreases t.len(),
{
    if t.len() == 0 {
    } else if t[0].value == x {
    } else {
        let rest = t.subrange(1, t.len() as int);
        lemma_from_repr_first_match(rest, x);
        if exists|i: int| 0 <= i < t.len() && t[i].value == x {
            let i = choose|i: int| 0 <= i < t.len() && t[i].value == x;
            assert(rest[i - 1] == t[i]);
        }
        if spec_from_repr(rest, x) is Ok {
            let k = spec_from_repr(rest, x)->Ok_0;
            assert(t[k + 1] == rest[k]);
            assert forall|j: int| 0 <= j < k + 1 implies t[j].value != x by {
                if j > 0 {
                    assert(rest[j - 1] == t[j]);
                }
            }
        }
    }
}

/// When `i` is a match and no earlier entry is, the lookup answers exactly
/// `i`.
pub proof fn lemma_first_match_unique(t: Seq<VariantEntryV>, x: int, i: int)
    requires
        0 <= i < t.len(),
        t[i].value == x,
        forall|j: int| 0 <= j < i ==> t[j].value != x,
    ensures
        spec_from_repr(t, x) == Ok::<int, int>(i),
{
    lemma_from_repr_first_match(t, x);
    let k = spec_from_repr(t, x)->Ok_0;
    assert(!(k < i) && !(i < k));
}

/// View of an index result: the index of a success, the rejected input of
/// a failure.
pub open spec fn index_result_view(r: Result<usize, i128>) -> Result<int, int> {
    match r {
        Ok(i) => Ok(i as int),
        Err(e) => Err(e as int),
    }
}

/// Map a numeric input to the first table entry carrying it, or return the
/// input itself as the error. Every input is handled: a recognized
/// discriminant finds its earliest entry, anything else comes back as
/// `Err`.
#[verifier::loop_isolation(false)]
pub fn from_repr(table: &Vec<VariantEntry>, x: i128) -> (r: Result<usize, i128>)
    ensures
        index_result_view(r) == spec_from_repr(entries_view(table@), x as int),
        match r {
            Ok(i) => {
                &&& i < table@.len()
                &&& table@[i as int]@.value == x as int
                &&& forall|j: int| 0 <= j < i ==> table@[j]@.value != x as int
            },
            Err(e) => {
                &&& e == x
                &&& forall|j: int| 0 <= j < table@.len() ==> table@[j]@.value != x as int
            },
        },
{
    let ghost t: Seq<VariantEntryV> = entries_view(table@);
    let n: usize = table.len();
    let mut idx: usize = 0;
    while idx < n
        invariant
            0 <= idx <= n,
            forall|j: int| 0 <= j < idx ==> t[j].value != x as int,
        decreases n - idx,
    {
        proof {
            assert(t[idx as int] == table@[idx as int]@);
        }
        if table[idx].value == x {
            proof {
                lemma_first_match_unique(t, x as int, idx as int);
                assert forall|j: int| 0 <= j < idx implies table@[j]@.value != x as int by {
                    assert(t[j] == table@[j]@);
                }
            }
            return Ok(idx);
        }
        idx = idx + 1;
    }
    proof {
        lemma_from_repr_first_match(t, x as int);
        assert forall|j: int| 0 <= j < table@.len() implies table@[j]@.value != x as int by {
            assert(t[j] == table@[j]@);
        }
    }
    Err(x)
}

/// Read off the discriminant of the table entry at index `i` — the total
/// conversion from a variant to its numeric representation.
pub fn to_repr(table: &Vec<VariantEntry>, i: usize) -> (v: i128)
    requires
        i < table@.len(),
    ensures
        v as int == spec_to_repr(entries_view(table@), i as int),
{
    table[i].value
}

/// The variant-table invariant: every discriminant is representable in the
/// declared representation layout.
pub open spec fn spec_table_fits(tag: ReprTag, t: Seq<VariantEntryV>) -> bool {
    forall|j: int| 0 <= j < t.len() ==> in_range(tag, t[j].value)
}

/// Whether every discriminant in the table is representable in the layout
/// `tag`.
#[verifier::loop_isolation(false)]
pub fn table_fits(tag: ReprTag, table: &Vec<VariantEntry>) -> (r: bool)
    ensures
        r == spec_table_fits(tag, entries_view(table@)),
{
    let ghost t: Seq<VariantEntryV> = entries_view(table@);
    let n: usize = table.len();
    let mut idx: usize = 0;
    while idx < n
        invariant
            0 <= idx <= n,
            forall|j: int| 0 <= j < idx ==> in_range(tag, t[j].value),
        decreases n - idx,
    {
        proof {
            assert(t[idx as int] == table@[idx as int]@);
        }
        if !crate::repr::value_in_range(tag, table[idx].value) {
            return false;
        }
        idx = idx + 1;
    }
    true
}

/// Every table entry maps to itself: looking up an entry's own discriminant
/// succeeds and finds a variant with that entry's name. Where an earlier
/// entry carries the same discriminant it must carry the same name, since
/// the earlier entry is the one found.
pub proof fn lemma_entry_lookup(t: Seq<VariantEntryV>, i: int)
    requires
        0 <= i < t.len(),
        forall|h: int| 0 <= h < i && t[h].value == t[i].value ==> t[h].name == t[i].name,
    ensures
        spec_from_repr(t, t[i].value) is Ok,
        t[spec_from_repr(t, t[i].value)->Ok_0].name == t[i].name,
        t[spec_from_repr(t, t[i].value)->Ok_0].value == t[i].value,
        spec_to_repr(t, i) == t[i].value,
{
    lemma_from_repr_first_match(t, t[i].value);
    let k = spec_from_repr(t, t[i].value)->Ok_0;
    assert(!(i < k));
}

/// A numeric input equal to no discriminant in the table comes back
/// unchanged as the error.
pub proof fn lemma_unmatched_input(t: Seq<VariantEntryV>, x: int)
    requires
        forall|j: int| 0 <= j < t.len() ==> t[j].value != x,
    ensures
        spec_from_repr(t, x) == Err::<int, int>(x),
{
    lemma_from_repr_first_match(t, x);
}

/// Round trip: converting a variant to its representation and back yields
/// a variant with the same name. Where an earlier entry carries the same
/// discriminant it must carry the same name, since the earlier entry is
/// the one found.
pub proof fn lemma_round_trip(t: Seq<VariantEntryV>, i: int)
    requires
        0 <= i < t.len(),
        forall|h: int| 0 <= h < i && t[h].value == t[i].value ==> t[h].name == t[i].name,
    ensures
        spec_from_repr(t, spec_to_repr(t, i)) is Ok,
        t[spec_from_repr(t, spec_to_repr(t, i))->Ok_0].name == t[i].name,
{
    lemma_entry_lookup(t, i);
}

/// Duplicate-discriminant tie-break: when positions `i < j` carry the same
/// discriminant, looking it up answers a position no later than `i` — and
/// exactly `i` when no position before `i` carries it.
pub proof fn lemma_first_match_wins(t: Seq<VariantEntryV>, i: int, j: int)
    requires
        0 <= i < j < t.len(),
        t[i].value == t[j].value,
    ensures
        spec_from_repr(t, t[j].value) is Ok,
        spec_from_repr(t, t[j].value)->Ok_0 <= i,
        (forall|h: int| 0 <= h < i ==> t[h].value != t[i].value) ==> spec_from_repr(
            t,
            t[j].value,
        ) == Ok::<int, int>(i),
{
    lemma_from_repr_first_match(t, t[j].value);
    let k = spec_from_repr(t, t[j].value)->Ok_0;
    assert(!(i < k));
    if forall|h: int| 0 <= h < i ==> t[h].value != t[i].value {
        lemma_first_match_unique(t, t[j].value, i);
    }
}

} // verus!
