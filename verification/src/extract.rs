//! Variant table extractor.
//!
//! Walks a declaration's shape and produces the variant table: one (name,
//! discriminant) entry per variant, in declaration order. A shape that is
//! not an enumeration is rejected, and so is a variant without an explicit
//! discriminant — the extractor never synthesizes one.

use vstd::prelude::*;

use crate::errors::{GenError, GenErrorV};
use crate::model::{
    entries_view, variants_view, TypeData, TypeDataV, Variant, VariantEntry, VariantEntryV,
    VariantV,
};

verus! {

/// The table entry a variant with an explicit discriminant yields.
pub open spec fn entry_of(v: VariantV) -> VariantEntryV
    recommends
        v.discriminant is Some,
{
    VariantEntryV { name: v.name, value: v.discriminant.unwrap() }
}

/// The table a variant list yields when every variant carries an explicit
/// discriminant.
pub open spec fn entries_of(vs: Seq<VariantV>) -> Seq<VariantEntryV> {
    vs.map_values(|v: VariantV| entry_of(v))
}

/// Outcome of walking a variant list in order: the full table, or the first
/// variant without an explicit discriminant.
pub open spec fn spec_extract_variants(vs: Seq<VariantV>) -> Result<Seq<VariantEntryV>, GenErrorV>
    decreases vs.len(),
{
    if vs.len() == 0 {
        Ok(Seq::empty())
    } else {
        match vs[0].discriminant {
            None => Err(GenErrorV::MissingDiscriminant(vs[0].name)),
            Some(x) => match spec_extract_variants(vs.subrange(1, vs.len() as int)) {
                Ok(rest) => Ok(seq![entry_of(vs[0])] + rest),
                Err(e) => Err(e),
            },
        }
    }
}

/// Outcome of extracting a variant table from a declaration's shape: only
/// an enumeration has one.
pub open spec fn spec_extract(d: TypeDataV) -> Result<Seq<VariantEntryV>, GenErrorV> {
    match d {
        TypeDataV::Enumeration(vs) => spec_extract_variants(vs),
        TypeDataV::Struct => Err(GenErrorV::NotAnEnum),
        TypeDataV::Union => Err(GenErrorV::NotAnEnum),
    }
}

/// View of a table result: the views of the entries of a success, the view
/// of an error.
pub open spec fn entries_result_view(r: Result<Vec<VariantEntry>, GenError>) -> Result<
    Seq<VariantEntryV>,
    GenErrorV,
> {
    match r {
        Ok(v) => Ok(entries_view(v@)),
        Err(e) => Err(e@),
    }
}

/// When the first `k` variants all carry a discriminant, the walk's outcome
/// is decided at position `k`: past the end it is the full table, and a
/// discriminant-free variant there is the one reported.
proof fn lemma_extract_unfold(vs: Seq<VariantV>, k: int)
    requires
        0 <= k <= vs.len(),
        forall|j: int| 0 <= j < k ==> vs[j].discriminant is Some,
    ensures
        k == vs.len() ==> spec_extract_variants(vs) == Ok::<_, GenErrorV>(entries_of(vs)),
        k < vs.len() && vs[k].discriminant is None ==> spec_extract_variants(vs) == Err::<
            Seq<VariantEntryV>,
            _,
        >(GenErrorV::MissingDiscriminant(vs[k].name)),
    decreases vs.len(),
{
    if vs.len() == 0 {
        assert(entries_of(vs) =~= Seq::<VariantEntryV>::empty());
    } else if k == 0 {
        // Either vs[0] lacks a discriminant, settling the walk at once, or
        // both conclusions hold vacuously.
    } else {
        let rest = vs.subrange(1, vs.len() as int);
        lemma_extract_unfold(rest, k - 1);
        if k == vs.len() {
            assert(entries_of(vs) =~= seq![entry_of(vs[0])] + entries_of(rest));
        } else if vs[k].discriminant is None {
            assert(rest[k - 1] == vs[k]);
        }
    }
}

/// Extract the variant table of an enumeration's shape, or report why it
/// has none: a product or union shape, or a variant without an explicit
/// discriminant.
#[verifier::loop_isolation(false)]
pub fn get_enum_data(data: &TypeData) -> (r: Result<Vec<VariantEntry>, GenError>)
    ensures
        entries_result_view(r) == spec_extract(data@),
{
    match data {
        TypeData::Enumeration(vs) => {
            let ghost vsv: Seq<VariantV> = variants_view(vs@);
            let mut out: Vec<VariantEntry> = Vec::new();
            let n: usize = vs.len();
            let mut i: usize = 0;
            proof {
                assert(entries_view(out@) =~= entries_of(vsv.subrange(0, 0)));
            }
            while i < n
                invariant
                    n == vs.len(),
                    0 <= i <= n,
                    vsv == variants_view(vs@),
                    forall|j: int| 0 <= j < i ==> vsv[j].discriminant is Some,
                    entries_view(out@) == entries_of(vsv.subrange(0, i as int)),
                decreases n - i,
            {
                let v = &vs[i];
                proof {
                    assert(vsv[i as int] == v@);
                }
                match v.discriminant {
                    Some(val) => {
                        let ghost prev: Seq<VariantEntry> = out@;
                        out.push(VariantEntry { name: v.name.clone(), value: val });
                        proof {
                            let tgt = entries_of(vsv.subrange(0, i as int + 1));
                            assert forall|j: int| 0 <= j < out@.len() implies entries_view(
                                out@,
                            )[j] == tgt[j] by {
                                assert(entries_view(out@)[j] == out@[j]@);
                                assert(tgt[j] == entry_of(vsv[j]));
                                if j < i as int {
                                    assert(out@[j] == prev[j]);
                                    assert(entries_view(prev)[j] == entries_of(
                                        vsv.subrange(0, i as int),
                                    )[j]);
                                    assert(entries_of(vsv.subrange(0, i as int))[j] == entry_of(
                                        vsv[j],
                                    ));
                                }
                            }
                            assert(entries_view(out@) =~= tgt);
                        }
                    },
                    None => {
                        proof {
                            lemma_extract_unfold(vsv, i as int);
                        }
                        return Err(GenError::MissingDiscriminant(v.name.clone()));
                    },
                }
                i = i + 1;
            }
            proof {
                lemma_extract_unfold(vsv, n as int);
                assert(vsv.subrange(0, n as int) =~= vsv);
            }
            Ok(out)
        },
        TypeData::Struct => Err(GenError::NotAnEnum),
        TypeData::Union => Err(GenError::NotAnEnum),
    }
}

} // verus!
