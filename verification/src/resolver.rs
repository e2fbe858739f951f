//! Representation-type resolver.
//!
//! Scans a declaration's annotations for the outer `repr` annotation and
//! extracts the single type identifier it names. Any identifier is accepted
//! as a presumed numeric type name; validating it against the primitive
//! integer types is deferred to the generated code's own compilation.

use vstd::prelude::*;
use vstd::string::StringExecFns;

use crate::errors::{GenError, GenErrorV};
use crate::model::{attrs_view, Attr, AttrToken, AttrTokenV, AttrV, Delim, ReprItem, ReprItemV};

verus! {

/// Whether an annotation is the one the resolver reads: an outer annotation
/// named `repr`.
pub open spec fn is_repr_attr(a: AttrV) -> bool {
    a.outer && a.name == "repr"@
}

/// Outcome of reading one `repr` annotation: the identifier it names, or
/// the error it is rejected with. The annotation must hold exactly one
/// token, a parenthesised group, and that group exactly one item, an
/// identifier.
pub open spec fn resolve_repr_attr(a: AttrV) -> Result<Seq<char>, GenErrorV> {
    if a.tokens.len() != 1 {
        Err(GenErrorV::ReprMalformed)
    } else {
        match a.tokens[0] {
            AttrTokenV::Group { delim, items } => {
                if delim != Delim::Parenthesis {
                    Err(GenErrorV::ReprMalformed)
                } else if items.len() == 0 {
                    Err(GenErrorV::ReprMalformed)
                } else if items.len() > 1 {
                    Err(GenErrorV::ManyReprTypes)
                } else {
                    match items[0] {
                        ReprItemV::Ident(id) => Ok(id),
                        ReprItemV::Other(t) => Err(GenErrorV::UnexpectedTypeInRepr(t)),
                    }
                }
            },
            AttrTokenV::Other(t) => Err(GenErrorV::UnexpectedTokenWithRepr(t)),
        }
    }
}

/// What resolving a whole annotation list yields: the first outer `repr`
/// annotation decides, and without one the result is `ReprNotFound`.
pub open spec fn spec_find_repr(attrs: Seq<AttrV>) -> Result<Seq<char>, GenErrorV>
    decreases attrs.len(),
{
    if attrs.len() == 0 {
        Err(GenErrorV::ReprNotFound)
    } else if is_repr_attr(attrs[0]) {
        resolve_repr_attr(attrs[0])
    } else {
        spec_find_repr(attrs.subrange(1, attrs.len() as int))
    }
}

/// View of a textual result: the text of a success, the view of an error.
pub open spec fn text_result_view(r: Result<String, GenError>) -> Result<Seq<char>, GenErrorV> {
    match r {
        Ok(s) => Ok(s@),
        Err(e) => Err(e@),
    }
}

/// Extract the representation-type identifier named by the declaration's
/// outer `repr` annotation, or report why it cannot be.
pub fn find_repr_type(attrs: &Vec<Attr>) -> (r: Result<String, GenError>)
    ensures
        text_result_view(r) == spec_find_repr(attrs_view(attrs@)),
{
    let ghost all: Seq<AttrV> = attrs_view(attrs@);
    let n: usize = attrs.len();
    let repr_key = String::from_str("repr");
    let mut idx: usize = 0;
    proof {
        assert(all.subrange(0, n as int) =~= all);
    }
    while idx < n
        invariant
            n == attrs.len(),
            0 <= idx <= n,
            all == attrs_view(attrs@),
            repr_key@ == "repr"@,
            spec_find_repr(all) == spec_find_repr(all.subrange(idx as int, n as int)),
        decreases n - idx,
    {
        let a = &attrs[idx];
        proof {
            assert(all.subrange(idx as int, n as int)[0] == a@);
        }
        if a.outer && a.name == repr_key {
            if a.tokens.len() != 1 {
                return Err(GenError::ReprMalformed);
            }
            proof {
                assert(a@.tokens[0] == a.tokens@[0]@);
            }
            match &a.tokens[0] {
                AttrToken::Group { delim, items } => {
                    if *delim != Delim::Parenthesis {
                        return Err(GenError::ReprMalformed);
                    }
                    if items.len() == 0 {
                        return Err(GenError::ReprMalformed);
                    }
                    if items.len() > 1 {
                        return Err(GenError::ManyReprTypes);
                    }
                    proof {
                        assert(a@.tokens[0]->items[0] == items@[0]@);
                    }
                    match &items[0] {
                        ReprItem::Ident(id) => {
                            return Ok(id.clone());
                        },
                        ReprItem::Other(t) => {
                            return Err(GenError::UnexpectedTypeInRepr(t.clone()));
                        },
                    }
                },
                AttrToken::Other(t) => {
                    return Err(GenError::UnexpectedTokenWithRepr(t.clone()));
                },
            }
        }
        proof {
            assert(all.subrange(idx as int, n as int).subrange(1, (n - idx) as int) =~= all
                .subrange(idx as int + 1, n as int));
        }
        idx = idx + 1;
    }
    Err(GenError::ReprNotFound)
}

} // verus!
