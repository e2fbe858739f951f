//! Generation-time errors.
//!
//! Every way the generator can reject its input, each carrying the token or
//! variant it is pinned to where the fixed message interpolates one. A
//! variant without an explicit discriminant is a reported error of its own
//! here rather than an unrecoverable fault.

use vstd::prelude::*;
use vstd::string::StringExecFns;

verus! {

/// Why generation was aborted. No partial output accompanies any of these.
#[derive(Clone, Debug, PartialEq, Eq)]
pub enum GenError {
    /// No outer `repr` annotation was found on the declaration.
    ReprNotFound,
    /// A `repr` annotation was found but does not have the shape
    /// `repr(TYPE)`: no tokens, more than one token, a group with the wrong
    /// delimiter, or an empty group.
    ReprMalformed,
    /// The `repr` annotation's group names more than one type.
    ManyReprTypes,
    /// The single item inside the `repr` group is not an identifier; carries
    /// that token's text.
    UnexpectedTypeInRepr(String),
    /// The `repr` annotation's single token is not a delimited group;
    /// carries that token's text.
    UnexpectedTokenWithRepr(String),
    /// The declaration is a product or union type, not an enumeration.
    NotAnEnum,
    /// A variant carries no explicit discriminant; carries the variant's
    /// name.
    MissingDiscriminant(String),
}

/// Mathematical view of a `GenError`.
pub enum GenErrorV {
    ReprNotFound,
    ReprMalformed,
    ManyReprTypes,
    UnexpectedTypeInRepr(Seq<char>),
    UnexpectedTokenWithRepr(Seq<char>),
    NotAnEnum,
    MissingDiscriminant(Seq<char>),
}

impl View for GenError {
    type V = GenErrorV;

    open spec fn view(&self) -> GenErrorV {
        match self {
            GenError::ReprNotFound => GenErrorV::ReprNotFound,
            GenError::ReprMalformed => GenErrorV::ReprMalformed,
            GenError::ManyReprTypes => GenErrorV::ManyReprTypes,
            GenError::UnexpectedTypeInRepr(t) => GenErrorV::UnexpectedTypeInRepr(t@),
            GenError::UnexpectedTokenWithRepr(t) => GenErrorV::UnexpectedTokenWithRepr(t@),
            GenError::NotAnEnum => GenErrorV::NotAnEnum,
            GenError::MissingDiscriminant(n) => GenErrorV::MissingDiscriminant(n@),
        }
    }
}

/// The diagnostic text of each error.
pub open spec fn spec_message(e: GenErrorV) -> Seq<char> {
    match e {
        GenErrorV::ReprNotFound => "Repr not found"@,
        GenErrorV::ReprMalformed => "Repr is malformed, expecting repr(TYPE)"@,
        GenErrorV::ManyReprTypes => "Many repr types specified. Expecting only one."@,
        GenErrorV::UnexpectedTypeInRepr(t) => "Unexpected type in repr "@ + t,
        GenErrorV::UnexpectedTokenWithRepr(t) => "Unexpected token with repr "@ + t,
        GenErrorV::NotAnEnum => "Unexpected type! Use derive with enums only"@,
        GenErrorV::MissingDiscriminant(n) => "Variant without explicit discriminant: "@ + n,
    }
}

impl GenError {
    /// The diagnostic text of this error.
    pub fn message(&self) -> (r: String)
        ensures
            r@ == spec_message(self@),
    {
        match self {
            GenError::ReprNotFound => String::from_str("Repr not found"),
            GenError::ReprMalformed => String::from_str("Repr is malformed, expecting repr(TYPE)"),
            GenError::ManyReprTypes => String::from_str(
                "Many repr types specified. Expecting only one.",
            ),
            GenError::UnexpectedTypeInRepr(t) => {
                let mut s = String::from_str("Unexpected type in repr ");
                s.append(t.as_str());
                s
            },
            GenError::UnexpectedTokenWithRepr(t) => {
                let mut s = String::from_str("Unexpected token with repr ");
                s.append(t.as_str());
                s
            },
            GenError::NotAnEnum => String::from_str("Unexpected type! Use derive with enums only"),
            GenError::MissingDiscriminant(n) => {
                let mut s = String::from_str("Variant without explicit discriminant: ");
                s.append(n.as_str());
                s
            },
        }
    }
}

} // verus!
