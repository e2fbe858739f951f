//! Data model of the generator's input and of the variant table it derives.
//!
//! A `Declaration` describes one type declaration: its name, the annotations
//! attached to it, and its shape (an enumeration with named variants, or a
//! product or union type). Annotations are modelled as a name plus a flat
//! list of tokens, a token being either a delimited group of items or a bare
//! token carried as its source text — exactly the parts of an annotation the
//! generator inspects.

use vstd::prelude::*;

use crate::repr::ReprTag;

verus! {

/// Delimiter of a token group in an annotation.
#[derive(Clone, Copy, Debug, PartialEq, Eq, Structural)]
pub enum Delim {
    Parenthesis,
    Brace,
    Bracket,
    Bare,
}

/// A token inside an annotation's delimited group: an identifier, or any
/// other token carried as its source text.
#[derive(Clone, Debug, PartialEq, Eq)]
pub enum ReprItem {
    Ident(String),
    Other(String),
}

/// Mathematical view of a `ReprItem`.
pub enum ReprItemV {
    Ident(Seq<char>),
    Other(Seq<char>),
}

impl View for ReprItem {
    type V = ReprItemV;

    open spec fn view(&self) -> ReprItemV {
        match self {
            ReprItem::Ident(s) => ReprItemV::Ident(s@),
            ReprItem::Other(s) => ReprItemV::Other(s@),
        }
    }
}

/// A top-level token of an annotation: a delimited group of items, or any
/// other single token carried as its source text.
#[derive(Clone, Debug, PartialEq, Eq)]
pub enum AttrToken {
    Group { delim: Delim, items: Vec<ReprItem> },
    Other(String),
}

/// Mathematical view of an `AttrToken`.
pub enum AttrTokenV {
    Group { delim: Delim, items: Seq<ReprItemV> },
    Other(Seq<char>),
}

impl View for AttrToken {
    type V = AttrTokenV;

    open spec fn view(&self) -> AttrTokenV {
        match self {
            AttrToken::Group { delim, items } => AttrTokenV::Group {
                delim: *delim,
                items: items@.map_values(|it: ReprItem| it@),
            },
            AttrToken::Other(s) => AttrTokenV::Other(s@),
        }
    }
}

/// One annotation on a declaration: whether it is an outer annotation, its
/// name, and its tokens.
#[derive(Clone, Debug, PartialEq, Eq)]
pub struct Attr {
    pub outer: bool,
    pub name: String,
    pub tokens: Vec<AttrToken>,
}

/// Mathematical view of an `Attr`.
pub struct AttrV {
    pub outer: bool,
    pub name: Seq<char>,
    pub tokens: Seq<AttrTokenV>,
}

impl View for Attr {
    type V = AttrV;

    open spec fn view(&self) -> AttrV {
        AttrV {
            outer: self.outer,
            name: self.name@,
            tokens: self.tokens@.map_values(|t: AttrToken| t@),
        }
    }
}

/// One variant of an enumeration: its name and, where the source wrote one,
/// its explicit numeric discriminant.
#[derive(Clone, Debug, PartialEq, Eq)]
pub struct Variant {
    pub name: String,
    pub discriminant: Option<i128>,
}

/// Mathematical view of a `Variant`.
pub struct VariantV {
    pub name: Seq<char>,
    pub discriminant: Option<int>,
}

impl View for Variant {
    type V = VariantV;

    open spec fn view(&self) -> VariantV {
        VariantV {
            name: self.name@,
            discriminant: match self.discriminant {
                Some(v) => Some(v as int),
                None => None,
            },
        }
    }
}

/// The shape of a declaration: an enumeration with its variants, or one of
/// the shapes the generator rejects.
#[derive(Clone, Debug, PartialEq, Eq)]
pub enum TypeData {
    Enumeration(Vec<Variant>),
    Struct,
    Union,
}

/// Mathematical view of a `TypeData`.
pub enum TypeDataV {
    Enumeration(Seq<VariantV>),
    Struct,
    Union,
}

impl View for TypeData {
    type V = TypeDataV;

    open spec fn view(&self) -> TypeDataV {
        match self {
            TypeData::Enumeration(vs) => TypeDataV::Enumeration(variants_view(vs@)),
            TypeData::Struct => TypeDataV::Struct,
            TypeData::Union => TypeDataV::Union,
        }
    }
}

/// One type declaration as handed to the generator.
#[derive(Clone, Debug, PartialEq, Eq)]
pub struct Declaration {
    pub name: String,
    pub attrs: Vec<Attr>,
    pub data: TypeData,
}

/// Mathematical view of a `Declaration`.
pub struct DeclarationV {
    pub name: Seq<char>,
    pub attrs: Seq<AttrV>,
    pub data: TypeDataV,
}

impl View for Declaration {
    type V = DeclarationV;

    open spec fn view(&self) -> DeclarationV {
        DeclarationV { name: self.name@, attrs: attrs_view(self.attrs@), data: self.data@ }
    }
}

/// One entry of a variant table: a variant name and its discriminant value.
#[derive(Clone, Debug, PartialEq, Eq)]
pub struct VariantEntry {
    pub name: String,
    pub value: i128,
}

/// Mathematical view of a `VariantEntry`.
pub struct VariantEntryV {
    pub name: Seq<char>,
    pub value: int,
}

impl View for VariantEntry {
    type V = VariantEntryV;

    open spec fn view(&self) -> VariantEntryV {
        VariantEntryV { name: self.name@, value: self.value as int }
    }
}

/// An enumerated type's name together with its resolved representation
/// layout.
#[derive(Clone, Debug, PartialEq, Eq)]
pub struct TypeDescriptor {
    pub name: String,
    pub repr: ReprTag,
}

/// View of a sequence of entries.
pub open spec fn entries_view(s: Seq<VariantEntry>) -> Seq<VariantEntryV> {
    s.map_values(|e: VariantEntry| e@)
}

/// View of a sequence of variants.
pub open spec fn variants_view(s: Seq<Variant>) -> Seq<VariantV> {
    s.map_values(|v: Variant| v@)
}

/// View of a sequence of annotations.
pub open spec fn attrs_view(s: Seq<Attr>) -> Seq<AttrV> {
    s.map_values(|a: Attr| a@)
}

} // verus!
