//! Emission of the generated source text.
//!
//! `match_impl` renders the match expression of the fallible conversion:
//! one arm per table entry in table order — so the first entry carrying a
//! duplicated discriminant wins — and a catch-all arm returning the
//! unmatched input as the error. `derive_try_from` and `derive_into`
//! wrap the resolver, the extractor and the emission into the two
//! generators, each yielding the complete generated item or the error that
//! aborted it, never partial output.

use vstd::prelude::*;
use vstd::string::StringExecFns;

use crate::errors::{GenError, GenErrorV};
use crate::extract::{get_enum_data, spec_extract};
use crate::model::{entries_view, Declaration, DeclarationV, VariantEntry, VariantEntryV};
use crate::render::{render_int, render_value};
use crate::resolver::{find_repr_type, spec_find_repr, text_result_view};

verus! {

/// The text of one match arm: an entry's discriminant numeral on the left,
/// the named variant on the right.
pub open spec fn arm_text(enum_name: Seq<char>, e: VariantEntryV) -> Seq<char> {
    "            "@ + render_int(e.value) + " => Ok("@ + enum_name + "::"@ + e.name + "),\n"@
}

/// The text of the table's match arms, one per entry in table order.
pub open spec fn arms_text(enum_name: Seq<char>, t: Seq<VariantEntryV>) -> Seq<char>
    decreases t.len(),
{
    if t.len() == 0 {
        Seq::empty()
    } else {
        arms_text(enum_name, t.drop_last()) + arm_text(enum_name, t.last())
    }
}

/// The text of the whole match expression: the entries' arms in table
/// order, then the catch-all arm returning the input as the error.
pub open spec fn match_text(enum_name: Seq<char>, t: Seq<VariantEntryV>) -> Seq<char> {
    "        match val {\n"@ + arms_text(enum_name, t)
        + "            unexpected => Err(unexpected),\n        }\n"@
}

/// The text of the generated fallible conversion.
pub open spec fn try_from_text(enum_name: Seq<char>, repr: Seq<char>, t: Seq<VariantEntryV>) -> Seq<
    char,
> {
    "impl core::convert::TryFrom<"@ + repr + "> for "@ + enum_name + " {\n    type Error = "@
        + repr + ";\n\n    fn try_from(val: "@ + repr + ") -> Result<Self, "@ + repr + "> {\n"@
        + match_text(enum_name, t) + "    }\n}\n"@
}

/// The text of the generated total conversion: a direct reinterpretation
/// of the enumeration value in its declared layout.
pub open spec fn into_text(enum_name: Seq<char>, repr: Seq<char>) -> Seq<char> {
    "impl core::convert::Into<"@ + repr + "> for "@ + enum_name + " {\n    fn into(self) -> "@
        + repr + " {\n        self as "@ + repr + "\n    }\n}\n"@
}

/// What generating the fallible conversion yields for a declaration: the
/// generated item, or the first error of resolving the representation type
/// and then extracting the variant table.
pub open spec fn spec_derive_try_from(d: DeclarationV) -> Result<Seq<char>, GenErrorV> {
    match spec_find_repr(d.attrs) {
        Err(e) => Err(e),
        Ok(repr) => match spec_extract(d.data) {
            Err(e) => Err(e),
            Ok(t) => Ok(try_from_text(d.name, repr, t)),
        },
    }
}

/// What generating the total conversion yields for a declaration: the
/// generated item, or the error of resolving the representation type. The
/// declaration's shape is not consulted.
pub open spec fn spec_derive_into(d: DeclarationV) -> Result<Seq<char>, GenErrorV> {
    match spec_find_repr(d.attrs) {
        Err(e) => Err(e),
        Ok(repr) => Ok(into_text(d.name, repr)),
    }
}

/// Render the match expression of the fallible conversion for a variant
/// table: the entries' arms in table order, then the catch-all arm.
#[verifier::loop_isolation(false)]
pub fn match_impl(enum_name: &String, table: &Vec<VariantEntry>) -> (s: String)
    ensures
        s@ == match_text(enum_name@, entries_view(table@)),
{
    let ghost t: Seq<VariantEntryV> = entries_view(table@);
    let mut s = String::from_str("        match val {\n");
    let n: usize = table.len();
    let mut i: usize = 0;
    proof {
        assert(arms_text(enum_name@, t.subrange(0, 0)) =~= Seq::<char>::empty());
        assert(s@ =~= "        match val {\n"@ + arms_text(enum_name@, t.subrange(0, 0)));
    }
    while i < n
        invariant
            0 <= i <= n,
            s@ == "        match val {\n"@ + arms_text(enum_name@, t.subrange(0, i as int)),
        decreases n - i,
    {
        let e = &table[i];
        proof {
            assert(t[i as int] == e@);
        }
        let value = render_value(e.value);
        s.append("            ");
        s.append(value.as_str());
        s.append(" => Ok(");
        s.append(enum_name.as_str());
        s.append("::");
        s.append(e.name.as_str());
        s.append("),\n");
        proof {
            let prefix = t.subrange(0, i as int);
            let grown = t.subrange(0, i as int + 1);
            assert(grown.drop_last() =~= prefix);
            assert(grown.last() == t[i as int]);
            assert(s@ =~= "        match val {\n"@ + arms_text(enum_name@, grown));
        }
        i = i + 1;
    }
    proof {
        assert(t.subrange(0, n as int) =~= t);
    }
    s.append("            unexpected => Err(unexpected),\n        }\n");
    s
}

/// Generate the fallible conversion for a declaration: resolve its
/// representation type, extract its variant table, and emit the item — or
/// abort with the first error, emitting nothing.
pub fn derive_try_from(decl: &Declaration) -> (r: Result<String, GenError>)
    ensures
        text_result_view(r) == spec_derive_try_from(decl@),
{
    let reprtype = match find_repr_type(&decl.attrs) {
        Ok(s) => s,
        Err(e) => {
            return Err(e);
        },
    };
    let table = match get_enum_data(&decl.data) {
        Ok(t) => t,
        Err(e) => {
            return Err(e);
        },
    };
    let match_expr = match_impl(&decl.name, &table);
    let mut s = String::from_str("impl core::convert::TryFrom<");
    s.append(reprtype.as_str());
    s.append("> for ");
    s.append(decl.name.as_str());
    s.append(" {\n    type Error = ");
    s.append(reprtype.as_str());
    s.append(";\n\n    fn try_from(val: ");
    s.append(reprtype.as_str());
    s.append(") -> Result<Self, ");
    s.append(reprtype.as_str());
    s.append("> {\n");
    s.append(match_expr.as_str());
    s.append("    }\n}\n");
    proof {
        assert(s@ =~= try_from_text(decl@.name, reprtype@, entries_view(table@)));
    }
    Ok(s)
}

/// Generate the total conversion for a declaration: resolve its
/// representation type and emit the item — or abort with the resolver's
/// error, emitting nothing.
pub fn derive_into(decl: &Declaration) -> (r: Result<String, GenError>)
    ensures
        text_result_view(r) == spec_derive_into(decl@),
{
    let reprtype = match find_repr_type(&decl.attrs) {
        Ok(s) => s,
        Err(e) => {
            return Err(e);
        },
    };
    let mut s = String::from_str("impl core::convert::Into<");
    s.append(reprtype.as_str());
    s.append("> for ");
    s.append(decl.name.as_str());
    s.append(" {\n    fn into(self) -> ");
    s.append(reprtype.as_str());
    s.append(" {\n        self as ");
    s.append(reprtype.as_str());
    s.append("\n    }\n}\n");
    proof {
        assert(s@ =~= into_text(decl@.name, reprtype@));
    }
    Ok(s)
}

} // verus!
