//! Representation-type tags: the fixed set of primitive integer layouts an
//! enumeration may declare, and the range of discriminant values each admits.

use vstd::prelude::*;
use vstd::string::StringExecFns;

verus! {

/// One of the fixed integer width/signedness layouts an enumeration can be
/// declared with.
#[derive(Clone, Copy, Debug, PartialEq, Eq, Structural)]
pub enum ReprTag {
    I8,
    I16,
    I32,
    I64,
    U8,
    U16,
    U32,
    U64,
}

/// The smallest value representable in the layout `tag`.
pub open spec fn tag_min(tag: ReprTag) -> int {
    match tag {
        ReprTag::I8 => i8::MIN as int,
        ReprTag::I16 => i16::MIN as int,
        ReprTag::I32 => i32::MIN as int,
        ReprTag::I64 => i64::MIN as int,
        ReprTag::U8 => 0,
        ReprTag::U16 => 0,
        ReprTag::U32 => 0,
        ReprTag::U64 => 0,
    }
}

/// The largest value representable in the layout `tag`.
pub open spec fn tag_max(tag: ReprTag) -> int {
    match tag {
        ReprTag::I8 => i8::MAX as int,
        ReprTag::I16 => i16::MAX as int,
        ReprTag::I32 => i32::MAX as int,
        ReprTag::I64 => i64::MAX as int,
        ReprTag::U8 => u8::MAX as int,
        ReprTag::U16 => u16::MAX as int,
        ReprTag::U32 => u32::MAX as int,
        ReprTag::U64 => u64::MAX as int,
    }
}

/// Whether the value `v` is representable in the layout `tag`.
pub open spec fn in_range(tag: ReprTag, v: int) -> bool {
    tag_min(tag) <= v <= tag_max(tag)
}

/// Whether the value `v` is representable in the layout `tag`.
pub fn value_in_range(tag: ReprTag, v: i128) -> (r: bool)
    ensures
        r == in_range(tag, v as int),
{
    match tag {
        ReprTag::I8 => i8::MIN as i128 <= v && v <= i8::MAX as i128,
        ReprTag::I16 => i16::MIN as i128 <= v && v <= i16::MAX as i128,
        ReprTag::I32 => i32::MIN as i128 <= v && v <= i32::MAX as i128,
        ReprTag::I64 => i64::MIN as i128 <= v && v <= i64::MAX as i128,
        ReprTag::U8 => 0 <= v && v <= u8::MAX as i128,
        ReprTag::U16 => 0 <= v && v <= u16::MAX as i128,
        ReprTag::U32 => 0 <= v && v <= u32::MAX as i128,
        ReprTag::U64 => 0 <= v && v <= u64::MAX as i128,
    }
}

/// The tag a resolved representation-type identifier denotes, when it
/// names one of the fixed primitive integer layouts.
pub open spec fn spec_tag_of_ident(s: Seq<char>) -> Option<ReprTag> {
    if s == "i8"@ {
        Some(ReprTag::I8)
    } else if s == "i16"@ {
        Some(ReprTag::I16)
    } else if s == "i32"@ {
        Some(ReprTag::I32)
    } else if s == "i64"@ {
        Some(ReprTag::I64)
    } else if s == "u8"@ {
        Some(ReprTag::U8)
    } else if s == "u16"@ {
        Some(ReprTag::U16)
    } else if s == "u32"@ {
        Some(ReprTag::U32)
    } else if s == "u64"@ {
        Some(ReprTag::U64)
    } else {
        None
    }
}

/// Map a resolved representation-type identifier to its layout tag, or
/// `None` for an identifier outside the fixed set.
pub fn tag_of_ident(s: &String) -> (r: Option<ReprTag>)
    ensures
        r == spec_tag_of_ident(s@),
{
    if *s == String::from_str("i8") {
        Some(ReprTag::I8)
    } else if *s == String::from_str("i16") {
        Some(ReprTag::I16)
    } else if *s == String::from_str("i32") {
        Some(ReprTag::I32)
    } else if *s == String::from_str("i64") {
        Some(ReprTag::I64)
    } else if *s == String::from_str("u8") {
        Some(ReprTag::U8)
    } else if *s == String::from_str("u16") {
        Some(ReprTag::U16)
    } else if *s == String::from_str("u32") {
        Some(ReprTag::U32)
    } else if *s == String::from_str("u64") {
        Some(ReprTag::U64)
    } else {
        None
    }
}

} // verus!
