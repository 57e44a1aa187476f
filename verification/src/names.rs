//! The names by which a Lua description spells the syntax tree's enumerations.

use vstd::prelude::*;
use crate::ast::{BinOpKind, BindingMode, FloatTy, FnKind, IntTy, LitIntType, LitKind, LitKindV, Mutability, UintTy, UnOp};

verus! {

/// Whether `s` reads `lit`.
pub fn reads(s: &String, lit: &str) -> (b: bool)
    ensures
        b == (s@ == lit@),
{
    let l: String = lit.to_owned();
    *s == l
}

/// The function kind named `s`; any other name keeps `old`.
pub open spec fn fn_kind_named(s: Seq<char>, old: FnKind) -> FnKind {
    if s == "Normal"@ {
        FnKind::Normal
    } else if s == "ImplMethod"@ {
        FnKind::ImplMethod
    } else if s == "TraitMethod"@ {
        FnKind::TraitMethod
    } else if s == "Foreign"@ {
        FnKind::Foreign
    } else {
        old
    }
}

pub fn fn_kind_of(s: &String, old: FnKind) -> (k: FnKind)
    ensures
        k == fn_kind_named(s@, old),
{
    if reads(s, "Normal") {
        FnKind::Normal
    } else if reads(s, "ImplMethod") {
        FnKind::ImplMethod
    } else if reads(s, "TraitMethod") {
        FnKind::TraitMethod
    } else if reads(s, "Foreign") {
        FnKind::Foreign
    } else {
        old
    }
}

/// The binding mode named `s`; any other name keeps `old`.
pub open spec fn binding_named(s: Seq<char>, old: BindingMode) -> BindingMode {
    if s == "ByRefImmutable"@ {
        BindingMode::ByRef(Mutability::Immutable)
    } else if s == "ByRefMutable"@ {
        BindingMode::ByRef(Mutability::Mutable)
    } else if s == "ByValueImmutable"@ {
        BindingMode::ByValue(Mutability::Immutable)
    } else if s == "ByValueMutable"@ {
        BindingMode::ByValue(Mutability::Mutable)
    } else {
        old
    }
}

pub fn binding_of(s: &String, old: BindingMode) -> (b: BindingMode)
    ensures
        b == binding_named(s@, old),
{
    if reads(s, "ByRefImmutable") {
        BindingMode::ByRef(Mutability::Immutable)
    } else if reads(s, "ByRefMutable") {
        BindingMode::ByRef(Mutability::Mutable)
    } else if reads(s, "ByValueImmutable") {
        BindingMode::ByValue(Mutability::Immutable)
    } else if reads(s, "ByValueMutable") {
        BindingMode::ByValue(Mutability::Mutable)
    } else {
        old
    }
}

/// The binary operator spelled `s`, if `s` spells one.
pub open spec fn binop_named(s: Seq<char>) -> Option<BinOpKind> {
    if s == "+"@ {
        Some(BinOpKind::Add)
    } else if s == "-"@ {
        Some(BinOpKind::Sub)
    } else if s == "*"@ {
        Some(BinOpKind::Mul)
    } else if s == "/"@ {
        Some(BinOpKind::Div)
    } else if s == "%"@ {
        Some(BinOpKind::Rem)
    } else if s == "&&"@ {
        Some(BinOpKind::And)
    } else if s == "||"@ {
        Some(BinOpKind::Or)
    } else if s == "^"@ {
        Some(BinOpKind::BitXor)
    } else if s == "&"@ {
        Some(BinOpKind::BitAnd)
    } else if s == "|"@ {
        Some(BinOpKind::BitOr)
    } else if s == "<<"@ {
        Some(BinOpKind::Shl)
    } else if s == ">>"@ {
        Some(BinOpKind::Shr)
    } else if s == "=="@ {
        Some(BinOpKind::Eq)
    } else if s == "<"@ {
        Some(BinOpKind::Lt)
    } else if s == "<="@ {
        Some(BinOpKind::Le)
    } else if s == "!="@ {
        Some(BinOpKind::Ne)
    } else if s == ">="@ {
        Some(BinOpKind::Ge)
    } else if s == ">"@ {
        Some(BinOpKind::Gt)
    } else {
        None
    }
}

pub fn binop_of(s: &String) -> (op: Option<BinOpKind>)
    ensures
        op == binop_named(s@),
{
    if reads(s, "+") {
        Some(BinOpKind::Add)
    } else if reads(s, "-") {
        Some(BinOpKind::Sub)
    } else if reads(s, "*") {
        Some(BinOpKind::Mul)
    } else if reads(s, "/") {
        Some(BinOpKind::Div)
    } else if reads(s, "%") {
        Some(BinOpKind::Rem)
    } else if reads(s, "&&") {
        Some(BinOpKind::And)
    } else if reads(s, "||") {
        Some(BinOpKind::Or)
    } else if reads(s, "^") {
        Some(BinOpKind::BitXor)
    } else if reads(s, "&") {
        Some(BinOpKind::BitAnd)
    } else if reads(s, "|") {
        Some(BinOpKind::BitOr)
    } else if reads(s, "<<") {
        Some(BinOpKind::Shl)
    } else if reads(s, ">>") {
        Some(BinOpKind::Shr)
    } else if reads(s, "==") {
        Some(BinOpKind::Eq)
    } else if reads(s, "<") {
        Some(BinOpKind::Lt)
    } else if reads(s, "<=") {
        Some(BinOpKind::Le)
    } else if reads(s, "!=") {
        Some(BinOpKind::Ne)
    } else if reads(s, ">=") {
        Some(BinOpKind::Ge)
    } else if reads(s, ">") {
        Some(BinOpKind::Gt)
    } else {
        None
    }
}

/// The unary operator spelled `s`, if `s` spells one.
pub open spec fn unop_named(s: Seq<char>) -> Option<UnOp> {
    if s == "*"@ {
        Some(UnOp::Deref)
    } else if s == "!"@ {
        Some(UnOp::Not)
    } else if s == "-"@ {
        Some(UnOp::Neg)
    } else {
        None
    }
}

pub fn unop_of(s: &String) -> (op: Option<UnOp>)
    ensures
        op == unop_named(s@),
{
    if reads(s, "*") {
        Some(UnOp::Deref)
    } else if reads(s, "!") {
        Some(UnOp::Not)
    } else if reads(s, "-") {
        Some(UnOp::Neg)
    } else {
        None
    }
}

/// The type of an integer literal with the suffix `s`, if `s` is a valid one;
/// no suffix makes the literal unsuffixed.
pub open spec fn int_suffix_named(s: Option<Seq<char>>) -> Option<LitIntType> {
    match s {
        None => Some(LitIntType::Unsuffixed),
        Some(s) => if s == "u8"@ {
            Some(LitIntType::Unsigned(UintTy::U8))
        } else if s == "u16"@ {
            Some(LitIntType::Unsigned(UintTy::U16))
        } else if s == "u32"@ {
            Some(LitIntType::Unsigned(UintTy::U32))
        } else if s == "u64"@ {
            Some(LitIntType::Unsigned(UintTy::U64))
        } else if s == "u128"@ {
            Some(LitIntType::Unsigned(UintTy::U128))
        } else if s == "usize"@ {
            Some(LitIntType::Unsigned(UintTy::Usize))
        } else if s == "i8"@ {
            Some(LitIntType::Signed(IntTy::I8))
        } else if s == "i16"@ {
            Some(LitIntType::Signed(IntTy::I16))
        } else if s == "i32"@ {
            Some(LitIntType::Signed(IntTy::I32))
        } else if s == "i64"@ {
            Some(LitIntType::Signed(IntTy::I64))
        } else if s == "i128"@ {
            Some(LitIntType::Signed(IntTy::I128))
        } else if s == "isize"@ {
            Some(LitIntType::Signed(IntTy::Isize))
        } else {
            None
        },
    }
}

pub fn int_suffix_of(s: &Option<String>) -> (t: Option<LitIntType>)
    ensures
        t == int_suffix_named(crate::lua::opt_string_view(*s)),
{
    match s {
        None => Some(LitIntType::Unsuffixed),
        Some(s) => if reads(s, "u8") {
            Some(LitIntType::Unsigned(UintTy::U8))
        } else if reads(s, "u16") {
            Some(LitIntType::Unsigned(UintTy::U16))
        } else if reads(s, "u32") {
            Some(LitIntType::Unsigned(UintTy::U32))
        } else if reads(s, "u64") {
            Some(LitIntType::Unsigned(UintTy::U64))
        } else if reads(s, "u128") {
            Some(LitIntType::Unsigned(UintTy::U128))
        } else if reads(s, "usize") {
            Some(LitIntType::Unsigned(UintTy::Usize))
        } else if reads(s, "i8") {
            Some(LitIntType::Signed(IntTy::I8))
        } else if reads(s, "i16") {
            Some(LitIntType::Signed(IntTy::I16))
        } else if reads(s, "i32") {
            Some(LitIntType::Signed(IntTy::I32))
        } else if reads(s, "i64") {
            Some(LitIntType::Signed(IntTy::I64))
        } else if reads(s, "i128") {
            Some(LitIntType::Signed(IntTy::I128))
        } else if reads(s, "isize") {
            Some(LitIntType::Signed(IntTy::Isize))
        } else {
            None
        },
    }
}

/// The float literal named by the symbol `sym` with the suffix `s`, if `s` is a
/// valid float suffix; no suffix makes the literal unsuffixed.
pub open spec fn float_lit_named(sym: Seq<char>, s: Option<Seq<char>>) -> Option<LitKindV> {
    match s {
        None => Some(LitKindV::FloatUnsuffixed(sym)),
        Some(s) => if s == "f32"@ {
            Some(LitKindV::Float(sym, FloatTy::F32))
        } else if s == "f64"@ {
            Some(LitKindV::Float(sym, FloatTy::F64))
        } else {
            None
        },
    }
}

pub fn float_lit_of(sym: String, s: &Option<String>) -> (l: Option<LitKind>)
    ensures
        match l {
            Some(l) => float_lit_named(sym@, crate::lua::opt_string_view(*s)) == Some(l@),
            None => float_lit_named(sym@, crate::lua::opt_string_view(*s)) is None,
        },
{
    match s {
        None => Some(LitKind::FloatUnsuffixed(sym)),
        Some(s) => if reads(s, "f32") {
            Some(LitKind::Float(sym, FloatTy::F32))
        } else if reads(s, "f64") {
            Some(LitKind::Float(sym, FloatTy::F64))
        } else {
            None
        },
    }
}

} // verus!
