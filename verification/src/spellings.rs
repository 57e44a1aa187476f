//! What each merge makes of the names a description spells: literal suffixes,
//! operators, binding modes and function kinds, each by its own name.

use vstd::prelude::*;
use crate::ast::{
    dummy_span, BinOpKind, BindingMode, ExprV, FloatTy, FnKind, IntTy, LitIntType, LitKindV,
    Mutability, PatV, UintTy, UnOp,
};
use crate::expr::{merge_expr, new_expr};
use crate::lua::{
    value_to_opt_string, value_to_string, value_to_table, LuaErrorV, LuaTable, LuaValue,
};
use crate::merge::{merge_fn_like, merge_pat};
use crate::outcome::{Outcome, Step};

verus! {

/// The letters that tell the kinds of expression description apart.
pub proof fn lemma_expr_kind_spellings()
    ensures
        "Path"@.len() == 4 && "Path"@[0] == 'P',
        "Lit"@.len() == 3 && "Lit"@[0] == 'L',
        "Binary"@.len() == 6 && "Binary"@[0] == 'B',
        "AssignOp"@.len() == 8 && "AssignOp"@[0] == 'A',
        "Assign"@.len() == 6 && "Assign"@[0] == 'A',
        "Array"@.len() == 5 && "Array"@[0] == 'A',
        "Index"@.len() == 5 && "Index"@[0] == 'I',
        "Unary"@.len() == 5 && "Unary"@[0] == 'U',
        "MethodCall"@.len() == 10 && "MethodCall"@[0] == 'M',
        "Field"@.len() == 5 && "Field"@[0] == 'F',
        "Ret"@.len() == 3 && "Ret"@[0] == 'R',
{
    reveal_strlit("Path");
    reveal_strlit("Lit");
    reveal_strlit("Binary");
    reveal_strlit("AssignOp");
    reveal_strlit("Assign");
    reveal_strlit("Array");
    reveal_strlit("Index");
    reveal_strlit("Unary");
    reveal_strlit("MethodCall");
    reveal_strlit("Field");
    reveal_strlit("Ret");
}

/// The letters that tell the integer suffixes apart.
pub proof fn lemma_int_suffix_spellings()
    ensures
        "i8"@.len() == 2 && "i8"@[0] == 'i' && "i8"@[1] == '8',
        "i16"@.len() == 3 && "i16"@[0] == 'i' && "i16"@[1] == '1',
        "i32"@.len() == 3 && "i32"@[0] == 'i' && "i32"@[1] == '3',
        "i64"@.len() == 3 && "i64"@[0] == 'i' && "i64"@[1] == '6',
        "i128"@.len() == 4 && "i128"@[0] == 'i' && "i128"@[1] == '1',
        "isize"@.len() == 5 && "isize"@[0] == 'i' && "isize"@[1] == 's',
        "u8"@.len() == 2 && "u8"@[0] == 'u' && "u8"@[1] == '8',
        "u16"@.len() == 3 && "u16"@[0] == 'u' && "u16"@[1] == '1',
        "u32"@.len() == 3 && "u32"@[0] == 'u' && "u32"@[1] == '3',
        "u64"@.len() == 3 && "u64"@[0] == 'u' && "u64"@[1] == '6',
        "u128"@.len() == 4 && "u128"@[0] == 'u' && "u128"@[1] == '1',
        "usize"@.len() == 5 && "usize"@[0] == 'u' && "usize"@[1] == 's',
{
    reveal_strlit("i8");
    reveal_strlit("i16");
    reveal_strlit("i32");
    reveal_strlit("i64");
    reveal_strlit("i128");
    reveal_strlit("isize");
    reveal_strlit("u8");
    reveal_strlit("u16");
    reveal_strlit("u32");
    reveal_strlit("u64");
    reveal_strlit("u128");
    reveal_strlit("usize");
}

/// The letters that tell the float suffixes apart.
pub proof fn lemma_float_suffix_spellings()
    ensures
        "f32"@.len() == 3 && "f32"@[0] == 'f' && "f32"@[1] == '3',
        "f64"@.len() == 3 && "f64"@[0] == 'f' && "f64"@[1] == '6',
{
    reveal_strlit("f32");
    reveal_strlit("f64");
}

/// The letters that tell the binary operators apart.
pub proof fn lemma_binop_spellings()
    ensures
        "+"@.len() == 1 && "+"@[0] == '+',
        "-"@.len() == 1 && "-"@[0] == '-',
        "*"@.len() == 1 && "*"@[0] == '*',
        "/"@.len() == 1 && "/"@[0] == '/',
        "%"@.len() == 1 && "%"@[0] == '%',
        "&&"@.len() == 2 && "&&"@[0] == '&' && "&&"@[1] == '&',
        "||"@.len() == 2 && "||"@[0] == '|' && "||"@[1] == '|',
        "^"@.len() == 1 && "^"@[0] == '^',
        "&"@.len() == 1 && "&"@[0] == '&',
        "|"@.len() == 1 && "|"@[0] == '|',
        "<<"@.len() == 2 && "<<"@[0] == '<' && "<<"@[1] == '<',
        ">>"@.len() == 2 && ">>"@[0] == '>' && ">>"@[1] == '>',
        "=="@.len() == 2 && "=="@[0] == '=' && "=="@[1] == '=',
        "<"@.len() == 1 && "<"@[0] == '<',
        "<="@.len() == 2 && "<="@[0] == '<' && "<="@[1] == '=',
        "!="@.len() == 2 && "!="@[0] == '!' && "!="@[1] == '=',
        ">="@.len() == 2 && ">="@[0] == '>' && ">="@[1] == '=',
        ">"@.len() == 1 && ">"@[0] == '>',
{
    reveal_strlit("+");
    reveal_strlit("-");
    reveal_strlit("*");
    reveal_strlit("/");
    reveal_strlit("%");
    reveal_strlit("&&");
    reveal_strlit("||");
    reveal_strlit("^");
    reveal_strlit("&");
    reveal_strlit("|");
    reveal_strlit("<<");
    reveal_strlit(">>");
    reveal_strlit("==");
    reveal_strlit("<");
    reveal_strlit("<=");
    reveal_strlit("!=");
    reveal_strlit(">=");
    reveal_strlit(">");
}

/// The letters that tell the unary operators apart.
pub proof fn lemma_unop_spellings()
    ensures
        "*"@.len() == 1 && "*"@[0] == '*',
        "!"@.len() == 1 && "!"@[0] == '!',
        "-"@.len() == 1 && "-"@[0] == '-',
{
    reveal_strlit("*");
    reveal_strlit("!");
    reveal_strlit("-");
}

/// The letters that tell the binding modes apart.
pub proof fn lemma_binding_spellings()
    ensures
        "ByRefImmutable"@.len() == 14 && "ByRefImmutable"@[2] == 'R',
        "ByRefMutable"@.len() == 12 && "ByRefMutable"@[2] == 'R',
        "ByValueImmutable"@.len() == 16 && "ByValueImmutable"@[2] == 'V',
        "ByValueMutable"@.len() == 14 && "ByValueMutable"@[2] == 'V',
{
    reveal_strlit("ByRefImmutable");
    reveal_strlit("ByRefMutable");
    reveal_strlit("ByValueImmutable");
    reveal_strlit("ByValueMutable");
}

/// The letters that tell the function kinds apart.
pub proof fn lemma_fn_kind_spellings()
    ensures
        "Normal"@.len() == 6 && "Normal"@[0] == 'N',
        "ImplMethod"@.len() == 10 && "ImplMethod"@[0] == 'I',
        "TraitMethod"@.len() == 11 && "TraitMethod"@[0] == 'T',
        "Foreign"@.len() == 7 && "Foreign"@[0] == 'F',
{
    reveal_strlit("Normal");
    reveal_strlit("ImplMethod");
    reveal_strlit("TraitMethod");
    reveal_strlit("Foreign");
}

/// The Rust spelling of an integer literal's suffix.
pub open spec fn int_type_name(t: LitIntType) -> Seq<char> {
    match t {
        LitIntType::Signed(IntTy::I8) => "i8"@,
        LitIntType::Signed(IntTy::I16) => "i16"@,
        LitIntType::Signed(IntTy::I32) => "i32"@,
        LitIntType::Signed(IntTy::I64) => "i64"@,
        LitIntType::Signed(IntTy::I128) => "i128"@,
        LitIntType::Signed(IntTy::Isize) => "isize"@,
        LitIntType::Unsigned(UintTy::U8) => "u8"@,
        LitIntType::Unsigned(UintTy::U16) => "u16"@,
        LitIntType::Unsigned(UintTy::U32) => "u32"@,
        LitIntType::Unsigned(UintTy::U64) => "u64"@,
        LitIntType::Unsigned(UintTy::U128) => "u128"@,
        LitIntType::Unsigned(UintTy::Usize) => "usize"@,
        LitIntType::Unsuffixed => Seq::empty(),
    }
}

/// The Rust spelling of a float literal's suffix.
pub open spec fn float_type_name(t: FloatTy) -> Seq<char> {
    match t {
        FloatTy::F32 => "f32"@,
        FloatTy::F64 => "f64"@,
    }
}

/// The Rust spelling of a binary operator.
pub open spec fn binop_name(k: BinOpKind) -> Seq<char> {
    match k {
        BinOpKind::Add => "+"@,
        BinOpKind::Sub => "-"@,
        BinOpKind::Mul => "*"@,
        BinOpKind::Div => "/"@,
        BinOpKind::Rem => "%"@,
        BinOpKind::And => "&&"@,
        BinOpKind::Or => "||"@,
        BinOpKind::BitXor => "^"@,
        BinOpKind::BitAnd => "&"@,
        BinOpKind::BitOr => "|"@,
        BinOpKind::Shl => "<<"@,
        BinOpKind::Shr => ">>"@,
        BinOpKind::Eq => "=="@,
        BinOpKind::Lt => "<"@,
        BinOpKind::Le => "<="@,
        BinOpKind::Ne => "!="@,
        BinOpKind::Ge => ">="@,
        BinOpKind::Gt => ">"@,
    }
}

/// The Rust spelling of a unary operator.
pub open spec fn unop_name(u: UnOp) -> Seq<char> {
    match u {
        UnOp::Deref => "*"@,
        UnOp::Not => "!"@,
        UnOp::Neg => "-"@,
    }
}

/// The name of a binding mode: by reference or by value, then mutable or not.
pub open spec fn binding_name(b: BindingMode) -> Seq<char> {
    match b {
        BindingMode::ByRef(Mutability::Immutable) => "ByRefImmutable"@,
        BindingMode::ByRef(Mutability::Mutable) => "ByRefMutable"@,
        BindingMode::ByValue(Mutability::Immutable) => "ByValueImmutable"@,
        BindingMode::ByValue(Mutability::Mutable) => "ByValueMutable"@,
    }
}

/// The name of a function kind.
pub open spec fn fn_kind_name(k: FnKind) -> Seq<char> {
    match k {
        FnKind::Normal => "Normal"@,
        FnKind::ImplMethod => "ImplMethod"@,
        FnKind::TraitMethod => "TraitMethod"@,
        FnKind::Foreign => "Foreign"@,
    }
}

/// An integer literal whose suffix is spelled as an integer type has that type;
/// one without a suffix is unsuffixed. The value is the Lua integer, whatever
/// the expression was before.
pub proof fn law_int_literal(e: ExprV, t: LuaTable, ty: LitIntType)
    requires
        value_to_string(t.get("kind"@)) == Ok::<Seq<char>, LuaErrorV>("Lit"@),
        t.get("value"@) is Integer,
        value_to_opt_string(t.get("suffix"@)) == Ok::<Option<Seq<char>>, LuaErrorV>(
            if ty is Unsuffixed {
                None
            } else {
                Some(int_type_name(ty))
            },
        ),
    ensures
        t.get("value"@) matches LuaValue::Integer(i, _) && merge_expr(e, t) == Outcome::Finished(
            ExprV::Lit(LitKindV::Int(i as u128, ty), dummy_span()),
        ),
{
    lemma_expr_kind_spellings();
    lemma_int_suffix_spellings();
}

/// A float literal whose suffix is spelled as a float type has that type, and
/// one without a suffix is unsuffixed; its symbol is the number's text.
pub proof fn law_float_literal(e: ExprV, t: LuaTable, ty: Option<FloatTy>)
    requires
        value_to_string(t.get("kind"@)) == Ok::<Seq<char>, LuaErrorV>("Lit"@),
        t.get("value"@) is Number,
        value_to_opt_string(t.get("suffix"@)) == Ok::<Option<Seq<char>>, LuaErrorV>(
            match ty {
                Some(f) => Some(float_type_name(f)),
                None => None,
            },
        ),
    ensures
        t.get("value"@) matches LuaValue::Number(text, _) && merge_expr(e, t) == Outcome::Finished(
            ExprV::Lit(
                match ty {
                    Some(f) => LitKindV::Float(text@, f),
                    None => LitKindV::FloatUnsuffixed(text@),
                },
                dummy_span(),
            ),
        ),
{
    lemma_expr_kind_spellings();
    lemma_float_suffix_spellings();
}

/// A boolean literal is that boolean, whatever suffix the description gives.
pub proof fn law_bool_literal(e: ExprV, t: LuaTable)
    requires
        value_to_string(t.get("kind"@)) == Ok::<Seq<char>, LuaErrorV>("Lit"@),
        t.get("value"@) is Boolean,
        value_to_opt_string(t.get("suffix"@)) is Ok,
    ensures
        t.get("value"@) matches LuaValue::Boolean(b) && merge_expr(e, t) == Outcome::Finished(
            ExprV::Lit(LitKindV::Bool(b), dummy_span()),
        ),
{
    lemma_expr_kind_spellings();
}

/// A `Binary` or `AssignOp` description whose operator is spelled as a binary
/// operator builds that operator over the expressions its `lhs` and `rhs`
/// build, in that order; an `Assign` description without an operator builds
/// the assignment of `rhs` to `lhs`.
pub proof fn law_binary_operator(e: ExprV, t: LuaTable, kind: Seq<char>, k: BinOpKind)
    requires
        kind == "Binary"@ || kind == "AssignOp"@ || kind == "Assign"@,
        value_to_string(t.get("kind"@)) == Ok::<Seq<char>, LuaErrorV>(kind),
        value_to_opt_string(t.get("op"@)) == Ok::<Option<Seq<char>>, LuaErrorV>(
            if kind == "Assign"@ {
                None
            } else {
                Some(binop_name(k))
            },
        ),
    ensures
        match (value_to_table(t.get("lhs"@)), value_to_table(t.get("rhs"@))) {
            (Ok(lt), Ok(rt)) => match (new_expr(lt), new_expr(rt)) {
                (Step::Value(l), Step::Value(r)) => merge_expr(e, t) == Outcome::Finished(
                    if kind == "Binary"@ {
                        ExprV::Binary(k, dummy_span(), Box::new(l), Box::new(r))
                    } else if kind == "AssignOp"@ {
                        ExprV::AssignOp(k, dummy_span(), Box::new(l), Box::new(r))
                    } else {
                        ExprV::Assign(Box::new(l), Box::new(r))
                    },
                ),
                _ => true,
            },
            _ => true,
        },
{
    lemma_expr_kind_spellings();
    lemma_binop_spellings();
}

/// A `Unary` description whose operator is spelled as a unary operator builds
/// that operator over the expression its `expr` builds.
pub proof fn law_unary_operator(e: ExprV, t: LuaTable, u: UnOp)
    requires
        value_to_string(t.get("kind"@)) == Ok::<Seq<char>, LuaErrorV>("Unary"@),
        value_to_string(t.get("op"@)) == Ok::<Seq<char>, LuaErrorV>(unop_name(u)),
    ensures
        match value_to_table(t.get("expr"@)) {
            Ok(et) => match new_expr(et) {
                Step::Value(x) => merge_expr(e, t) == Outcome::Finished(ExprV::Unary(u, Box::new(x))),
                _ => true,
            },
            _ => true,
        },
{
    lemma_expr_kind_spellings();
    lemma_unop_spellings();
    assert(crate::names::unop_named(unop_name(u)) == Some(u));
}

/// A pattern description whose binding is spelled as a binding mode gives the
/// identifier pattern that mode, whatever its mode was, and the name read.
pub proof fn law_pattern_binding(b: BindingMode, name: Seq<char>, t: LuaTable, mode: BindingMode)
    requires
        value_to_string(t.get("binding"@)) == Ok::<Seq<char>, LuaErrorV>(binding_name(mode)),
    ensures
        value_to_string(t.get("ident"@)) matches Ok(n) ==> merge_pat(PatV::Ident(b, name), t)
            == Outcome::Finished(PatV::Ident(mode, n)),
        value_to_string(t.get("ident"@)) matches Err(err) ==> merge_pat(PatV::Ident(b, name), t)
            == Outcome::Failed(PatV::Ident(mode, name), err),
{
    lemma_binding_spellings();
}

/// A pattern description whose binding names no binding mode keeps the mode.
pub proof fn law_pattern_unknown_binding(b: BindingMode, name: Seq<char>, t: LuaTable)
    requires
        value_to_string(t.get("binding"@)) matches Ok(s) && forall|m: BindingMode|
            s != #[trigger] binding_name(m),
    ensures
        value_to_string(t.get("ident"@)) matches Ok(n) ==> merge_pat(PatV::Ident(b, name), t)
            == Outcome::Finished(PatV::Ident(b, n)),
{
    assert(binding_name(BindingMode::ByRef(Mutability::Immutable)) == "ByRefImmutable"@);
    assert(binding_name(BindingMode::ByRef(Mutability::Mutable)) == "ByRefMutable"@);
    assert(binding_name(BindingMode::ByValue(Mutability::Immutable)) == "ByValueImmutable"@);
    assert(binding_name(BindingMode::ByValue(Mutability::Mutable)) == "ByValueMutable"@);
}

/// A function merge that succeeds leaves the function kind spelled by the
/// description's `kind`, or the old kind where `kind` spells none.
pub proof fn law_fn_kind_named(f: crate::ast::FnLikeV, t: LuaTable)
    requires
        merge_fn_like(f, t) is Finished,
    ensures
        value_to_string(t.get("kind"@)) matches Ok(s) && (forall|k: FnKind|
            s == #[trigger] fn_kind_name(k) ==> merge_fn_like(f, t)->Finished_0.kind == k) && ((
        forall|k: FnKind| s != #[trigger] fn_kind_name(k)) ==> merge_fn_like(f, t)->Finished_0.kind
            == f.kind),
{
    lemma_fn_kind_spellings();
    assert(fn_kind_name(FnKind::Normal) == "Normal"@);
    assert(fn_kind_name(FnKind::ImplMethod) == "ImplMethod"@);
    assert(fn_kind_name(FnKind::TraitMethod) == "TraitMethod"@);
    assert(fn_kind_name(FnKind::Foreign) == "Foreign"@);
}

} // verus!
