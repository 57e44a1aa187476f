//! Merging a Lua description of an expression into an expression.
//!
//! A known kind of description replaces the expression with one built from the
//! description alone, every sub-expression starting from the placeholder; an
//! unknown kind leaves the expression as it was.

use vstd::prelude::*;
use crate::ast::{
    dummy_expr, dummy_span, dummy_spanned, exprs_view, strings_view, BinOpKind, Expr, ExprV,
    LitKind, LitKindV, UnOp,
};
use crate::lua::{
    lemma_at_decreases, lemma_get_decreases, value_to_opt_string, value_to_opt_table,
    value_to_string, value_to_table, LuaError, LuaErrorV, LuaTable, LuaValue,
};
use crate::names::{
    binop_named, binop_of, float_lit_named, float_lit_of, int_suffix_named, int_suffix_of,
    reads, unop_named, unop_of,
};
use crate::outcome::{outcome_holds, Outcome, Step};

verus! {

/// What merging the description `t` into the expression `e` does.
pub open spec fn merge_expr(e: ExprV, t: LuaTable) -> Outcome<ExprV>
    decreases t, 2int,
{
    match value_to_string(t.get("kind"@)) {
        Err(err) => Outcome::Failed(e, err),
        Ok(kind) => match expr_node(t, kind) {
            Step::Value(Some(n)) => Outcome::Finished(n),
            Step::Value(None) => Outcome::Finished(e),
            Step::Fails(err) => Outcome::Failed(e, err),
            Step::Panics => Outcome::Panics,
        },
    }
}

/// The expression a fresh placeholder becomes when `t` is merged into it.
pub open spec fn new_expr(t: LuaTable) -> Step<ExprV>
    decreases t, 3int,
{
    match merge_expr(ExprV::Placeholder, t) {
        Outcome::Finished(x) => Step::Value(x),
        Outcome::Failed(_, err) => Step::Fails(err),
        Outcome::Panics => Step::Panics,
    }
}

/// The expression that the description `t` of kind `kind` builds; `None` for a
/// kind that is not described here.
pub open spec fn expr_node(t: LuaTable, kind: Seq<char>) -> Step<Option<ExprV>>
    decreases t, 1int,
{
    if kind == "Path"@ {
        known(path_expr(t))
    } else if kind == "Lit"@ {
        known(lit_expr(t))
    } else if kind == "Binary"@ || kind == "AssignOp"@ || kind == "Assign"@ {
        known(binary_expr(t, kind))
    } else if kind == "Array"@ {
        known(array_expr(t))
    } else if kind == "Index"@ {
        known(index_expr(t))
    } else if kind == "Unary"@ {
        known(unary_expr(t))
    } else if kind == "MethodCall"@ {
        known(method_call_expr(t))
    } else if kind == "Field"@ {
        known(field_expr(t))
    } else if kind == "Ret"@ {
        known(ret_expr(t))
    } else {
        Step::Value(None)
    }
}

pub open spec fn known(s: Step<ExprV>) -> Step<Option<ExprV>> {
    match s {
        Step::Value(x) => Step::Value(Some(x)),
        Step::Fails(err) => Step::Fails(err),
        Step::Panics => Step::Panics,
    }
}

/// `r` is what reading an expression that ends in `s` returns.
pub open spec fn expr_step_holds(s: Step<ExprV>, r: Result<Expr, LuaError>) -> bool {
    match s {
        Step::Value(v) => r matches Ok(x) && x@ == v,
        Step::Fails(err) => r matches Err(x) && x@ == err,
        Step::Panics => false,
    }
}

/// The strings `t[i + 1], t[i + 2], ..` up to the first `nil`, after `acc`.
pub open spec fn strings_from(t: LuaTable, i: int, acc: Seq<Seq<char>>) -> Step<Seq<Seq<char>>>
    decreases t.array@.len() - i,
{
    if t.at(i) is Nil {
        Step::Value(acc)
    } else {
        match value_to_string(t.at(i)) {
            Err(err) => Step::Fails(err),
            Ok(s) => strings_from(t, i + 1, acc.push(s)),
        }
    }
}

/// The expressions that the tables `t[i + 1], t[i + 2], ..` up to the first `nil`
/// build, after `acc`.
pub open spec fn exprs_from(t: LuaTable, i: int, acc: Seq<ExprV>) -> Step<Seq<ExprV>>
    decreases t, t.array@.len() - i,
{
    if t.at(i) is Nil {
        Step::Value(acc)
    } else {
        match value_to_table(t.at(i)) {
            Err(err) => Step::Fails(err),
            Ok(et) => {
                proof {
                    lemma_at_decreases(t, i);
                }
                match new_expr(et) {
                    Step::Value(x) => exprs_from(t, i + 1, acc.push(x)),
                    Step::Fails(err) => Step::Fails(err),
                    Step::Panics => Step::Panics,
                }
            },
        }
    }
}

pub open spec fn path_expr(t: LuaTable) -> Step<ExprV>
    decreases t, 0int,
{
    match value_to_table(t.get("segments"@)) {
        Err(err) => Step::Fails(err),
        Ok(st) => match strings_from(st, 0, Seq::empty()) {
            Step::Value(segs) => Step::Value(ExprV::Path(segs)),
            Step::Fails(err) => Step::Fails(err),
            Step::Panics => Step::Panics,
        },
    }
}

pub open spec fn lit_expr(t: LuaTable) -> Step<ExprV>
    decreases t, 0int,
{
    match value_to_opt_string(t.get("suffix"@)) {
        Err(err) => Step::Fails(err),
        Ok(suffix) => match t.get("value"@) {
            LuaValue::Boolean(b) => Step::Value(ExprV::Lit(LitKindV::Bool(b), dummy_span())),
            LuaValue::Integer(i, _) => match int_suffix_named(suffix) {
                Some(ty) => Step::Value(ExprV::Lit(LitKindV::Int(i as u128, ty), dummy_span())),
                None => Step::Panics,
            },
            LuaValue::Number(text, _) => match float_lit_named(text@, suffix) {
                Some(l) => Step::Value(ExprV::Lit(l, dummy_span())),
                None => Step::Panics,
            },
            _ => Step::Panics,
        },
    }
}

/// A `Binary`, `AssignOp` or `Assign` description.
pub open spec fn binary_expr(t: LuaTable, kind: Seq<char>) -> Step<ExprV>
    decreases t, 0int,
{
    match value_to_table(t.get("lhs"@)) {
        Err(err) => Step::Fails(err),
        Ok(lt) => match value_to_table(t.get("rhs"@)) {
            Err(err) => Step::Fails(err),
            Ok(rt) => match value_to_opt_string(t.get("op"@)) {
                Err(err) => Step::Fails(err),
                Ok(op) => if op matches Some(s) && binop_named(s) is None {
                    Step::Panics
                } else {
                    let opk: Option<BinOpKind> = match op {
                        Some(s) => binop_named(s),
                        None => None,
                    };
                    proof {
                        lemma_get_decreases(t, "lhs"@);
                        lemma_get_decreases(t, "rhs"@);
                    }
                    match new_expr(lt) {
                        Step::Fails(err) => Step::Fails(err),
                        Step::Panics => Step::Panics,
                        Step::Value(l) => match new_expr(rt) {
                            Step::Fails(err) => Step::Fails(err),
                            Step::Panics => Step::Panics,
                            Step::Value(r) => if kind == "Binary"@ {
                                match opk {
                                    Some(k) => Step::Value(ExprV::Binary(k, dummy_span(), Box::new(l), Box::new(r))),
                                    None => Step::Panics,
                                }
                            } else if kind == "AssignOp"@ {
                                match opk {
                                    Some(k) => Step::Value(ExprV::AssignOp(k, dummy_span(), Box::new(l), Box::new(r))),
                                    None => Step::Panics,
                                }
                            } else {
                                Step::Value(ExprV::Assign(Box::new(l), Box::new(r)))
                            },
                        },
                    }
                },
            },
        },
    }
}

pub open spec fn array_expr(t: LuaTable) -> Step<ExprV>
    decreases t, 0int,
{
    match value_to_table(t.get("values"@)) {
        Err(err) => Step::Fails(err),
        Ok(vt) => {
            proof {
                lemma_get_decreases(t, "values"@);
            }
            match exprs_from(vt, 0, Seq::empty()) {
                Step::Value(xs) => Step::Value(ExprV::Array(xs)),
                Step::Fails(err) => Step::Fails(err),
                Step::Panics => Step::Panics,
            }
        },
    }
}

pub open spec fn index_expr(t: LuaTable) -> Step<ExprV>
    decreases t, 0int,
{
    match value_to_table(t.get("indexed"@)) {
        Err(err) => Step::Fails(err),
        Ok(at) => match value_to_table(t.get("index"@)) {
            Err(err) => Step::Fails(err),
            Ok(it) => {
                proof {
                    lemma_get_decreases(t, "indexed"@);
                    lemma_get_decreases(t, "index"@);
                }
                match new_expr(at) {
                    Step::Fails(err) => Step::Fails(err),
                    Step::Panics => Step::Panics,
                    Step::Value(a) => match new_expr(it) {
                        Step::Fails(err) => Step::Fails(err),
                        Step::Panics => Step::Panics,
                        Step::Value(i) => Step::Value(ExprV::Index(Box::new(a), Box::new(i))),
                    },
                }
            },
        },
    }
}

pub open spec fn unary_expr(t: LuaTable) -> Step<ExprV>
    decreases t, 0int,
{
    match value_to_string(t.get("op"@)) {
        Err(err) => Step::Fails(err),
        Ok(op) => match value_to_table(t.get("expr"@)) {
            Err(err) => Step::Fails(err),
            Ok(et) => match unop_named(op) {
                None => Step::Panics,
                Some(u) => {
                    proof {
                        lemma_get_decreases(t, "expr"@);
                    }
                    match new_expr(et) {
                        Step::Fails(err) => Step::Fails(err),
                        Step::Panics => Step::Panics,
                        Step::Value(x) => Step::Value(ExprV::Unary(u, Box::new(x))),
                    }
                },
            },
        },
    }
}

pub open spec fn method_call_expr(t: LuaTable) -> Step<ExprV>
    decreases t, 0int,
{
    match value_to_table(t.get("args"@)) {
        Err(err) => Step::Fails(err),
        Ok(at) => {
            proof {
                lemma_get_decreases(t, "args"@);
            }
            match exprs_from(at, 0, Seq::empty()) {
                Step::Fails(err) => Step::Fails(err),
                Step::Panics => Step::Panics,
                Step::Value(args) => match value_to_string(t.get("name"@)) {
                    Err(err) => Step::Fails(err),
                    Ok(name) => Step::Value(ExprV::MethodCall(name, args)),
                },
            }
        },
    }
}

pub open spec fn field_expr(t: LuaTable) -> Step<ExprV>
    decreases t, 0int,
{
    match value_to_table(t.get("expr"@)) {
        Err(err) => Step::Fails(err),
        Ok(et) => match value_to_string(t.get("name"@)) {
            Err(err) => Step::Fails(err),
            Ok(name) => {
                proof {
                    lemma_get_decreases(t, "expr"@);
                }
                match new_expr(et) {
                    Step::Fails(err) => Step::Fails(err),
                    Step::Panics => Step::Panics,
                    Step::Value(x) => Step::Value(ExprV::Field(Box::new(x), name)),
                }
            },
        },
    }
}

pub open spec fn ret_expr(t: LuaTable) -> Step<ExprV>
    decreases t, 0int,
{
    match value_to_opt_table(t.get("value"@)) {
        Err(err) => Step::Fails(err),
        Ok(None) => Step::Value(ExprV::Ret(None)),
        Ok(Some(et)) => {
            proof {
                lemma_get_decreases(t, "value"@);
            }
            match new_expr(et) {
                Step::Fails(err) => Step::Fails(err),
                Step::Panics => Step::Panics,
                Step::Value(x) => Step::Value(ExprV::Ret(Some(Box::new(x)))),
            }
        },
    }
}


impl Expr {
    /// Merges the Lua description `table` into this expression.
    pub fn merge_lua_ast(&mut self, table: &LuaTable) -> (r: Result<(), LuaError>)
        requires
            !(merge_expr(old(self)@, *table) is Panics),
        ensures
            outcome_holds(merge_expr(old(self)@, *table), final(self)@, r),
        decreases *table, 2int,
    {
        let kind = match table.get_string("kind") {
            Ok(k) => k,
            Err(e) => return Err(e),
        };
        match node_from_lua(table, &kind) {
            Ok(Some(n)) => {
                *self = n;
                Ok(())
            },
            Ok(None) => Ok(()),
            Err(e) => Err(e),
        }
    }
}

/// The expression a fresh placeholder becomes when `table` is merged into it.
fn new_expr_from_lua(table: &LuaTable) -> (r: Result<Expr, LuaError>)
    requires
        !(new_expr(*table) is Panics),
    ensures
        expr_step_holds(new_expr(*table), r),
    decreases *table, 3int,
{
    let mut e = dummy_expr();
    match e.merge_lua_ast(table) {
        Ok(()) => Ok(e),
        Err(err) => Err(err),
    }
}

fn known_node(r: Result<Expr, LuaError>) -> (o: Result<Option<Expr>, LuaError>)
    ensures
        match r {
            Ok(e) => o matches Ok(Some(x)) && x@ == e@,
            Err(e) => o matches Err(x) && x@ == e@,
        },
{
    match r {
        Ok(e) => Ok(Some(e)),
        Err(e) => Err(e),
    }
}

fn node_from_lua(table: &LuaTable, kind: &String) -> (r: Result<Option<Expr>, LuaError>)
    requires
        !(expr_node(*table, kind@) is Panics),
    ensures
        match expr_node(*table, kind@) {
            Step::Value(Some(x)) => r matches Ok(Some(e)) && e@ == x,
            Step::Value(None) => r matches Ok(None),
            Step::Fails(err) => r matches Err(e) && e@ == err,
            Step::Panics => false,
        },
    decreases *table, 1int,
{
    if reads(kind, "Path") {
        known_node(path_from_lua(table))
    } else if reads(kind, "Lit") {
        known_node(lit_from_lua(table))
    } else if reads(kind, "Binary") || reads(kind, "AssignOp") || reads(kind, "Assign") {
        known_node(binary_from_lua(table, kind))
    } else if reads(kind, "Array") {
        known_node(array_from_lua(table))
    } else if reads(kind, "Index") {
        known_node(index_from_lua(table))
    } else if reads(kind, "Unary") {
        known_node(unary_from_lua(table))
    } else if reads(kind, "MethodCall") {
        known_node(method_call_from_lua(table))
    } else if reads(kind, "Field") {
        known_node(field_from_lua(table))
    } else if reads(kind, "Ret") {
        known_node(ret_from_lua(table))
    } else {
        Ok(None)
    }
}

fn path_from_lua(table: &LuaTable) -> (r: Result<Expr, LuaError>)
    requires
        !(path_expr(*table) is Panics),
    ensures
        expr_step_holds(path_expr(*table), r),
    decreases *table, 0int,
{
    let st = match table.get_table("segments") {
        Ok(t) => t,
        Err(e) => return Err(e),
    };
    let mut segments: Vec<String> = Vec::new();
    assert(strings_view(segments@) =~= Seq::empty());
    let n = st.array.len();
    let mut j: usize = 0;
    while j < n && !st.array[j].is_nil()
        invariant
            n == st.array@.len(),
            j <= n,
            value_to_table(table.get("segments"@)) == Ok::<LuaTable, LuaErrorV>(*st),
            strings_from(*st, 0, Seq::empty()) == strings_from(*st, j as int, strings_view(segments@)),
        decreases n - j,
    {
        match st.array[j].read_string() {
            Ok(s) => {
                assert(strings_view(segments@.push(s)) =~= strings_view(segments@).push(s@));
                segments.push(s);
            },
            Err(e) => {
                assert(strings_from(*st, j as int, strings_view(segments@)) == Step::<Seq<Seq<char>>>::Fails(e@));
                return Err(e);
            },
        }
        j = j + 1;
    }
    Ok(Expr::Path(segments))
}

fn lit_from_lua(table: &LuaTable) -> (r: Result<Expr, LuaError>)
    requires
        !(lit_expr(*table) is Panics),
    ensures
        expr_step_holds(lit_expr(*table), r),
    decreases *table, 0int,
{
    let suffix = match table.get_opt_string("suffix") {
        Ok(s) => s,
        Err(e) => return Err(e),
    };
    let lit: Option<LitKind> = match table.find("value") {
        Some(LuaValue::Boolean(b)) => Some(LitKind::Bool(*b)),
        Some(LuaValue::Integer(i, _)) => match int_suffix_of(&suffix) {
            Some(ty) => Some(LitKind::Int(*i as u128, ty)),
            None => None,
        },
        Some(LuaValue::Number(text, _)) => float_lit_of(text.clone(), &suffix),
        _ => None,
    };
    Ok(Expr::Lit(dummy_spanned(lit.expect("MergeLuaAst unimplemented lit"))))
}

fn binary_from_lua(table: &LuaTable, kind: &String) -> (r: Result<Expr, LuaError>)
    requires
        !(binary_expr(*table, kind@) is Panics),
    ensures
        expr_step_holds(binary_expr(*table, kind@), r),
    decreases *table, 0int,
{
    let lua_lhs = match table.get_table("lhs") {
        Ok(t) => t,
        Err(e) => return Err(e),
    };
    let lua_rhs = match table.get_table("rhs") {
        Ok(t) => t,
        Err(e) => return Err(e),
    };
    let op = match table.get_opt_string("op") {
        Ok(s) => s,
        Err(e) => return Err(e),
    };
    let op: Option<BinOpKind> = match op {
        Some(s) => Some(binop_of(&s).expect("Unknown BinOpKind")),
        None => None,
    };
    proof {
        lemma_get_decreases(*table, "lhs"@);
        lemma_get_decreases(*table, "rhs"@);
    }
    let lhs = match new_expr_from_lua(lua_lhs) {
        Ok(e) => e,
        Err(e) => return Err(e),
    };
    let rhs = match new_expr_from_lua(lua_rhs) {
        Ok(e) => e,
        Err(e) => return Err(e),
    };
    if reads(kind, "Binary") {
        Ok(Expr::Binary(dummy_spanned(op.expect("Binary needs an operator")), Box::new(lhs), Box::new(rhs)))
    } else if reads(kind, "AssignOp") {
        Ok(Expr::AssignOp(dummy_spanned(op.expect("AssignOp needs an operator")), Box::new(lhs), Box::new(rhs)))
    } else {
        Ok(Expr::Assign(Box::new(lhs), Box::new(rhs)))
    }
}

/// The expressions the tables in the sequence part of `vt` build.
fn exprs_from_lua(vt: &LuaTable) -> (r: Result<Vec<Expr>, LuaError>)
    requires
        !(exprs_from(*vt, 0, Seq::empty()) is Panics),
    ensures
        match exprs_from(*vt, 0, Seq::empty()) {
            Step::Value(xs) => r matches Ok(v) && exprs_view(v@) == xs,
            Step::Fails(err) => r matches Err(e) && e@ == err,
            Step::Panics => false,
        },
    decreases *vt, vt.array@.len() + 1,
{
    let mut exprs: Vec<Expr> = Vec::new();
    let n = vt.array.len();
    let mut j: usize = 0;
    while j < n && !vt.array[j].is_nil()
        invariant
            n == vt.array@.len(),
            j <= n,
            exprs_from(*vt, 0, Seq::empty()) == exprs_from(*vt, j as int, exprs_view(exprs@)),
            !(exprs_from(*vt, 0, Seq::empty()) is Panics),
        decreases n - j,
    {
        let et = match vt.array[j].read_table() {
            Ok(t) => t,
            Err(e) => return Err(e),
        };
        proof {
            lemma_at_decreases(*vt, j as int);
        }
        let e = match new_expr_from_lua(et) {
            Ok(e) => e,
            Err(e) => return Err(e),
        };
        proof {
            crate::ast::lemma_exprs_view_push(exprs@, e);
        }
        exprs.push(e);
        j = j + 1;
    }
    Ok(exprs)
}

fn array_from_lua(table: &LuaTable) -> (r: Result<Expr, LuaError>)
    requires
        !(array_expr(*table) is Panics),
    ensures
        expr_step_holds(array_expr(*table), r),
    decreases *table, 0int,
{
    let lua_exprs = match table.get_table("values") {
        Ok(t) => t,
        Err(e) => return Err(e),
    };
    proof {
        lemma_get_decreases(*table, "values"@);
    }
    match exprs_from_lua(lua_exprs) {
        Ok(exprs) => Ok(Expr::Array(exprs)),
        Err(e) => Err(e),
    }
}

fn index_from_lua(table: &LuaTable) -> (r: Result<Expr, LuaError>)
    requires
        !(index_expr(*table) is Panics),
    ensures
        expr_step_holds(index_expr(*table), r),
    decreases *table, 0int,
{
    let lua_indexed = match table.get_table("indexed") {
        Ok(t) => t,
        Err(e) => return Err(e),
    };
    let lua_index = match table.get_table("index") {
        Ok(t) => t,
        Err(e) => return Err(e),
    };
    proof {
        lemma_get_decreases(*table, "indexed"@);
        lemma_get_decreases(*table, "index"@);
    }
    let indexed = match new_expr_from_lua(lua_indexed) {
        Ok(e) => e,
        Err(e) => return Err(e),
    };
    let index = match new_expr_from_lua(lua_index) {
        Ok(e) => e,
        Err(e) => return Err(e),
    };
    Ok(Expr::Index(Box::new(indexed), Box::new(index)))
}

fn unary_from_lua(table: &LuaTable) -> (r: Result<Expr, LuaError>)
    requires
        !(unary_expr(*table) is Panics),
    ensures
        expr_step_holds(unary_expr(*table), r),
    decreases *table, 0int,
{
    let op = match table.get_string("op") {
        Ok(s) => s,
        Err(e) => return Err(e),
    };
    let lua_expr = match table.get_table("expr") {
        Ok(t) => t,
        Err(e) => return Err(e),
    };
    let op: UnOp = unop_of(&op).expect("Unknown UnOp");
    proof {
        lemma_get_decreases(*table, "expr"@);
    }
    match new_expr_from_lua(lua_expr) {
        Ok(e) => Ok(Expr::Unary(op, Box::new(e))),
        Err(e) => Err(e),
    }
}

fn method_call_from_lua(table: &LuaTable) -> (r: Result<Expr, LuaError>)
    requires
        !(method_call_expr(*table) is Panics),
    ensures
        expr_step_holds(method_call_expr(*table), r),
    decreases *table, 0int,
{
    let lua_args = match table.get_table("args") {
        Ok(t) => t,
        Err(e) => return Err(e),
    };
    proof {
        lemma_get_decreases(*table, "args"@);
    }
    let args = match exprs_from_lua(lua_args) {
        Ok(a) => a,
        Err(e) => return Err(e),
    };
    let name = match table.get_string("name") {
        Ok(s) => s,
        Err(e) => return Err(e),
    };
    Ok(Expr::MethodCall(name, args))
}

fn field_from_lua(table: &LuaTable) -> (r: Result<Expr, LuaError>)
    requires
        !(field_expr(*table) is Panics),
    ensures
        expr_step_holds(field_expr(*table), r),
    decreases *table, 0int,
{
    let lua_expr = match table.get_table("expr") {
        Ok(t) => t,
        Err(e) => return Err(e),
    };
    let name = match table.get_string("name") {
        Ok(s) => s,
        Err(e) => return Err(e),
    };
    proof {
        lemma_get_decreases(*table, "expr"@);
    }
    match new_expr_from_lua(lua_expr) {
        Ok(e) => Ok(Expr::Field(Box::new(e), name)),
        Err(e) => Err(e),
    }
}

fn ret_from_lua(table: &LuaTable) -> (r: Result<Expr, LuaError>)
    requires
        !(ret_expr(*table) is Panics),
    ensures
        expr_step_holds(ret_expr(*table), r),
    decreases *table, 0int,
{
    let opt_lua_expr = match table.get_opt_table("value") {
        Ok(t) => t,
        Err(e) => return Err(e),
    };
    proof {
        lemma_get_decreases(*table, "value"@);
    }
    match opt_lua_expr {
        Some(lua_expr) => match new_expr_from_lua(lua_expr) {
            Ok(e) => Ok(Expr::Ret(Some(Box::new(e)))),
            Err(e) => Err(e),
        },
        None => Ok(Expr::Ret(None)),
    }
}

} // verus!
