//! What a merge leaves in each part of a node, in terms of what the description
//! holds and of the merges of the node's parts.

use vstd::prelude::*;
use crate::ast::{
    ArgV, CrateV, ExprV, FnLikeV, ImplItemKindV, ImplItemV, ItemKindV, ItemV, LocalV, NodeId,
    StmtV,
};
use crate::expr::{
    array_expr, expr_node, exprs_from, known, merge_expr, method_call_expr, new_expr, path_expr,
    strings_from,
};
use crate::laws::known_expr_kind;
use crate::lua::{
    value_to_opt_table, value_to_string, value_to_table, value_to_u32, LuaErrorV, LuaTable, LuaValue,
};
use crate::merge::{
    merge_arg, merge_block, merge_crate, merge_fn_decl, merge_fn_like, merge_impl_item,
    merge_item, merge_local, merge_mod, merge_pat, merge_stmt,
};
use crate::outcome::{Outcome, Step};
use crate::spellings::lemma_expr_kind_spellings;

verus! {

/// `outer` is the end of a merge that hands the whole work to a merge ending in
/// `inner`, and puts the node that one leaves in place with `wrap`.
pub open spec fn ends_as<A, B>(outer: Outcome<B>, inner: Outcome<A>, wrap: spec_fn(A) -> B) -> bool {
    match inner {
        Outcome::Finished(x) => outer == Outcome::Finished(wrap(x)),
        Outcome::Failed(x, err) => outer == Outcome::Failed(wrap(x), err),
        Outcome::Panics => outer is Panics,
    }
}

/// A statement merge is the merge of what the statement holds: a `let` takes the
/// whole description; an item takes `t["item"]`; an expression, with or without
/// semicolon, takes `t["expr"]` into the expression that is there; a macro is
/// left alone.
pub proof fn law_stmt_merges_its_part(s: StmtV, t: LuaTable)
    ensures
        s matches StmtV::Local(l) ==> ends_as(merge_stmt(s, t), merge_local(l, t), |x| StmtV::Local(x)),
        s matches StmtV::Item(i) ==> match value_to_table(t.get("item"@)) {
            Ok(it) => ends_as(merge_stmt(s, t), merge_item(i, it), |x| StmtV::Item(x)),
            Err(err) => merge_stmt(s, t) == Outcome::Failed(s, err),
        },
        s matches StmtV::Expr(e) ==> match value_to_table(t.get("expr"@)) {
            Ok(et) => ends_as(merge_stmt(s, t), merge_expr(e, et), |x| StmtV::Expr(x)),
            Err(err) => merge_stmt(s, t) == Outcome::Failed(s, err),
        },
        s matches StmtV::Semi(e) ==> match value_to_table(t.get("expr"@)) {
            Ok(et) => ends_as(merge_stmt(s, t), merge_expr(e, et), |x| StmtV::Semi(x)),
            Err(err) => merge_stmt(s, t) == Outcome::Failed(s, err),
        },
        s is Mac ==> merge_stmt(s, t) == Outcome::Finished(s),
{
}

/// An expression statement, with or without semicolon, whose `t["expr"]` is of
/// a kind not described here is left as it was.
pub proof fn law_stmt_unknown_expr_kind_keeps(s: StmtV, t: LuaTable)
    requires
        s is Expr || s is Semi,
        value_to_table(t.get("expr"@)) matches Ok(et) && (value_to_string(et.get("kind"@)) matches Ok(
            k,
        ) && !known_expr_kind(k)),
    ensures
        merge_stmt(s, t) == Outcome::Finished(s),
{
    lemma_expr_kind_spellings();
}

/// A parameter merge that succeeds leaves the identifier read from `t["id"]`
/// and what merging `t["pat"]` into the pattern gives.
pub proof fn law_arg_success(a: ArgV, t: LuaTable)
    requires
        merge_arg(a, t) is Finished,
    ensures
        value_to_u32(t.get("id"@)) == Ok::<u32, LuaErrorV>(merge_arg(a, t)->Finished_0.id.0),
        value_to_table(t.get("pat"@)) matches Ok(pt) && merge_pat(a.pat, pt) == Outcome::Finished(
            merge_arg(a, t)->Finished_0.pat,
        ),
{
}

/// A `let` merge that succeeds leaves what merging `t["pat"]` into the pattern
/// gives; no `t["init"]` removes the initializer, and a `t["init"]` is merged
/// into the initializer that is there.
pub proof fn law_local_success(l: LocalV, t: LuaTable)
    requires
        merge_local(l, t) is Finished,
    ensures
        value_to_table(t.get("pat"@)) matches Ok(pt) && merge_pat(l.pat, pt) == Outcome::Finished(
            merge_local(l, t)->Finished_0.pat,
        ),
        match value_to_opt_table(t.get("init"@)) {
            Ok(None) => merge_local(l, t)->Finished_0.init is None,
            Ok(Some(it)) => (l.init matches Some(e) && merge_local(l, t)->Finished_0.init matches Some(
                x,
            ) && merge_expr(e, it) == Outcome::Finished(x)),
            Err(_) => false,
        },
{
}

/// A method merge that succeeds leaves the name read from `t["ident"]`, what
/// merging `t["decl"]` into the signature gives, and what merging `t["block"]`
/// into the body gives.
pub proof fn law_method_success(ii: ImplItemV, t: LuaTable)
    requires
        merge_impl_item(ii, t) is Finished,
    ensures
        value_to_string(t.get("ident"@)) == Ok::<Seq<char>, LuaErrorV>(
            merge_impl_item(ii, t)->Finished_0.ident,
        ),
        match (ii.kind, merge_impl_item(ii, t)->Finished_0.kind) {
            (ImplItemKindV::Method(d, b), ImplItemKindV::Method(d2, b2)) => (value_to_table(
                t.get("decl"@),
            ) matches Ok(dt) && merge_fn_decl(d, dt) == Outcome::Finished(d2)) && (value_to_table(
                t.get("block"@),
            ) matches Ok(bt) && merge_block(b, bt) == Outcome::Finished(b2)),
            _ => false,
        },
{
}

/// An item merge that succeeds leaves the name read from `t["ident"]`; a
/// function item also what merging `t["decl"]` into its signature and
/// `t["block"]` into its body give; any other item that is not an `impl` block
/// is left otherwise as it was.
pub proof fn law_item_success(it: ItemV, t: LuaTable)
    requires
        merge_item(it, t) is Finished,
    ensures
        value_to_string(t.get("ident"@)) == Ok::<Seq<char>, LuaErrorV>(
            merge_item(it, t)->Finished_0.ident,
        ),
        it.kind matches ItemKindV::Fn(d, b) ==> match merge_item(it, t)->Finished_0.kind {
            ItemKindV::Fn(d2, b2) => (value_to_table(t.get("decl"@)) matches Ok(dt) && merge_fn_decl(
                d,
                dt,
            ) == Outcome::Finished(d2)) && (value_to_table(t.get("block"@)) matches Ok(bt)
                && merge_block(b, bt) == Outcome::Finished(b2)),
            _ => false,
        },
        it.kind is Other ==> merge_item(it, t)->Finished_0.kind is Other,
{
}

/// A function merge that succeeds leaves the identifier read from `t["id"]`,
/// the name read from `t["ident"]`, what merging `t["decl"]` into the signature
/// gives, body or no body, and, where there is a body, what merging
/// `t["block"]` into it gives.
pub proof fn law_fn_like_success(f: FnLikeV, t: LuaTable)
    requires
        merge_fn_like(f, t) is Finished,
    ensures
        value_to_u32(t.get("id"@)) == Ok::<u32, LuaErrorV>(merge_fn_like(f, t)->Finished_0.id.0),
        value_to_string(t.get("ident"@)) == Ok::<Seq<char>, LuaErrorV>(
            merge_fn_like(f, t)->Finished_0.ident,
        ),
        value_to_table(t.get("decl"@)) matches Ok(dt) && merge_fn_decl(f.decl, dt)
            == Outcome::Finished(merge_fn_like(f, t)->Finished_0.decl),
        match (f.block, merge_fn_like(f, t)->Finished_0.block) {
            (None, None) => true,
            (Some(b), Some(b2)) => value_to_table(t.get("block"@)) matches Ok(bt) && merge_block(
                b,
                bt,
            ) == Outcome::Finished(b2),
            _ => false,
        },
{
}

/// A crate merge is the merge of `t["module"]` into its module.
pub proof fn law_crate_merges_its_module(c: CrateV, t: LuaTable)
    ensures
        match value_to_table(t.get("module"@)) {
            Ok(mt) => ends_as(merge_crate(c, t), merge_mod(c.module, mt), |m| CrateV { module: m }),
            Err(err) => merge_crate(c, t) == Outcome::Failed(c, err),
        },
{
}

/// An `Index` description builds the indexing of what `t["indexed"]` builds by
/// what `t["index"]` builds.
pub proof fn law_index_expr(e: ExprV, t: LuaTable)
    requires
        value_to_string(t.get("kind"@)) == Ok::<Seq<char>, LuaErrorV>("Index"@),
    ensures
        match (value_to_table(t.get("indexed"@)), value_to_table(t.get("index"@))) {
            (Ok(at), Ok(it)) => match (new_expr(at), new_expr(it)) {
                (Step::Value(a), Step::Value(i)) => merge_expr(e, t) == Outcome::Finished(
                    ExprV::Index(Box::new(a), Box::new(i)),
                ),
                _ => true,
            },
            _ => true,
        },
{
    lemma_expr_kind_spellings();
}

/// A `Field` description builds the field named by `t["name"]` of what
/// `t["expr"]` builds.
pub proof fn law_field_expr(e: ExprV, t: LuaTable)
    requires
        value_to_string(t.get("kind"@)) == Ok::<Seq<char>, LuaErrorV>("Field"@),
    ensures
        match (value_to_table(t.get("expr"@)), value_to_string(t.get("name"@))) {
            (Ok(et), Ok(name)) => match new_expr(et) {
                Step::Value(x) => merge_expr(e, t) == Outcome::Finished(
                    ExprV::Field(Box::new(x), name),
                ),
                _ => true,
            },
            _ => true,
        },
{
    lemma_expr_kind_spellings();
}

/// A `Ret` description without `t["value"]` builds a bare `return`, and with one
/// the return of what it builds.
pub proof fn law_ret_expr(e: ExprV, t: LuaTable)
    requires
        value_to_string(t.get("kind"@)) == Ok::<Seq<char>, LuaErrorV>("Ret"@),
    ensures
        value_to_opt_table(t.get("value"@)) matches Ok(None) ==> merge_expr(e, t)
            == Outcome::Finished(ExprV::Ret(None)),
        match value_to_opt_table(t.get("value"@)) {
            Ok(Some(vt)) => match new_expr(vt) {
                Step::Value(x) => merge_expr(e, t) == Outcome::Finished(ExprV::Ret(Some(Box::new(x)))),
                _ => true,
            },
            _ => true,
        },
{
    lemma_expr_kind_spellings();
}

/// Reading strings from position `i` on, after the `i` strings `acc`, gives
/// `acc` followed by one string per entry up to the first `nil`.
proof fn lemma_strings_from(t: LuaTable, i: int, acc: Seq<Seq<char>>)
    requires
        0 <= i,
        acc.len() == i,
    ensures
        strings_from(t, i, acc) matches Step::Value(xs) ==> {
            &&& xs.len() >= i
            &&& xs.subrange(0, i) == acc
            &&& t.at(xs.len() as int) is Nil
            &&& forall|k: int|
                i <= k < xs.len() ==> value_to_string(t.at(k)) == Ok::<Seq<char>, LuaErrorV>(
                    #[trigger] xs[k],
                )
        },
    decreases t.array@.len() - i,
{
    if !(t.at(i) is Nil) {
        if let Ok(s) = value_to_string(t.at(i)) {
            lemma_strings_from(t, i + 1, acc.push(s));
            if let Step::Value(xs) = strings_from(t, i, acc) {
                assert(xs.subrange(0, i) =~= xs.subrange(0, i + 1).subrange(0, i));
                assert(xs[i] == xs.subrange(0, i + 1)[i]);
            }
        }
    } else {
        if let Step::Value(xs) = strings_from(t, i, acc) {
            assert(xs.subrange(0, i) =~= acc);
        }
    }
}

/// `v` is a table from which an expression is built, and `x` is that expression.
pub open spec fn builds(v: LuaValue, x: ExprV) -> bool {
    value_to_table(v) matches Ok(tk) && new_expr(tk) == Step::Value(x)
}

/// Building expressions from position `i` on, after the `i` expressions `acc`,
/// gives `acc` followed by what each table up to the first `nil` builds.
proof fn lemma_exprs_from(t: LuaTable, i: int, acc: Seq<ExprV>)
    requires
        0 <= i,
        acc.len() == i,
    ensures
        exprs_from(t, i, acc) matches Step::Value(xs) ==> {
            &&& xs.len() >= i
            &&& xs.subrange(0, i) == acc
            &&& t.at(xs.len() as int) is Nil
            &&& forall|k: int|
                i <= k < xs.len() ==> builds(t.at(k), #[trigger] xs[k])
        },
    decreases t.array@.len() - i,
{
    if !(t.at(i) is Nil) {
        if let Ok(et) = value_to_table(t.at(i)) {
            if let Step::Value(x) = new_expr(et) {
                lemma_exprs_from(t, i + 1, acc.push(x));
                assert(exprs_from(t, i, acc) == exprs_from(t, i + 1, acc.push(x)));
                if let Step::Value(xs) = exprs_from(t, i, acc) {
                    assert(xs.subrange(0, i) =~= xs.subrange(0, i + 1).subrange(0, i));
                    assert(xs[i] == xs.subrange(0, i + 1)[i]);
                }
            }
        }
    } else {
        if let Step::Value(xs) = exprs_from(t, i, acc) {
            assert(xs.subrange(0, i) =~= acc);
        }
    }
}

/// A `Path` description that merges builds the path whose `k`-th segment is
/// the `k`-th string of `t["segments"]`, up to its first `nil`.
pub proof fn law_path_expr(e: ExprV, t: LuaTable)
    requires
        value_to_string(t.get("kind"@)) == Ok::<Seq<char>, LuaErrorV>("Path"@),
        merge_expr(e, t) is Finished,
    ensures
        match merge_expr(e, t)->Finished_0 {
            ExprV::Path(segs) => {
                &&& value_to_table(t.get("segments"@)) matches Ok(st)
                &&& st.at(segs.len() as int) is Nil
                &&& forall|k: int|
                    0 <= k < segs.len() ==> value_to_string(st.at(k)) == Ok::<Seq<char>, LuaErrorV>(
                        #[trigger] segs[k],
                    )
            },
            _ => false,
        },
{
    lemma_expr_kind_spellings();
    assert(expr_node(t, "Path"@) == known(path_expr(t)));
    assert(path_expr(t) is Value);
    let st = value_to_table(t.get("segments"@))->Ok_0;
    lemma_strings_from(st, 0, Seq::empty());
    let segs = strings_from(st, 0, Seq::empty())->Value_0;
    assert(merge_expr(e, t) == Outcome::Finished(ExprV::Path(segs)));
}

/// An `Array` description that merges builds the array whose `k`-th element is
/// what the `k`-th table of `t["values"]` builds, up to its first `nil`.
pub proof fn law_array_expr(e: ExprV, t: LuaTable)
    requires
        value_to_string(t.get("kind"@)) == Ok::<Seq<char>, LuaErrorV>("Array"@),
        merge_expr(e, t) is Finished,
    ensures
        merge_expr(e, t)->Finished_0 matches ExprV::Array(xs) && value_to_table(t.get("values"@))
            matches Ok(vt) && vt.at(xs.len() as int) is Nil && forall|k: int|
            0 <= k < xs.len() ==> builds(vt.at(k), #[trigger] xs[k]),
{
    lemma_expr_kind_spellings();
    assert(expr_node(t, "Array"@) == known(array_expr(t)));
    if let Ok(vt) = value_to_table(t.get("values"@)) {
        lemma_exprs_from(vt, 0, Seq::empty());
    }
}

/// A `MethodCall` description that merges builds the call of the method named
/// by `t["name"]` whose `k`-th argument is what the `k`-th table of `t["args"]`
/// builds, up to its first `nil`.
pub proof fn law_method_call_expr(e: ExprV, t: LuaTable)
    requires
        value_to_string(t.get("kind"@)) == Ok::<Seq<char>, LuaErrorV>("MethodCall"@),
        merge_expr(e, t) is Finished,
    ensures
        match merge_expr(e, t)->Finished_0 {
            ExprV::MethodCall(name, xs) => {
                &&& value_to_string(t.get("name"@)) == Ok::<Seq<char>, LuaErrorV>(name)
                &&& value_to_table(t.get("args"@)) matches Ok(vt)
                &&& vt.at(xs.len() as int) is Nil
                &&& forall|k: int|
                    0 <= k < xs.len() ==> builds(vt.at(k), #[trigger] xs[k])
            },
            _ => false,
        },
{
    lemma_expr_kind_spellings();
    assert(expr_node(t, "MethodCall"@) == known(method_call_expr(t)));
    if let Ok(vt) = value_to_table(t.get("args"@)) {
        lemma_exprs_from(vt, 0, Seq::empty());
    }
}

} // verus!
