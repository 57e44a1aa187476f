//! Properties of the merges that relate several merges or hold of every input.

use vstd::prelude::*;
use crate::ast::{
    ArgV, BlockV, CrateV, ExprV, FnDeclV, FnLikeV, ImplItemKindV, ImplItemV, ItemKindV, ItemV,
    LocalV, ModV, PatV, StmtV,
};
use crate::expr::merge_expr;
use crate::lua::{
    integer_text, value_to_bool, value_to_string, value_to_table, value_to_u32, LuaErrorV, LuaTable,
    LuaValue,
};
use crate::merge::{
    merge_arg, merge_args_from, merge_block, merge_crate, merge_fn_decl, merge_fn_like,
    merge_impl_item, merge_impl_items_from, merge_item, merge_items_from, merge_local, merge_mod,
    merge_pat, merge_stmt, merge_stmts_from,
};
use crate::outcome::{outcome_state, Outcome};

verus! {

/// The kinds of expression description that a merge builds from.
pub open spec fn known_expr_kind(k: Seq<char>) -> bool {
    k == "Path"@ || k == "Lit"@ || k == "Binary"@ || k == "AssignOp"@ || k == "Assign"@ || k
        == "Array"@ || k == "Index"@ || k == "Unary"@ || k == "MethodCall"@ || k == "Field"@ || k
        == "Ret"@
}

/// A merge into an expression that fails leaves the expression as it was.
pub proof fn law_expr_failure_keeps_expr(e: ExprV, t: LuaTable)
    ensures
        merge_expr(e, t) matches Outcome::Failed(s, _) ==> s == e,
{
}

/// A description of a kind that is not described here leaves the expression
/// as it was, and the merge succeeds.
pub proof fn law_expr_unknown_kind_keeps_expr(e: ExprV, t: LuaTable)
    requires
        value_to_string(t.get("kind"@)) matches Ok(k) && !known_expr_kind(k),
    ensures
        merge_expr(e, t) == Outcome::Finished(e),
{
}

/// A description of a known kind decides the expression alone: merging it into
/// any two expressions fails with the same error, or gives the same expression.
pub proof fn law_expr_known_kind_replaces(e1: ExprV, e2: ExprV, t: LuaTable)
    requires
        value_to_string(t.get("kind"@)) matches Ok(k) && known_expr_kind(k),
    ensures
        match (merge_expr(e1, t), merge_expr(e2, t)) {
            (Outcome::Finished(x1), Outcome::Finished(x2)) => x1 == x2,
            (Outcome::Failed(_, err1), Outcome::Failed(_, err2)) => err1 == err2,
            (Outcome::Panics, Outcome::Panics) => true,
            _ => false,
        },
{
}

/// Merging a description into an expression a second time changes nothing more:
/// it leaves the same expression and returns the same result.
pub proof fn law_expr_merge_idempotent(e: ExprV, t: LuaTable)
    requires
        !(merge_expr(e, t) is Panics),
    ensures
        merge_expr(outcome_state(merge_expr(e, t), e), t) == merge_expr(e, t),
{
}


/// Merging the descriptions in `t` into the list a first merge left changes
/// nothing more; the list keeps its length and the part `done` before `i`.
proof fn lemma_args_from_idempotent(orig: Seq<ArgV>, t: LuaTable, i: int, done: Seq<ArgV>)
    requires
        0 <= i <= orig.len(),
        done.len() == i,
        !(merge_args_from(orig, t, i, done) is Panics),
    ensures
        outcome_state(merge_args_from(orig, t, i, done), orig).len() == orig.len(),
        outcome_state(merge_args_from(orig, t, i, done), orig).subrange(0, i) == done,
        merge_args_from(outcome_state(merge_args_from(orig, t, i, done), orig), t, i, done)
            == merge_args_from(orig, t, i, done),
    decreases orig.len() - i,
{
    let o = merge_args_from(orig, t, i, done);
    let r = outcome_state(o, orig);
    if i < orig.len() {
        match value_to_table(t.at(i)) {
            Err(err) => {
                assert(r =~= done + orig.subrange(i, orig.len() as int));
                assert(r.subrange(0, i) =~= done);
                assert(r.subrange(i, r.len() as int) =~= orig.subrange(i, orig.len() as int));
            },
            Ok(at) => {
                law_arg_merge_idempotent(orig[i], at);
                match merge_arg(orig[i], at) {
                    Outcome::Finished(x) => {
                        lemma_args_from_idempotent(orig, t, i + 1, done.push(x));
                        assert(r.subrange(0, i + 1) == done.push(x));
                        assert(r[i] == r.subrange(0, i + 1)[i]);
                        assert(r.subrange(0, i) =~= r.subrange(0, i + 1).subrange(0, i));
                    },
                    Outcome::Failed(x, err) => {
                        assert(r =~= done.push(x) + orig.subrange(i + 1, orig.len() as int));
                        assert(r.subrange(0, i) =~= done);
                        assert(r[i] == x);
                        assert(r.subrange(i + 1, r.len() as int) =~= orig.subrange(i + 1, orig.len() as int));
                        assert(done.push(x) =~= r.subrange(0, i).push(x));
                    },
                    Outcome::Panics => {},
                }
            },
        }
    } else {
        assert(r.subrange(0, i) =~= done);
    }
}

/// Merging the descriptions in `t` into the list a first merge left changes
/// nothing more; the list keeps its length and the part `done` before `i`.
proof fn lemma_stmts_from_idempotent(orig: Seq<StmtV>, t: LuaTable, i: int, done: Seq<StmtV>)
    requires
        0 <= i <= orig.len(),
        done.len() == i,
        !(merge_stmts_from(orig, t, i, done) is Panics),
    ensures
        outcome_state(merge_stmts_from(orig, t, i, done), orig).len() == orig.len(),
        outcome_state(merge_stmts_from(orig, t, i, done), orig).subrange(0, i) == done,
        merge_stmts_from(outcome_state(merge_stmts_from(orig, t, i, done), orig), t, i, done)
            == merge_stmts_from(orig, t, i, done),
    decreases orig, orig.len() - i,
{
    let o = merge_stmts_from(orig, t, i, done);
    let r = outcome_state(o, orig);
    if i < orig.len() {
        match value_to_table(t.at(i)) {
            Err(err) => {
                assert(r =~= done + orig.subrange(i, orig.len() as int));
                assert(r.subrange(0, i) =~= done);
                assert(r.subrange(i, r.len() as int) =~= orig.subrange(i, orig.len() as int));
            },
            Ok(at) => {
                law_stmt_merge_idempotent(orig[i], at);
                match merge_stmt(orig[i], at) {
                    Outcome::Finished(x) => {
                        lemma_stmts_from_idempotent(orig, t, i + 1, done.push(x));
                        assert(r.subrange(0, i + 1) == done.push(x));
                        assert(r[i] == r.subrange(0, i + 1)[i]);
                        assert(r.subrange(0, i) =~= r.subrange(0, i + 1).subrange(0, i));
                    },
                    Outcome::Failed(x, err) => {
                        assert(r =~= done.push(x) + orig.subrange(i + 1, orig.len() as int));
                        assert(r.subrange(0, i) =~= done);
                        assert(r[i] == x);
                        assert(r.subrange(i + 1, r.len() as int) =~= orig.subrange(i + 1, orig.len() as int));
                        assert(done.push(x) =~= r.subrange(0, i).push(x));
                    },
                    Outcome::Panics => {},
                }
            },
        }
    } else {
        assert(r.subrange(0, i) =~= done);
    }
}

/// Merging the descriptions in `t` into the list a first merge left changes
/// nothing more; the list keeps its length and the part `done` before `i`.
proof fn lemma_impl_items_from_idempotent(orig: Seq<ImplItemV>, t: LuaTable, i: int, done: Seq<ImplItemV>)
    requires
        0 <= i <= orig.len(),
        done.len() == i,
        !(merge_impl_items_from(orig, t, i, done) is Panics),
    ensures
        outcome_state(merge_impl_items_from(orig, t, i, done), orig).len() == orig.len(),
        outcome_state(merge_impl_items_from(orig, t, i, done), orig).subrange(0, i) == done,
        merge_impl_items_from(outcome_state(merge_impl_items_from(orig, t, i, done), orig), t, i, done)
            == merge_impl_items_from(orig, t, i, done),
    decreases orig, orig.len() - i,
{
    let o = merge_impl_items_from(orig, t, i, done);
    let r = outcome_state(o, orig);
    if i < orig.len() {
        match value_to_table(t.at(i)) {
            Err(err) => {
                assert(r =~= done + orig.subrange(i, orig.len() as int));
                assert(r.subrange(0, i) =~= done);
                assert(r.subrange(i, r.len() as int) =~= orig.subrange(i, orig.len() as int));
            },
            Ok(at) => {
                law_impl_item_merge_idempotent(orig[i], at);
                match merge_impl_item(orig[i], at) {
                    Outcome::Finished(x) => {
                        lemma_impl_items_from_idempotent(orig, t, i + 1, done.push(x));
                        assert(r.subrange(0, i + 1) == done.push(x));
                        assert(r[i] == r.subrange(0, i + 1)[i]);
                        assert(r.subrange(0, i) =~= r.subrange(0, i + 1).subrange(0, i));
                    },
                    Outcome::Failed(x, err) => {
                        assert(r =~= done.push(x) + orig.subrange(i + 1, orig.len() as int));
                        assert(r.subrange(0, i) =~= done);
                        assert(r[i] == x);
                        assert(r.subrange(i + 1, r.len() as int) =~= orig.subrange(i + 1, orig.len() as int));
                        assert(done.push(x) =~= r.subrange(0, i).push(x));
                    },
                    Outcome::Panics => {},
                }
            },
        }
    } else {
        assert(r.subrange(0, i) =~= done);
    }
}

/// Merging the descriptions in `t` into the list a first merge left changes
/// nothing more; the list keeps its length and the part `done` before `i`.
proof fn lemma_items_from_idempotent(orig: Seq<ItemV>, t: LuaTable, i: int, done: Seq<ItemV>)
    requires
        0 <= i <= orig.len(),
        done.len() == i,
        !(merge_items_from(orig, t, i, done) is Panics),
    ensures
        outcome_state(merge_items_from(orig, t, i, done), orig).len() == orig.len(),
        outcome_state(merge_items_from(orig, t, i, done), orig).subrange(0, i) == done,
        merge_items_from(outcome_state(merge_items_from(orig, t, i, done), orig), t, i, done)
            == merge_items_from(orig, t, i, done),
    decreases orig.len() - i,
{
    let o = merge_items_from(orig, t, i, done);
    let r = outcome_state(o, orig);
    if i < orig.len() {
        match value_to_table(t.at(i)) {
            Err(err) => {
                assert(r =~= done + orig.subrange(i, orig.len() as int));
                assert(r.subrange(0, i) =~= done);
                assert(r.subrange(i, r.len() as int) =~= orig.subrange(i, orig.len() as int));
            },
            Ok(at) => {
                law_item_merge_idempotent(orig[i], at);
                match merge_item(orig[i], at) {
                    Outcome::Finished(x) => {
                        lemma_items_from_idempotent(orig, t, i + 1, done.push(x));
                        assert(r.subrange(0, i + 1) == done.push(x));
                        assert(r[i] == r.subrange(0, i + 1)[i]);
                        assert(r.subrange(0, i) =~= r.subrange(0, i + 1).subrange(0, i));
                    },
                    Outcome::Failed(x, err) => {
                        assert(r =~= done.push(x) + orig.subrange(i + 1, orig.len() as int));
                        assert(r.subrange(0, i) =~= done);
                        assert(r[i] == x);
                        assert(r.subrange(i + 1, r.len() as int) =~= orig.subrange(i + 1, orig.len() as int));
                        assert(done.push(x) =~= r.subrange(0, i).push(x));
                    },
                    Outcome::Panics => {},
                }
            },
        }
    } else {
        assert(r.subrange(0, i) =~= done);
    }
}

/// Merging a description into a pattern a second time changes nothing more.
pub proof fn law_pat_merge_idempotent(p: PatV, t: LuaTable)
    ensures
        merge_pat(outcome_state(merge_pat(p, t), p), t) == merge_pat(p, t),
{
}

/// Merging a description into a parameter a second time changes nothing more.
pub proof fn law_arg_merge_idempotent(a: ArgV, t: LuaTable)
    requires
        !(merge_arg(a, t) is Panics),
    ensures
        merge_arg(outcome_state(merge_arg(a, t), a), t) == merge_arg(a, t),
{
    if let Ok(pt) = value_to_table(t.get("pat"@)) {
        if let Ok(id) = crate::lua::value_to_u32(t.get("id"@)) {
            let a1 = ArgV { id: crate::ast::NodeId(id), ..a };
            law_pat_merge_idempotent(a1.pat, pt);
        }
    }
}

/// Merging a description into a signature a second time changes nothing more.
pub proof fn law_fn_decl_merge_idempotent(d: FnDeclV, t: LuaTable)
    requires
        !(merge_fn_decl(d, t) is Panics),
    ensures
        merge_fn_decl(outcome_state(merge_fn_decl(d, t), d), t) == merge_fn_decl(d, t),
{
    if let Ok(at) = value_to_table(t.get("args"@)) {
        lemma_args_from_idempotent(d.inputs, at, 0, Seq::empty());
    }
}

/// Merging a description into a `let` statement a second time changes nothing more.
pub proof fn law_local_merge_idempotent(l: LocalV, t: LuaTable)
    requires
        !(merge_local(l, t) is Panics),
    ensures
        merge_local(outcome_state(merge_local(l, t), l), t) == merge_local(l, t),
{
    if let Ok(pt) = value_to_table(t.get("pat"@)) {
        law_pat_merge_idempotent(l.pat, pt);
        if let Ok(Some(it)) = crate::lua::value_to_opt_table(t.get("init"@)) {
            if let Outcome::Finished(p) = merge_pat(l.pat, pt) {
                if let Some(e) = l.init {
                    law_expr_merge_idempotent(e, it);
                }
            }
        }
    }
}

/// Merging a description into a statement a second time changes nothing more.
pub proof fn law_stmt_merge_idempotent(s: StmtV, t: LuaTable)
    requires
        !(merge_stmt(s, t) is Panics),
    ensures
        merge_stmt(outcome_state(merge_stmt(s, t), s), t) == merge_stmt(s, t),
    decreases s, 0int,
{
    match s {
        StmtV::Local(l) => law_local_merge_idempotent(l, t),
        StmtV::Item(i) => {
            if let Ok(it) = value_to_table(t.get("item"@)) {
                law_item_merge_idempotent(i, it);
            }
        },
        StmtV::Expr(e) => {
            if let Ok(et) = value_to_table(t.get("expr"@)) {
                law_expr_merge_idempotent(e, et);
            }
        },
        StmtV::Semi(e) => {
            if let Ok(et) = value_to_table(t.get("expr"@)) {
                law_expr_merge_idempotent(e, et);
            }
        },
        StmtV::Mac => {},
    }
}

/// Merging a description into a block a second time changes nothing more.
pub proof fn law_block_merge_idempotent(b: BlockV, t: LuaTable)
    requires
        !(merge_block(b, t) is Panics),
    ensures
        merge_block(outcome_state(merge_block(b, t), b), t) == merge_block(b, t),
    decreases b, 0int,
{
    if let Ok(st) = value_to_table(t.get("stmts"@)) {
        lemma_stmts_from_idempotent(b.stmts, st, 0, Seq::empty());
    }
}

/// Merging a description into an impl item a second time changes nothing more.
pub proof fn law_impl_item_merge_idempotent(ii: ImplItemV, t: LuaTable)
    requires
        !(merge_impl_item(ii, t) is Panics),
    ensures
        merge_impl_item(outcome_state(merge_impl_item(ii, t), ii), t) == merge_impl_item(ii, t),
    decreases ii, 0int,
{
    if let Ok(name) = value_to_string(t.get("ident"@)) {
        if let ImplItemKindV::Method(d, b) = ii.kind {
            if let Ok(dt) = value_to_table(t.get("decl"@)) {
                if let Ok(bt) = value_to_table(t.get("block"@)) {
                    law_fn_decl_merge_idempotent(d, dt);
                    if let Outcome::Finished(d2) = merge_fn_decl(d, dt) {
                        law_block_merge_idempotent(b, bt);
                    }
                }
            }
        }
    }
}

/// Merging a description into an item a second time changes nothing more.
pub proof fn law_item_merge_idempotent(it: ItemV, t: LuaTable)
    requires
        !(merge_item(it, t) is Panics),
    ensures
        merge_item(outcome_state(merge_item(it, t), it), t) == merge_item(it, t),
    decreases it, 0int,
{
    if let Ok(name) = value_to_string(t.get("ident"@)) {
        match it.kind {
            ItemKindV::Fn(d, b) => {
                if let Ok(dt) = value_to_table(t.get("decl"@)) {
                    if let Ok(bt) = value_to_table(t.get("block"@)) {
                        law_block_merge_idempotent(b, bt);
                        if let Outcome::Finished(b2) = merge_block(b, bt) {
                            law_fn_decl_merge_idempotent(d, dt);
                        }
                    }
                }
            },
            ItemKindV::Impl(items) => {
                if let Ok(its) = value_to_table(t.get("items"@)) {
                    lemma_impl_items_from_idempotent(items, its, 0, Seq::empty());
                }
            },
            ItemKindV::Other => {},
        }
    }
}

/// Merging a description into a module a second time changes nothing more.
pub proof fn law_mod_merge_idempotent(m: ModV, t: LuaTable)
    requires
        !(merge_mod(m, t) is Panics),
    ensures
        merge_mod(outcome_state(merge_mod(m, t), m), t) == merge_mod(m, t),
{
    if let Ok(its) = value_to_table(t.get("items"@)) {
        lemma_items_from_idempotent(m.items, its, 0, Seq::empty());
    }
}

/// Merging a description into a crate a second time changes nothing more.
pub proof fn law_crate_merge_idempotent(c: CrateV, t: LuaTable)
    requires
        !(merge_crate(c, t) is Panics),
    ensures
        merge_crate(outcome_state(merge_crate(c, t), c), t) == merge_crate(c, t),
{
    if let Ok(mt) = value_to_table(t.get("module"@)) {
        law_mod_merge_idempotent(c.module, mt);
    }
}

/// Merging a description into a function a second time changes nothing more.
pub proof fn law_fn_like_merge_idempotent(f: FnLikeV, t: LuaTable)
    requires
        !(merge_fn_like(f, t) is Panics),
    ensures
        merge_fn_like(outcome_state(merge_fn_like(f, t), f), t) == merge_fn_like(f, t),
{
    if let Ok(k) = value_to_string(t.get("kind"@)) {
        if let Ok(id) = crate::lua::value_to_u32(t.get("id"@)) {
            if let Ok(name) = value_to_string(t.get("ident"@)) {
                if let Ok(dt) = value_to_table(t.get("decl"@)) {
                    if id <= crate::ast::NODE_ID_MAX {
                        law_fn_decl_merge_idempotent(f.decl, dt);
                        if let Outcome::Finished(d) = merge_fn_decl(f.decl, dt) {
                            if let (Some(b), Ok(bt)) = (f.block, value_to_table(t.get("block"@))) {
                                law_block_merge_idempotent(b, bt);
                            }
                        }
                    }
                }
            }
        }
    }
}


/// Two statements of the same kind.
pub open spec fn same_stmt_kind(a: StmtV, b: StmtV) -> bool {
    match (a, b) {
        (StmtV::Local(_), StmtV::Local(_)) => true,
        (StmtV::Item(_), StmtV::Item(_)) => true,
        (StmtV::Expr(_), StmtV::Expr(_)) => true,
        (StmtV::Semi(_), StmtV::Semi(_)) => true,
        (StmtV::Mac, StmtV::Mac) => true,
        _ => false,
    }
}

/// Two items of the same kind.
pub open spec fn same_item_kind(a: ItemV, b: ItemV) -> bool {
    match (a.kind, b.kind) {
        (ItemKindV::Fn(..), ItemKindV::Fn(..)) => true,
        (ItemKindV::Impl(_), ItemKindV::Impl(_)) => true,
        (ItemKindV::Other, ItemKindV::Other) => true,
        _ => false,
    }
}

/// Two parameters whose patterns are of the same kind.
pub open spec fn same_arg_kind(a: ArgV, b: ArgV) -> bool {
    (a.pat is Ident) == (b.pat is Ident)
}

/// Two impl items of the same kind.
pub open spec fn same_impl_item_kind(a: ImplItemV, b: ImplItemV) -> bool {
    (a.kind is Method) == (b.kind is Method)
}

/// A merge over a list keeps its length, and each node keeps its kind.
proof fn lemma_args_from_shape(orig: Seq<ArgV>, t: LuaTable, i: int, done: Seq<ArgV>)
    requires
        0 <= i <= orig.len(),
        done.len() == i,
        forall|j: int| 0 <= j < i ==> same_arg_kind(#[trigger] done[j], orig[j]),
    ensures
        outcome_state(merge_args_from(orig, t, i, done), orig).len() == orig.len(),
        forall|j: int|
            0 <= j < orig.len() ==> same_arg_kind(
                #[trigger] outcome_state(merge_args_from(orig, t, i, done), orig)[j],
                orig[j],
            ),
    decreases orig.len() - i,
{
    let r = outcome_state(merge_args_from(orig, t, i, done), orig);
    if i < orig.len() {
        match value_to_table(t.at(i)) {
            Err(err) => {
                assert(r =~= done + orig.subrange(i, orig.len() as int));
            },
            Ok(at) => match merge_arg(orig[i], at) {
                Outcome::Finished(x) => {
                    assert(same_arg_kind(x, orig[i]));
                    assert forall|j: int| 0 <= j < i + 1 implies same_arg_kind(#[trigger] done.push(x)[j], orig[j]) by {
                        if j < i {
                            assert(done.push(x)[j] == done[j]);
                        }
                    }
                    lemma_args_from_shape(orig, t, i + 1, done.push(x));
                },
                Outcome::Failed(x, err) => {
                    assert(same_arg_kind(x, orig[i]));
                    assert(r =~= done.push(x) + orig.subrange(i + 1, orig.len() as int));
                    assert forall|j: int| 0 <= j < orig.len() implies same_arg_kind(#[trigger] r[j], orig[j]) by {
                        if j < i {
                            assert(r[j] == done[j]);
                        } else if j == i {
                            assert(r[j] == x);
                        } else {
                            assert(r[j] == orig[j]);
                        }
                    }
                },
                Outcome::Panics => {},
            },
        }
    }
}

/// A merge over a list keeps its length, and each node keeps its kind.
proof fn lemma_stmts_from_shape(orig: Seq<StmtV>, t: LuaTable, i: int, done: Seq<StmtV>)
    requires
        0 <= i <= orig.len(),
        done.len() == i,
        forall|j: int| 0 <= j < i ==> same_stmt_kind(#[trigger] done[j], orig[j]),
    ensures
        outcome_state(merge_stmts_from(orig, t, i, done), orig).len() == orig.len(),
        forall|j: int|
            0 <= j < orig.len() ==> same_stmt_kind(
                #[trigger] outcome_state(merge_stmts_from(orig, t, i, done), orig)[j],
                orig[j],
            ),
    decreases orig.len() - i,
{
    let r = outcome_state(merge_stmts_from(orig, t, i, done), orig);
    if i < orig.len() {
        match value_to_table(t.at(i)) {
            Err(err) => {
                assert(r =~= done + orig.subrange(i, orig.len() as int));
            },
            Ok(at) => match merge_stmt(orig[i], at) {
                Outcome::Finished(x) => {
                    assert(same_stmt_kind(x, orig[i]));
                    assert forall|j: int| 0 <= j < i + 1 implies same_stmt_kind(#[trigger] done.push(x)[j], orig[j]) by {
                        if j < i {
                            assert(done.push(x)[j] == done[j]);
                        }
                    }
                    lemma_stmts_from_shape(orig, t, i + 1, done.push(x));
                },
                Outcome::Failed(x, err) => {
                    assert(same_stmt_kind(x, orig[i]));
                    assert(r =~= done.push(x) + orig.subrange(i + 1, orig.len() as int));
                    assert forall|j: int| 0 <= j < orig.len() implies same_stmt_kind(#[trigger] r[j], orig[j]) by {
                        if j < i {
                            assert(r[j] == done[j]);
                        } else if j == i {
                            assert(r[j] == x);
                        } else {
                            assert(r[j] == orig[j]);
                        }
                    }
                },
                Outcome::Panics => {},
            },
        }
    }
}

/// A merge over a list keeps its length, and each node keeps its kind.
proof fn lemma_impl_items_from_shape(orig: Seq<ImplItemV>, t: LuaTable, i: int, done: Seq<ImplItemV>)
    requires
        0 <= i <= orig.len(),
        done.len() == i,
        forall|j: int| 0 <= j < i ==> same_impl_item_kind(#[trigger] done[j], orig[j]),
    ensures
        outcome_state(merge_impl_items_from(orig, t, i, done), orig).len() == orig.len(),
        forall|j: int|
            0 <= j < orig.len() ==> same_impl_item_kind(
                #[trigger] outcome_state(merge_impl_items_from(orig, t, i, done), orig)[j],
                orig[j],
            ),
    decreases orig.len() - i,
{
    let r = outcome_state(merge_impl_items_from(orig, t, i, done), orig);
    if i < orig.len() {
        match value_to_table(t.at(i)) {
            Err(err) => {
                assert(r =~= done + orig.subrange(i, orig.len() as int));
            },
            Ok(at) => match merge_impl_item(orig[i], at) {
                Outcome::Finished(x) => {
                    assert(same_impl_item_kind(x, orig[i]));
                    assert forall|j: int| 0 <= j < i + 1 implies same_impl_item_kind(#[trigger] done.push(x)[j], orig[j]) by {
                        if j < i {
                            assert(done.push(x)[j] == done[j]);
                        }
                    }
                    lemma_impl_items_from_shape(orig, t, i + 1, done.push(x));
                },
                Outcome::Failed(x, err) => {
                    assert(same_impl_item_kind(x, orig[i]));
                    assert(r =~= done.push(x) + orig.subrange(i + 1, orig.len() as int));
                    assert forall|j: int| 0 <= j < orig.len() implies same_impl_item_kind(#[trigger] r[j], orig[j]) by {
                        if j < i {
                            assert(r[j] == done[j]);
                        } else if j == i {
                            assert(r[j] == x);
                        } else {
                            assert(r[j] == orig[j]);
                        }
                    }
                },
                Outcome::Panics => {},
            },
        }
    }
}

/// A merge over a list keeps its length, and each node keeps its kind.
proof fn lemma_items_from_shape(orig: Seq<ItemV>, t: LuaTable, i: int, done: Seq<ItemV>)
    requires
        0 <= i <= orig.len(),
        done.len() == i,
        forall|j: int| 0 <= j < i ==> same_item_kind(#[trigger] done[j], orig[j]),
    ensures
        outcome_state(merge_items_from(orig, t, i, done), orig).len() == orig.len(),
        forall|j: int|
            0 <= j < orig.len() ==> same_item_kind(
                #[trigger] outcome_state(merge_items_from(orig, t, i, done), orig)[j],
                orig[j],
            ),
    decreases orig.len() - i,
{
    let r = outcome_state(merge_items_from(orig, t, i, done), orig);
    if i < orig.len() {
        match value_to_table(t.at(i)) {
            Err(err) => {
                assert(r =~= done + orig.subrange(i, orig.len() as int));
            },
            Ok(at) => match merge_item(orig[i], at) {
                Outcome::Finished(x) => {
                    assert(same_item_kind(x, orig[i]));
                    assert forall|j: int| 0 <= j < i + 1 implies same_item_kind(#[trigger] done.push(x)[j], orig[j]) by {
                        if j < i {
                            assert(done.push(x)[j] == done[j]);
                        }
                    }
                    lemma_items_from_shape(orig, t, i + 1, done.push(x));
                },
                Outcome::Failed(x, err) => {
                    assert(same_item_kind(x, orig[i]));
                    assert(r =~= done.push(x) + orig.subrange(i + 1, orig.len() as int));
                    assert forall|j: int| 0 <= j < orig.len() implies same_item_kind(#[trigger] r[j], orig[j]) by {
                        if j < i {
                            assert(r[j] == done[j]);
                        } else if j == i {
                            assert(r[j] == x);
                        } else {
                            assert(r[j] == orig[j]);
                        }
                    }
                },
                Outcome::Panics => {},
            },
        }
    }
}

/// A merge into a block neither adds nor removes statements, and each statement
/// keeps its kind, whether the merge succeeds or fails.
pub proof fn law_block_keeps_statements(b: BlockV, t: LuaTable)
    requires
        !(merge_block(b, t) is Panics),
    ensures
        outcome_state(merge_block(b, t), b).stmts.len() == b.stmts.len(),
        forall|i: int|
            0 <= i < b.stmts.len() ==> same_stmt_kind(
                #[trigger] outcome_state(merge_block(b, t), b).stmts[i],
                b.stmts[i],
            ),
{
    if let Ok(st) = value_to_table(t.get("stmts"@)) {
        lemma_stmts_from_shape(b.stmts, st, 0, Seq::empty());
    }
}

/// A merge into a module keeps its span, neither adds nor removes items, and
/// each item keeps its kind, whether the merge succeeds or fails.
pub proof fn law_mod_keeps_items(m: ModV, t: LuaTable)
    requires
        !(merge_mod(m, t) is Panics),
    ensures
        outcome_state(merge_mod(m, t), m).inner == m.inner,
        outcome_state(merge_mod(m, t), m).items.len() == m.items.len(),
        forall|i: int|
            0 <= i < m.items.len() ==> same_item_kind(
                #[trigger] outcome_state(merge_mod(m, t), m).items[i],
                m.items[i],
            ),
{
    if let Ok(its) = value_to_table(t.get("items"@)) {
        lemma_items_from_shape(m.items, its, 0, Seq::empty());
    }
}

/// A merge into a signature neither adds nor removes parameters, and each
/// parameter's pattern keeps its kind.
pub proof fn law_fn_decl_keeps_params(d: FnDeclV, t: LuaTable)
    requires
        !(merge_fn_decl(d, t) is Panics),
    ensures
        outcome_state(merge_fn_decl(d, t), d).inputs.len() == d.inputs.len(),
        forall|i: int|
            0 <= i < d.inputs.len() ==> same_arg_kind(
                #[trigger] outcome_state(merge_fn_decl(d, t), d).inputs[i],
                d.inputs[i],
            ),
{
    if let Ok(at) = value_to_table(t.get("args"@)) {
        lemma_args_from_shape(d.inputs, at, 0, Seq::empty());
    }
}

/// A merge into an item keeps its kind, and into an `impl` block neither adds
/// nor removes impl items, each of which keeps its kind.
pub proof fn law_item_keeps_impl_items(it: ItemV, t: LuaTable)
    requires
        !(merge_item(it, t) is Panics),
    ensures
        same_item_kind(outcome_state(merge_item(it, t), it), it),
        it.kind matches ItemKindV::Impl(items) ==> (outcome_state(merge_item(it, t), it).kind matches ItemKindV::Impl(items2)
            && items2.len() == items.len() && forall|i: int|
            0 <= i < items.len() ==> same_impl_item_kind(#[trigger] items2[i], items[i])),
{
    if let Ok(name) = value_to_string(t.get("ident"@)) {
        if let ItemKindV::Impl(items) = it.kind {
            if let Ok(its) = value_to_table(t.get("items"@)) {
                lemma_impl_items_from_shape(items, its, 0, Seq::empty());
            }
        }
    }
}


/// A merge into a pattern keeps its kind: a binding stays a binding.
pub proof fn law_pat_keeps_kind(p: PatV, t: LuaTable)
    ensures
        (outcome_state(merge_pat(p, t), p) is Ident) == (p is Ident),
{
}


/// `r` is what merging the description `t[k + 1]` into `x` gives, the merge succeeding.
pub open spec fn arg_merged_at(t: LuaTable, k: int, x: ArgV, r: ArgV) -> bool {
    match value_to_table(t.at(k)) {
        Ok(tk) => merge_arg(x, tk) == Outcome::Finished(r),
        Err(_) => false,
    }
}

/// `r` is what merging the description `t[k + 1]` into `x` gives, the merge succeeding.
pub open spec fn stmt_merged_at(t: LuaTable, k: int, x: StmtV, r: StmtV) -> bool {
    match value_to_table(t.at(k)) {
        Ok(tk) => merge_stmt(x, tk) == Outcome::Finished(r),
        Err(_) => false,
    }
}

/// `r` is what merging the description `t[k + 1]` into `x` gives, the merge succeeding.
pub open spec fn impl_item_merged_at(t: LuaTable, k: int, x: ImplItemV, r: ImplItemV) -> bool {
    match value_to_table(t.at(k)) {
        Ok(tk) => merge_impl_item(x, tk) == Outcome::Finished(r),
        Err(_) => false,
    }
}

/// `r` is what merging the description `t[k + 1]` into `x` gives, the merge succeeding.
pub open spec fn item_merged_at(t: LuaTable, k: int, x: ItemV, r: ItemV) -> bool {
    match value_to_table(t.at(k)) {
        Ok(tk) => merge_item(x, tk) == Outcome::Finished(r),
        Err(_) => false,
    }
}

/// A merge over a list that succeeds keeps the nodes `done` before `i`, and
/// leaves at each later position what merging that position's description
/// into the node there gives.
proof fn lemma_args_from_success(orig: Seq<ArgV>, t: LuaTable, i: int, done: Seq<ArgV>)
    requires
        0 <= i <= orig.len(),
        done.len() == i,
        merge_args_from(orig, t, i, done) is Finished,
    ensures
        outcome_state(merge_args_from(orig, t, i, done), orig).len() == orig.len(),
        outcome_state(merge_args_from(orig, t, i, done), orig).subrange(0, i) == done,
        forall|k: int|
            i <= k < orig.len() ==> arg_merged_at(t, k, orig[k], #[trigger] outcome_state(merge_args_from(orig, t, i, done), orig)[k]),
    decreases orig.len() - i,
{
    let r = outcome_state(merge_args_from(orig, t, i, done), orig);
    if i < orig.len() {
        if let Ok(at) = value_to_table(t.at(i)) {
            if let Outcome::Finished(x) = merge_arg(orig[i], at) {
                lemma_args_from_success(orig, t, i + 1, done.push(x));
                assert(r.subrange(0, i + 1) == done.push(x));
                assert(r[i] == r.subrange(0, i + 1)[i]);
                assert(r.subrange(0, i) =~= r.subrange(0, i + 1).subrange(0, i));
                assert forall|k: int| i <= k < orig.len() implies arg_merged_at(t, k, orig[k], #[trigger] outcome_state(merge_args_from(orig, t, i, done), orig)[k]) by {
                    if k == i {
                        assert(r[i] == x);
                    } else {
                        assert(outcome_state(merge_args_from(orig, t, i + 1, done.push(x)), orig)[k] == r[k]);
                    }
                }
            }
        }
    } else {
        assert(r.subrange(0, i) =~= done);
    }
}

/// A merge over a list reads no description past the end of the list.
proof fn lemma_args_from_prefix(orig: Seq<ArgV>, t1: LuaTable, t2: LuaTable, i: int, done: Seq<ArgV>)
    requires
        forall|k: int| 0 <= k < orig.len() ==> #[trigger] t1.at(k) == t2.at(k),
    ensures
        merge_args_from(orig, t1, i, done) == merge_args_from(orig, t2, i, done),
    decreases orig.len() - i,
{
    if 0 <= i < orig.len() {
        assert(t1.at(i) == t2.at(i));
        if let Ok(at) = value_to_table(t1.at(i)) {
            if let Outcome::Finished(x) = merge_arg(orig[i], at) {
                lemma_args_from_prefix(orig, t1, t2, i + 1, done.push(x));
            }
        }
    }
}

/// A merge over a list that succeeds keeps the nodes `done` before `i`, and
/// leaves at each later position what merging that position's description
/// into the node there gives.
proof fn lemma_stmts_from_success(orig: Seq<StmtV>, t: LuaTable, i: int, done: Seq<StmtV>)
    requires
        0 <= i <= orig.len(),
        done.len() == i,
        merge_stmts_from(orig, t, i, done) is Finished,
    ensures
        outcome_state(merge_stmts_from(orig, t, i, done), orig).len() == orig.len(),
        outcome_state(merge_stmts_from(orig, t, i, done), orig).subrange(0, i) == done,
        forall|k: int|
            i <= k < orig.len() ==> stmt_merged_at(t, k, orig[k], #[trigger] outcome_state(merge_stmts_from(orig, t, i, done), orig)[k]),
    decreases orig.len() - i,
{
    let r = outcome_state(merge_stmts_from(orig, t, i, done), orig);
    if i < orig.len() {
        if let Ok(at) = value_to_table(t.at(i)) {
            if let Outcome::Finished(x) = merge_stmt(orig[i], at) {
                lemma_stmts_from_success(orig, t, i + 1, done.push(x));
                assert(r.subrange(0, i + 1) == done.push(x));
                assert(r[i] == r.subrange(0, i + 1)[i]);
                assert(r.subrange(0, i) =~= r.subrange(0, i + 1).subrange(0, i));
                assert forall|k: int| i <= k < orig.len() implies stmt_merged_at(t, k, orig[k], #[trigger] outcome_state(merge_stmts_from(orig, t, i, done), orig)[k]) by {
                    if k == i {
                        assert(r[i] == x);
                    } else {
                        assert(outcome_state(merge_stmts_from(orig, t, i + 1, done.push(x)), orig)[k] == r[k]);
                    }
                }
            }
        }
    } else {
        assert(r.subrange(0, i) =~= done);
    }
}

/// A merge over a list reads no description past the end of the list.
proof fn lemma_stmts_from_prefix(orig: Seq<StmtV>, t1: LuaTable, t2: LuaTable, i: int, done: Seq<StmtV>)
    requires
        forall|k: int| 0 <= k < orig.len() ==> #[trigger] t1.at(k) == t2.at(k),
    ensures
        merge_stmts_from(orig, t1, i, done) == merge_stmts_from(orig, t2, i, done),
    decreases orig.len() - i,
{
    if 0 <= i < orig.len() {
        assert(t1.at(i) == t2.at(i));
        if let Ok(at) = value_to_table(t1.at(i)) {
            if let Outcome::Finished(x) = merge_stmt(orig[i], at) {
                lemma_stmts_from_prefix(orig, t1, t2, i + 1, done.push(x));
            }
        }
    }
}

/// A merge over a list that succeeds keeps the nodes `done` before `i`, and
/// leaves at each later position what merging that position's description
/// into the node there gives.
proof fn lemma_impl_items_from_success(orig: Seq<ImplItemV>, t: LuaTable, i: int, done: Seq<ImplItemV>)
    requires
        0 <= i <= orig.len(),
        done.len() == i,
        merge_impl_items_from(orig, t, i, done) is Finished,
    ensures
        outcome_state(merge_impl_items_from(orig, t, i, done), orig).len() == orig.len(),
        outcome_state(merge_impl_items_from(orig, t, i, done), orig).subrange(0, i) == done,
        forall|k: int|
            i <= k < orig.len() ==> impl_item_merged_at(t, k, orig[k], #[trigger] outcome_state(merge_impl_items_from(orig, t, i, done), orig)[k]),
    decreases orig.len() - i,
{
    let r = outcome_state(merge_impl_items_from(orig, t, i, done), orig);
    if i < orig.len() {
        if let Ok(at) = value_to_table(t.at(i)) {
            if let Outcome::Finished(x) = merge_impl_item(orig[i], at) {
                lemma_impl_items_from_success(orig, t, i + 1, done.push(x));
                assert(r.subrange(0, i + 1) == done.push(x));
                assert(r[i] == r.subrange(0, i + 1)[i]);
                assert(r.subrange(0, i) =~= r.subrange(0, i + 1).subrange(0, i));
                assert forall|k: int| i <= k < orig.len() implies impl_item_merged_at(t, k, orig[k], #[trigger] outcome_state(merge_impl_items_from(orig, t, i, done), orig)[k]) by {
                    if k == i {
                        assert(r[i] == x);
                    } else {
                        assert(outcome_state(merge_impl_items_from(orig, t, i + 1, done.push(x)), orig)[k] == r[k]);
                    }
                }
            }
        }
    } else {
        assert(r.subrange(0, i) =~= done);
    }
}

/// A merge over a list reads no description past the end of the list.
proof fn lemma_impl_items_from_prefix(orig: Seq<ImplItemV>, t1: LuaTable, t2: LuaTable, i: int, done: Seq<ImplItemV>)
    requires
        forall|k: int| 0 <= k < orig.len() ==> #[trigger] t1.at(k) == t2.at(k),
    ensures
        merge_impl_items_from(orig, t1, i, done) == merge_impl_items_from(orig, t2, i, done),
    decreases orig.len() - i,
{
    if 0 <= i < orig.len() {
        assert(t1.at(i) == t2.at(i));
        if let Ok(at) = value_to_table(t1.at(i)) {
            if let Outcome::Finished(x) = merge_impl_item(orig[i], at) {
                lemma_impl_items_from_prefix(orig, t1, t2, i + 1, done.push(x));
            }
        }
    }
}

/// A merge over a list that succeeds keeps the nodes `done` before `i`, and
/// leaves at each later position what merging that position's description
/// into the node there gives.
proof fn lemma_items_from_success(orig: Seq<ItemV>, t: LuaTable, i: int, done: Seq<ItemV>)
    requires
        0 <= i <= orig.len(),
        done.len() == i,
        merge_items_from(orig, t, i, done) is Finished,
    ensures
        outcome_state(merge_items_from(orig, t, i, done), orig).len() == orig.len(),
        outcome_state(merge_items_from(orig, t, i, done), orig).subrange(0, i) == done,
        forall|k: int|
            i <= k < orig.len() ==> item_merged_at(t, k, orig[k], #[trigger] outcome_state(merge_items_from(orig, t, i, done), orig)[k]),
    decreases orig.len() - i,
{
    let r = outcome_state(merge_items_from(orig, t, i, done), orig);
    if i < orig.len() {
        if let Ok(at) = value_to_table(t.at(i)) {
            if let Outcome::Finished(x) = merge_item(orig[i], at) {
                lemma_items_from_success(orig, t, i + 1, done.push(x));
                assert(r.subrange(0, i + 1) == done.push(x));
                assert(r[i] == r.subrange(0, i + 1)[i]);
                assert(r.subrange(0, i) =~= r.subrange(0, i + 1).subrange(0, i));
                assert forall|k: int| i <= k < orig.len() implies item_merged_at(t, k, orig[k], #[trigger] outcome_state(merge_items_from(orig, t, i, done), orig)[k]) by {
                    if k == i {
                        assert(r[i] == x);
                    } else {
                        assert(outcome_state(merge_items_from(orig, t, i + 1, done.push(x)), orig)[k] == r[k]);
                    }
                }
            }
        }
    } else {
        assert(r.subrange(0, i) =~= done);
    }
}

/// A merge over a list reads no description past the end of the list.
proof fn lemma_items_from_prefix(orig: Seq<ItemV>, t1: LuaTable, t2: LuaTable, i: int, done: Seq<ItemV>)
    requires
        forall|k: int| 0 <= k < orig.len() ==> #[trigger] t1.at(k) == t2.at(k),
    ensures
        merge_items_from(orig, t1, i, done) == merge_items_from(orig, t2, i, done),
    decreases orig.len() - i,
{
    if 0 <= i < orig.len() {
        assert(t1.at(i) == t2.at(i));
        if let Ok(at) = value_to_table(t1.at(i)) {
            if let Outcome::Finished(x) = merge_item(orig[i], at) {
                lemma_items_from_prefix(orig, t1, t2, i + 1, done.push(x));
            }
        }
    }
}

/// A block merge that succeeds leaves as the `k`-th statement what merging the
/// `k`-th description of `t["stmts"]` into the `k`-th statement gives.
pub proof fn law_block_merges_each_statement(b: BlockV, t: LuaTable)
    requires
        merge_block(b, t) is Finished,
    ensures
        outcome_state(merge_block(b, t), b).stmts.len() == b.stmts.len(),
        value_to_table(t.get("stmts"@)) matches Ok(st) && forall|k: int|
            0 <= k < b.stmts.len() ==> stmt_merged_at(st, k, b.stmts[k], #[trigger] outcome_state(merge_block(b, t), b).stmts[k]),
{
    if let Ok(st) = value_to_table(t.get("stmts"@)) {
        lemma_stmts_from_success(b.stmts, st, 0, Seq::empty());
    }
}

/// A block merge reads no statement description past the last statement.
pub proof fn law_block_ignores_extra_statements(b: BlockV, t1: LuaTable, t2: LuaTable)
    requires
        value_to_table(t1.get("stmts"@)) matches Ok(s1) && value_to_table(t2.get("stmts"@)) matches Ok(s2)
            && forall|k: int| 0 <= k < b.stmts.len() ==> #[trigger] s1.at(k) == s2.at(k),
    ensures
        merge_block(b, t1) == merge_block(b, t2),
{
    if let (Ok(s1), Ok(s2)) = (value_to_table(t1.get("stmts"@)), value_to_table(t2.get("stmts"@))) {
        lemma_stmts_from_prefix(b.stmts, s1, s2, 0, Seq::empty());
    }
}

/// A module merge that succeeds sets `inline` from `t["inline"]`, and leaves as
/// the `k`-th item what merging the `k`-th description of `t["items"]` into the
/// `k`-th item gives.
pub proof fn law_mod_merges_each_item(m: ModV, t: LuaTable)
    requires
        merge_mod(m, t) is Finished,
    ensures
        outcome_state(merge_mod(m, t), m).inner == m.inner,
        outcome_state(merge_mod(m, t), m).inline == value_to_bool(t.get("inline"@)),
        outcome_state(merge_mod(m, t), m).items.len() == m.items.len(),
        value_to_table(t.get("items"@)) matches Ok(its) && forall|k: int|
            0 <= k < m.items.len() ==> item_merged_at(its, k, m.items[k], #[trigger] outcome_state(merge_mod(m, t), m).items[k]),
{
    if let Ok(its) = value_to_table(t.get("items"@)) {
        lemma_items_from_success(m.items, its, 0, Seq::empty());
    }
}

/// A module merge reads no item description past the last item.
pub proof fn law_mod_ignores_extra_items(m: ModV, t1: LuaTable, t2: LuaTable)
    requires
        value_to_bool(t1.get("inline"@)) == value_to_bool(t2.get("inline"@)),
        value_to_table(t1.get("items"@)) matches Ok(s1) && value_to_table(t2.get("items"@)) matches Ok(s2)
            && forall|k: int| 0 <= k < m.items.len() ==> #[trigger] s1.at(k) == s2.at(k),
    ensures
        merge_mod(m, t1) == merge_mod(m, t2),
{
    if let (Ok(s1), Ok(s2)) = (value_to_table(t1.get("items"@)), value_to_table(t2.get("items"@))) {
        lemma_items_from_prefix(m.items, s1, s2, 0, Seq::empty());
    }
}

/// A signature merge that succeeds leaves as the `k`-th parameter what merging
/// the `k`-th description of `t["args"]` into the `k`-th parameter gives.
pub proof fn law_fn_decl_merges_each_param(d: FnDeclV, t: LuaTable)
    requires
        merge_fn_decl(d, t) is Finished,
    ensures
        outcome_state(merge_fn_decl(d, t), d).inputs.len() == d.inputs.len(),
        value_to_table(t.get("args"@)) matches Ok(at) && forall|k: int|
            0 <= k < d.inputs.len() ==> arg_merged_at(at, k, d.inputs[k], #[trigger] outcome_state(merge_fn_decl(d, t), d).inputs[k]),
{
    if let Ok(at) = value_to_table(t.get("args"@)) {
        lemma_args_from_success(d.inputs, at, 0, Seq::empty());
    }
}

/// A signature merge reads no parameter description past the last parameter.
pub proof fn law_fn_decl_ignores_extra_params(d: FnDeclV, t1: LuaTable, t2: LuaTable)
    requires
        value_to_table(t1.get("args"@)) matches Ok(s1) && value_to_table(t2.get("args"@)) matches Ok(s2)
            && forall|k: int| 0 <= k < d.inputs.len() ==> #[trigger] s1.at(k) == s2.at(k),
    ensures
        merge_fn_decl(d, t1) == merge_fn_decl(d, t2),
{
    if let (Ok(s1), Ok(s2)) = (value_to_table(t1.get("args"@)), value_to_table(t2.get("args"@))) {
        lemma_args_from_prefix(d.inputs, s1, s2, 0, Seq::empty());
    }
}

/// An `impl` block merge that succeeds leaves as the `k`-th impl item what
/// merging the `k`-th description of `t["items"]` into the `k`-th impl item gives.
pub proof fn law_impl_merges_each_impl_item(it: ItemV, t: LuaTable)
    requires
        it.kind is Impl,
        merge_item(it, t) is Finished,
    ensures
        match (it.kind, outcome_state(merge_item(it, t), it).kind, value_to_table(t.get("items"@))) {
            (ItemKindV::Impl(items), ItemKindV::Impl(items2), Ok(its)) => items2.len() == items.len()
                && forall|k: int|
                0 <= k < items.len() ==> impl_item_merged_at(its, k, items[k], #[trigger] items2[k]),
            _ => false,
        },
{
    if let ItemKindV::Impl(items) = it.kind {
        if let Ok(its) = value_to_table(t.get("items"@)) {
            lemma_impl_items_from_success(items, its, 0, Seq::empty());
        }
    }
}

/// An `impl` block merge reads no impl item description past the last impl item.
pub proof fn law_impl_ignores_extra_impl_items(it: ItemV, t1: LuaTable, t2: LuaTable)
    requires
        value_to_string(t1.get("ident"@)) == value_to_string(t2.get("ident"@)),
        match (it.kind, value_to_table(t1.get("items"@)), value_to_table(t2.get("items"@))) {
            (ItemKindV::Impl(items), Ok(s1), Ok(s2)) => forall|k: int|
                0 <= k < items.len() ==> #[trigger] s1.at(k) == s2.at(k),
            _ => false,
        },
    ensures
        merge_item(it, t1) == merge_item(it, t2),
{
    if let ItemKindV::Impl(items) = it.kind {
        if let (Ok(s1), Ok(s2)) = (value_to_table(t1.get("items"@)), value_to_table(t2.get("items"@))) {
            lemma_impl_items_from_prefix(items, s1, s2, 0, Seq::empty());
        }
    }
}


/// A Lua integer whose conversions hold reads as its decimal text, and as the
/// same number where it fits a `u32`.
pub proof fn law_integer_reads(v: LuaValue)
    requires
        v is Integer,
        v.coercions_hold(),
    ensures
        v matches LuaValue::Integer(i, _) && value_to_string(v) == Ok::<Seq<char>, LuaErrorV>(integer_text(i as int))
            && (0 <= i <= u32::MAX ==> value_to_u32(v) == Ok::<u32, LuaErrorV>(i as u32))
            && (i < 0 || i > u32::MAX ==> value_to_u32(v) is Err),
{
}

} // verus!
