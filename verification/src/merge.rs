//! Merging Lua descriptions into the statements, items and declarations of a
//! syntax tree. These merges walk the tree as it is: the `k`-th statement, item
//! or parameter takes the `k`-th description, and none is added or removed.
//! A merge writes the fields in the order the description is read, so one that
//! fails leaves the fields it wrote before the failure.

use vstd::prelude::*;
use crate::ast::{
    args_view, impl_item_view, impl_items_view, item_view, items_view, lemma_impl_items_view,
    lemma_items_view, lemma_stmts_view, stmt_view, stmts_view, Arg, ArgV, Block, BlockV, Crate,
    CrateV, FnDecl, FnDeclV, FnLike, FnLikeV, ImplItem, ImplItemKind, ImplItemKindV, ImplItemV,
    Item, ItemKind, ItemKindV, ItemV, Local, LocalV, Mod, ModV, NodeId, Pat, PatV, Stmt, StmtV,
    NODE_ID_MAX,
};
use crate::expr::merge_expr;
use crate::lua::{
    value_to_bool, value_to_opt_table, value_to_string, value_to_table, value_to_u32, LuaError,
    LuaErrorV, LuaTable,
};
use crate::names::{binding_named, binding_of, fn_kind_named, fn_kind_of};
use crate::outcome::{lift, outcome_holds, Outcome};

verus! {

pub open spec fn merge_pat(p: PatV, t: LuaTable) -> Outcome<PatV> {
    match p {
        PatV::Ident(b, name) => match value_to_string(t.get("binding"@)) {
            Err(err) => Outcome::Failed(p, err),
            Ok(s) => {
                let b2 = binding_named(s, b);
                match value_to_string(t.get("ident"@)) {
                    Err(err) => Outcome::Failed(PatV::Ident(b2, name), err),
                    Ok(n) => Outcome::Finished(PatV::Ident(b2, n)),
                }
            },
        },
        PatV::Other => Outcome::Finished(p),
    }
}

pub open spec fn merge_arg(a: ArgV, t: LuaTable) -> Outcome<ArgV> {
    match value_to_u32(t.get("id"@)) {
        Err(err) => Outcome::Failed(a, err),
        Ok(id) => if id > NODE_ID_MAX {
            Outcome::Panics
        } else {
            let a1 = ArgV { id: NodeId(id), ..a };
            match value_to_table(t.get("pat"@)) {
                Err(err) => Outcome::Failed(a1, err),
                Ok(pt) => lift(merge_pat(a1.pat, pt), |p: PatV| ArgV { pat: p, ..a1 }),
            }
        },
    }
}

/// Merging the descriptions `t[i + 1], ..` into the parameters `orig[i], ..`,
/// after the parameters `done` that took the earlier descriptions.
pub open spec fn merge_args_from(orig: Seq<ArgV>, t: LuaTable, i: int, done: Seq<ArgV>) -> Outcome<
    Seq<ArgV>,
>
    decreases orig.len() - i,
{
    if i < 0 || i >= orig.len() {
        Outcome::Finished(done)
    } else {
        match value_to_table(t.at(i)) {
            Err(err) => Outcome::Failed(done + orig.subrange(i, orig.len() as int), err),
            Ok(at) => match merge_arg(orig[i], at) {
                Outcome::Finished(a) => merge_args_from(orig, t, i + 1, done.push(a)),
                Outcome::Failed(a, err) => Outcome::Failed(
                    done.push(a) + orig.subrange(i + 1, orig.len() as int),
                    err,
                ),
                Outcome::Panics => Outcome::Panics,
            },
        }
    }
}

pub open spec fn merge_fn_decl(d: FnDeclV, t: LuaTable) -> Outcome<FnDeclV> {
    match value_to_table(t.get("args"@)) {
        Err(err) => Outcome::Failed(d, err),
        Ok(at) => lift(
            merge_args_from(d.inputs, at, 0, Seq::empty()),
            |s: Seq<ArgV>| FnDeclV { inputs: s },
        ),
    }
}

pub open spec fn merge_local(l: LocalV, t: LuaTable) -> Outcome<LocalV> {
    match value_to_table(t.get("pat"@)) {
        Err(err) => Outcome::Failed(l, err),
        Ok(pt) => match value_to_opt_table(t.get("init"@)) {
            Err(err) => Outcome::Failed(l, err),
            Ok(init) => match merge_pat(l.pat, pt) {
                Outcome::Panics => Outcome::Panics,
                Outcome::Failed(p, err) => Outcome::Failed(LocalV { pat: p, ..l }, err),
                Outcome::Finished(p) => {
                    let l1 = LocalV { pat: p, ..l };
                    match l.init {
                        Some(e) => match init {
                            Some(it) => lift(
                                merge_expr(e, it),
                                |x| LocalV { init: Some(x), ..l1 },
                            ),
                            None => Outcome::Finished(LocalV { init: None, ..l1 }),
                        },
                        None => match init {
                            Some(_) => Outcome::Panics,
                            None => Outcome::Finished(l1),
                        },
                    }
                },
            },
        },
    }
}

pub open spec fn merge_stmt(s: StmtV, t: LuaTable) -> Outcome<StmtV>
    decreases s, 0int,
{
    match s {
        StmtV::Local(l) => lift(merge_local(l, t), |x| StmtV::Local(x)),
        StmtV::Item(i) => match value_to_table(t.get("item"@)) {
            Err(err) => Outcome::Failed(s, err),
            Ok(it) => lift(merge_item(i, it), |x| StmtV::Item(x)),
        },
        StmtV::Expr(e) => match value_to_table(t.get("expr"@)) {
            Err(err) => Outcome::Failed(s, err),
            Ok(et) => lift(merge_expr(e, et), |x| StmtV::Expr(x)),
        },
        StmtV::Semi(e) => match value_to_table(t.get("expr"@)) {
            Err(err) => Outcome::Failed(s, err),
            Ok(et) => lift(merge_expr(e, et), |x| StmtV::Semi(x)),
        },
        StmtV::Mac => Outcome::Finished(s),
    }
}

/// Merging the descriptions `t[i + 1], ..` into the statements `orig[i], ..`,
/// after the statements `done` that took the earlier descriptions.
pub open spec fn merge_stmts_from(orig: Seq<StmtV>, t: LuaTable, i: int, done: Seq<StmtV>) -> Outcome<
    Seq<StmtV>,
>
    decreases orig, orig.len() - i,
{
    if i < 0 || i >= orig.len() {
        Outcome::Finished(done)
    } else {
        match value_to_table(t.at(i)) {
            Err(err) => Outcome::Failed(done + orig.subrange(i, orig.len() as int), err),
            Ok(st) => match merge_stmt(orig[i], st) {
                Outcome::Finished(s) => merge_stmts_from(orig, t, i + 1, done.push(s)),
                Outcome::Failed(s, err) => Outcome::Failed(
                    done.push(s) + orig.subrange(i + 1, orig.len() as int),
                    err,
                ),
                Outcome::Panics => Outcome::Panics,
            },
        }
    }
}

pub open spec fn merge_block(b: BlockV, t: LuaTable) -> Outcome<BlockV>
    decreases b, 0int,
{
    match value_to_table(t.get("stmts"@)) {
        Err(err) => Outcome::Failed(b, err),
        Ok(st) => lift(
            merge_stmts_from(b.stmts, st, 0, Seq::empty()),
            |s: Seq<StmtV>| BlockV { stmts: s },
        ),
    }
}

pub open spec fn merge_impl_item(ii: ImplItemV, t: LuaTable) -> Outcome<ImplItemV>
    decreases ii, 0int,
{
    match value_to_string(t.get("ident"@)) {
        Err(err) => Outcome::Failed(ii, err),
        Ok(name) => {
            let ii1 = ImplItemV { ident: name, ..ii };
            match ii.kind {
                ImplItemKindV::Method(d, b) => match value_to_table(t.get("decl"@)) {
                    Err(err) => Outcome::Failed(ii1, err),
                    Ok(dt) => match value_to_table(t.get("block"@)) {
                        Err(err) => Outcome::Failed(ii1, err),
                        Ok(bt) => match merge_fn_decl(d, dt) {
                            Outcome::Panics => Outcome::Panics,
                            Outcome::Failed(d2, err) => Outcome::Failed(
                                ImplItemV { kind: ImplItemKindV::Method(d2, b), ..ii1 },
                                err,
                            ),
                            Outcome::Finished(d2) => lift(
                                merge_block(b, bt),
                                |b2| ImplItemV { kind: ImplItemKindV::Method(d2, b2), ..ii1 },
                            ),
                        },
                    },
                },
                ImplItemKindV::Other => Outcome::Panics,
            }
        },
    }
}

/// Merging the descriptions `t[i + 1], ..` into the impl items `orig[i], ..`,
/// after the impl items `done` that took the earlier descriptions.
pub open spec fn merge_impl_items_from(
    orig: Seq<ImplItemV>,
    t: LuaTable,
    i: int,
    done: Seq<ImplItemV>,
) -> Outcome<Seq<ImplItemV>>
    decreases orig, orig.len() - i,
{
    if i < 0 || i >= orig.len() {
        Outcome::Finished(done)
    } else {
        match value_to_table(t.at(i)) {
            Err(err) => Outcome::Failed(done + orig.subrange(i, orig.len() as int), err),
            Ok(it) => match merge_impl_item(orig[i], it) {
                Outcome::Finished(x) => merge_impl_items_from(orig, t, i + 1, done.push(x)),
                Outcome::Failed(x, err) => Outcome::Failed(
                    done.push(x) + orig.subrange(i + 1, orig.len() as int),
                    err,
                ),
                Outcome::Panics => Outcome::Panics,
            },
        }
    }
}

pub open spec fn merge_item(it: ItemV, t: LuaTable) -> Outcome<ItemV>
    decreases it, 0int,
{
    match value_to_string(t.get("ident"@)) {
        Err(err) => Outcome::Failed(it, err),
        Ok(name) => {
            let it1 = ItemV { ident: name, ..it };
            match it.kind {
                ItemKindV::Fn(d, b) => match value_to_table(t.get("decl"@)) {
                    Err(err) => Outcome::Failed(it1, err),
                    Ok(dt) => match value_to_table(t.get("block"@)) {
                        Err(err) => Outcome::Failed(it1, err),
                        Ok(bt) => match merge_block(b, bt) {
                            Outcome::Panics => Outcome::Panics,
                            Outcome::Failed(b2, err) => Outcome::Failed(
                                ItemV { kind: ItemKindV::Fn(d, b2), ..it1 },
                                err,
                            ),
                            Outcome::Finished(b2) => lift(
                                merge_fn_decl(d, dt),
                                |d2| ItemV { kind: ItemKindV::Fn(d2, b2), ..it1 },
                            ),
                        },
                    },
                },
                ItemKindV::Impl(items) => match value_to_table(t.get("items"@)) {
                    Err(err) => Outcome::Failed(it1, err),
                    Ok(its) => lift(
                        merge_impl_items_from(items, its, 0, Seq::empty()),
                        |s| ItemV { kind: ItemKindV::Impl(s), ..it1 },
                    ),
                },
                ItemKindV::Other => Outcome::Finished(it1),
            }
        },
    }
}

/// Merging the descriptions `t[i + 1], ..` into the items `orig[i], ..`,
/// after the items `done` that took the earlier descriptions.
pub open spec fn merge_items_from(orig: Seq<ItemV>, t: LuaTable, i: int, done: Seq<ItemV>) -> Outcome<
    Seq<ItemV>,
>
    decreases orig.len() - i,
{
    if i < 0 || i >= orig.len() {
        Outcome::Finished(done)
    } else {
        match value_to_table(t.at(i)) {
            Err(err) => Outcome::Failed(done + orig.subrange(i, orig.len() as int), err),
            Ok(it) => match merge_item(orig[i], it) {
                Outcome::Finished(x) => merge_items_from(orig, t, i + 1, done.push(x)),
                Outcome::Failed(x, err) => Outcome::Failed(
                    done.push(x) + orig.subrange(i + 1, orig.len() as int),
                    err,
                ),
                Outcome::Panics => Outcome::Panics,
            },
        }
    }
}

pub open spec fn merge_mod(m: ModV, t: LuaTable) -> Outcome<ModV> {
    match value_to_table(t.get("items"@)) {
        Err(err) => Outcome::Failed(m, err),
        Ok(its) => {
            let m1 = ModV { inline: value_to_bool(t.get("inline"@)), ..m };
            lift(merge_items_from(m.items, its, 0, Seq::empty()), |s| ModV { items: s, ..m1 })
        },
    }
}

pub open spec fn merge_crate(c: CrateV, t: LuaTable) -> Outcome<CrateV> {
    match value_to_table(t.get("module"@)) {
        Err(err) => Outcome::Failed(c, err),
        Ok(mt) => lift(merge_mod(c.module, mt), |m| CrateV { module: m }),
    }
}

pub open spec fn merge_fn_like(f: FnLikeV, t: LuaTable) -> Outcome<FnLikeV> {
    match value_to_string(t.get("kind"@)) {
        Err(err) => Outcome::Failed(f, err),
        Ok(k) => {
            let f1 = FnLikeV { kind: fn_kind_named(k, f.kind), ..f };
            match value_to_u32(t.get("id"@)) {
                Err(err) => Outcome::Failed(f1, err),
                Ok(id) => if id > NODE_ID_MAX {
                    Outcome::Panics
                } else {
                    let f2 = FnLikeV { id: NodeId(id), ..f1 };
                    match value_to_string(t.get("ident"@)) {
                        Err(err) => Outcome::Failed(f2, err),
                        Ok(name) => {
                            let f3 = FnLikeV { ident: name, ..f2 };
                            match value_to_table(t.get("decl"@)) {
                                Err(err) => Outcome::Failed(f3, err),
                                Ok(dt) => match merge_fn_decl(f3.decl, dt) {
                                    Outcome::Panics => Outcome::Panics,
                                    Outcome::Failed(d, err) => Outcome::Failed(
                                        FnLikeV { decl: d, ..f3 },
                                        err,
                                    ),
                                    Outcome::Finished(d) => {
                                        let f4 = FnLikeV { decl: d, ..f3 };
                                        match f4.block {
                                            Some(b) => match value_to_table(t.get("block"@)) {
                                                Err(err) => Outcome::Failed(f4, err),
                                                Ok(bt) => lift(
                                                    merge_block(b, bt),
                                                    |b2| FnLikeV { block: Some(b2), ..f4 },
                                                ),
                                            },
                                            None => Outcome::Finished(f4),
                                        }
                                    },
                                },
                            }
                        },
                    }
                },
            }
        },
    }
}


impl Pat {
    /// Merges the Lua description `table` into this pattern.
    pub fn merge_lua_ast(&mut self, table: &LuaTable) -> (r: Result<(), LuaError>)
        ensures
            outcome_holds(merge_pat(old(self)@, *table), final(self)@, r),
    {
        match self {
            Pat::Ident(binding, ident) => {
                let s = match table.get_string("binding") {
                    Ok(s) => s,
                    Err(e) => return Err(e),
                };
                *binding = binding_of(&s, *binding);
                let name = match table.get_string("ident") {
                    Ok(s) => s,
                    Err(e) => return Err(e),
                };
                *ident = name;
                Ok(())
            },
            Pat::Other => Ok(()),
        }
    }
}

impl Arg {
    /// Merges the Lua description `table` into this parameter.
    pub fn merge_lua_ast(&mut self, table: &LuaTable) -> (r: Result<(), LuaError>)
        requires
            !(merge_arg(old(self)@, *table) is Panics),
        ensures
            outcome_holds(merge_arg(old(self)@, *table), final(self)@, r),
    {
        let id = match table.get_u32("id") {
            Ok(n) => n,
            Err(e) => return Err(e),
        };
        self.id = NodeId::from_u32(id);
        let pat = match table.get_table("pat") {
            Ok(t) => t,
            Err(e) => return Err(e),
        };
        self.pat.merge_lua_ast(pat)
    }
}

impl FnDecl {
    /// Merges the Lua description `table` into this signature: the `k`-th
    /// parameter takes the `k`-th description of `table["args"]`.
    pub fn merge_lua_ast(&mut self, table: &LuaTable) -> (r: Result<(), LuaError>)
        requires
            !(merge_fn_decl(old(self)@, *table) is Panics),
        ensures
            outcome_holds(merge_fn_decl(old(self)@, *table), final(self)@, r),
    {
        let ghost orig = old(self)@.inputs;
        let lua_args = match table.get_table("args") {
            Ok(t) => t,
            Err(e) => return Err(e),
        };
        let n = self.inputs.len();
        let mut i: usize = 0;
        assert(args_view(self.inputs@).subrange(0, 0) =~= Seq::<ArgV>::empty());
        while i < n
            invariant
                n == self.inputs@.len(),
                i <= n,
                orig == args_view(old(self).inputs@),
                orig.len() == n,
                value_to_table(table.get("args"@)) == Ok::<LuaTable, LuaErrorV>(*lua_args),
                merge_fn_decl(old(self)@, *table) == lift(
                    merge_args_from(orig, *lua_args, i as int, args_view(self.inputs@).subrange(0, i as int)),
                    |s: Seq<ArgV>| FnDeclV { inputs: s },
                ),
                !(merge_fn_decl(old(self)@, *table) is Panics),
                forall|j: int| i <= j < n ==> self.inputs@[j] == old(self).inputs@[j],
            decreases n - i,
        {
            let at = match lua_args.table_at(i) {
                Ok(t) => t,
                Err(e) => {
                    assert(args_view(self.inputs@) =~= args_view(self.inputs@).subrange(0, i as int) + orig.subrange(i as int, n as int));
                    return Err(e);
                },
            };
            let ghost before = self.inputs@;
            let r = self.inputs[i].merge_lua_ast(at);
            assert(self.inputs@ == before.update(i as int, self.inputs@[i as int]));
            assert(args_view(self.inputs@).subrange(0, i as int + 1) =~= args_view(before).subrange(0, i as int).push(self.inputs@[i as int]@));
            match r {
                Ok(()) => {},
                Err(e) => {
                    assert(args_view(self.inputs@) =~= args_view(before).subrange(0, i as int).push(self.inputs@[i as int]@) + orig.subrange(i as int + 1, n as int));
                    return Err(e);
                },
            }
            i = i + 1;
        }
        assert(args_view(self.inputs@).subrange(0, n as int) =~= args_view(self.inputs@));
        Ok(())
    }
}

impl Local {
    /// Merges the Lua description `table` into this `let` statement.
    pub fn merge_lua_ast(&mut self, table: &LuaTable) -> (r: Result<(), LuaError>)
        requires
            !(merge_local(old(self)@, *table) is Panics),
        ensures
            outcome_holds(merge_local(old(self)@, *table), final(self)@, r),
    {
        let pat = match table.get_table("pat") {
            Ok(t) => t,
            Err(e) => return Err(e),
        };
        let opt_init = match table.get_opt_table("init") {
            Ok(t) => t,
            Err(e) => return Err(e),
        };
        match self.pat.merge_lua_ast(pat) {
            Ok(()) => {},
            Err(e) => return Err(e),
        }
        match opt_init {
            Some(init) => match &mut self.init {
                Some(existing) => existing.merge_lua_ast(init),
                None => {
                    let unsupported: Option<()> = None;
                    unsupported.expect("MergeLuaAst unimplemented local init update");
                    Ok(())
                },
            },
            None => {
                self.init = None;
                Ok(())
            },
        }
    }
}


/// Merges the descriptions in the sequence part of `table` into the statements `nodes`, the
/// `k`-th into the `k`-th, stopping at the first failure.
fn merge_stmts(nodes: &mut Vec<Stmt>, table: &LuaTable) -> (r: Result<(), LuaError>)
    requires
        !(merge_stmts_from(stmts_view(old(nodes)@), *table, 0, Seq::empty()) is Panics),
    ensures
        outcome_holds(merge_stmts_from(stmts_view(old(nodes)@), *table, 0, Seq::empty()), stmts_view(final(nodes)@), r),
    decreases *old(nodes),
{
    let ghost orig = stmts_view(old(nodes)@);
    let n = nodes.len();
    let mut i: usize = 0;
    proof {
        lemma_stmts_view(nodes@);
    }
    assert(stmts_view(nodes@).subrange(0, 0) =~= Seq::<StmtV>::empty());
    while i < n
        invariant
            n == nodes@.len(),
            i <= n,
            orig == stmts_view(old(nodes)@),
            orig.len() == n,
            merge_stmts_from(orig, *table, 0, Seq::empty()) == merge_stmts_from(orig, *table, i as int, stmts_view(nodes@).subrange(0, i as int)),
            !(merge_stmts_from(orig, *table, 0, Seq::empty()) is Panics),
            forall|j: int| i <= j < n ==> nodes@[j] == old(nodes)@[j],
        decreases n - i,
    {
        proof {
            lemma_stmts_view(nodes@);
            lemma_stmts_view(old(nodes)@);
        }
        let at = match table.table_at(i) {
            Ok(t) => t,
            Err(e) => {
                assert(stmts_view(nodes@) =~= stmts_view(nodes@).subrange(0, i as int) + orig.subrange(i as int, n as int));
                return Err(e);
            },
        };
        let ghost before = nodes@;
        proof {
            assert(decreases_to!(*old(nodes) => old(nodes)@));
            assert(decreases_to!(old(nodes)@ => old(nodes)@[i as int]));
        }
        let r = nodes[i].merge_lua_ast(at);
        proof {
            lemma_stmts_view(nodes@);
            lemma_stmts_view(before);
        }
        assert(nodes@ == before.update(i as int, nodes@[i as int]));
        assert(stmts_view(nodes@).subrange(0, i as int + 1) =~= stmts_view(before).subrange(0, i as int).push(stmt_view(nodes@[i as int])));
        match r {
            Ok(()) => {},
            Err(e) => {
                assert(stmts_view(nodes@) =~= stmts_view(before).subrange(0, i as int).push(stmt_view(nodes@[i as int])) + orig.subrange(i as int + 1, n as int));
                return Err(e);
            },
        }
        i = i + 1;
    }
    proof {
        lemma_stmts_view(nodes@);
    }
    assert(stmts_view(nodes@).subrange(0, n as int) =~= stmts_view(nodes@));
    Ok(())
}

/// Merges the descriptions in the sequence part of `table` into the impl items `nodes`, the
/// `k`-th into the `k`-th, stopping at the first failure.
fn merge_impl_items(nodes: &mut Vec<ImplItem>, table: &LuaTable) -> (r: Result<(), LuaError>)
    requires
        !(merge_impl_items_from(impl_items_view(old(nodes)@), *table, 0, Seq::empty()) is Panics),
    ensures
        outcome_holds(merge_impl_items_from(impl_items_view(old(nodes)@), *table, 0, Seq::empty()), impl_items_view(final(nodes)@), r),
    decreases *old(nodes),
{
    let ghost orig = impl_items_view(old(nodes)@);
    let n = nodes.len();
    let mut i: usize = 0;
    proof {
        lemma_impl_items_view(nodes@);
    }
    assert(impl_items_view(nodes@).subrange(0, 0) =~= Seq::<ImplItemV>::empty());
    while i < n
        invariant
            n == nodes@.len(),
            i <= n,
            orig == impl_items_view(old(nodes)@),
            orig.len() == n,
            merge_impl_items_from(orig, *table, 0, Seq::empty()) == merge_impl_items_from(orig, *table, i as int, impl_items_view(nodes@).subrange(0, i as int)),
            !(merge_impl_items_from(orig, *table, 0, Seq::empty()) is Panics),
            forall|j: int| i <= j < n ==> nodes@[j] == old(nodes)@[j],
        decreases n - i,
    {
        proof {
            lemma_impl_items_view(nodes@);
            lemma_impl_items_view(old(nodes)@);
        }
        let at = match table.table_at(i) {
            Ok(t) => t,
            Err(e) => {
                assert(impl_items_view(nodes@) =~= impl_items_view(nodes@).subrange(0, i as int) + orig.subrange(i as int, n as int));
                return Err(e);
            },
        };
        let ghost before = nodes@;
        proof {
            assert(decreases_to!(*old(nodes) => old(nodes)@));
            assert(decreases_to!(old(nodes)@ => old(nodes)@[i as int]));
        }
        let r = nodes[i].merge_lua_ast(at);
        proof {
            lemma_impl_items_view(nodes@);
            lemma_impl_items_view(before);
        }
        assert(nodes@ == before.update(i as int, nodes@[i as int]));
        assert(impl_items_view(nodes@).subrange(0, i as int + 1) =~= impl_items_view(before).subrange(0, i as int).push(impl_item_view(nodes@[i as int])));
        match r {
            Ok(()) => {},
            Err(e) => {
                assert(impl_items_view(nodes@) =~= impl_items_view(before).subrange(0, i as int).push(impl_item_view(nodes@[i as int])) + orig.subrange(i as int + 1, n as int));
                return Err(e);
            },
        }
        i = i + 1;
    }
    proof {
        lemma_impl_items_view(nodes@);
    }
    assert(impl_items_view(nodes@).subrange(0, n as int) =~= impl_items_view(nodes@));
    Ok(())
}

/// Merges the descriptions in the sequence part of `table` into the items `nodes`, the
/// `k`-th into the `k`-th, stopping at the first failure.
fn merge_items(nodes: &mut Vec<Item>, table: &LuaTable) -> (r: Result<(), LuaError>)
    requires
        !(merge_items_from(items_view(old(nodes)@), *table, 0, Seq::empty()) is Panics),
    ensures
        outcome_holds(merge_items_from(items_view(old(nodes)@), *table, 0, Seq::empty()), items_view(final(nodes)@), r),
    decreases *old(nodes),
{
    let ghost orig = items_view(old(nodes)@);
    let n = nodes.len();
    let mut i: usize = 0;
    proof {
        lemma_items_view(nodes@);
    }
    assert(items_view(nodes@).subrange(0, 0) =~= Seq::<ItemV>::empty());
    while i < n
        invariant
            n == nodes@.len(),
            i <= n,
            orig == items_view(old(nodes)@),
            orig.len() == n,
            merge_items_from(orig, *table, 0, Seq::empty()) == merge_items_from(orig, *table, i as int, items_view(nodes@).subrange(0, i as int)),
            !(merge_items_from(orig, *table, 0, Seq::empty()) is Panics),
            forall|j: int| i <= j < n ==> nodes@[j] == old(nodes)@[j],
        decreases n - i,
    {
        proof {
            lemma_items_view(nodes@);
            lemma_items_view(old(nodes)@);
        }
        let at = match table.table_at(i) {
            Ok(t) => t,
            Err(e) => {
                assert(items_view(nodes@) =~= items_view(nodes@).subrange(0, i as int) + orig.subrange(i as int, n as int));
                return Err(e);
            },
        };
        let ghost before = nodes@;
        proof {
            assert(decreases_to!(*old(nodes) => old(nodes)@));
            assert(decreases_to!(old(nodes)@ => old(nodes)@[i as int]));
        }
        let r = nodes[i].merge_lua_ast(at);
        proof {
            lemma_items_view(nodes@);
            lemma_items_view(before);
        }
        assert(nodes@ == before.update(i as int, nodes@[i as int]));
        assert(items_view(nodes@).subrange(0, i as int + 1) =~= items_view(before).subrange(0, i as int).push(item_view(nodes@[i as int])));
        match r {
            Ok(()) => {},
            Err(e) => {
                assert(items_view(nodes@) =~= items_view(before).subrange(0, i as int).push(item_view(nodes@[i as int])) + orig.subrange(i as int + 1, n as int));
                return Err(e);
            },
        }
        i = i + 1;
    }
    proof {
        lemma_items_view(nodes@);
    }
    assert(items_view(nodes@).subrange(0, n as int) =~= items_view(nodes@));
    Ok(())
}

impl Stmt {
    /// Merges the Lua description `table` into this statement.
    pub fn merge_lua_ast(&mut self, table: &LuaTable) -> (r: Result<(), LuaError>)
        requires
            !(merge_stmt(old(self)@, *table) is Panics),
        ensures
            outcome_holds(merge_stmt(old(self)@, *table), final(self)@, r),
        decreases *old(self),
    {
        match self {
            Stmt::Local(l) => l.merge_lua_ast(table),
            Stmt::Item(i) => {
                let it = match table.get_table("item") {
                    Ok(t) => t,
                    Err(e) => return Err(e),
                };
                i.merge_lua_ast(it)
            },
            Stmt::Expr(e) => {
                let et = match table.get_table("expr") {
                    Ok(t) => t,
                    Err(err) => return Err(err),
                };
                e.merge_lua_ast(et)
            },
            Stmt::Semi(e) => {
                let et = match table.get_table("expr") {
                    Ok(t) => t,
                    Err(err) => return Err(err),
                };
                e.merge_lua_ast(et)
            },
            Stmt::Mac => Ok(()),
        }
    }
}

impl Block {
    /// Merges the Lua description `table` into this block: the `k`-th statement
    /// takes the `k`-th description of `table["stmts"]`.
    pub fn merge_lua_ast(&mut self, table: &LuaTable) -> (r: Result<(), LuaError>)
        requires
            !(merge_block(old(self)@, *table) is Panics),
        ensures
            outcome_holds(merge_block(old(self)@, *table), final(self)@, r),
        decreases *old(self),
    {
        let lua_stmts = match table.get_table("stmts") {
            Ok(t) => t,
            Err(e) => return Err(e),
        };
        merge_stmts(&mut self.stmts, lua_stmts)
    }
}

impl ImplItem {
    /// Merges the Lua description `table` into this impl item.
    pub fn merge_lua_ast(&mut self, table: &LuaTable) -> (r: Result<(), LuaError>)
        requires
            !(merge_impl_item(old(self)@, *table) is Panics),
        ensures
            outcome_holds(merge_impl_item(old(self)@, *table), final(self)@, r),
        decreases *old(self),
    {
        let name = match table.get_string("ident") {
            Ok(s) => s,
            Err(e) => return Err(e),
        };
        self.ident = name;
        match &mut self.kind {
            ImplItemKind::Method(decl, block) => {
                let lua_decl = match table.get_table("decl") {
                    Ok(t) => t,
                    Err(e) => return Err(e),
                };
                let lua_block = match table.get_table("block") {
                    Ok(t) => t,
                    Err(e) => return Err(e),
                };
                match decl.merge_lua_ast(lua_decl) {
                    Ok(()) => {},
                    Err(e) => return Err(e),
                }
                block.merge_lua_ast(lua_block)
            },
            ImplItemKind::Other => {
                let unsupported: Option<()> = None;
                unsupported.expect("MergeLuaAst unimplemented for this impl item kind");
                Ok(())
            },
        }
    }
}

impl Item {
    /// Merges the Lua description `table` into this item.
    pub fn merge_lua_ast(&mut self, table: &LuaTable) -> (r: Result<(), LuaError>)
        requires
            !(merge_item(old(self)@, *table) is Panics),
        ensures
            outcome_holds(merge_item(old(self)@, *table), final(self)@, r),
        decreases *old(self),
    {
        let name = match table.get_string("ident") {
            Ok(s) => s,
            Err(e) => return Err(e),
        };
        self.ident = name;
        match &mut self.kind {
            ItemKind::Fn(decl, block) => {
                let lua_fn_decl = match table.get_table("decl") {
                    Ok(t) => t,
                    Err(e) => return Err(e),
                };
                let lua_block = match table.get_table("block") {
                    Ok(t) => t,
                    Err(e) => return Err(e),
                };
                match block.merge_lua_ast(lua_block) {
                    Ok(()) => {},
                    Err(e) => return Err(e),
                }
                decl.merge_lua_ast(lua_fn_decl)
            },
            ItemKind::Impl(items) => {
                let lua_items = match table.get_table("items") {
                    Ok(t) => t,
                    Err(e) => return Err(e),
                };
                merge_impl_items(items, lua_items)
            },
            ItemKind::Other => Ok(()),
        }
    }
}


impl Mod {
    /// Merges the Lua description `table` into this module: the `k`-th item takes
    /// the `k`-th description of `table["items"]`.
    pub fn merge_lua_ast(&mut self, table: &LuaTable) -> (r: Result<(), LuaError>)
        requires
            !(merge_mod(old(self)@, *table) is Panics),
        ensures
            outcome_holds(merge_mod(old(self)@, *table), final(self)@, r),
    {
        let lua_items = match table.get_table("items") {
            Ok(t) => t,
            Err(e) => return Err(e),
        };
        self.inline = table.get_bool("inline");
        merge_items(&mut self.items, lua_items)
    }
}

impl Crate {
    /// Merges the Lua description `table` into this crate.
    pub fn merge_lua_ast(&mut self, table: &LuaTable) -> (r: Result<(), LuaError>)
        requires
            !(merge_crate(old(self)@, *table) is Panics),
        ensures
            outcome_holds(merge_crate(old(self)@, *table), final(self)@, r),
    {
        let lua_module = match table.get_table("module") {
            Ok(t) => t,
            Err(e) => return Err(e),
        };
        self.module.merge_lua_ast(lua_module)
    }
}

impl FnLike {
    /// Merges the Lua description `table` into this function.
    pub fn merge_lua_ast(&mut self, table: &LuaTable) -> (r: Result<(), LuaError>)
        requires
            !(merge_fn_like(old(self)@, *table) is Panics),
        ensures
            outcome_holds(merge_fn_like(old(self)@, *table), final(self)@, r),
    {
        let kind = match table.get_string("kind") {
            Ok(s) => s,
            Err(e) => return Err(e),
        };
        self.kind = fn_kind_of(&kind, self.kind);
        let id = match table.get_u32("id") {
            Ok(n) => n,
            Err(e) => return Err(e),
        };
        self.id = NodeId::from_u32(id);
        let name = match table.get_string("ident") {
            Ok(s) => s,
            Err(e) => return Err(e),
        };
        self.ident = name;
        let lua_decl = match table.get_table("decl") {
            Ok(t) => t,
            Err(e) => return Err(e),
        };
        match self.decl.merge_lua_ast(lua_decl) {
            Ok(()) => {},
            Err(e) => return Err(e),
        }
        match &mut self.block {
            Some(block) => {
                let lua_block = match table.get_table("block") {
                    Ok(t) => t,
                    Err(e) => return Err(e),
                };
                block.merge_lua_ast(lua_block)
            },
            None => Ok(()),
        }
    }
}

} // verus!
