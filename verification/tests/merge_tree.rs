use merge_lua_ast::ast::{
    Arg, BindingMode, Block, Crate, Expr, FnDecl, FnKind, FnLike, ImplItem, ImplItemKind, Item,
    ItemKind, Local, Mod, Mutability, NodeId, Pat, Span, Stmt, NODE_ID_MAX,
};
use merge_lua_ast::lua::{Coercions, LuaError, LuaTable, LuaValue};

fn s(text: &str) -> LuaValue {
    LuaValue::Str(Coercions {
        to_string: Ok(text.to_string()),
        to_u32: Err(LuaError::FromLuaConversion {
            from: "string".to_string(),
            to: "u32".to_string(),
            message: Some("expected number or string coercible to number".to_string()),
        }),
    })
}

fn integer(i: i64) -> LuaValue {
    let to_u32 = match u32::try_from(i) {
        Ok(n) => Ok(n),
        Err(_) => Err(LuaError::FromLuaConversion {
            from: "integer".to_string(),
            to: "u32".to_string(),
            message: Some("out of range".to_string()),
        }),
    };
    LuaValue::Integer(i, Coercions { to_string: Ok(i.to_string()), to_u32 })
}

fn table(fields: Vec<(&str, LuaValue)>) -> LuaTable {
    LuaTable {
        array: Vec::new(),
        fields: fields.into_iter().map(|(k, v)| (k.to_string(), v)).collect(),
    }
}

fn t(fields: Vec<(&str, LuaValue)>) -> LuaValue {
    LuaValue::Table(table(fields))
}

fn seq(values: Vec<LuaValue>) -> LuaValue {
    LuaValue::Table(LuaTable { array: values, fields: Vec::new() })
}

fn path(segments: &[&str]) -> LuaValue {
    t(vec![("kind", s("Path")), ("segments", seq(segments.iter().map(|x| s(x)).collect()))])
}

fn path_expr(segments: &[&str]) -> Expr {
    Expr::Path(segments.iter().map(|x| x.to_string()).collect())
}

fn ident_pat(name: &str) -> Pat {
    Pat::Ident(BindingMode::ByValue(Mutability::Immutable), name.to_string())
}

fn pat_desc(binding: &str, name: &str) -> LuaValue {
    t(vec![("binding", s(binding)), ("ident", s(name))])
}

fn arg_desc(id: i64, name: &str) -> LuaValue {
    t(vec![("id", integer(id)), ("pat", pat_desc("ByValueImmutable", name))])
}

fn arg(id: u32, name: &str) -> Arg {
    Arg { id: NodeId::from_u32(id), pat: ident_pat(name) }
}

fn conversion(from: &str, to: &str, message: Option<&str>) -> LuaError {
    LuaError::FromLuaConversion {
        from: from.to_string(),
        to: to.to_string(),
        message: message.map(|m| m.to_string()),
    }
}

fn unwrap_table(v: LuaValue) -> LuaTable {
    match v {
        LuaValue::Table(t) => t,
        _ => panic!("not a table"),
    }
}

#[test]
fn node_ids_keep_their_number() {
    assert_eq!(NodeId::from_u32(7), NodeId(7));
    assert_eq!(NodeId::from_u32(NODE_ID_MAX), NodeId(0xFFFF_FF00));
}

#[test]
fn pattern_takes_binding_and_name() {
    let mut p = ident_pat("x");
    assert_eq!(p.merge_lua_ast(&unwrap_table(pat_desc("ByRefMutable", "y"))), Ok(()));
    assert_eq!(p, Pat::Ident(BindingMode::ByRef(Mutability::Mutable), "y".to_string()));
    assert_eq!(p.merge_lua_ast(&unwrap_table(pat_desc("ByValueMutable", "y"))), Ok(()));
    assert_eq!(p, Pat::Ident(BindingMode::ByValue(Mutability::Mutable), "y".to_string()));
    assert_eq!(p.merge_lua_ast(&unwrap_table(pat_desc("ByRefImmutable", "y"))), Ok(()));
    assert_eq!(p, Pat::Ident(BindingMode::ByRef(Mutability::Immutable), "y".to_string()));
}

#[test]
fn an_unknown_binding_keeps_the_old_one() {
    let mut p = Pat::Ident(BindingMode::ByRef(Mutability::Mutable), "x".to_string());
    assert_eq!(p.merge_lua_ast(&unwrap_table(pat_desc("Weird", "z"))), Ok(()));
    assert_eq!(p, Pat::Ident(BindingMode::ByRef(Mutability::Mutable), "z".to_string()));
}

#[test]
fn a_pattern_whose_name_fails_keeps_the_new_binding() {
    let mut p = ident_pat("x");
    let r = p.merge_lua_ast(&table(vec![("binding", s("ByRefMutable"))]));
    assert_eq!(r, Err(conversion("nil", "String", Some("expected string or number"))));
    assert_eq!(p, Pat::Ident(BindingMode::ByRef(Mutability::Mutable), "x".to_string()));
}

#[test]
fn other_patterns_are_left_alone() {
    let mut p = Pat::Other;
    assert_eq!(p.merge_lua_ast(&table(vec![])), Ok(()));
    assert_eq!(p, Pat::Other);
}

#[test]
fn parameters_merge_one_to_one() {
    let mut d = FnDecl { inputs: vec![arg(1, "a"), arg(2, "b")] };
    let desc = table(vec![("args", seq(vec![arg_desc(10, "x"), arg_desc(11, "y")]))]);
    assert_eq!(d.merge_lua_ast(&desc), Ok(()));
    assert_eq!(d, FnDecl { inputs: vec![arg(10, "x"), arg(11, "y")] });
}

#[test]
fn a_missing_parameter_description_stops_the_merge_there() {
    let mut d = FnDecl { inputs: vec![arg(1, "a"), arg(2, "b"), arg(3, "c")] };
    let desc = table(vec![("args", seq(vec![arg_desc(10, "x")]))]);
    assert_eq!(d.merge_lua_ast(&desc), Err(conversion("nil", "table", None)));
    assert_eq!(d, FnDecl { inputs: vec![arg(10, "x"), arg(2, "b"), arg(3, "c")] });
}

#[test]
fn an_id_that_is_not_a_number_fails() {
    let mut a = arg(1, "a");
    let r = a.merge_lua_ast(&table(vec![("id", s("seven")), ("pat", pat_desc("ByValueImmutable", "b"))]));
    assert_eq!(r, Err(conversion("string", "u32", Some("expected number or string coercible to number"))));
    assert_eq!(a, arg(1, "a"));
}

#[test]
fn let_initializers_are_merged_or_dropped() {
    let mut l = Local { pat: ident_pat("x"), init: Some(path_expr(&["old"])) };
    let desc = table(vec![("pat", pat_desc("ByValueMutable", "y")), ("init", path(&["new"]))]);
    assert_eq!(l.merge_lua_ast(&desc), Ok(()));
    assert_eq!(
        l,
        Local {
            pat: Pat::Ident(BindingMode::ByValue(Mutability::Mutable), "y".to_string()),
            init: Some(path_expr(&["new"])),
        }
    );
    let drop_init = table(vec![("pat", pat_desc("ByValueMutable", "y"))]);
    assert_eq!(l.merge_lua_ast(&drop_init), Ok(()));
    assert_eq!(l.init, None);
    assert_eq!(l.merge_lua_ast(&drop_init), Ok(()));
    assert_eq!(l.init, None);
}

fn sample_block() -> Block {
    Block {
        stmts: vec![
            Stmt::Local(Local { pat: ident_pat("x"), init: Some(path_expr(&["a"])) }),
            Stmt::Expr(path_expr(&["b"])),
            Stmt::Semi(path_expr(&["c"])),
            Stmt::Mac,
        ],
    }
}

fn sample_block_desc() -> LuaValue {
    t(vec![(
        "stmts",
        seq(vec![
            t(vec![("pat", pat_desc("ByValueImmutable", "y")), ("init", path(&["a2"]))]),
            t(vec![("expr", path(&["b2"]))]),
            t(vec![("expr", path(&["c2"]))]),
            t(vec![]),
        ]),
    )])
}

#[test]
fn statements_merge_one_to_one() {
    let mut b = sample_block();
    assert_eq!(b.merge_lua_ast(&unwrap_table(sample_block_desc())), Ok(()));
    assert_eq!(
        b,
        Block {
            stmts: vec![
                Stmt::Local(Local { pat: ident_pat("y"), init: Some(path_expr(&["a2"])) }),
                Stmt::Expr(path_expr(&["b2"])),
                Stmt::Semi(path_expr(&["c2"])),
                Stmt::Mac,
            ],
        }
    );
}

#[test]
fn a_failing_block_keeps_its_statements_and_what_was_merged() {
    let mut b = sample_block();
    let desc = table(vec![(
        "stmts",
        seq(vec![
            t(vec![("pat", pat_desc("ByValueImmutable", "y")), ("init", path(&["a2"]))]),
            t(vec![("expr", integer(3))]),
        ]),
    )]);
    assert_eq!(b.merge_lua_ast(&desc), Err(conversion("integer", "table", None)));
    assert_eq!(b.stmts.len(), 4);
    assert_eq!(b.stmts[0], Stmt::Local(Local { pat: ident_pat("y"), init: Some(path_expr(&["a2"])) }));
    assert_eq!(b.stmts[1], Stmt::Expr(path_expr(&["b"])));
    assert_eq!(b.stmts[3], Stmt::Mac);
}

fn fn_item() -> Item {
    Item { ident: "f".to_string(), kind: ItemKind::Fn(FnDecl { inputs: vec![arg(1, "a")] }, sample_block()) }
}

fn fn_item_desc(name: &str) -> LuaValue {
    t(vec![
        ("ident", s(name)),
        ("decl", t(vec![("args", seq(vec![arg_desc(5, "p")]))])),
        ("block", sample_block_desc()),
    ])
}

#[test]
fn a_function_item_takes_name_signature_and_body() {
    let mut it = fn_item();
    assert_eq!(it.merge_lua_ast(&unwrap_table(fn_item_desc("g"))), Ok(()));
    assert_eq!(it.ident, "g");
    match &it.kind {
        ItemKind::Fn(decl, block) => {
            assert_eq!(decl, &FnDecl { inputs: vec![arg(5, "p")] });
            assert_eq!(block.stmts[1], Stmt::Expr(path_expr(&["b2"])));
        },
        _ => panic!("kind changed"),
    }
}

#[test]
fn the_body_is_merged_before_the_signature() {
    let mut it = fn_item();
    let desc = table(vec![
        ("ident", s("g")),
        ("decl", t(vec![("args", seq(vec![t(vec![("id", s("bad"))])]))])),
        ("block", sample_block_desc()),
    ]);
    assert!(it.merge_lua_ast(&desc).is_err());
    match &it.kind {
        ItemKind::Fn(decl, block) => {
            assert_eq!(decl, &FnDecl { inputs: vec![arg(1, "a")] });
            assert_eq!(block.stmts[1], Stmt::Expr(path_expr(&["b2"])));
        },
        _ => panic!("kind changed"),
    }
}

#[test]
fn impl_items_merge_one_to_one() {
    let method = ImplItem {
        ident: "m".to_string(),
        kind: ImplItemKind::Method(FnDecl { inputs: vec![arg(1, "self_")] }, Block { stmts: vec![] }),
    };
    let mut it = Item { ident: "I".to_string(), kind: ItemKind::Impl(vec![method]) };
    let desc = table(vec![
        ("ident", s("J")),
        (
            "items",
            seq(vec![t(vec![
                ("ident", s("n")),
                ("decl", t(vec![("args", seq(vec![arg_desc(9, "this")]))])),
                ("block", t(vec![("stmts", seq(vec![]))])),
            ])]),
        ),
    ]);
    assert_eq!(it.merge_lua_ast(&desc), Ok(()));
    assert_eq!(
        it,
        Item {
            ident: "J".to_string(),
            kind: ItemKind::Impl(vec![ImplItem {
                ident: "n".to_string(),
                kind: ImplItemKind::Method(FnDecl { inputs: vec![arg(9, "this")] }, Block { stmts: vec![] }),
            }]),
        }
    );
}

#[test]
fn other_items_only_take_their_name() {
    let mut it = Item { ident: "S".to_string(), kind: ItemKind::Other };
    assert_eq!(it.merge_lua_ast(&table(vec![("ident", s("T"))])), Ok(()));
    assert_eq!(it, Item { ident: "T".to_string(), kind: ItemKind::Other });
}

#[test]
fn a_statement_item_is_merged_from_its_item_entry() {
    let mut st = Stmt::Item(Item { ident: "S".to_string(), kind: ItemKind::Other });
    assert_eq!(st.merge_lua_ast(&table(vec![("item", t(vec![("ident", s("U"))]))])), Ok(()));
    assert_eq!(st, Stmt::Item(Item { ident: "U".to_string(), kind: ItemKind::Other }));
}

#[test]
fn modules_and_crates() {
    let mut c = Crate { module: Mod { inner: Span { lo: 10, hi: 90 }, inline: false, items: vec![fn_item(), Item { ident: "S".to_string(), kind: ItemKind::Other }] } };
    let desc = table(vec![(
        "module",
        t(vec![
            ("inline", LuaValue::Boolean(true)),
            ("items", seq(vec![fn_item_desc("h"), t(vec![("ident", s("R"))])])),
        ]),
    )]);
    assert_eq!(c.merge_lua_ast(&desc), Ok(()));
    assert!(c.module.inline);
    assert_eq!(c.module.inner, Span { lo: 10, hi: 90 });
    assert_eq!(c.module.items.len(), 2);
    assert_eq!(c.module.items[0].ident, "h");
    assert_eq!(c.module.items[1], Item { ident: "R".to_string(), kind: ItemKind::Other });
}

#[test]
fn a_module_without_items_fails_before_writing() {
    let mut m = Mod { inner: Span { lo: 0, hi: 5 }, inline: true, items: vec![] };
    assert_eq!(m.merge_lua_ast(&table(vec![("inline", LuaValue::Boolean(false))])), Err(conversion("nil", "table", None)));
    assert!(m.inline);
}

fn fn_like() -> FnLike {
    FnLike {
        kind: FnKind::Normal,
        id: NodeId::from_u32(1),
        ident: "f".to_string(),
        decl: FnDecl { inputs: vec![arg(2, "a")] },
        block: Some(sample_block()),
    }
}

#[test]
fn a_function_takes_kind_id_name_signature_and_body() {
    let mut f = fn_like();
    let desc = table(vec![
        ("kind", s("TraitMethod")),
        ("id", integer(40)),
        ("ident", s("g")),
        ("decl", t(vec![("args", seq(vec![arg_desc(41, "b")]))])),
        ("block", sample_block_desc()),
    ]);
    assert_eq!(f.merge_lua_ast(&desc), Ok(()));
    assert_eq!(f.kind, FnKind::TraitMethod);
    assert_eq!(f.id, NodeId(40));
    assert_eq!(f.ident, "g");
    assert_eq!(f.decl, FnDecl { inputs: vec![arg(41, "b")] });
    assert_eq!(f.block.as_ref().unwrap().stmts[2], Stmt::Semi(path_expr(&["c2"])));
}

#[test]
fn every_function_kind_name_and_an_unknown_one() {
    for (name, kind) in [("Normal", FnKind::Normal), ("ImplMethod", FnKind::ImplMethod), ("TraitMethod", FnKind::TraitMethod), ("Foreign", FnKind::Foreign), ("Closure", FnKind::ImplMethod)].iter() {
        let mut f = fn_like();
        f.kind = FnKind::ImplMethod;
        let desc = table(vec![("kind", s(name)), ("id", integer(1)), ("ident", s("f")), ("decl", t(vec![("args", seq(vec![arg_desc(2, "a")]))])), ("block", sample_block_desc())]);
        assert_eq!(f.merge_lua_ast(&desc), Ok(()));
        assert_eq!(f.kind, *kind);
    }
}

#[test]
fn a_function_without_body_ignores_the_block_entry() {
    let mut f = fn_like();
    f.block = None;
    let desc = table(vec![("kind", s("Foreign")), ("id", integer(3)), ("ident", s("ext")), ("decl", t(vec![("args", seq(vec![arg_desc(4, "x")]))]))]);
    assert_eq!(f.merge_lua_ast(&desc), Ok(()));
    assert_eq!(f.kind, FnKind::Foreign);
    assert_eq!(f.block, None);
}

#[test]
fn a_function_whose_name_fails_keeps_kind_and_id() {
    let mut f = fn_like();
    let desc = table(vec![("kind", s("Foreign")), ("id", integer(9))]);
    assert_eq!(f.merge_lua_ast(&desc), Err(conversion("nil", "String", Some("expected string or number"))));
    assert_eq!(f.kind, FnKind::Foreign);
    assert_eq!(f.id, NodeId(9));
    assert_eq!(f.ident, "f");
}

#[test]
fn merging_a_block_twice_changes_nothing_more() {
    let desc = unwrap_table(sample_block_desc());
    let mut b = sample_block();
    let r1 = b.merge_lua_ast(&desc);
    let once = format!("{:?}", b);
    let r2 = b.merge_lua_ast(&desc);
    assert_eq!(r1, r2);
    assert_eq!(format!("{:?}", b), once);
}

#[test]
fn merging_a_failing_function_twice_fails_the_same_way() {
    let desc = table(vec![("kind", s("Foreign")), ("id", integer(9)), ("ident", s("g")), ("decl", t(vec![("args", seq(vec![]))]))]);
    let mut f = fn_like();
    let r1 = f.merge_lua_ast(&desc);
    let once = format!("{:?}", f);
    let r2 = f.merge_lua_ast(&desc);
    assert_eq!(r1, Err(conversion("nil", "table", None)));
    assert_eq!(r1, r2);
    assert_eq!(format!("{:?}", f), once);
}

#[test]
fn an_id_beyond_u32_fails_out_of_range() {
    let mut a = arg(1, "a");
    let r = a.merge_lua_ast(&table(vec![("id", integer(-1)), ("pat", pat_desc("ByValueImmutable", "b"))]));
    assert_eq!(r, Err(conversion("integer", "u32", Some("out of range"))));
    assert_eq!(a, arg(1, "a"));
}
