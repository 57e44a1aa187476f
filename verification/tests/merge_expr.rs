use merge_lua_ast::ast::{
    dummy_expr, dummy_sp, dummy_spanned, Span, Spanned, BinOpKind, Expr, FloatTy, IntTy, LitIntType, LitKind, UintTy, UnOp,
};
use merge_lua_ast::lua::{Coercions, LuaError, LuaTable, LuaValue};

fn s(text: &str) -> LuaValue {
    LuaValue::Str(Coercions {
        to_string: Ok(text.to_string()),
        to_u32: Err(LuaError::FromLuaConversion {
            from: "string".to_string(),
            to: "u32".to_string(),
            message: Some("expected number or string coercible to number".to_string()),
        }),
    })
}

fn integer(i: i64) -> LuaValue {
    let to_u32 = match u32::try_from(i) {
        Ok(n) => Ok(n),
        Err(_) => Err(LuaError::FromLuaConversion {
            from: "integer".to_string(),
            to: "u32".to_string(),
            message: Some("out of range".to_string()),
        }),
    };
    LuaValue::Integer(i, Coercions { to_string: Ok(i.to_string()), to_u32 })
}

fn float(text: &str) -> LuaValue {
    LuaValue::Number(
        text.to_string(),
        Coercions { to_string: Ok(text.to_string()), to_u32: Ok(0) },
    )
}

fn table(fields: Vec<(&str, LuaValue)>) -> LuaTable {
    LuaTable {
        array: Vec::new(),
        fields: fields.into_iter().map(|(k, v)| (k.to_string(), v)).collect(),
    }
}

fn seq(values: Vec<LuaValue>) -> LuaValue {
    LuaValue::Table(LuaTable { array: values, fields: Vec::new() })
}

fn t(fields: Vec<(&str, LuaValue)>) -> LuaValue {
    LuaValue::Table(table(fields))
}

fn path(segments: &[&str]) -> LuaValue {
    t(vec![("kind", s("Path")), ("segments", seq(segments.iter().map(|x| s(x)).collect()))])
}

fn path_expr(segments: &[&str]) -> Expr {
    Expr::Path(segments.iter().map(|x| x.to_string()).collect())
}

fn lit(value: LuaValue, suffix: Option<&str>) -> LuaTable {
    let mut fields = vec![("kind", s("Lit")), ("value", value)];
    if let Some(sfx) = suffix {
        fields.push(("suffix", s(sfx)));
    }
    table(fields)
}

fn merged(desc: &LuaTable) -> (Expr, Result<(), LuaError>) {
    let mut e = dummy_expr();
    let r = e.merge_lua_ast(desc);
    (e, r)
}

fn unwrap_table(v: LuaValue) -> LuaTable {
    match v {
        LuaValue::Table(t) => t,
        _ => panic!("not a table"),
    }
}

#[test]
fn path_description_builds_a_path() {
    let (e, r) = merged(&unwrap_table(path(&["std", "mem", "swap"])));
    assert_eq!(r, Ok(()));
    assert_eq!(e, path_expr(&["std", "mem", "swap"]));
}

#[test]
fn path_segments_stop_at_the_first_nil() {
    let desc = table(vec![
        ("kind", s("Path")),
        ("segments", seq(vec![s("a"), LuaValue::Nil, s("b")])),
    ]);
    let (e, r) = merged(&desc);
    assert_eq!(r, Ok(()));
    assert_eq!(e, path_expr(&["a"]));
}

#[test]
fn literals_take_their_suffixes() {
    assert_eq!(merged(&lit(LuaValue::Boolean(true), None)).0, Expr::Lit(dummy_spanned(LitKind::Bool(true))));
    assert_eq!(
        merged(&lit(integer(5), Some("u8"))).0,
        Expr::Lit(dummy_spanned(LitKind::Int(5, LitIntType::Unsigned(UintTy::U8))))
    );
    assert_eq!(
        merged(&lit(integer(5), Some("isize"))).0,
        Expr::Lit(dummy_spanned(LitKind::Int(5, LitIntType::Signed(IntTy::Isize))))
    );
    assert_eq!(merged(&lit(integer(12), None)).0, Expr::Lit(dummy_spanned(LitKind::Int(12, LitIntType::Unsuffixed))));
    assert_eq!(
        merged(&lit(float("2.5"), Some("f32"))).0,
        Expr::Lit(dummy_spanned(LitKind::Float("2.5".to_string(), FloatTy::F32)))
    );
    assert_eq!(
        merged(&lit(float("0.25"), None)).0,
        Expr::Lit(dummy_spanned(LitKind::FloatUnsuffixed("0.25".to_string())))
    );
}

#[test]
fn a_negative_integer_literal_wraps_to_u128() {
    assert_eq!(
        merged(&lit(integer(-1), None)).0,
        Expr::Lit(dummy_spanned(LitKind::Int(u128::MAX, LitIntType::Unsuffixed)))
    );
}

#[test]
fn a_boolean_literal_ignores_its_suffix() {
    assert_eq!(merged(&lit(LuaValue::Boolean(false), Some("zz"))).0, Expr::Lit(dummy_spanned(LitKind::Bool(false))));
}

#[test]
fn binary_assign_op_and_assign() {
    let bin = table(vec![
        ("kind", s("Binary")),
        ("op", s("<<")),
        ("lhs", path(&["a"])),
        ("rhs", t(vec![("kind", s("Lit")), ("value", integer(3))])),
    ]);
    assert_eq!(
        merged(&bin),
        (
            Expr::Binary(
                dummy_spanned(BinOpKind::Shl),
                Box::new(path_expr(&["a"])),
                Box::new(Expr::Lit(dummy_spanned(LitKind::Int(3, LitIntType::Unsuffixed))))
            ),
            Ok(())
        )
    );
    let assign_op = table(vec![
        ("kind", s("AssignOp")),
        ("op", s("-")),
        ("lhs", path(&["x"])),
        ("rhs", path(&["y"])),
    ]);
    assert_eq!(
        merged(&assign_op).0,
        Expr::AssignOp(dummy_spanned(BinOpKind::Sub), Box::new(path_expr(&["x"])), Box::new(path_expr(&["y"])))
    );
    let assign = table(vec![("kind", s("Assign")), ("lhs", path(&["x"])), ("rhs", path(&["y"]))]);
    assert_eq!(
        merged(&assign).0,
        Expr::Assign(Box::new(path_expr(&["x"])), Box::new(path_expr(&["y"])))
    );
}

#[test]
fn every_binary_operator_name() {
    let names = [
        ("+", BinOpKind::Add), ("-", BinOpKind::Sub), ("*", BinOpKind::Mul), ("/", BinOpKind::Div),
        ("%", BinOpKind::Rem), ("&&", BinOpKind::And), ("||", BinOpKind::Or), ("^", BinOpKind::BitXor),
        ("&", BinOpKind::BitAnd), ("|", BinOpKind::BitOr), ("<<", BinOpKind::Shl), (">>", BinOpKind::Shr),
        ("==", BinOpKind::Eq), ("<", BinOpKind::Lt), ("<=", BinOpKind::Le), ("!=", BinOpKind::Ne),
        (">=", BinOpKind::Ge), (">", BinOpKind::Gt),
    ];
    for (name, op) in names.iter() {
        let desc = table(vec![("kind", s("Binary")), ("op", s(name)), ("lhs", path(&["a"])), ("rhs", path(&["b"]))]);
        assert_eq!(
            merged(&desc).0,
            Expr::Binary(dummy_spanned(*op), Box::new(path_expr(&["a"])), Box::new(path_expr(&["b"])))
        );
    }
}

#[test]
fn array_index_unary_method_call_field_ret() {
    let array = table(vec![("kind", s("Array")), ("values", seq(vec![path(&["a"]), path(&["b"])]))]);
    assert_eq!(merged(&array).0, Expr::Array(vec![path_expr(&["a"]), path_expr(&["b"])]));

    let index = table(vec![("kind", s("Index")), ("indexed", path(&["v"])), ("index", path(&["i"]))]);
    assert_eq!(merged(&index).0, Expr::Index(Box::new(path_expr(&["v"])), Box::new(path_expr(&["i"]))));

    let unary = table(vec![("kind", s("Unary")), ("op", s("!")), ("expr", path(&["b"]))]);
    assert_eq!(merged(&unary).0, Expr::Unary(UnOp::Not, Box::new(path_expr(&["b"]))));
    let deref = table(vec![("kind", s("Unary")), ("op", s("*")), ("expr", path(&["p"]))]);
    assert_eq!(merged(&deref).0, Expr::Unary(UnOp::Deref, Box::new(path_expr(&["p"]))));
    let neg = table(vec![("kind", s("Unary")), ("op", s("-")), ("expr", path(&["n"]))]);
    assert_eq!(merged(&neg).0, Expr::Unary(UnOp::Neg, Box::new(path_expr(&["n"]))));

    let call = table(vec![("kind", s("MethodCall")), ("name", s("push")), ("args", seq(vec![path(&["v"]), path(&["x"])]))]);
    assert_eq!(
        merged(&call).0,
        Expr::MethodCall("push".to_string(), vec![path_expr(&["v"]), path_expr(&["x"])])
    );

    let field = table(vec![("kind", s("Field")), ("name", s("len")), ("expr", path(&["s"]))]);
    assert_eq!(merged(&field).0, Expr::Field(Box::new(path_expr(&["s"])), "len".to_string()));

    let ret_none = table(vec![("kind", s("Ret"))]);
    assert_eq!(merged(&ret_none).0, Expr::Ret(None));
    let ret_some = table(vec![("kind", s("Ret")), ("value", path(&["r"]))]);
    assert_eq!(merged(&ret_some).0, Expr::Ret(Some(Box::new(path_expr(&["r"])))));
}

#[test]
fn a_nested_unknown_kind_becomes_the_placeholder() {
    let desc = table(vec![
        ("kind", s("Index")),
        ("indexed", t(vec![("kind", s("Closure"))])),
        ("index", path(&["i"])),
    ]);
    assert_eq!(
        merged(&desc).0,
        Expr::Index(Box::new(Expr::Placeholder), Box::new(path_expr(&["i"])))
    );
}

#[test]
fn an_unknown_kind_leaves_the_expression() {
    let mut e = path_expr(&["keep", "me"]);
    let r = e.merge_lua_ast(&table(vec![("kind", s("Closure"))]));
    assert_eq!(r, Ok(()));
    assert_eq!(e, path_expr(&["keep", "me"]));
}

#[test]
fn a_known_kind_replaces_whatever_was_there() {
    let desc = unwrap_table(path(&["new"]));
    let mut a = Expr::Other;
    let mut b = Expr::Ret(None);
    a.merge_lua_ast(&desc).unwrap();
    b.merge_lua_ast(&desc).unwrap();
    assert_eq!(a, b);
    assert_eq!(a, path_expr(&["new"]));
}

#[test]
fn a_missing_kind_fails_and_keeps_the_expression() {
    let mut e = path_expr(&["old"]);
    let r = e.merge_lua_ast(&table(vec![]));
    assert_eq!(
        r,
        Err(LuaError::FromLuaConversion {
            from: "nil".to_string(),
            to: "String".to_string(),
            message: Some("expected string or number".to_string()),
        })
    );
    assert_eq!(e, path_expr(&["old"]));
}

#[test]
fn a_failure_deep_inside_keeps_the_expression() {
    let desc = table(vec![
        ("kind", s("Array")),
        ("values", seq(vec![path(&["a"]), s("not a table")])),
    ]);
    let mut e = path_expr(&["old"]);
    let r = e.merge_lua_ast(&desc);
    assert_eq!(
        r,
        Err(LuaError::FromLuaConversion { from: "string".to_string(), to: "table".to_string(), message: None })
    );
    assert_eq!(e, path_expr(&["old"]));
}

#[test]
fn merging_twice_changes_nothing_more() {
    let desc = table(vec![("kind", s("Unary")), ("op", s("-")), ("expr", path(&["n"]))]);
    let mut e = Expr::Other;
    let r1 = e.merge_lua_ast(&desc);
    let once = format!("{:?}", e);
    let r2 = e.merge_lua_ast(&desc);
    assert_eq!(r1, r2);
    assert_eq!(format!("{:?}", e), once);
}

#[test]
fn new_literals_and_operators_get_the_dummy_span() {
    assert_eq!(dummy_sp(), Span { lo: 0, hi: 0 });
    assert_eq!(dummy_spanned(BinOpKind::Add), Spanned { node: BinOpKind::Add, span: Span { lo: 0, hi: 0 } });
    let mut e = Expr::Lit(Spanned { node: LitKind::Bool(false), span: Span { lo: 3, hi: 8 } });
    e.merge_lua_ast(&lit(LuaValue::Boolean(false), None)).unwrap();
    assert_eq!(e, Expr::Lit(Spanned { node: LitKind::Bool(false), span: Span { lo: 0, hi: 0 } }));
}
