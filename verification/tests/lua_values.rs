use merge_lua_ast::lua::{Coercions, LuaError, LuaTable, LuaValue, OpaqueKind};

fn s(text: &str) -> LuaValue {
    LuaValue::Str(Coercions {
        to_string: Ok(text.to_string()),
        to_u32: Err(LuaError::FromLuaConversion {
            from: "string".to_string(),
            to: "u32".to_string(),
            message: Some("expected number or string coercible to number".to_string()),
        }),
    })
}

fn table(fields: Vec<(&str, LuaValue)>) -> LuaTable {
    LuaTable {
        array: Vec::new(),
        fields: fields.into_iter().map(|(k, v)| (k.to_string(), v)).collect(),
    }
}

fn conversion(from: &str, to: &str, message: Option<&str>) -> LuaError {
    LuaError::FromLuaConversion {
        from: from.to_string(),
        to: to.to_string(),
        message: message.map(|m| m.to_string()),
    }
}

#[test]
fn find_takes_the_first_entry_under_a_key() {
    let t = table(vec![("k", LuaValue::Boolean(true)), ("k", LuaValue::Boolean(false))]);
    assert_eq!(t.find("k"), Some(&LuaValue::Boolean(true)));
    assert_eq!(t.find("missing"), None);
}

#[test]
fn bool_reads_follow_lua_truthiness() {
    let t = table(vec![
        ("f", LuaValue::Boolean(false)),
        ("t", LuaValue::Boolean(true)),
        ("n", LuaValue::Nil),
        ("zero", LuaValue::Integer(0, Coercions { to_string: Ok("0".to_string()), to_u32: Ok(0) })),
        ("str", s("")),
    ]);
    assert!(!t.get_bool("f"));
    assert!(t.get_bool("t"));
    assert!(!t.get_bool("n"));
    assert!(!t.get_bool("absent"));
    assert!(t.get_bool("zero"));
    assert!(t.get_bool("str"));
}

#[test]
fn string_reads_give_the_coerced_text_or_a_conversion_error() {
    let t = table(vec![
        ("name", s("main")),
        ("num", LuaValue::Integer(7, Coercions { to_string: Ok("7".to_string()), to_u32: Ok(7) })),
        ("flag", LuaValue::Boolean(true)),
        ("fun", LuaValue::Opaque(OpaqueKind::Function)),
    ]);
    assert_eq!(t.get_string("name"), Ok("main".to_string()));
    assert_eq!(t.get_string("num"), Ok("7".to_string()));
    assert_eq!(
        t.get_string("flag"),
        Err(conversion("boolean", "String", Some("expected string or number")))
    );
    assert_eq!(
        t.get_string("fun"),
        Err(conversion("function", "String", Some("expected string or number")))
    );
    assert_eq!(
        t.get_string("absent"),
        Err(conversion("nil", "String", Some("expected string or number")))
    );
    assert_eq!(t.get_opt_string("absent"), Ok(None));
    assert_eq!(t.get_opt_string("name"), Ok(Some("main".to_string())));
}

#[test]
fn u32_reads_pass_on_the_coercion_or_its_error() {
    let t = table(vec![
        ("id", LuaValue::Integer(42, Coercions { to_string: Ok("42".to_string()), to_u32: Ok(42) })),
        ("word", s("x")),
        ("broken", LuaValue::Str(Coercions { to_string: Err(LuaError::Runtime(3)), to_u32: Err(LuaError::Runtime(4)) })),
        ("tbl", LuaValue::Table(table(vec![]))),
    ]);
    assert_eq!(t.get_u32("id"), Ok(42));
    assert_eq!(
        t.get_u32("word"),
        Err(conversion("string", "u32", Some("expected number or string coercible to number")))
    );
    assert_eq!(t.get_u32("broken"), Err(LuaError::Runtime(4)));
    assert_eq!(t.get_string("broken"), Err(LuaError::Runtime(3)));
    assert_eq!(
        t.get_u32("tbl"),
        Err(conversion("table", "u32", Some("expected number or string coercible to number")))
    );
}

#[test]
fn table_reads_accept_only_tables() {
    let inner = table(vec![("a", LuaValue::Boolean(true))]);
    let t = table(vec![
        ("inner", LuaValue::Table(table(vec![("a", LuaValue::Boolean(true))]))),
        ("light", LuaValue::Opaque(OpaqueKind::LightUserData)),
    ]);
    assert_eq!(t.get_table("inner"), Ok(&inner));
    assert_eq!(t.get_table("light"), Err(conversion("light userdata", "table", None)));
    assert_eq!(t.get_table("absent"), Err(conversion("nil", "table", None)));
    assert_eq!(t.get_opt_table("absent"), Ok(None));
    assert_eq!(t.get_opt_table("inner"), Ok(Some(&inner)));
    assert_eq!(t.get_opt_table("light"), Err(conversion("light userdata", "table", None)));
}

#[test]
fn sequence_reads_are_by_position() {
    let t = LuaTable {
        array: vec![LuaValue::Table(table(vec![])), s("x")],
        fields: Vec::new(),
    };
    assert_eq!(t.table_at(0), Ok(&table(vec![])));
    assert_eq!(t.table_at(1), Err(conversion("string", "table", None)));
    assert_eq!(t.table_at(2), Err(conversion("nil", "table", None)));
}

#[test]
fn type_names_are_rluas() {
    assert_eq!(LuaValue::Nil.type_name_of(), "nil");
    assert_eq!(LuaValue::Opaque(OpaqueKind::UserData).type_name_of(), "userdata");
    assert_eq!(LuaValue::Opaque(OpaqueKind::Thread).type_name_of(), "thread");
    assert_eq!(
        LuaValue::Number("1.5".to_string(), Coercions { to_string: Ok("1.5".to_string()), to_u32: Ok(1) }).type_name_of(),
        "number"
    );
}
