//! The Lua values that a merge reads, as plain data.
//!
//! A `LuaTable` holds what a merge can read from a Lua table: its sequence part
//! `t[1], t[2], ..` and its entries under string keys. Where turning a Lua value
//! into a Rust string or a `u32` depends on Lua's own number formatting and
//! parsing, the value carries the outcome of that conversion, as rlua computed it
//! when the table was read.

use vstd::prelude::*;

verus! {

/// An error that reading a value out of a Lua table can raise.
#[derive(Debug, PartialEq, Eq)]
pub enum LuaError {
    /// A Lua value could not be turned into the requested Rust type.
    FromLuaConversion { from: String, to: String, message: Option<String> },
    /// Any other error the Lua runtime raised while converting a value;
    /// the number identifies it to the code that read the table.
    Runtime(u64),
}

/// The mathematical form of a `LuaError`.
pub enum LuaErrorV {
    FromLuaConversion { from: Seq<char>, to: Seq<char>, message: Option<Seq<char>> },
    Runtime(u64),
}

pub open spec fn opt_string_view(s: Option<String>) -> Option<Seq<char>> {
    match s {
        Some(s) => Some(s@),
        None => None,
    }
}

impl View for LuaError {
    type V = LuaErrorV;

    open spec fn view(&self) -> LuaErrorV {
        match self {
            LuaError::FromLuaConversion { from, to, message } => LuaErrorV::FromLuaConversion {
                from: from@,
                to: to@,
                message: opt_string_view(*message),
            },
            LuaError::Runtime(n) => LuaErrorV::Runtime(*n),
        }
    }
}

fn copy_opt_string(s: &Option<String>) -> (r: Option<String>)
    ensures
        opt_string_view(r) == opt_string_view(*s),
{
    match s {
        Some(s) => Some(s.clone()),
        None => None,
    }
}

impl LuaError {
    /// A copy of this error.
    pub fn duplicate(&self) -> (r: LuaError)
        ensures
            r@ == self@,
    {
        match self {
            LuaError::FromLuaConversion { from, to, message } => LuaError::FromLuaConversion {
                from: from.clone(),
                to: to.clone(),
                message: copy_opt_string(message),
            },
            LuaError::Runtime(n) => LuaError::Runtime(*n),
        }
    }
}

/// The outcomes of converting one Lua number or string to a Rust `String`
/// and to a `u32`, as rlua's `FromLua` conversions gave them.
#[derive(Debug, PartialEq, Eq)]
pub struct Coercions {
    pub to_string: Result<String, LuaError>,
    pub to_u32: Result<u32, LuaError>,
}

/// The kinds of Lua value that no merge reads beyond their type.
#[derive(PartialEq, Eq, Structural, Clone, Copy, Debug)]
pub enum OpaqueKind {
    LightUserData,
    Function,
    Thread,
    UserData,
}

/// A Lua value.
#[derive(Debug, PartialEq, Eq)]
pub enum LuaValue {
    Nil,
    Boolean(bool),
    /// A Lua integer and its conversions.
    Integer(i64, Coercions),
    /// A Lua float: the text Rust's `to_string` gives for it, and its conversions.
    Number(String, Coercions),
    /// A Lua string, known through its conversions.
    Str(Coercions),
    Table(LuaTable),
    Opaque(OpaqueKind),
}

/// A Lua table: `array[k]` is the value at index `k + 1` (the sequence part, up to
/// the first `nil`), and `fields` are the entries under string keys.
#[derive(Debug, PartialEq, Eq)]
pub struct LuaTable {
    pub array: Vec<LuaValue>,
    pub fields: Vec<(String, LuaValue)>,
}

/// The name rlua gives the type of a Lua value in its errors.
pub open spec fn lua_type_name(v: LuaValue) -> Seq<char> {
    match v {
        LuaValue::Nil => "nil"@,
        LuaValue::Boolean(_) => "boolean"@,
        LuaValue::Integer(..) => "integer"@,
        LuaValue::Number(..) => "number"@,
        LuaValue::Str(_) => "string"@,
        LuaValue::Table(_) => "table"@,
        LuaValue::Opaque(OpaqueKind::LightUserData) => "light userdata"@,
        LuaValue::Opaque(OpaqueKind::Function) => "function"@,
        LuaValue::Opaque(OpaqueKind::Thread) => "thread"@,
        LuaValue::Opaque(OpaqueKind::UserData) => "userdata"@,
    }
}

pub open spec fn conversion_error(from: Seq<char>, to: Seq<char>, message: Option<Seq<char>>) -> LuaErrorV {
    LuaErrorV::FromLuaConversion { from, to, message }
}

pub open spec fn result_string_view(r: Result<String, LuaError>) -> Result<Seq<char>, LuaErrorV> {
    match r {
        Ok(s) => Ok(s@),
        Err(e) => Err(e@),
    }
}

pub open spec fn result_u32_view(r: Result<u32, LuaError>) -> Result<u32, LuaErrorV> {
    match r {
        Ok(n) => Ok(n),
        Err(e) => Err(e@),
    }
}

/// The character of the decimal digit `d`.
pub open spec fn digit_char(d: nat) -> char {
    (48 + d) as char
}

/// The decimal digits of `n`, most significant first.
pub open spec fn decimal_digits(n: nat) -> Seq<char>
    decreases n,
{
    if n < 10 {
        seq![digit_char(n)]
    } else {
        decimal_digits(n / 10).push(digit_char(n % 10))
    }
}

/// The text Lua writes for the integer `i`.
pub open spec fn integer_text(i: int) -> Seq<char> {
    if i < 0 {
        seq!['-'] + decimal_digits((-i) as nat)
    } else {
        decimal_digits(i as nat)
    }
}

/// `c` holds what rlua's conversions give for the Lua integer `i`: its decimal
/// text, and the same number as a `u32` where it fits, else an out-of-range error.
pub open spec fn integer_coercions_hold(i: i64, c: Coercions) -> bool {
    &&& result_string_view(c.to_string) == Ok::<Seq<char>, LuaErrorV>(integer_text(i as int))
    &&& result_u32_view(c.to_u32) == if 0 <= i <= u32::MAX {
        Ok::<u32, LuaErrorV>(i as u32)
    } else {
        Err::<u32, LuaErrorV>(conversion_error("integer"@, "u32"@, Some("out of range"@)))
    }
}

impl LuaValue {
    /// The conversions this value carries are those rlua gives for it, where the
    /// library can state them: for an integer, its text and its `u32` range.
    pub open spec fn coercions_hold(self) -> bool {
        match self {
            LuaValue::Integer(i, c) => integer_coercions_hold(i, c),
            _ => true,
        }
    }
}

/// What converting `v` to a Rust `String` gives.
pub open spec fn value_to_string(v: LuaValue) -> Result<Seq<char>, LuaErrorV> {
    match v {
        LuaValue::Integer(_, c) => result_string_view(c.to_string),
        LuaValue::Number(_, c) => result_string_view(c.to_string),
        LuaValue::Str(c) => result_string_view(c.to_string),
        _ => Err(conversion_error(lua_type_name(v), "String"@, Some("expected string or number"@))),
    }
}

/// What converting `v` to a `u32` gives.
pub open spec fn value_to_u32(v: LuaValue) -> Result<u32, LuaErrorV> {
    match v {
        LuaValue::Integer(_, c) => result_u32_view(c.to_u32),
        LuaValue::Number(_, c) => result_u32_view(c.to_u32),
        LuaValue::Str(c) => result_u32_view(c.to_u32),
        _ => Err(
            conversion_error(
                lua_type_name(v),
                "u32"@,
                Some("expected number or string coercible to number"@),
            ),
        ),
    }
}

/// What converting `v` to a `bool` gives: only `nil` and `false` are false.
pub open spec fn value_to_bool(v: LuaValue) -> bool {
    match v {
        LuaValue::Nil => false,
        LuaValue::Boolean(b) => b,
        _ => true,
    }
}

/// What converting `v` to a table gives.
pub open spec fn value_to_table(v: LuaValue) -> Result<LuaTable, LuaErrorV> {
    match v {
        LuaValue::Table(t) => Ok(t),
        _ => Err(conversion_error(lua_type_name(v), "table"@, None)),
    }
}

/// What converting `v` to an optional table gives: `nil` is `None`.
pub open spec fn value_to_opt_table(v: LuaValue) -> Result<Option<LuaTable>, LuaErrorV> {
    match v {
        LuaValue::Nil => Ok(None),
        LuaValue::Table(t) => Ok(Some(t)),
        _ => Err(conversion_error(lua_type_name(v), "table"@, None)),
    }
}

/// What converting `v` to an optional string gives: `nil` is `None`.
pub open spec fn value_to_opt_string(v: LuaValue) -> Result<Option<Seq<char>>, LuaErrorV> {
    match v {
        LuaValue::Nil => Ok(None),
        _ => match value_to_string(v) {
            Ok(s) => Ok(Some(s)),
            Err(e) => Err(e),
        },
    }
}

/// The position of the first entry of `fields`, from `j` on, whose key is `key`,
/// or `fields.len()` where there is none.
pub open spec fn key_position(fields: Seq<(String, LuaValue)>, key: Seq<char>, j: int) -> int
    decreases fields.len() - j,
{
    if j < 0 || j >= fields.len() {
        fields.len() as int
    } else if fields[j].0@ == key {
        j
    } else {
        key_position(fields, key, j + 1)
    }
}

impl LuaTable {
    /// The value `t[key]` for a string key: the first entry under `key`, or `nil`.
    pub open spec fn get(self, key: Seq<char>) -> LuaValue {
        let p = key_position(self.fields@, key, 0);
        if p < self.fields@.len() {
            self.fields@[p].1
        } else {
            LuaValue::Nil
        }
    }

    /// The value `t[k + 1]`, or `nil` past the sequence part.
    pub open spec fn at(self, k: int) -> LuaValue {
        if 0 <= k < self.array@.len() {
            self.array@[k]
        } else {
            LuaValue::Nil
        }
    }
}


fn owned(s: &str) -> (r: String)
    ensures
        r@ == s@,
{
    s.to_owned()
}

fn conversion_failure(from: String, to: &str, message: Option<&str>) -> (e: LuaError)
    ensures
        e@ == conversion_error(
            from@,
            to@,
            match message {
                Some(m) => Some(m@),
                None => None,
            },
        ),
{
    let message = match message {
        Some(m) => Some(owned(m)),
        None => None,
    };
    LuaError::FromLuaConversion { from, to: owned(to), message }
}

fn copy_string_result(r: &Result<String, LuaError>) -> (c: Result<String, LuaError>)
    ensures
        result_string_view(c) == result_string_view(*r),
{
    match r {
        Ok(s) => Ok(s.clone()),
        Err(e) => Err(e.duplicate()),
    }
}

fn copy_u32_result(r: &Result<u32, LuaError>) -> (c: Result<u32, LuaError>)
    ensures
        result_u32_view(c) == result_u32_view(*r),
{
    match r {
        Ok(n) => Ok(*n),
        Err(e) => Err(e.duplicate()),
    }
}

impl LuaValue {
    /// The name of this value's Lua type.
    pub fn type_name_of(&self) -> (s: String)
        ensures
            s@ == lua_type_name(*self),
    {
        match self {
            LuaValue::Nil => owned("nil"),
            LuaValue::Boolean(_) => owned("boolean"),
            LuaValue::Integer(..) => owned("integer"),
            LuaValue::Number(..) => owned("number"),
            LuaValue::Str(_) => owned("string"),
            LuaValue::Table(_) => owned("table"),
            LuaValue::Opaque(OpaqueKind::LightUserData) => owned("light userdata"),
            LuaValue::Opaque(OpaqueKind::Function) => owned("function"),
            LuaValue::Opaque(OpaqueKind::Thread) => owned("thread"),
            LuaValue::Opaque(OpaqueKind::UserData) => owned("userdata"),
        }
    }

    /// This value as a Rust `String`.
    pub fn read_string(&self) -> (r: Result<String, LuaError>)
        ensures
            result_string_view(r) == value_to_string(*self),
    {
        match self {
            LuaValue::Integer(_, c) => copy_string_result(&c.to_string),
            LuaValue::Number(_, c) => copy_string_result(&c.to_string),
            LuaValue::Str(c) => copy_string_result(&c.to_string),
            _ => Err(
                conversion_failure(self.type_name_of(), "String", Some("expected string or number")),
            ),
        }
    }

    /// This value as a `u32`.
    pub fn read_u32(&self) -> (r: Result<u32, LuaError>)
        ensures
            result_u32_view(r) == value_to_u32(*self),
    {
        match self {
            LuaValue::Integer(_, c) => copy_u32_result(&c.to_u32),
            LuaValue::Number(_, c) => copy_u32_result(&c.to_u32),
            LuaValue::Str(c) => copy_u32_result(&c.to_u32),
            _ => Err(
                conversion_failure(
                    self.type_name_of(),
                    "u32",
                    Some("expected number or string coercible to number"),
                ),
            ),
        }
    }

    /// Whether this value is `nil`.
    pub fn is_nil(&self) -> (b: bool)
        ensures
            b == (*self is Nil),
    {
        match self {
            LuaValue::Nil => true,
            _ => false,
        }
    }

    /// This value as a `bool`.
    pub fn read_bool(&self) -> (b: bool)
        ensures
            b == value_to_bool(*self),
    {
        match self {
            LuaValue::Nil => false,
            LuaValue::Boolean(b) => *b,
            _ => true,
        }
    }

    /// The error raised when this value is read as a table and is not one.
    pub fn not_a_table(&self) -> (e: LuaError)
        ensures
            e@ == conversion_error(lua_type_name(*self), "table"@, None),
    {
        conversion_failure(self.type_name_of(), "table", None)
    }

    /// This value as a table.
    pub fn read_table(&self) -> (r: Result<&LuaTable, LuaError>)
        ensures
            match r {
                Ok(t) => value_to_table(*self) == Ok::<LuaTable, LuaErrorV>(*t),
                Err(e) => value_to_table(*self) == Err::<LuaTable, LuaErrorV>(e@),
            },
    {
        match self {
            LuaValue::Table(t) => Ok(t),
            _ => Err(self.not_a_table()),
        }
    }

    /// This value as an optional table.
    pub fn read_opt_table(&self) -> (r: Result<Option<&LuaTable>, LuaError>)
        ensures
            match r {
                Ok(Some(t)) => value_to_opt_table(*self) == Ok::<Option<LuaTable>, LuaErrorV>(Some(*t)),
                Ok(None) => value_to_opt_table(*self) == Ok::<Option<LuaTable>, LuaErrorV>(None),
                Err(e) => value_to_opt_table(*self) == Err::<Option<LuaTable>, LuaErrorV>(e@),
            },
    {
        match self {
            LuaValue::Nil => Ok(None),
            LuaValue::Table(t) => Ok(Some(t)),
            _ => Err(self.not_a_table()),
        }
    }

    /// This value as an optional string.
    pub fn read_opt_string(&self) -> (r: Result<Option<String>, LuaError>)
        ensures
            match r {
                Ok(s) => value_to_opt_string(*self) == Ok::<Option<Seq<char>>, LuaErrorV>(opt_string_view(s)),
                Err(e) => value_to_opt_string(*self) == Err::<Option<Seq<char>>, LuaErrorV>(e@),
            },
    {
        match self {
            LuaValue::Nil => Ok(None),
            _ => match self.read_string() {
                Ok(s) => Ok(Some(s)),
                Err(e) => Err(e),
            },
        }
    }
}

impl LuaTable {
    /// The entry under the string key `key`, if there is one.
    pub fn find(&self, key: &str) -> (r: Option<&LuaValue>)
        ensures
            match r {
                Some(v) => *v == self.get(key@),
                None => self.get(key@) == LuaValue::Nil,
            },
    {
        let k = owned(key);
        let n = self.fields.len();
        let mut j: usize = 0;
        while j < n
            invariant
                n == self.fields@.len(),
                j <= n,
                k@ == key@,
                key_position(self.fields@, key@, 0) == key_position(self.fields@, key@, j as int),
            decreases n - j,
        {
            if self.fields[j].0 == k {
                return Some(&self.fields[j].1);
            }
            j = j + 1;
        }
        None
    }

    /// The value at index `k + 1` of the sequence part, if there is one.
    pub fn find_at(&self, k: usize) -> (r: Option<&LuaValue>)
        ensures
            match r {
                Some(v) => *v == self.at(k as int),
                None => self.at(k as int) == LuaValue::Nil,
            },
    {
        if k < self.array.len() {
            Some(&self.array[k])
        } else {
            None
        }
    }
}


/// The entry found for a key lies within the entries.
pub proof fn lemma_key_position_bounds(fields: Seq<(String, LuaValue)>, key: Seq<char>, j: int)
    requires
        0 <= j <= fields.len(),
    ensures
        j <= key_position(fields, key, j) <= fields.len(),
    decreases fields.len() - j,
{
    if j < fields.len() && fields[j].0@ != key {
        lemma_key_position_bounds(fields, key, j + 1);
    }
}

/// A table found in a table is smaller than it.
pub proof fn lemma_get_decreases(t: LuaTable, key: Seq<char>)
    ensures
        t.get(key) matches LuaValue::Table(s) ==> decreases_to!(t => s),
{
    broadcast use vstd::std_specs::vec::axiom_vec_decreases_to_view;
    broadcast use vstd::seq::axiom_seq_index_decreases;

    let p = key_position(t.fields@, key, 0);
    lemma_key_position_bounds(t.fields@, key, 0);
    if p < t.fields@.len() {
        if let LuaValue::Table(s) = t.fields@[p].1 {
            assert(decreases_to!(t => t.fields));
            assert(decreases_to!(t.fields => t.fields@));
            assert(decreases_to!(t.fields@ => t.fields@[p]));
            assert(decreases_to!(t.fields@[p] => t.fields@[p].1));
            assert(decreases_to!(t.fields@[p].1 => s));
        }
    }
}

/// A table in the sequence part of a table is smaller than it.
pub proof fn lemma_at_decreases(t: LuaTable, k: int)
    ensures
        t.at(k) matches LuaValue::Table(s) ==> decreases_to!(t => s),
{
    broadcast use vstd::std_specs::vec::axiom_vec_decreases_to_view;
    broadcast use vstd::seq::axiom_seq_index_decreases;

    if 0 <= k < t.array@.len() {
        if let LuaValue::Table(s) = t.array@[k] {
            assert(decreases_to!(t => t.array));
            assert(decreases_to!(t.array => t.array@));
            assert(decreases_to!(t.array@ => t.array@[k]));
            assert(decreases_to!(t.array@[k] => s));
        }
    }
}

impl LuaTable {
    /// `t[key]` as a Rust `String`.
    pub fn get_string(&self, key: &str) -> (r: Result<String, LuaError>)
        ensures
            result_string_view(r) == value_to_string(self.get(key@)),
    {
        match self.find(key) {
            Some(v) => v.read_string(),
            None => LuaValue::Nil.read_string(),
        }
    }

    /// `t[key]` as an optional Rust `String`.
    pub fn get_opt_string(&self, key: &str) -> (r: Result<Option<String>, LuaError>)
        ensures
            match r {
                Ok(s) => value_to_opt_string(self.get(key@)) == Ok::<Option<Seq<char>>, LuaErrorV>(opt_string_view(s)),
                Err(e) => value_to_opt_string(self.get(key@)) == Err::<Option<Seq<char>>, LuaErrorV>(e@),
            },
    {
        match self.find(key) {
            Some(v) => v.read_opt_string(),
            None => Ok(None),
        }
    }

    /// `t[key]` as a `u32`.
    pub fn get_u32(&self, key: &str) -> (r: Result<u32, LuaError>)
        ensures
            result_u32_view(r) == value_to_u32(self.get(key@)),
    {
        match self.find(key) {
            Some(v) => v.read_u32(),
            None => LuaValue::Nil.read_u32(),
        }
    }

    /// `t[key]` as a `bool`.
    pub fn get_bool(&self, key: &str) -> (b: bool)
        ensures
            b == value_to_bool(self.get(key@)),
    {
        match self.find(key) {
            Some(v) => v.read_bool(),
            None => false,
        }
    }

    /// `t[key]` as a table.
    pub fn get_table(&self, key: &str) -> (r: Result<&LuaTable, LuaError>)
        ensures
            match r {
                Ok(t) => value_to_table(self.get(key@)) == Ok::<LuaTable, LuaErrorV>(*t),
                Err(e) => value_to_table(self.get(key@)) == Err::<LuaTable, LuaErrorV>(e@),
            },
    {
        match self.find(key) {
            Some(v) => v.read_table(),
            None => Err(LuaValue::Nil.not_a_table()),
        }
    }

    /// `t[key]` as an optional table.
    pub fn get_opt_table(&self, key: &str) -> (r: Result<Option<&LuaTable>, LuaError>)
        ensures
            match r {
                Ok(Some(t)) => value_to_opt_table(self.get(key@)) == Ok::<Option<LuaTable>, LuaErrorV>(Some(*t)),
                Ok(None) => value_to_opt_table(self.get(key@)) == Ok::<Option<LuaTable>, LuaErrorV>(None),
                Err(e) => value_to_opt_table(self.get(key@)) == Err::<Option<LuaTable>, LuaErrorV>(e@),
            },
    {
        match self.find(key) {
            Some(v) => v.read_opt_table(),
            None => Ok(None),
        }
    }

    /// `t[k + 1]` as a table.
    pub fn table_at(&self, k: usize) -> (r: Result<&LuaTable, LuaError>)
        ensures
            match r {
                Ok(t) => value_to_table(self.at(k as int)) == Ok::<LuaTable, LuaErrorV>(*t),
                Err(e) => value_to_table(self.at(k as int)) == Err::<LuaTable, LuaErrorV>(e@),
            },
    {
        match self.find_at(k) {
            Some(v) => v.read_table(),
            None => Err(LuaValue::Nil.not_a_table()),
        }
    }
}

} // verus!
