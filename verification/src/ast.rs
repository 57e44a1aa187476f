//! The part of a Rust syntax tree that a merge reads and writes, and its
//! mathematical form (the `..V` types), over which the merges are specified.
//!
//! Node identifiers are `u32`s, names are strings (an interned symbol is its
//! text), and spans are left out: every node a merge creates has the dummy span.

use vstd::prelude::*;

verus! {

/// The largest value a node identifier can take.
pub const NODE_ID_MAX: u32 = 0xFFFF_FF00;

/// The identifier of a node of the syntax tree.
#[derive(PartialEq, Eq, Structural, Clone, Copy, Debug)]
pub struct NodeId(pub u32);

impl NodeId {
    /// The identifier numbered `value`; there is none above `NODE_ID_MAX`.
    pub fn from_u32(value: u32) -> (id: NodeId)
        requires
            value <= NODE_ID_MAX,
        ensures
            id == NodeId(value),
    {
        let checked: Option<u32> = if value <= NODE_ID_MAX {
            Some(value)
        } else {
            None
        };
        NodeId(checked.expect("node identifier out of range"))
    }
}

/// A region of source text, by byte offsets.
#[derive(PartialEq, Eq, Structural, Clone, Copy, Debug)]
pub struct Span {
    pub lo: u32,
    pub hi: u32,
}

/// The span of a node that no source text produced.
pub open spec fn dummy_span() -> Span {
    Span { lo: 0, hi: 0 }
}

/// The span of a node that no source text produced.
pub fn dummy_sp() -> (sp: Span)
    ensures
        sp == dummy_span(),
{
    Span { lo: 0, hi: 0 }
}

/// A node with its span.
#[derive(PartialEq, Eq, Debug)]
pub struct Spanned<T> {
    pub node: T,
    pub span: Span,
}

/// `node` with the dummy span.
pub fn dummy_spanned<T>(node: T) -> (s: Spanned<T>)
    ensures
        s.node == node,
        s.span == dummy_span(),
{
    Spanned { node, span: dummy_sp() }
}

#[derive(PartialEq, Eq, Structural, Clone, Copy, Debug)]
pub enum FnKind {
    Normal,
    ImplMethod,
    TraitMethod,
    Foreign,
}

#[derive(PartialEq, Eq, Structural, Clone, Copy, Debug)]
pub enum Mutability {
    Mutable,
    Immutable,
}

#[derive(PartialEq, Eq, Structural, Clone, Copy, Debug)]
pub enum BindingMode {
    ByRef(Mutability),
    ByValue(Mutability),
}

#[derive(PartialEq, Eq, Structural, Clone, Copy, Debug)]
pub enum IntTy {
    Isize,
    I8,
    I16,
    I32,
    I64,
    I128,
}

#[derive(PartialEq, Eq, Structural, Clone, Copy, Debug)]
pub enum UintTy {
    Usize,
    U8,
    U16,
    U32,
    U64,
    U128,
}

#[derive(PartialEq, Eq, Structural, Clone, Copy, Debug)]
pub enum FloatTy {
    F32,
    F64,
}

#[derive(PartialEq, Eq, Structural, Clone, Copy, Debug)]
pub enum LitIntType {
    Signed(IntTy),
    Unsigned(UintTy),
    Unsuffixed,
}

#[derive(PartialEq, Eq, Structural, Clone, Copy, Debug)]
pub enum BinOpKind {
    Add,
    Sub,
    Mul,
    Div,
    Rem,
    And,
    Or,
    BitXor,
    BitAnd,
    BitOr,
    Shl,
    Shr,
    Eq,
    Lt,
    Le,
    Ne,
    Ge,
    Gt,
}

#[derive(PartialEq, Eq, Structural, Clone, Copy, Debug)]
pub enum UnOp {
    Deref,
    Not,
    Neg,
}

/// A literal. Floats are held as the text of the symbol that names them.
#[derive(PartialEq, Eq, Debug)]
pub enum LitKind {
    Bool(bool),
    Int(u128, LitIntType),
    Float(String, FloatTy),
    FloatUnsuffixed(String),
    /// A literal of a kind (string, byte, char, ..) that no merge writes.
    Other,
}

/// An expression.
#[derive(PartialEq, Eq, Debug)]
pub enum Expr {
    /// The placeholder a merge starts every new expression from.
    Placeholder,
    Path(Vec<String>),
    Lit(Spanned<LitKind>),
    Binary(Spanned<BinOpKind>, Box<Expr>, Box<Expr>),
    AssignOp(Spanned<BinOpKind>, Box<Expr>, Box<Expr>),
    Assign(Box<Expr>, Box<Expr>),
    Array(Vec<Expr>),
    Index(Box<Expr>, Box<Expr>),
    Unary(UnOp, Box<Expr>),
    MethodCall(String, Vec<Expr>),
    Field(Box<Expr>, String),
    Ret(Option<Box<Expr>>),
    /// An expression of a kind that no merge writes.
    Other,
}

/// A pattern.
#[derive(PartialEq, Eq, Debug)]
pub enum Pat {
    Ident(BindingMode, String),
    /// A pattern of a kind that no merge writes.
    Other,
}

/// A function parameter.
#[derive(PartialEq, Eq, Debug)]
pub struct Arg {
    pub id: NodeId,
    pub pat: Pat,
}

/// A function signature's parameters.
#[derive(PartialEq, Eq, Debug)]
pub struct FnDecl {
    pub inputs: Vec<Arg>,
}

/// A `let` statement.
#[derive(PartialEq, Eq, Debug)]
pub struct Local {
    pub pat: Pat,
    pub init: Option<Expr>,
}

/// A statement.
#[derive(PartialEq, Eq, Debug)]
pub enum Stmt {
    Local(Local),
    Item(Item),
    Expr(Expr),
    Semi(Expr),
    /// A macro invocation in statement position.
    Mac,
}

/// A block.
#[derive(PartialEq, Eq, Debug)]
pub struct Block {
    pub stmts: Vec<Stmt>,
}

/// An item of an `impl` block.
#[derive(PartialEq, Eq, Debug)]
pub struct ImplItem {
    pub ident: String,
    pub kind: ImplItemKind,
}

#[derive(PartialEq, Eq, Debug)]
pub enum ImplItemKind {
    Method(FnDecl, Block),
    /// An associated constant, type or macro.
    Other,
}

/// An item.
#[derive(PartialEq, Eq, Debug)]
pub struct Item {
    pub ident: String,
    pub kind: ItemKind,
}

#[derive(PartialEq, Eq, Debug)]
pub enum ItemKind {
    Fn(FnDecl, Block),
    Impl(Vec<ImplItem>),
    /// An item of a kind that no merge writes.
    Other,
}

/// A module.
#[derive(PartialEq, Eq, Debug)]
pub struct Mod {
    /// The span of the module's contents.
    pub inner: Span,
    pub inline: bool,
    pub items: Vec<Item>,
}

/// A crate.
#[derive(PartialEq, Eq, Debug)]
pub struct Crate {
    pub module: Mod,
}

/// Anything function-like: a free function, a method, a trait method or a
/// foreign function, with its body where it has one.
#[derive(PartialEq, Eq, Debug)]
pub struct FnLike {
    pub kind: FnKind,
    pub id: NodeId,
    pub ident: String,
    pub decl: FnDecl,
    pub block: Option<Block>,
}

// ---------------------------------------------------------------------------
// Mathematical forms.

pub enum LitKindV {
    Bool(bool),
    Int(u128, LitIntType),
    Float(Seq<char>, FloatTy),
    FloatUnsuffixed(Seq<char>),
    Other,
}

pub enum ExprV {
    Placeholder,
    Path(Seq<Seq<char>>),
    Lit(LitKindV, Span),
    Binary(BinOpKind, Span, Box<ExprV>, Box<ExprV>),
    AssignOp(BinOpKind, Span, Box<ExprV>, Box<ExprV>),
    Assign(Box<ExprV>, Box<ExprV>),
    Array(Seq<ExprV>),
    Index(Box<ExprV>, Box<ExprV>),
    Unary(UnOp, Box<ExprV>),
    MethodCall(Seq<char>, Seq<ExprV>),
    Field(Box<ExprV>, Seq<char>),
    Ret(Option<Box<ExprV>>),
    Other,
}

pub enum PatV {
    Ident(BindingMode, Seq<char>),
    Other,
}

pub struct ArgV {
    pub id: NodeId,
    pub pat: PatV,
}

pub struct FnDeclV {
    pub inputs: Seq<ArgV>,
}

pub struct LocalV {
    pub pat: PatV,
    pub init: Option<ExprV>,
}

pub enum StmtV {
    Local(LocalV),
    Item(ItemV),
    Expr(ExprV),
    Semi(ExprV),
    Mac,
}

pub struct BlockV {
    pub stmts: Seq<StmtV>,
}

pub struct ImplItemV {
    pub ident: Seq<char>,
    pub kind: ImplItemKindV,
}

pub enum ImplItemKindV {
    Method(FnDeclV, BlockV),
    Other,
}

pub struct ItemV {
    pub ident: Seq<char>,
    pub kind: ItemKindV,
}

pub enum ItemKindV {
    Fn(FnDeclV, BlockV),
    Impl(Seq<ImplItemV>),
    Other,
}

pub struct ModV {
    pub inner: Span,
    pub inline: bool,
    pub items: Seq<ItemV>,
}

pub struct CrateV {
    pub module: ModV,
}

pub struct FnLikeV {
    pub kind: FnKind,
    pub id: NodeId,
    pub ident: Seq<char>,
    pub decl: FnDeclV,
    pub block: Option<BlockV>,
}

pub open spec fn strings_view(s: Seq<String>) -> Seq<Seq<char>> {
    s.map_values(|x: String| x@)
}

impl View for LitKind {
    type V = LitKindV;

    open spec fn view(&self) -> LitKindV {
        match self {
            LitKind::Bool(b) => LitKindV::Bool(*b),
            LitKind::Int(n, t) => LitKindV::Int(*n, *t),
            LitKind::Float(s, t) => LitKindV::Float(s@, *t),
            LitKind::FloatUnsuffixed(s) => LitKindV::FloatUnsuffixed(s@),
            LitKind::Other => LitKindV::Other,
        }
    }
}

pub open spec fn expr_view(e: Expr) -> ExprV
    decreases e, 0int,
{
    match e {
        Expr::Placeholder => ExprV::Placeholder,
        Expr::Path(segs) => ExprV::Path(strings_view(segs@)),
        Expr::Lit(l) => ExprV::Lit(l.node@, l.span),
        Expr::Binary(op, l, r) => ExprV::Binary(
            op.node,
            op.span,
            Box::new(expr_view(*l)),
            Box::new(expr_view(*r)),
        ),
        Expr::AssignOp(op, l, r) => ExprV::AssignOp(
            op.node,
            op.span,
            Box::new(expr_view(*l)),
            Box::new(expr_view(*r)),
        ),
        Expr::Assign(l, r) => ExprV::Assign(Box::new(expr_view(*l)), Box::new(expr_view(*r))),
        Expr::Array(v) => ExprV::Array(exprs_view(v@)),
        Expr::Index(a, b) => ExprV::Index(Box::new(expr_view(*a)), Box::new(expr_view(*b))),
        Expr::Unary(op, a) => ExprV::Unary(op, Box::new(expr_view(*a))),
        Expr::MethodCall(name, args) => ExprV::MethodCall(name@, exprs_view(args@)),
        Expr::Field(a, name) => ExprV::Field(Box::new(expr_view(*a)), name@),
        Expr::Ret(None) => ExprV::Ret(None),
        Expr::Ret(Some(a)) => ExprV::Ret(Some(Box::new(expr_view(*a)))),
        Expr::Other => ExprV::Other,
    }
}

pub open spec fn exprs_view(s: Seq<Expr>) -> Seq<ExprV>
    decreases s, 0int,
{
    if s.len() == 0 {
        Seq::empty()
    } else {
        exprs_view(s.subrange(0, s.len() - 1)).push(expr_view(s[s.len() - 1]))
    }
}

/// Appending an expression appends its form.
pub proof fn lemma_exprs_view_push(s: Seq<Expr>, e: Expr)
    ensures
        exprs_view(s.push(e)) == exprs_view(s).push(expr_view(e)),
{
    assert(s.push(e).subrange(0, s.len() as int) =~= s);
}

impl View for Expr {
    type V = ExprV;

    open spec fn view(&self) -> ExprV {
        expr_view(*self)
    }
}

impl View for Pat {
    type V = PatV;

    open spec fn view(&self) -> PatV {
        match self {
            Pat::Ident(b, name) => PatV::Ident(*b, name@),
            Pat::Other => PatV::Other,
        }
    }
}

impl View for Arg {
    type V = ArgV;

    open spec fn view(&self) -> ArgV {
        ArgV { id: self.id, pat: self.pat@ }
    }
}

pub open spec fn args_view(s: Seq<Arg>) -> Seq<ArgV> {
    s.map_values(|a: Arg| a@)
}

impl View for FnDecl {
    type V = FnDeclV;

    open spec fn view(&self) -> FnDeclV {
        FnDeclV { inputs: args_view(self.inputs@) }
    }
}

impl View for Local {
    type V = LocalV;

    open spec fn view(&self) -> LocalV {
        LocalV {
            pat: self.pat@,
            init: match self.init {
                Some(e) => Some(expr_view(e)),
                None => None,
            },
        }
    }
}

pub open spec fn stmt_view(s: Stmt) -> StmtV
    decreases s, 0int,
{
    match s {
        Stmt::Local(l) => StmtV::Local(l@),
        Stmt::Item(i) => StmtV::Item(item_view(i)),
        Stmt::Expr(e) => StmtV::Expr(e@),
        Stmt::Semi(e) => StmtV::Semi(e@),
        Stmt::Mac => StmtV::Mac,
    }
}

pub open spec fn stmts_view(s: Seq<Stmt>) -> Seq<StmtV>
    decreases s, 0int,
{
    if s.len() == 0 {
        Seq::empty()
    } else {
        stmts_view(s.subrange(0, s.len() - 1)).push(stmt_view(s[s.len() - 1]))
    }
}

pub open spec fn block_view(b: Block) -> BlockV
    decreases b, 0int,
{
    BlockV { stmts: stmts_view(b.stmts@) }
}

pub open spec fn impl_item_view(i: ImplItem) -> ImplItemV
    decreases i, 0int,
{
    ImplItemV {
        ident: i.ident@,
        kind: match i.kind {
            ImplItemKind::Method(d, b) => ImplItemKindV::Method(d@, block_view(b)),
            ImplItemKind::Other => ImplItemKindV::Other,
        },
    }
}

pub open spec fn impl_items_view(s: Seq<ImplItem>) -> Seq<ImplItemV>
    decreases s, 0int,
{
    if s.len() == 0 {
        Seq::empty()
    } else {
        impl_items_view(s.subrange(0, s.len() - 1)).push(impl_item_view(s[s.len() - 1]))
    }
}

pub open spec fn item_view(i: Item) -> ItemV
    decreases i, 0int,
{
    ItemV {
        ident: i.ident@,
        kind: match i.kind {
            ItemKind::Fn(d, b) => ItemKindV::Fn(d@, block_view(b)),
            ItemKind::Impl(items) => ItemKindV::Impl(impl_items_view(items@)),
            ItemKind::Other => ItemKindV::Other,
        },
    }
}

pub open spec fn items_view(s: Seq<Item>) -> Seq<ItemV>
    decreases s, 0int,
{
    if s.len() == 0 {
        Seq::empty()
    } else {
        items_view(s.subrange(0, s.len() - 1)).push(item_view(s[s.len() - 1]))
    }
}

impl View for Stmt {
    type V = StmtV;

    open spec fn view(&self) -> StmtV {
        stmt_view(*self)
    }
}

impl View for Block {
    type V = BlockV;

    open spec fn view(&self) -> BlockV {
        block_view(*self)
    }
}

impl View for ImplItem {
    type V = ImplItemV;

    open spec fn view(&self) -> ImplItemV {
        impl_item_view(*self)
    }
}

impl View for Item {
    type V = ItemV;

    open spec fn view(&self) -> ItemV {
        item_view(*self)
    }
}

impl View for Mod {
    type V = ModV;

    open spec fn view(&self) -> ModV {
        ModV { inner: self.inner, inline: self.inline, items: items_view(self.items@) }
    }
}

impl View for Crate {
    type V = CrateV;

    open spec fn view(&self) -> CrateV {
        CrateV { module: self.module@ }
    }
}

impl View for FnLike {
    type V = FnLikeV;

    open spec fn view(&self) -> FnLikeV {
        FnLikeV {
            kind: self.kind,
            id: self.id,
            ident: self.ident@,
            decl: self.decl@,
            block: match self.block {
                Some(b) => Some(block_view(b)),
                None => None,
            },
        }
    }
}

/// The form of a list of nodes is the list of their forms.
pub proof fn lemma_stmts_view(s: Seq<Stmt>)
    ensures
        stmts_view(s).len() == s.len(),
        forall|i: int| 0 <= i < s.len() ==> #[trigger] stmts_view(s)[i] == stmt_view(s[i]),
    decreases s.len(),
{
    if s.len() > 0 {
        let p = s.subrange(0, s.len() - 1);
        lemma_stmts_view(p);
        assert forall|i: int| 0 <= i < s.len() implies #[trigger] stmts_view(s)[i] == stmt_view(s[i]) by {
            if i < s.len() - 1 {
                assert(p[i] == s[i]);
            }
        }
    }
}

/// The form of a list of nodes is the list of their forms.
pub proof fn lemma_impl_items_view(s: Seq<ImplItem>)
    ensures
        impl_items_view(s).len() == s.len(),
        forall|i: int| 0 <= i < s.len() ==> #[trigger] impl_items_view(s)[i] == impl_item_view(s[i]),
    decreases s.len(),
{
    if s.len() > 0 {
        let p = s.subrange(0, s.len() - 1);
        lemma_impl_items_view(p);
        assert forall|i: int| 0 <= i < s.len() implies #[trigger] impl_items_view(s)[i] == impl_item_view(s[i]) by {
            if i < s.len() - 1 {
                assert(p[i] == s[i]);
            }
        }
    }
}

/// The form of a list of nodes is the list of their forms.
pub proof fn lemma_items_view(s: Seq<Item>)
    ensures
        items_view(s).len() == s.len(),
        forall|i: int| 0 <= i < s.len() ==> #[trigger] items_view(s)[i] == item_view(s[i]),
    decreases s.len(),
{
    if s.len() > 0 {
        let p = s.subrange(0, s.len() - 1);
        lemma_items_view(p);
        assert forall|i: int| 0 <= i < s.len() implies #[trigger] items_view(s)[i] == item_view(s[i]) by {
            if i < s.len() - 1 {
                assert(p[i] == s[i]);
            }
        }
    }
}

/// The placeholder expression that every new expression starts from.
pub fn dummy_expr() -> (e: Expr)
    ensures
        e@ == ExprV::Placeholder,
{
    Expr::Placeholder
}

} // verus!
