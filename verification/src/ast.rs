//! The Koatl syntax tree: the input of the lowering pass.
//!
//! Every node carries the byte range of the source text it was read from.
//! Spans never change what a node lowers to, apart from the names that
//! synthesized temporaries are given.

use vstd::prelude::*;

verus! {

/// A half-open byte range `[start, end)` of the source text.
#[derive(Debug, Clone, Copy, PartialEq, Eq, Structural)]
pub struct Span {
    pub start: usize,
    pub end: usize,
}

impl Span {
    pub fn new(start: usize, end: usize) -> (s: Span)
        ensures
            s.start == start,
            s.end == end,
    {
        Span { start, end }
    }
}

pub type Spanned<T> = (T, Span);

#[derive(Debug, Copy, Clone)]
pub enum BinaryOp {
    Add,
    Sub,
    Mul,
    Mod,
    MatMul,
    Div,
    Exp,
    Lt,
    Leq,
    Gt,
    Geq,
    Eq,
    Neq,
    Is,
    Nis,
    Coalesce,
    Pipe,
}

#[derive(Debug, Copy, Clone)]
pub enum UnaryOp {
    Inv,
    Pos,
    Neg,
    Yield,
    YieldFrom,
}

pub type Ident = String;

pub type SIdent = Spanned<Ident>;

#[derive(Debug)]
pub enum ImportList {
    /// Each leaf is a name with its optional alias.
    Leaves(Vec<(SIdent, Option<SIdent>)>),
    Star,
}

#[derive(Debug)]
pub struct ImportStmt {
    pub trunk: Vec<SIdent>,
    pub imports: ImportList,
    /// Number of dots in front of the trunk.
    pub level: usize,
    pub reexport: bool,
}

#[derive(Debug)]
pub struct ExceptHandler {
    pub types: Option<ExceptTypes>,
    pub name: Option<SIdent>,
    pub body: SBlock,
}

#[derive(Debug, Clone, Copy, PartialEq, Eq, Structural)]
pub enum AssignModifier {
    Export,
    Global,
    Nonlocal,
}

#[derive(Debug)]
pub enum Stmt {
    Module,
    Assign(SExpr, SExpr, Vec<AssignModifier>),
    Expr(SExpr, Vec<AssignModifier>),
    Return(SExpr),
    While(SExpr, SBlock),
    For(SExpr, SExpr, SBlock),
    Import(ImportStmt),
    Try(SBlock, Vec<ExceptHandler>, Option<SBlock>),
    Assert(SExpr, Option<SExpr>),
    Raise(SExpr),
    Break,
    Continue,
    /// A statement that the parser could not read.
    Error,
}

pub type SStmt = Spanned<Stmt>;

#[derive(Debug)]
pub enum Literal {
    Num(String),
    Str(String),
    Bool(bool),
    /// The `None` literal.
    Null,
}

pub type SLiteral = Spanned<Literal>;

#[derive(Debug)]
pub struct FmtExpr {
    pub block: SBlock,
    pub fmt: Option<String>,
}

pub type SFmtExpr = Spanned<FmtExpr>;

#[derive(Debug)]
pub enum ListItem {
    Item(SExpr),
    Spread(SExpr),
}

#[derive(Debug)]
pub enum MappingItem {
    Item(SExpr, SExpr),
    Spread(SExpr),
}

#[derive(Debug)]
pub enum CallItem {
    Arg(SExpr),
    Kwarg(SIdent, SExpr),
    ArgSpread(SExpr),
    KwargSpread(SExpr),
}

pub type SCallItem = Spanned<CallItem>;

#[derive(Debug)]
pub enum ArgDefItem {
    Arg(SExpr, Option<SExpr>),
    ArgSpread(SIdent),
    KwargSpread(SIdent),
}

pub type SArgItem = Spanned<ArgDefItem>;

#[derive(Debug)]
pub enum Block {
    Stmts(Vec<SStmt>),
    Expr(SExpr),
}

pub type SBlock = Spanned<Block>;

#[derive(Debug)]
pub enum ExceptTypes {
    Single(SExpr),
    Multiple(Vec<SExpr>),
}

#[derive(Debug)]
pub enum Expr {
    Literal(SLiteral),
    Ident(SIdent),
    Placeholder,
    List(Vec<ListItem>),
    Mapping(Vec<MappingItem>),
    Tuple(Vec<ListItem>),
    Slice(Option<Box<SExpr>>, Option<Box<SExpr>>, Option<Box<SExpr>>),
    Unary(UnaryOp, Box<SExpr>),
    Binary(BinaryOp, Box<SExpr>, Box<SExpr>),
    If(Box<SExpr>, Box<SBlock>, Option<Box<SBlock>>),
    Match(Box<SExpr>, Vec<(Option<SExpr>, SBlock)>),
    Class(Vec<SCallItem>, Box<SBlock>),
    Call(Box<SExpr>, Vec<SCallItem>),
    Subscript(Box<SExpr>, Vec<ListItem>),
    Attribute(Box<SExpr>, SIdent),
    Then(Box<SExpr>, Box<SExpr>),
    MappedCall(Box<SExpr>, Vec<SCallItem>),
    MappedSubscript(Box<SExpr>, Vec<ListItem>),
    MappedAttribute(Box<SExpr>, SIdent),
    MappedThen(Box<SExpr>, Box<SExpr>),
    Checked(Box<SExpr>, Option<Box<ExceptTypes>>),
    Fn(Vec<ArgDefItem>, Box<SBlock>),
    Fstr(Spanned<String>, Vec<(SFmtExpr, Spanned<String>)>),
    Block(Box<SBlock>),
}

pub type SExpr = Spanned<Expr>;

} // verus!
