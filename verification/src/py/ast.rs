//! The subset of Python's abstract syntax that lowering emits.
//!
//! Each executable type comes with a mathematical view (`...View`) in which
//! vectors are sequences and strings are sequences of characters. Contracts
//! speak of the views only.

use vstd::prelude::*;
use crate::ast::Span;

verus! {

pub type PyIdent = String;

/// Whether a name, attribute or subscript is read or written.
#[derive(Debug, Clone, Copy, PartialEq, Eq, Structural)]
pub enum PyAccessCtx {
    Load,
    Store,
}

#[derive(Debug, Clone, Copy, PartialEq, Eq, Structural)]
pub enum PyBinaryOp {
    Add,
    Sub,
    Mult,
    Div,
    Mod,
    Pow,
    MatMult,
    Lt,
    Gt,
    Leq,
    Geq,
    Eq,
    Neq,
    Is,
    Nis,
}

#[derive(Debug, Clone, Copy, PartialEq, Eq, Structural)]
pub enum PyUnaryOp {
    Neg,
    Pos,
    Inv,
}

#[derive(Debug, PartialEq)]
pub enum PyLiteral {
    Num(String),
    Str(String),
    Bool(bool),
    /// Python's `None`.
    Null,
}

#[derive(Debug, PartialEq)]
pub struct SPyExpr {
    pub value: PyExpr,
    pub tl_span: Span,
}

#[derive(Debug, PartialEq)]
pub enum PyCallItem {
    Arg(SPyExpr),
    Kwarg(PyIdent, SPyExpr),
    ArgSpread(SPyExpr),
    KwargSpread(SPyExpr),
}

#[derive(Debug, PartialEq)]
pub enum PyListItem {
    Item(SPyExpr),
    Spread(SPyExpr),
}

#[derive(Debug, PartialEq)]
pub enum PyDictItem {
    Item(SPyExpr, SPyExpr),
    Spread(SPyExpr),
}

#[derive(Debug, PartialEq)]
pub enum PyArgDefItem {
    Arg(PyIdent, Option<SPyExpr>),
    ArgSpread(PyIdent),
    KwargSpread(PyIdent),
}

#[derive(Debug, PartialEq)]
pub enum PyFstrPart {
    Str(PyIdent),
    /// An interpolated expression and its format specifier.
    Expr(SPyExpr, PyIdent),
}

#[derive(Debug, PartialEq)]
pub enum PyExpr {
    Ident(PyIdent, PyAccessCtx),
    Literal(PyLiteral),
    Call(Box<SPyExpr>, Vec<PyCallItem>),
    Attribute(Box<SPyExpr>, PyIdent, PyAccessCtx),
    Subscript(Box<SPyExpr>, Box<SPyExpr>, PyAccessCtx),
    Slice(Option<Box<SPyExpr>>, Option<Box<SPyExpr>>, Option<Box<SPyExpr>>),
    Tuple(Vec<PyListItem>),
    List(Vec<PyListItem>),
    Dict(Vec<PyDictItem>),
    Binary(PyBinaryOp, Box<SPyExpr>, Box<SPyExpr>),
    Unary(PyUnaryOp, Box<SPyExpr>),
    Lambda(Vec<PyArgDefItem>, Box<SPyExpr>),
    IfExpr(Box<SPyExpr>, Box<SPyExpr>, Box<SPyExpr>),
    Fstr(Vec<PyFstrPart>),
    Yield(Box<SPyExpr>),
    YieldFrom(Box<SPyExpr>),
}

#[derive(Debug, PartialEq)]
pub struct PyImportAlias {
    pub name: PyIdent,
    pub as_name: Option<PyIdent>,
}

#[derive(Debug, PartialEq)]
pub struct PyBlock(pub Vec<SPyStmt>);

#[derive(Debug, PartialEq)]
pub struct PyDecorators(pub Vec<SPyExpr>);

#[derive(Debug, PartialEq)]
pub struct PyExceptHandler {
    pub typ: Option<SPyExpr>,
    pub name: Option<PyIdent>,
    pub body: PyBlock,
}

#[derive(Debug, PartialEq)]
pub struct PyMatchCase {
    pub pattern: SPyExpr,
    pub body: PyBlock,
}

#[derive(Debug, PartialEq)]
pub enum PyStmt {
    Assign(SPyExpr, SPyExpr),
    Expr(SPyExpr),
    If(SPyExpr, PyBlock, Option<PyBlock>),
    While(SPyExpr, PyBlock),
    For(SPyExpr, SPyExpr, PyBlock),
    Try(PyBlock, Vec<PyExceptHandler>, Option<PyBlock>),
    Match(SPyExpr, Vec<PyMatchCase>),
    FnDef(PyIdent, Vec<PyArgDefItem>, PyBlock, PyDecorators),
    ClassDef(PyIdent, Vec<PyCallItem>, PyBlock, PyDecorators),
    Import(Vec<PyImportAlias>),
    /// Module (if any), imported names, and the number of leading dots.
    ImportFrom(Option<PyIdent>, Vec<PyImportAlias>, usize),
    Global(Vec<PyIdent>),
    Nonlocal(Vec<PyIdent>),
    Return(SPyExpr),
    Raise(SPyExpr),
    Assert(SPyExpr, Option<SPyExpr>),
    Break,
    Continue,
}

#[derive(Debug, PartialEq)]
pub struct SPyStmt {
    pub value: PyStmt,
    pub tl_span: Span,
}

// ---------------------------------------------------------------------------
// Views
// ---------------------------------------------------------------------------

pub enum PyLiteralView {
    Num(Seq<char>),
    Str(Seq<char>),
    Bool(bool),
    Null,
}

pub struct SPyExprView {
    pub value: PyExprView,
    pub tl_span: Span,
}

pub enum PyCallItemView {
    Arg(SPyExprView),
    Kwarg(Seq<char>, SPyExprView),
    ArgSpread(SPyExprView),
    KwargSpread(SPyExprView),
}

pub enum PyListItemView {
    Item(SPyExprView),
    Spread(SPyExprView),
}

pub enum PyDictItemView {
    Item(SPyExprView, SPyExprView),
    Spread(SPyExprView),
}

pub enum PyArgDefItemView {
    Arg(Seq<char>, Option<SPyExprView>),
    ArgSpread(Seq<char>),
    KwargSpread(Seq<char>),
}

pub enum PyFstrPartView {
    Str(Seq<char>),
    Expr(SPyExprView, Seq<char>),
}

pub enum PyExprView {
    Ident(Seq<char>, PyAccessCtx),
    Literal(PyLiteralView),
    Call(Box<SPyExprView>, Seq<PyCallItemView>),
    Attribute(Box<SPyExprView>, Seq<char>, PyAccessCtx),
    Subscript(Box<SPyExprView>, Box<SPyExprView>, PyAccessCtx),
    Slice(Option<Box<SPyExprView>>, Option<Box<SPyExprView>>, Option<Box<SPyExprView>>),
    Tuple(Seq<PyListItemView>),
    List(Seq<PyListItemView>),
    Dict(Seq<PyDictItemView>),
    Binary(PyBinaryOp, Box<SPyExprView>, Box<SPyExprView>),
    Unary(PyUnaryOp, Box<SPyExprView>),
    Lambda(Seq<PyArgDefItemView>, Box<SPyExprView>),
    IfExpr(Box<SPyExprView>, Box<SPyExprView>, Box<SPyExprView>),
    Fstr(Seq<PyFstrPartView>),
    Yield(Box<SPyExprView>),
    YieldFrom(Box<SPyExprView>),
}

pub struct PyImportAliasView {
    pub name: Seq<char>,
    pub as_name: Option<Seq<char>>,
}

pub struct PyExceptHandlerView {
    pub typ: Option<SPyExprView>,
    pub name: Option<Seq<char>>,
    pub body: Seq<SPyStmtView>,
}

pub struct PyMatchCaseView {
    pub pattern: SPyExprView,
    pub body: Seq<SPyStmtView>,
}

pub enum PyStmtView {
    Assign(SPyExprView, SPyExprView),
    Expr(SPyExprView),
    If(SPyExprView, Seq<SPyStmtView>, Option<Seq<SPyStmtView>>),
    While(SPyExprView, Seq<SPyStmtView>),
    For(SPyExprView, SPyExprView, Seq<SPyStmtView>),
    Try(Seq<SPyStmtView>, Seq<PyExceptHandlerView>, Option<Seq<SPyStmtView>>),
    Match(SPyExprView, Seq<PyMatchCaseView>),
    FnDef(Seq<char>, Seq<PyArgDefItemView>, Seq<SPyStmtView>, Seq<SPyExprView>),
    ClassDef(Seq<char>, Seq<PyCallItemView>, Seq<SPyStmtView>, Seq<SPyExprView>),
    Import(Seq<PyImportAliasView>),
    ImportFrom(Option<Seq<char>>, Seq<PyImportAliasView>, usize),
    Global(Seq<Seq<char>>),
    Nonlocal(Seq<Seq<char>>),
    Return(SPyExprView),
    Raise(SPyExprView),
    Assert(SPyExprView, Option<SPyExprView>),
    Break,
    Continue,
}

pub struct SPyStmtView {
    pub value: PyStmtView,
    pub tl_span: Span,
}

pub open spec fn opt_ident_view(o: Option<PyIdent>) -> Option<Seq<char>> {
    match o {
        Some(s) => Some(s@),
        None => None,
    }
}

pub open spec fn idents_view(s: Seq<PyIdent>) -> Seq<Seq<char>> {
    Seq::new(s.len(), |i: int| s[i]@)
}

pub open spec fn literal_view(l: PyLiteral) -> PyLiteralView {
    match l {
        PyLiteral::Num(s) => PyLiteralView::Num(s@),
        PyLiteral::Str(s) => PyLiteralView::Str(s@),
        PyLiteral::Bool(b) => PyLiteralView::Bool(b),
        PyLiteral::Null => PyLiteralView::Null,
    }
}

pub open spec fn alias_view(a: PyImportAlias) -> PyImportAliasView {
    PyImportAliasView { name: a.name@, as_name: opt_ident_view(a.as_name) }
}

pub open spec fn aliases_view(s: Seq<PyImportAlias>) -> Seq<PyImportAliasView> {
    Seq::new(s.len(), |i: int| alias_view(s[i]))
}

pub open spec fn expr_view(e: SPyExpr) -> SPyExprView
    decreases e,
{
    SPyExprView { value: py_expr_view(e.value), tl_span: e.tl_span }
}

pub open spec fn opt_expr_view(o: Option<SPyExpr>) -> Option<SPyExprView>
    decreases o,
{
    match o {
        Some(e) => Some(expr_view(e)),
        None => None,
    }
}

pub open spec fn opt_box_expr_view(o: Option<Box<SPyExpr>>) -> Option<Box<SPyExprView>>
    decreases o,
{
    match o {
        Some(e) => Some(Box::new(expr_view(*e))),
        None => None,
    }
}

pub open spec fn exprs_view(s: Seq<SPyExpr>) -> Seq<SPyExprView>
    decreases s,
{
    Seq::new(
        s.len(),
        |i: int|
            if 0 <= i < s.len() {
                expr_view(s[i])
            } else {
                arbitrary()
            },
    )
}

pub open spec fn call_item_view(c: PyCallItem) -> PyCallItemView
    decreases c,
{
    match c {
        PyCallItem::Arg(e) => PyCallItemView::Arg(expr_view(e)),
        PyCallItem::Kwarg(n, e) => PyCallItemView::Kwarg(n@, expr_view(e)),
        PyCallItem::ArgSpread(e) => PyCallItemView::ArgSpread(expr_view(e)),
        PyCallItem::KwargSpread(e) => PyCallItemView::KwargSpread(expr_view(e)),
    }
}

pub open spec fn call_items_view(s: Seq<PyCallItem>) -> Seq<PyCallItemView>
    decreases s,
{
    Seq::new(
        s.len(),
        |i: int|
            if 0 <= i < s.len() {
                call_item_view(s[i])
            } else {
                arbitrary()
            },
    )
}

pub open spec fn list_item_view(c: PyListItem) -> PyListItemView
    decreases c,
{
    match c {
        PyListItem::Item(e) => PyListItemView::Item(expr_view(e)),
        PyListItem::Spread(e) => PyListItemView::Spread(expr_view(e)),
    }
}

pub open spec fn list_items_view(s: Seq<PyListItem>) -> Seq<PyListItemView>
    decreases s,
{
    Seq::new(
        s.len(),
        |i: int|
            if 0 <= i < s.len() {
                list_item_view(s[i])
            } else {
                arbitrary()
            },
    )
}

pub open spec fn dict_item_view(c: PyDictItem) -> PyDictItemView
    decreases c,
{
    match c {
        PyDictItem::Item(k, v) => PyDictItemView::Item(expr_view(k), expr_view(v)),
        PyDictItem::Spread(e) => PyDictItemView::Spread(expr_view(e)),
    }
}

pub open spec fn dict_items_view(s: Seq<PyDictItem>) -> Seq<PyDictItemView>
    decreases s,
{
    Seq::new(
        s.len(),
        |i: int|
            if 0 <= i < s.len() {
                dict_item_view(s[i])
            } else {
                arbitrary()
            },
    )
}

pub open spec fn arg_def_view(c: PyArgDefItem) -> PyArgDefItemView
    decreases c,
{
    match c {
        PyArgDefItem::Arg(n, d) => PyArgDefItemView::Arg(n@, opt_expr_view(d)),
        PyArgDefItem::ArgSpread(n) => PyArgDefItemView::ArgSpread(n@),
        PyArgDefItem::KwargSpread(n) => PyArgDefItemView::KwargSpread(n@),
    }
}

pub open spec fn arg_defs_view(s: Seq<PyArgDefItem>) -> Seq<PyArgDefItemView>
    decreases s,
{
    Seq::new(
        s.len(),
        |i: int|
            if 0 <= i < s.len() {
                arg_def_view(s[i])
            } else {
                arbitrary()
            },
    )
}

pub open spec fn fstr_part_view(c: PyFstrPart) -> PyFstrPartView
    decreases c,
{
    match c {
        PyFstrPart::Str(s) => PyFstrPartView::Str(s@),
        PyFstrPart::Expr(e, f) => PyFstrPartView::Expr(expr_view(e), f@),
    }
}

pub open spec fn fstr_parts_view(s: Seq<PyFstrPart>) -> Seq<PyFstrPartView>
    decreases s,
{
    Seq::new(
        s.len(),
        |i: int|
            if 0 <= i < s.len() {
                fstr_part_view(s[i])
            } else {
                arbitrary()
            },
    )
}

pub open spec fn py_expr_view(e: PyExpr) -> PyExprView
    decreases e,
{
    match e {
        PyExpr::Ident(n, c) => PyExprView::Ident(n@, c),
        PyExpr::Literal(l) => PyExprView::Literal(literal_view(l)),
        PyExpr::Call(f, args) => PyExprView::Call(Box::new(expr_view(*f)), call_items_view(args@)),
        PyExpr::Attribute(o, n, c) => PyExprView::Attribute(Box::new(expr_view(*o)), n@, c),
        PyExpr::Subscript(o, i, c) => PyExprView::Subscript(
            Box::new(expr_view(*o)),
            Box::new(expr_view(*i)),
            c,
        ),
        PyExpr::Slice(a, b, c) => PyExprView::Slice(
            opt_box_expr_view(a),
            opt_box_expr_view(b),
            opt_box_expr_view(c),
        ),
        PyExpr::Tuple(items) => PyExprView::Tuple(list_items_view(items@)),
        PyExpr::List(items) => PyExprView::List(list_items_view(items@)),
        PyExpr::Dict(items) => PyExprView::Dict(dict_items_view(items@)),
        PyExpr::Binary(op, l, r) => PyExprView::Binary(
            op,
            Box::new(expr_view(*l)),
            Box::new(expr_view(*r)),
        ),
        PyExpr::Unary(op, x) => PyExprView::Unary(op, Box::new(expr_view(*x))),
        PyExpr::Lambda(args, body) => PyExprView::Lambda(
            arg_defs_view(args@),
            Box::new(expr_view(*body)),
        ),
        PyExpr::IfExpr(c, t, f) => PyExprView::IfExpr(
            Box::new(expr_view(*c)),
            Box::new(expr_view(*t)),
            Box::new(expr_view(*f)),
        ),
        PyExpr::Fstr(parts) => PyExprView::Fstr(fstr_parts_view(parts@)),
        PyExpr::Yield(x) => PyExprView::Yield(Box::new(expr_view(*x))),
        PyExpr::YieldFrom(x) => PyExprView::YieldFrom(Box::new(expr_view(*x))),
    }
}

pub open spec fn stmt_view(s: SPyStmt) -> SPyStmtView
    decreases s,
{
    SPyStmtView { value: py_stmt_view(s.value), tl_span: s.tl_span }
}

pub open spec fn stmts_view(s: Seq<SPyStmt>) -> Seq<SPyStmtView>
    decreases s,
{
    Seq::new(
        s.len(),
        |i: int|
            if 0 <= i < s.len() {
                stmt_view(s[i])
            } else {
                arbitrary()
            },
    )
}

pub open spec fn block_view(b: PyBlock) -> Seq<SPyStmtView>
    decreases b,
{
    stmts_view(b.0@)
}

pub open spec fn opt_block_view(o: Option<PyBlock>) -> Option<Seq<SPyStmtView>>
    decreases o,
{
    match o {
        Some(b) => Some(block_view(b)),
        None => None,
    }
}

pub open spec fn handler_view(h: PyExceptHandler) -> PyExceptHandlerView
    decreases h,
{
    PyExceptHandlerView {
        typ: opt_expr_view(h.typ),
        name: opt_ident_view(h.name),
        body: block_view(h.body),
    }
}

pub open spec fn handlers_view(s: Seq<PyExceptHandler>) -> Seq<PyExceptHandlerView>
    decreases s,
{
    Seq::new(
        s.len(),
        |i: int|
            if 0 <= i < s.len() {
                handler_view(s[i])
            } else {
                arbitrary()
            },
    )
}

pub open spec fn match_case_view(c: PyMatchCase) -> PyMatchCaseView
    decreases c,
{
    PyMatchCaseView { pattern: expr_view(c.pattern), body: block_view(c.body) }
}

pub open spec fn match_cases_view(s: Seq<PyMatchCase>) -> Seq<PyMatchCaseView>
    decreases s,
{
    Seq::new(
        s.len(),
        |i: int|
            if 0 <= i < s.len() {
                match_case_view(s[i])
            } else {
                arbitrary()
            },
    )
}

pub open spec fn py_stmt_view(s: PyStmt) -> PyStmtView
    decreases s,
{
    match s {
        PyStmt::Assign(t, v) => PyStmtView::Assign(expr_view(t), expr_view(v)),
        PyStmt::Expr(e) => PyStmtView::Expr(expr_view(e)),
        PyStmt::If(c, t, f) => PyStmtView::If(expr_view(c), block_view(t), opt_block_view(f)),
        PyStmt::While(c, b) => PyStmtView::While(expr_view(c), block_view(b)),
        PyStmt::For(t, i, b) => PyStmtView::For(expr_view(t), expr_view(i), block_view(b)),
        PyStmt::Try(b, hs, f) => PyStmtView::Try(
            block_view(b),
            handlers_view(hs@),
            opt_block_view(f),
        ),
        PyStmt::Match(e, cs) => PyStmtView::Match(expr_view(e), match_cases_view(cs@)),
        PyStmt::FnDef(n, args, b, d) => PyStmtView::FnDef(
            n@,
            arg_defs_view(args@),
            block_view(b),
            exprs_view(d.0@),
        ),
        PyStmt::ClassDef(n, bases, b, d) => PyStmtView::ClassDef(
            n@,
            call_items_view(bases@),
            block_view(b),
            exprs_view(d.0@),
        ),
        PyStmt::Import(a) => PyStmtView::Import(aliases_view(a@)),
        PyStmt::ImportFrom(m, a, l) => PyStmtView::ImportFrom(
            opt_ident_view(m),
            aliases_view(a@),
            l,
        ),
        PyStmt::Global(n) => PyStmtView::Global(idents_view(n@)),
        PyStmt::Nonlocal(n) => PyStmtView::Nonlocal(idents_view(n@)),
        PyStmt::Return(e) => PyStmtView::Return(expr_view(e)),
        PyStmt::Raise(e) => PyStmtView::Raise(expr_view(e)),
        PyStmt::Assert(e, m) => PyStmtView::Assert(expr_view(e), opt_expr_view(m)),
        PyStmt::Break => PyStmtView::Break,
        PyStmt::Continue => PyStmtView::Continue,
    }
}

impl View for SPyExpr {
    type V = SPyExprView;

    open spec fn view(&self) -> SPyExprView {
        expr_view(*self)
    }
}

impl View for SPyStmt {
    type V = SPyStmtView;

    open spec fn view(&self) -> SPyStmtView {
        stmt_view(*self)
    }
}

impl View for PyBlock {
    type V = Seq<SPyStmtView>;

    open spec fn view(&self) -> Seq<SPyStmtView> {
        block_view(*self)
    }
}

impl View for PyDecorators {
    type V = Seq<SPyExprView>;

    open spec fn view(&self) -> Seq<SPyExprView> {
        exprs_view(self.0@)
    }
}

impl View for PyCallItem {
    type V = PyCallItemView;

    open spec fn view(&self) -> PyCallItemView {
        call_item_view(*self)
    }
}

impl View for PyListItem {
    type V = PyListItemView;

    open spec fn view(&self) -> PyListItemView {
        list_item_view(*self)
    }
}

impl View for PyDictItem {
    type V = PyDictItemView;

    open spec fn view(&self) -> PyDictItemView {
        dict_item_view(*self)
    }
}

impl View for PyArgDefItem {
    type V = PyArgDefItemView;

    open spec fn view(&self) -> PyArgDefItemView {
        arg_def_view(*self)
    }
}

impl View for PyFstrPart {
    type V = PyFstrPartView;

    open spec fn view(&self) -> PyFstrPartView {
        fstr_part_view(*self)
    }
}

impl View for PyImportAlias {
    type V = PyImportAliasView;

    open spec fn view(&self) -> PyImportAliasView {
        alias_view(*self)
    }
}

impl View for PyExceptHandler {
    type V = PyExceptHandlerView;

    open spec fn view(&self) -> PyExceptHandlerView {
        handler_view(*self)
    }
}

impl View for PyMatchCase {
    type V = PyMatchCaseView;

    open spec fn view(&self) -> PyMatchCaseView {
        match_case_view(*self)
    }
}

} // verus!
