//! A factory for spanned Python nodes, and the view-level constructors
//! that say what it builds.

use vstd::prelude::*;
use crate::ast::Span;
use crate::py::ast::{
    alias_view, aliases_view, arg_def_view, arg_defs_view, call_item_view, call_items_view,
    dict_item_view, dict_items_view, expr_view, exprs_view, fstr_part_view, fstr_parts_view,
    handler_view, handlers_view, idents_view, list_item_view, list_items_view, match_case_view,
    match_cases_view, opt_block_view, opt_box_expr_view, opt_expr_view, opt_ident_view,
    PyAccessCtx, PyArgDefItem, PyArgDefItemView, PyBinaryOp, PyBlock, PyCallItem,
    PyCallItemView, PyDecorators, PyDictItem, PyDictItemView, PyExceptHandler,
    PyExceptHandlerView, PyExpr, PyExprView, PyFstrPart, PyFstrPartView, PyIdent, PyImportAlias,
    PyImportAliasView, PyListItem, PyListItemView, PyLiteral, PyLiteralView, PyMatchCase,
    PyMatchCaseView, PyStmt, PyStmtView, SPyExpr, SPyExprView, SPyStmt, SPyStmtView, stmt_view,
    stmts_view,
};

verus! {

// ---------------------------------------------------------------------------
// View-level constructors
// ---------------------------------------------------------------------------

pub open spec fn mk_expr(value: PyExprView, span: Span) -> SPyExprView {
    SPyExprView { value, tl_span: span }
}

pub open spec fn mk_stmt(value: PyStmtView, span: Span) -> SPyStmtView {
    SPyStmtView { value, tl_span: span }
}

pub open spec fn mk_ident(name: Seq<char>, ctx: PyAccessCtx, span: Span) -> SPyExprView {
    mk_expr(PyExprView::Ident(name, ctx), span)
}

pub open spec fn mk_load(name: Seq<char>, span: Span) -> SPyExprView {
    mk_ident(name, PyAccessCtx::Load, span)
}

pub open spec fn mk_store(name: Seq<char>, span: Span) -> SPyExprView {
    mk_ident(name, PyAccessCtx::Store, span)
}

pub open spec fn mk_num(text: Seq<char>, span: Span) -> SPyExprView {
    mk_expr(PyExprView::Literal(PyLiteralView::Num(text)), span)
}

pub open spec fn mk_none(span: Span) -> SPyExprView {
    mk_expr(PyExprView::Literal(PyLiteralView::Null), span)
}

pub open spec fn mk_call(f: SPyExprView, args: Seq<PyCallItemView>, span: Span) -> SPyExprView {
    mk_expr(PyExprView::Call(Box::new(f), args), span)
}

/// A call with one positional argument.
pub open spec fn mk_call1(f: SPyExprView, arg: SPyExprView, span: Span) -> SPyExprView {
    mk_call(f, seq![PyCallItemView::Arg(arg)], span)
}

pub open spec fn mk_attribute(
    obj: SPyExprView,
    name: Seq<char>,
    ctx: PyAccessCtx,
    span: Span,
) -> SPyExprView {
    mk_expr(PyExprView::Attribute(Box::new(obj), name, ctx), span)
}

pub open spec fn mk_subscript(
    obj: SPyExprView,
    index: SPyExprView,
    ctx: PyAccessCtx,
    span: Span,
) -> SPyExprView {
    mk_expr(PyExprView::Subscript(Box::new(obj), Box::new(index), ctx), span)
}

pub open spec fn opt_boxed(o: Option<SPyExprView>) -> Option<Box<SPyExprView>> {
    match o {
        Some(e) => Some(Box::new(e)),
        None => None,
    }
}

pub open spec fn mk_slice(
    start: Option<SPyExprView>,
    end: Option<SPyExprView>,
    step: Option<SPyExprView>,
    span: Span,
) -> SPyExprView {
    mk_expr(PyExprView::Slice(opt_boxed(start), opt_boxed(end), opt_boxed(step)), span)
}

pub open spec fn mk_binary(
    op: PyBinaryOp,
    left: SPyExprView,
    right: SPyExprView,
    span: Span,
) -> SPyExprView {
    mk_expr(PyExprView::Binary(op, Box::new(left), Box::new(right)), span)
}

pub open spec fn mk_if_expr(
    cond: SPyExprView,
    then: SPyExprView,
    otherwise: SPyExprView,
    span: Span,
) -> SPyExprView {
    mk_expr(PyExprView::IfExpr(Box::new(cond), Box::new(then), Box::new(otherwise)), span)
}

pub open spec fn mk_assign(target: SPyExprView, value: SPyExprView, span: Span) -> SPyStmtView {
    mk_stmt(PyStmtView::Assign(target, value), span)
}

pub open spec fn mk_return(value: SPyExprView, span: Span) -> SPyStmtView {
    mk_stmt(PyStmtView::Return(value), span)
}

pub open spec fn mk_handler(
    typ: Option<SPyExprView>,
    name: Option<Seq<char>>,
    body: Seq<SPyStmtView>,
) -> PyExceptHandlerView {
    PyExceptHandlerView { typ, name, body }
}

pub open spec fn mk_try(
    body: Seq<SPyStmtView>,
    handlers: Seq<PyExceptHandlerView>,
    finally: Option<Seq<SPyStmtView>>,
    span: Span,
) -> SPyStmtView {
    mk_stmt(PyStmtView::Try(body, handlers, finally), span)
}

pub open spec fn mk_import(aliases: Seq<PyImportAliasView>, span: Span) -> SPyStmtView {
    mk_stmt(PyStmtView::Import(aliases), span)
}

pub open spec fn mk_import_from(
    module: Option<Seq<char>>,
    aliases: Seq<PyImportAliasView>,
    level: usize,
    span: Span,
) -> SPyStmtView {
    mk_stmt(PyStmtView::ImportFrom(module, aliases, level), span)
}

// ---------------------------------------------------------------------------
// Node constructors
// ---------------------------------------------------------------------------

impl SPyExpr {
    pub fn new(value: PyExpr, span: Span) -> (e: SPyExpr)
        ensures
            e == (SPyExpr { value, tl_span: span }),
    {
        SPyExpr { value, tl_span: span }
    }
}

impl SPyStmt {
    pub fn new(value: PyStmt, span: Span) -> (s: SPyStmt)
        ensures
            s == (SPyStmt { value, tl_span: span }),
    {
        SPyStmt { value, tl_span: span }
    }
}

impl PyBlock {
    pub fn new() -> (b: PyBlock)
        ensures
            b@ == Seq::<SPyStmtView>::empty(),
    {
        let b = PyBlock(Vec::new());
        assert(b@ =~= Seq::<SPyStmtView>::empty());
        b
    }

    pub fn push(&mut self, stmt: SPyStmt)
        ensures
            final(self)@ == old(self)@.push(stmt@),
    {
        let ghost before = self.0@;
        self.0.push(stmt);
        assert(stmts_view(before.push(stmt)) =~= stmts_view(before).push(stmt_view(stmt)));
    }

    /// Appends the statements of `other`, in their order.
    pub fn extend(&mut self, other: PyBlock)
        ensures
            final(self)@ == old(self)@ + other@,
    {
        let mut other = other;
        let ghost before = self.0@;
        let ghost added = other.0@;
        self.0.append(&mut other.0);
        assert(stmts_view(before + added) =~= stmts_view(before) + stmts_view(added));
    }

    pub fn is_empty(&self) -> (b: bool)
        ensures
            b == (self@.len() == 0),
    {
        self.0.is_empty()
    }

    pub fn len(&self) -> (n: usize)
        ensures
            n == self@.len(),
    {
        self.0.len()
    }
}

impl PyDecorators {
    pub fn new() -> (d: PyDecorators)
        ensures
            d@ == Seq::<SPyExprView>::empty(),
    {
        let d = PyDecorators(Vec::new());
        assert(d@ =~= Seq::<SPyExprView>::empty());
        d
    }

    pub fn push(&mut self, e: SPyExpr)
        ensures
            final(self)@ == old(self)@.push(e@),
    {
        let ghost before = self.0@;
        self.0.push(e);
        assert(exprs_view(before.push(e)) =~= exprs_view(before).push(expr_view(e)));
    }
}

/// An empty vector of names.
pub fn new_idents() -> (v: Vec<PyIdent>)
    ensures
        idents_view(v@) == Seq::<Seq<char>>::empty(),
{
    let v: Vec<PyIdent> = Vec::new();
    assert(idents_view(v@) =~= Seq::<Seq<char>>::empty());
    v
}

/// Appends the name `x`.
pub fn push_ident(v: &mut Vec<PyIdent>, x: PyIdent)
    ensures
        final(v)@ == old(v)@.push(x),
        idents_view(final(v)@) == idents_view(old(v)@).push(x@),
{
    let ghost before = v@;
    v.push(x);
    assert(idents_view(before.push(x)) =~= idents_view(before).push(x@));
}

/// Appends the names of `other`, in their order.
pub fn extend_idents(v: &mut Vec<PyIdent>, other: Vec<PyIdent>)
    ensures
        final(v)@ == old(v)@ + other@,
        idents_view(final(v)@) == idents_view(old(v)@) + idents_view(other@),
{
    let mut other = other;
    let ghost before = v@;
    let ghost added = other@;
    v.append(&mut other);
    assert(idents_view(before + added) =~= idents_view(before) + idents_view(added));
}

/// An empty vector, whose view is the empty sequence.
pub fn new_call_items() -> (v: Vec<PyCallItem>)
    ensures
        call_items_view(v@) == Seq::<PyCallItemView>::empty(),
{
    let v: Vec<PyCallItem> = Vec::new();
    assert(call_items_view(v@) =~= Seq::<PyCallItemView>::empty());
    v
}

/// Appends `x`: the view grows by the view of `x`.
pub fn push_call_item(v: &mut Vec<PyCallItem>, x: PyCallItem)
    ensures
        call_items_view(final(v)@) == call_items_view(old(v)@).push(call_item_view(x)),
{
    let ghost before = v@;
    v.push(x);
    assert(call_items_view(before.push(x)) =~= call_items_view(before).push(call_item_view(x)));
}

/// An empty vector, whose view is the empty sequence.
pub fn new_list_items() -> (v: Vec<PyListItem>)
    ensures
        list_items_view(v@) == Seq::<PyListItemView>::empty(),
{
    let v: Vec<PyListItem> = Vec::new();
    assert(list_items_view(v@) =~= Seq::<PyListItemView>::empty());
    v
}

/// Appends `x`: the view grows by the view of `x`.
pub fn push_list_item(v: &mut Vec<PyListItem>, x: PyListItem)
    ensures
        list_items_view(final(v)@) == list_items_view(old(v)@).push(list_item_view(x)),
{
    let ghost before = v@;
    v.push(x);
    assert(list_items_view(before.push(x)) =~= list_items_view(before).push(list_item_view(x)));
}

/// An empty vector, whose view is the empty sequence.
pub fn new_dict_items() -> (v: Vec<PyDictItem>)
    ensures
        dict_items_view(v@) == Seq::<PyDictItemView>::empty(),
{
    let v: Vec<PyDictItem> = Vec::new();
    assert(dict_items_view(v@) =~= Seq::<PyDictItemView>::empty());
    v
}

/// Appends `x`: the view grows by the view of `x`.
pub fn push_dict_item(v: &mut Vec<PyDictItem>, x: PyDictItem)
    ensures
        dict_items_view(final(v)@) == dict_items_view(old(v)@).push(dict_item_view(x)),
{
    let ghost before = v@;
    v.push(x);
    assert(dict_items_view(before.push(x)) =~= dict_items_view(before).push(dict_item_view(x)));
}

/// An empty vector, whose view is the empty sequence.
pub fn new_arg_defs() -> (v: Vec<PyArgDefItem>)
    ensures
        arg_defs_view(v@) == Seq::<PyArgDefItemView>::empty(),
{
    let v: Vec<PyArgDefItem> = Vec::new();
    assert(arg_defs_view(v@) =~= Seq::<PyArgDefItemView>::empty());
    v
}

/// Appends `x`: the view grows by the view of `x`.
pub fn push_arg_def(v: &mut Vec<PyArgDefItem>, x: PyArgDefItem)
    ensures
        arg_defs_view(final(v)@) == arg_defs_view(old(v)@).push(arg_def_view(x)),
{
    let ghost before = v@;
    v.push(x);
    assert(arg_defs_view(before.push(x)) =~= arg_defs_view(before).push(arg_def_view(x)));
}

/// An empty vector, whose view is the empty sequence.
pub fn new_fstr_parts() -> (v: Vec<PyFstrPart>)
    ensures
        fstr_parts_view(v@) == Seq::<PyFstrPartView>::empty(),
{
    let v: Vec<PyFstrPart> = Vec::new();
    assert(fstr_parts_view(v@) =~= Seq::<PyFstrPartView>::empty());
    v
}

/// Appends `x`: the view grows by the view of `x`.
pub fn push_fstr_part(v: &mut Vec<PyFstrPart>, x: PyFstrPart)
    ensures
        fstr_parts_view(final(v)@) == fstr_parts_view(old(v)@).push(fstr_part_view(x)),
{
    let ghost before = v@;
    v.push(x);
    assert(fstr_parts_view(before.push(x)) =~= fstr_parts_view(before).push(fstr_part_view(x)));
}

/// An empty vector, whose view is the empty sequence.
pub fn new_handlers() -> (v: Vec<PyExceptHandler>)
    ensures
        handlers_view(v@) == Seq::<PyExceptHandlerView>::empty(),
{
    let v: Vec<PyExceptHandler> = Vec::new();
    assert(handlers_view(v@) =~= Seq::<PyExceptHandlerView>::empty());
    v
}

/// Appends `x`: the view grows by the view of `x`.
pub fn push_handler(v: &mut Vec<PyExceptHandler>, x: PyExceptHandler)
    ensures
        handlers_view(final(v)@) == handlers_view(old(v)@).push(handler_view(x)),
{
    let ghost before = v@;
    v.push(x);
    assert(handlers_view(before.push(x)) =~= handlers_view(before).push(handler_view(x)));
}

/// An empty vector, whose view is the empty sequence.
pub fn new_match_cases() -> (v: Vec<PyMatchCase>)
    ensures
        match_cases_view(v@) == Seq::<PyMatchCaseView>::empty(),
{
    let v: Vec<PyMatchCase> = Vec::new();
    assert(match_cases_view(v@) =~= Seq::<PyMatchCaseView>::empty());
    v
}

/// Appends `x`: the view grows by the view of `x`.
pub fn push_match_case(v: &mut Vec<PyMatchCase>, x: PyMatchCase)
    ensures
        match_cases_view(final(v)@) == match_cases_view(old(v)@).push(match_case_view(x)),
{
    let ghost before = v@;
    v.push(x);
    assert(match_cases_view(before.push(x)) =~= match_cases_view(before).push(match_case_view(x)));
}

/// An empty vector, whose view is the empty sequence.
pub fn new_aliases() -> (v: Vec<PyImportAlias>)
    ensures
        aliases_view(v@) == Seq::<PyImportAliasView>::empty(),
{
    let v: Vec<PyImportAlias> = Vec::new();
    assert(aliases_view(v@) =~= Seq::<PyImportAliasView>::empty());
    v
}

/// Appends `x`: the view grows by the view of `x`.
pub fn push_alias(v: &mut Vec<PyImportAlias>, x: PyImportAlias)
    ensures
        aliases_view(final(v)@) == aliases_view(old(v)@).push(alias_view(x)),
{
    let ghost before = v@;
    v.push(x);
    assert(aliases_view(before.push(x)) =~= aliases_view(before).push(alias_view(x)));
}

/// A factory for nodes that all carry one span.
pub struct PyAstBuilder {
    pub span: Span,
}

impl PyAstBuilder {
    pub fn new(span: Span) -> (a: PyAstBuilder)
        ensures
            a.span == span,
    {
        PyAstBuilder { span }
    }

    pub fn ident(&self, name: String, ctx: PyAccessCtx) -> (e: SPyExpr)
        ensures
            e@ == mk_ident(name@, ctx, self.span),
    {
        SPyExpr { value: PyExpr::Ident(name, ctx), tl_span: self.span }
    }

    pub fn load_ident(&self, name: &str) -> (e: SPyExpr)
        ensures
            e@ == mk_load(name@, self.span),
    {
        SPyExpr { value: PyExpr::Ident(name.to_owned(), PyAccessCtx::Load), tl_span: self.span }
    }

    pub fn store_ident(&self, name: &str) -> (e: SPyExpr)
        ensures
            e@ == mk_store(name@, self.span),
    {
        SPyExpr { value: PyExpr::Ident(name.to_owned(), PyAccessCtx::Store), tl_span: self.span }
    }

    pub fn num(&self, text: String) -> (e: SPyExpr)
        ensures
            e@ == mk_num(text@, self.span),
    {
        SPyExpr { value: PyExpr::Literal(PyLiteral::Num(text)), tl_span: self.span }
    }

    pub fn none(&self) -> (e: SPyExpr)
        ensures
            e@ == mk_none(self.span),
    {
        SPyExpr { value: PyExpr::Literal(PyLiteral::Null), tl_span: self.span }
    }

    pub fn call_arg(&self, e: SPyExpr) -> (item: PyCallItem)
        ensures
            item@ == PyCallItemView::Arg(e@),
    {
        PyCallItem::Arg(e)
    }

    pub fn call(&self, f: SPyExpr, args: Vec<PyCallItem>) -> (e: SPyExpr)
        ensures
            e@ == mk_call(f@, call_items_view(args@), self.span),
    {
        SPyExpr { value: PyExpr::Call(Box::new(f), args), tl_span: self.span }
    }

    /// A call with the single positional argument `arg`.
    pub fn call1(&self, f: SPyExpr, arg: SPyExpr) -> (e: SPyExpr)
        ensures
            e@ == mk_call1(f@, arg@, self.span),
    {
        let mut args = new_call_items();
        push_call_item(&mut args, PyCallItem::Arg(arg));
        self.call(f, args)
    }

    pub fn attribute(&self, obj: SPyExpr, name: &str, ctx: PyAccessCtx) -> (e: SPyExpr)
        ensures
            e@ == mk_attribute(obj@, name@, ctx, self.span),
    {
        SPyExpr {
            value: PyExpr::Attribute(Box::new(obj), name.to_owned(), ctx),
            tl_span: self.span,
        }
    }

    pub fn subscript(&self, obj: SPyExpr, index: SPyExpr, ctx: PyAccessCtx) -> (e: SPyExpr)
        ensures
            e@ == mk_subscript(obj@, index@, ctx, self.span),
    {
        SPyExpr { value: PyExpr::Subscript(Box::new(obj), Box::new(index), ctx), tl_span: self.span }
    }

    pub fn slice(
        &self,
        start: Option<SPyExpr>,
        end: Option<SPyExpr>,
        step: Option<SPyExpr>,
    ) -> (e: SPyExpr)
        ensures
            e@ == mk_slice(
                opt_expr_view(start),
                opt_expr_view(end),
                opt_expr_view(step),
                self.span,
            ),
    {
        let a = match start {
            Some(x) => Some(Box::new(x)),
            None => None,
        };
        let b = match end {
            Some(x) => Some(Box::new(x)),
            None => None,
        };
        let c = match step {
            Some(x) => Some(Box::new(x)),
            None => None,
        };
        assert(opt_box_expr_view(a) == opt_boxed(opt_expr_view(start)));
        assert(opt_box_expr_view(b) == opt_boxed(opt_expr_view(end)));
        assert(opt_box_expr_view(c) == opt_boxed(opt_expr_view(step)));
        SPyExpr { value: PyExpr::Slice(a, b, c), tl_span: self.span }
    }

    pub fn binary(&self, op: PyBinaryOp, left: SPyExpr, right: SPyExpr) -> (e: SPyExpr)
        ensures
            e@ == mk_binary(op, left@, right@, self.span),
    {
        SPyExpr { value: PyExpr::Binary(op, Box::new(left), Box::new(right)), tl_span: self.span }
    }

    pub fn if_expr(&self, cond: SPyExpr, then: SPyExpr, otherwise: SPyExpr) -> (e: SPyExpr)
        ensures
            e@ == mk_if_expr(cond@, then@, otherwise@, self.span),
    {
        SPyExpr {
            value: PyExpr::IfExpr(Box::new(cond), Box::new(then), Box::new(otherwise)),
            tl_span: self.span,
        }
    }

    pub fn assign(&self, target: SPyExpr, value: SPyExpr) -> (s: SPyStmt)
        ensures
            s@ == mk_assign(target@, value@, self.span),
    {
        SPyStmt { value: PyStmt::Assign(target, value), tl_span: self.span }
    }

    pub fn return_(&self, value: SPyExpr) -> (s: SPyStmt)
        ensures
            s@ == mk_return(value@, self.span),
    {
        SPyStmt { value: PyStmt::Return(value), tl_span: self.span }
    }

    pub fn except_handler(
        &self,
        typ: Option<SPyExpr>,
        name: Option<&str>,
        body: PyBlock,
    ) -> (h: PyExceptHandler)
        ensures
            h@ == mk_handler(
                opt_expr_view(typ),
                match name {
                    Some(n) => Some(n@),
                    None => None,
                },
                body@,
            ),
    {
        let name = match name {
            Some(n) => Some(n.to_owned()),
            None => None,
        };
        PyExceptHandler { typ, name, body }
    }

    pub fn try_(
        &self,
        body: PyBlock,
        handlers: Vec<PyExceptHandler>,
        finally: Option<PyBlock>,
    ) -> (s: SPyStmt)
        ensures
            s@ == mk_try(body@, handlers_view(handlers@), opt_block_view(finally), self.span),
    {
        SPyStmt { value: PyStmt::Try(body, handlers, finally), tl_span: self.span }
    }

    pub fn import(&self, aliases: Vec<PyImportAlias>) -> (s: SPyStmt)
        ensures
            s@ == mk_import(aliases_view(aliases@), self.span),
    {
        SPyStmt { value: PyStmt::Import(aliases), tl_span: self.span }
    }

    pub fn import_from(
        &self,
        module: Option<PyIdent>,
        aliases: Vec<PyImportAlias>,
        level: usize,
    ) -> (s: SPyStmt)
        ensures
            s@ == mk_import_from(opt_ident_view(module), aliases_view(aliases@), level, self.span),
    {
        SPyStmt { value: PyStmt::ImportFrom(module, aliases, level), tl_span: self.span }
    }
}

} // verus!
