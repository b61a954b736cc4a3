//! Where lowering writes: every node in `Store` context is the target of an
//! assignment or of a loop, and is a name, an attribute or a subscript.

use vstd::prelude::*;
use crate::ast::{CallItem, Expr, ListItem, SExpr};
use crate::py::ast::{
    PyAccessCtx, PyArgDefItemView, PyCallItemView, PyDictItemView, PyExceptHandlerView,
    PyExprView, PyFstrPartView, PyListItemView, PyMatchCaseView, PyStmtView, SPyExprView,
    SPyStmtView,
};

verus! {

/// No node of the expression is in `Store` context.
pub open spec fn reads_only(e: SPyExprView) -> bool
    decreases e,
{
    match e.value {
        PyExprView::Ident(_, c) => c == PyAccessCtx::Load,
        PyExprView::Literal(_) => true,
        PyExprView::Call(f, args) => reads_only(*f) && forall|i: int|
            0 <= i < args.len() ==> call_item_reads_only(#[trigger] args[i]),
        PyExprView::Attribute(o, _, c) => c == PyAccessCtx::Load && reads_only(*o),
        PyExprView::Subscript(o, i, c) => c == PyAccessCtx::Load && reads_only(*o) && reads_only(
            *i,
        ),
        PyExprView::Slice(a, b, c) => opt_box_reads_only(a) && opt_box_reads_only(b)
            && opt_box_reads_only(c),
        PyExprView::Tuple(items) => forall|i: int|
            0 <= i < items.len() ==> list_item_reads_only(#[trigger] items[i]),
        PyExprView::List(items) => forall|i: int|
            0 <= i < items.len() ==> list_item_reads_only(#[trigger] items[i]),
        PyExprView::Dict(items) => forall|i: int|
            0 <= i < items.len() ==> dict_item_reads_only(#[trigger] items[i]),
        PyExprView::Binary(_, l, r) => reads_only(*l) && reads_only(*r),
        PyExprView::Unary(_, x) => reads_only(*x),
        PyExprView::Lambda(args, body) => reads_only(*body) && forall|i: int|
            0 <= i < args.len() ==> arg_def_reads_only(#[trigger] args[i]),
        PyExprView::IfExpr(c, t, f) => reads_only(*c) && reads_only(*t) && reads_only(*f),
        PyExprView::Fstr(parts) => forall|i: int|
            0 <= i < parts.len() ==> fstr_part_reads_only(#[trigger] parts[i]),
        PyExprView::Yield(x) => reads_only(*x),
        PyExprView::YieldFrom(x) => reads_only(*x),
    }
}

pub open spec fn opt_box_reads_only(o: Option<Box<SPyExprView>>) -> bool
    decreases o,
{
    match o {
        Some(e) => reads_only(*e),
        None => true,
    }
}

pub open spec fn opt_reads_only(o: Option<SPyExprView>) -> bool
    decreases o,
{
    match o {
        Some(e) => reads_only(e),
        None => true,
    }
}

pub open spec fn call_item_reads_only(c: PyCallItemView) -> bool
    decreases c,
{
    match c {
        PyCallItemView::Arg(e) => reads_only(e),
        PyCallItemView::Kwarg(_, e) => reads_only(e),
        PyCallItemView::ArgSpread(e) => reads_only(e),
        PyCallItemView::KwargSpread(e) => reads_only(e),
    }
}

pub open spec fn list_item_reads_only(c: PyListItemView) -> bool
    decreases c,
{
    match c {
        PyListItemView::Item(e) => reads_only(e),
        PyListItemView::Spread(e) => reads_only(e),
    }
}

pub open spec fn dict_item_reads_only(c: PyDictItemView) -> bool
    decreases c,
{
    match c {
        PyDictItemView::Item(k, v) => reads_only(k) && reads_only(v),
        PyDictItemView::Spread(e) => reads_only(e),
    }
}

pub open spec fn arg_def_reads_only(c: PyArgDefItemView) -> bool
    decreases c,
{
    match c {
        PyArgDefItemView::Arg(_, d) => opt_reads_only(d),
        PyArgDefItemView::ArgSpread(_) => true,
        PyArgDefItemView::KwargSpread(_) => true,
    }
}

pub open spec fn fstr_part_reads_only(c: PyFstrPartView) -> bool
    decreases c,
{
    match c {
        PyFstrPartView::Str(_) => true,
        PyFstrPartView::Expr(e, _) => reads_only(e),
    }
}

pub open spec fn call_items_read_only(items: Seq<PyCallItemView>) -> bool {
    forall|i: int| 0 <= i < items.len() ==> call_item_reads_only(#[trigger] items[i])
}

pub open spec fn list_items_read_only(items: Seq<PyListItemView>) -> bool {
    forall|i: int| 0 <= i < items.len() ==> list_item_reads_only(#[trigger] items[i])
}

pub open spec fn dict_items_read_only(items: Seq<PyDictItemView>) -> bool {
    forall|i: int| 0 <= i < items.len() ==> dict_item_reads_only(#[trigger] items[i])
}

pub open spec fn arg_defs_read_only(items: Seq<PyArgDefItemView>) -> bool {
    forall|i: int| 0 <= i < items.len() ==> arg_def_reads_only(#[trigger] items[i])
}

pub open spec fn fstr_parts_read_only(items: Seq<PyFstrPartView>) -> bool {
    forall|i: int| 0 <= i < items.len() ==> fstr_part_reads_only(#[trigger] items[i])
}

pub open spec fn exprs_read_only(items: Seq<SPyExprView>) -> bool {
    forall|i: int| 0 <= i < items.len() ==> reads_only(#[trigger] items[i])
}

/// The node can stand on the left of an assignment: a name, an attribute or
/// a subscript in `Store` context, whose parts are only read.
pub open spec fn is_target(e: SPyExprView) -> bool {
    match e.value {
        PyExprView::Ident(_, c) => c == PyAccessCtx::Store,
        PyExprView::Attribute(o, _, c) => c == PyAccessCtx::Store && reads_only(*o),
        PyExprView::Subscript(o, i, c) => c == PyAccessCtx::Store && reads_only(*o) && reads_only(
            *i,
        ),
        _ => false,
    }
}

/// In the statement, and in every statement and expression inside it, the
/// nodes in `Store` context are the targets of the assignments and of the
/// `for` loops, and each of them is a name, an attribute or a subscript.
pub open spec fn writes_to_targets(s: SPyStmtView) -> bool
    decreases s,
{
    match s.value {
        PyStmtView::Assign(t, v) => is_target(t) && reads_only(v),
        PyStmtView::Expr(e) => reads_only(e),
        PyStmtView::If(c, t, f) => reads_only(c) && all_write_to_targets(t) && (match f {
            Some(b) => all_write_to_targets(b),
            None => true,
        }),
        PyStmtView::While(c, b) => reads_only(c) && all_write_to_targets(b),
        PyStmtView::For(t, i, b) => is_target(t) && reads_only(i) && all_write_to_targets(b),
        PyStmtView::Try(b, hs, f) => all_write_to_targets(b) && (forall|i: int|
            0 <= i < hs.len() ==> handler_writes_to_targets(#[trigger] hs[i])) && (match f {
            Some(b) => all_write_to_targets(b),
            None => true,
        }),
        PyStmtView::Match(e, cs) => reads_only(e) && forall|i: int|
            0 <= i < cs.len() ==> case_writes_to_targets(#[trigger] cs[i]),
        PyStmtView::FnDef(_, args, b, d) => arg_defs_read_only(args) && all_write_to_targets(b)
            && exprs_read_only(d),
        PyStmtView::ClassDef(_, bases, b, d) => call_items_read_only(bases)
            && all_write_to_targets(b) && exprs_read_only(d),
        PyStmtView::Import(_) => true,
        PyStmtView::ImportFrom(_, _, _) => true,
        PyStmtView::Global(_) => true,
        PyStmtView::Nonlocal(_) => true,
        PyStmtView::Return(e) => reads_only(e),
        PyStmtView::Raise(e) => reads_only(e),
        PyStmtView::Assert(e, m) => reads_only(e) && opt_reads_only(m),
        PyStmtView::Break => true,
        PyStmtView::Continue => true,
    }
}

pub open spec fn all_write_to_targets(stmts: Seq<SPyStmtView>) -> bool
    decreases stmts,
{
    forall|i: int| 0 <= i < stmts.len() ==> writes_to_targets(#[trigger] stmts[i])
}

pub open spec fn handler_writes_to_targets(h: PyExceptHandlerView) -> bool
    decreases h,
{
    opt_reads_only(h.typ) && all_write_to_targets(h.body)
}

pub open spec fn case_writes_to_targets(c: PyMatchCaseView) -> bool
    decreases c,
{
    reads_only(c.pattern) && all_write_to_targets(c.body)
}

/// The expression of an element of a list.
pub open spec fn item_expr(item: ListItem) -> SExpr {
    match item {
        ListItem::Item(x) => x,
        ListItem::Spread(x) => x,
    }
}

/// The expression of an argument of a call.
pub open spec fn call_item_expr(item: CallItem) -> SExpr {
    match item {
        CallItem::Arg(x) => x,
        CallItem::Kwarg(_, x) => x,
        CallItem::ArgSpread(x) => x,
        CallItem::KwargSpread(x) => x,
    }
}

} // verus!
