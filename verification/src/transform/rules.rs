//! The lowering rules, one mathematical function per kind of node.
//!
//! The functions recurse over the syntax tree. Lists of children are folded
//! from the left by functions that take the index of the next child and what
//! the children before it became.

use vstd::prelude::*;
use crate::ast::{
    ArgDefItem, AssignModifier, BinaryOp, Block, CallItem, ExceptHandler, ExceptTypes, Expr,
    ListItem, MappingItem, SBlock, SCallItem, SExpr, SFmtExpr, Span, Spanned, SStmt, Stmt,
    UnaryOp,
};
use crate::py::ast::{
    PyAccessCtx, PyArgDefItemView, PyBinaryOp, PyCallItemView, PyDictItemView,
    PyExceptHandlerView, PyExprView, PyFstrPartView, PyListItemView, PyMatchCaseView,
    PyStmtView, PyUnaryOp, SPyExprView, SPyStmtView,
};
use crate::py::util::{
    mk_assign, mk_attribute, mk_binary, mk_call, mk_call1, mk_expr, mk_handler, mk_ident,
    mk_if_expr, mk_load, mk_none, mk_num, mk_return, mk_slice, mk_stmt, mk_store, mk_subscript,
    mk_try,
};
use crate::transform::errors::{TfErrKind, TfErrView};
use crate::transform::model::{
    add_item, ArgsOut, binary_op_view, BlockOut, close_guard, coalesce_test, DesOut, Env,
    ExprOut, fail_with, FinalView, fn_exp, FnParts, guarded, ItemsOut, literal_expr,
    lower_import, lower_placeholder, Lowered, mapped, never_falls, no_items, no_names, no_stmts,
    opt_name, scope_modifier, scope_stmts, stmts_only, StmtsOut, wrong_node,
};
use crate::transform::names::{int_text, temp_name};

verus! {

// ---------------------------------------------------------------------------
// Expressions
// ---------------------------------------------------------------------------

/// Whether an expression of this form may stand in `Store` context.
pub open spec fn is_assignable_form(e: Expr) -> bool {
    e is Attribute || e is Subscript || e is Ident
}

/// An expression, read or written as `access` says.
pub open spec fn lower_expr(env: Env, e: SExpr, access: PyAccessCtx) -> Lowered<ExprOut>
    decreases e, 10int,
{
    if !is_assignable_form(e.0) && access != PyAccessCtx::Load {
        fail_with(
            TfErrKind::InvalidAssignTarget,
            "Expression context must be Load for this expression"@,
            e.1,
        )
    } else {
        match e.0 {
            Expr::Checked(_, _) => lower_checked(env, e),
            Expr::Placeholder => lower_placeholder(env, e.1, access),
            Expr::Fn(_, _) => lower_fn_exp(env, e),
            Expr::Class(_, _) => lower_class_exp(env, e),
            Expr::Literal(lit) => Ok(
                ExprOut { pre: no_stmts(), expr: literal_expr(lit.0, lit.1), activates: false },
            ),
            Expr::Ident(id) => Ok(
                ExprOut { pre: no_stmts(), expr: mk_ident(id.0@, access, id.1), activates: false },
            ),
            Expr::Attribute(_, _)
            | Expr::MappedAttribute(_, _)
            | Expr::Call(_, _)
            | Expr::MappedCall(_, _)
            | Expr::Subscript(_, _)
            | Expr::MappedSubscript(_, _)
            | Expr::Then(_, _)
            | Expr::MappedThen(_, _) => lower_postfix(env, e, access),
            Expr::If(_, _, _) => lower_if_expr(env, e),
            Expr::Block(_) => lower_block_expr(env, e),
            Expr::Match(_, _) => lower_match_expr(env, e),
            Expr::Binary(_, _, _) => lower_binary(env, e),
            Expr::Unary(_, _) => lower_unary(env, e),
            Expr::List(_) | Expr::Tuple(_) => lower_list(env, e),
            Expr::Mapping(_) => lower_mapping(env, e),
            Expr::Slice(_, _, _) => lower_slice(env, e),
            Expr::Fstr(_, _) => lower_fstr(env, e),
        }
    }
}

/// An expression inside a guarded region of its own.
pub open spec fn lower_guarded(env: Env, e: SExpr) -> Lowered<ExprOut>
    decreases e, 11int,
{
    guarded(env.src, e.1, lower_expr(env.under(e.1), e, PyAccessCtx::Load))
}

/// An operand of a call, subscript, slice or literal: a bare placeholder
/// belongs to the region around the whole construct, anything else gets a
/// region of its own.
pub open spec fn lower_deep_guarded(env: Env, e: SExpr) -> Lowered<ExprOut>
    decreases e, 12int,
{
    if e.0 is Placeholder {
        lower_placeholder(env, e.1, PyAccessCtx::Load)
    } else {
        lower_guarded(env, e)
    }
}

/// An expression that is read more than once: unless it is a plain name, it
/// is first stored in a temporary, and the temporary is read.
pub open spec fn lower_lifted(env: Env, e: SExpr) -> Lowered<ExprOut>
    decreases e, 11int,
{
    match lower_expr(env, e, PyAccessCtx::Load) {
        Err(err) => Err(err),
        Ok(v) => if e.0 is Ident {
            Ok(v)
        } else {
            let name = temp_name(env.src, "tmp"@, e.1.start);
            Ok(
                ExprOut {
                    pre: v.pre.push(mk_assign(mk_store(name, e.1), v.expr, e.1)),
                    expr: mk_load(name, e.1),
                    activates: v.activates,
                },
            )
        },
    }
}

pub open spec fn lower_binary(env: Env, e: SExpr) -> Lowered<ExprOut>
    decreases e, 5int,
{
    match e.0 {
        Expr::Binary(BinaryOp::Pipe, l, r) => match lower_guarded(env, *l) {
            Err(err) => Err(err),
            Ok(lo) => match lower_guarded(env, *r) {
                Err(err) => Err(err),
                Ok(ro) => Ok(
                    ExprOut {
                        pre: lo.pre + ro.pre,
                        expr: mk_call1(ro.expr, lo.expr, e.1),
                        activates: lo.activates || ro.activates,
                    },
                ),
            },
        },
        Expr::Binary(BinaryOp::Coalesce, l, r) => match lower_lifted(env, *l) {
            Err(err) => Err(err),
            Ok(lo) => match lower_expr(env, *r, PyAccessCtx::Load) {
                Err(err) => Err(err),
                Ok(ro) => Ok(
                    ExprOut {
                        pre: lo.pre + ro.pre,
                        expr: mk_if_expr(coalesce_test(lo.expr, e.1), ro.expr, lo.expr, e.1),
                        activates: lo.activates || ro.activates,
                    },
                ),
            },
        },
        Expr::Binary(op, l, r) => match lower_expr(env, *l, PyAccessCtx::Load) {
            Err(err) => Err(err),
            Ok(lo) => match lower_expr(env, *r, PyAccessCtx::Load) {
                Err(err) => Err(err),
                Ok(ro) => Ok(
                    ExprOut {
                        pre: lo.pre + ro.pre,
                        expr: mk_binary(binary_op_view(op)->Some_0, lo.expr, ro.expr, e.1),
                        activates: lo.activates || ro.activates,
                    },
                ),
            },
        },
        _ => wrong_node(e.1),
    }
}

pub open spec fn lower_unary(env: Env, e: SExpr) -> Lowered<ExprOut>
    decreases e, 5int,
{
    match e.0 {
        Expr::Unary(op, x) => match lower_expr(env, *x, PyAccessCtx::Load) {
            Err(err) => Err(err),
            Ok(o) => Ok(
                ExprOut {
                    pre: o.pre,
                    expr: mk_expr(
                        match op {
                            UnaryOp::Neg => PyExprView::Unary(PyUnaryOp::Neg, Box::new(o.expr)),
                            UnaryOp::Pos => PyExprView::Unary(PyUnaryOp::Pos, Box::new(o.expr)),
                            UnaryOp::Inv => PyExprView::Unary(PyUnaryOp::Inv, Box::new(o.expr)),
                            UnaryOp::Yield => PyExprView::Yield(Box::new(o.expr)),
                            UnaryOp::YieldFrom => PyExprView::YieldFrom(Box::new(o.expr)),
                        },
                        e.1,
                    ),
                    activates: o.activates,
                },
            ),
        },
        _ => wrong_node(e.1),
    }
}

/// `try e except Ts`: the value of `e`, or the exception it raised.
pub open spec fn lower_checked(env: Env, e: SExpr) -> Lowered<ExprOut>
    decreases e, 5int,
{
    match e.0 {
        Expr::Checked(inner, types) => match lower_expr(env, *inner, PyAccessCtx::Load) {
            Err(err) => Err(err),
            Ok(t) => {
                let var = temp_name(env.src, "chk"@, e.1.start);
                let try_body = t.pre.push(mk_assign(mk_store(var, e.1), t.expr, e.1));
                let catch_body = seq![mk_assign(mk_store(var, e.1), mk_load("__e"@, e.1), e.1)];
                match (match types {
                    Some(ts) => lower_except_types(env, *ts, e.1),
                    None => Ok(
                        ExprOut {
                            pre: no_stmts(),
                            expr: mk_load("Exception"@, e.1),
                            activates: false,
                        },
                    ),
                }) {
                    Err(err) => Err(err),
                    Ok(ty) => Ok(
                        ExprOut {
                            pre: seq![
                                mk_try(
                                    try_body,
                                    seq![mk_handler(Some(ty.expr), Some("__e"@), catch_body)],
                                    None,
                                    e.1,
                                ),
                            ],
                            expr: mk_load(var, e.1),
                            activates: t.activates || ty.activates,
                        },
                    ),
                }
            },
        },
        _ => wrong_node(e.1),
    }
}

/// The types of an except clause: one expression, or a tuple of several.
/// None of them may need statements of its own.
pub open spec fn lower_except_types(env: Env, t: ExceptTypes, span: Span) -> Lowered<ExprOut>
    decreases t, 1int,
{
    match t {
        ExceptTypes::Single(x) => lower_except_type(env, x),
        ExceptTypes::Multiple(types) => match except_types_from(env, types@, 0, no_items()) {
            Err(err) => Err(err),
            Ok(o) => Ok(
                ExprOut {
                    pre: no_stmts(),
                    expr: mk_expr(PyExprView::Tuple(o.items), span),
                    activates: o.activates,
                },
            ),
        },
    }
}

pub open spec fn lower_except_type(env: Env, x: SExpr) -> Lowered<ExprOut>
    decreases x, 13int,
{
    match lower_expr(env, x, PyAccessCtx::Load) {
        Err(err) => Err(err),
        Ok(o) => if o.pre.len() > 0 {
            fail_with(
                TfErrKind::InternalError,
                "Internal error: Type in except clause cannot have pre-statements"@,
                o.expr.tl_span,
            )
        } else {
            Ok(o)
        },
    }
}

pub open spec fn except_types_from(
    env: Env,
    types: Seq<SExpr>,
    i: int,
    acc: ItemsOut<PyListItemView>,
) -> Lowered<ItemsOut<PyListItemView>>
    decreases types, types.len() - i,
{
    if i < 0 || i >= types.len() {
        Ok(acc)
    } else {
        match lower_except_type(env, types[i]) {
            Err(err) => Err(err),
            Ok(o) => except_types_from(
                env,
                types,
                i + 1,
                add_item(acc, o, PyListItemView::Item(o.expr)),
            ),
        }
    }
}

// ---------------------------------------------------------------------------
// Postfix forms
// ---------------------------------------------------------------------------

/// Whether the expression is a plain postfix form.
pub open spec fn is_plain_postfix(e: Expr) -> bool {
    e is Attribute || e is Subscript || e is Call || e is Then
}

/// Whether the expression is a mapped postfix form.
pub open spec fn is_mapped_postfix(e: Expr) -> bool {
    e is MappedAttribute || e is MappedSubscript || e is MappedCall || e is MappedThen
}

/// A call, subscript, attribute or `.()` step, plain or mapped. The receiver
/// is lowered outside the region that guards the step; a mapped step lifts it.
/// In `Store` context only an attribute or a subscript can stand: a call, a
/// `.()` step and every mapped step are refused at once, and so is a
/// subscript that holds the placeholder of its own region, since what would
/// be written to is then no node but a function of the placeholder.
pub open spec fn lower_postfix(env: Env, e: SExpr, access: PyAccessCtx) -> Lowered<ExprOut>
    decreases e, 5int,
{
    match e.0 {
        Expr::Attribute(obj, _) | Expr::Subscript(obj, _) | Expr::Call(obj, _) | Expr::Then(
            obj,
            _,
        ) => if access != PyAccessCtx::Load && !(e.0 is Attribute || e.0 is Subscript) {
            fail_with(
                TfErrKind::InvalidPostfix,
                "Internal error: Only attributes and subscripts can be stored to"@,
                e.1,
            )
        } else {
            match lower_expr(env, *obj, PyAccessCtx::Load) {
                Err(err) => Err(err),
                Ok(lhs) => match postfix_step(env.under(e.1), e, access, lhs.pre, lhs.expr) {
                    Err(err) => Err(err),
                    Ok(step) => if access != PyAccessCtx::Load && step.activates {
                        fail_with(
                            TfErrKind::InvalidAssignTarget,
                            "Assignment target cannot be a function of the placeholder"@,
                            e.1,
                        )
                    } else {
                        let o = close_guard(env.src, e.1, step);
                        Ok(ExprOut { pre: o.pre, expr: o.expr, activates: lhs.activates })
                    },
                },
            }
        },
        Expr::MappedAttribute(obj, _)
        | Expr::MappedSubscript(obj, _)
        | Expr::MappedCall(obj, _)
        | Expr::MappedThen(obj, _) => if access != PyAccessCtx::Load {
            fail_with(
                TfErrKind::InvalidPostfix,
                "Internal error: Cannot use null-coalescing in a non-Load context"@,
                e.1,
            )
        } else {
            match lower_lifted(env, *obj) {
                Err(err) => Err(err),
                Ok(lhs) => match guarded(
                    env.src,
                    e.1,
                    postfix_step(env.under(e.1), e, access, lhs.pre, lhs.expr),
                ) {
                    Err(err) => Err(err),
                    Ok(o) => Ok(ExprOut { pre: o.pre, expr: o.expr, activates: lhs.activates }),
                },
            }
        },
        _ => fail_with(
            TfErrKind::InvalidPostfix,
            "Internal error: Postfix expressions can only be attributes, subscripts, calls, or mapped expressions"@,
            e.1,
        ),
    }
}

/// The step of a postfix form on the lowered receiver `lhs`, inside the
/// region that guards the step.
pub open spec fn postfix_step(
    env: Env,
    e: SExpr,
    access: PyAccessCtx,
    lhs_pre: Seq<SPyStmtView>,
    lhs_expr: SPyExprView,
) -> Lowered<ExprOut>
    decreases e, 4int,
{
    match e.0 {
        Expr::Call(_, list) => match call_items_from(env, list@, e.1, 0, false, no_items()) {
            Err(err) => Err(err),
            Ok(t) => Ok(
                ExprOut {
                    pre: lhs_pre + t.pre,
                    expr: mk_call(lhs_expr, t.items, e.1),
                    activates: t.activates,
                },
            ),
        },
        Expr::MappedCall(_, list) => match call_items_from(
            env,
            list@,
            e.1,
            0,
            false,
            no_items(),
        ) {
            Err(err) => Err(err),
            Ok(t) => Ok(
                ExprOut {
                    pre: lhs_pre + t.pre,
                    expr: mapped(lhs_expr, mk_call(lhs_expr, t.items, e.1), e.1),
                    activates: t.activates,
                },
            ),
        },
        Expr::Subscript(_, list) => match lower_subscript_items(env, list@, e.1) {
            Err(err) => Err(err),
            Ok(t) => Ok(
                ExprOut {
                    pre: lhs_pre + t.pre,
                    expr: mk_subscript(lhs_expr, t.expr, access, e.1),
                    activates: t.activates,
                },
            ),
        },
        Expr::MappedSubscript(_, list) => match lower_subscript_items(env, list@, e.1) {
            Err(err) => Err(err),
            Ok(t) => Ok(
                ExprOut {
                    pre: lhs_pre + t.pre,
                    expr: mapped(lhs_expr, mk_subscript(lhs_expr, t.expr, access, e.1), e.1),
                    activates: t.activates,
                },
            ),
        },
        Expr::Attribute(_, attr) => Ok(
            ExprOut {
                pre: lhs_pre,
                expr: mk_attribute(lhs_expr, attr.0@, access, e.1),
                activates: false,
            },
        ),
        Expr::MappedAttribute(_, attr) => Ok(
            ExprOut {
                pre: lhs_pre,
                expr: mapped(lhs_expr, mk_attribute(lhs_expr, attr.0@, access, e.1), e.1),
                activates: false,
            },
        ),
        Expr::Then(_, rhs) => match lower_guarded(env, *rhs) {
            Err(err) => Err(err),
            Ok(r) => Ok(
                ExprOut {
                    pre: lhs_pre + r.pre,
                    expr: mk_call1(r.expr, lhs_expr, e.1),
                    activates: r.activates,
                },
            ),
        },
        Expr::MappedThen(_, rhs) => match lower_guarded(env, *rhs) {
            Err(err) => Err(err),
            Ok(r) => Ok(
                ExprOut {
                    pre: lhs_pre + r.pre,
                    expr: mapped(lhs_expr, mk_call1(r.expr, lhs_expr, e.1), e.1),
                    activates: r.activates,
                },
            ),
        },
        _ => fail_with(
            TfErrKind::InvalidPostfix,
            "Internal error: Postfix expressions can only be attributes, subscripts, calls, or mapped expressions"@,
            e.1,
        ),
    }
}

/// The arguments of a call from the `i`-th on. Positional arguments and
/// positional spreads may not follow a keyword argument or keyword spread.
pub open spec fn call_items_from(
    env: Env,
    items: Seq<SCallItem>,
    span: Span,
    i: int,
    started_kwargs: bool,
    acc: ItemsOut<PyCallItemView>,
) -> Lowered<ItemsOut<PyCallItemView>>
    decreases items, items.len() - i,
{
    if i < 0 || i >= items.len() {
        Ok(acc)
    } else {
        match items[i].0 {
            CallItem::Arg(x) => if started_kwargs {
                fail_with(TfErrKind::InvalidArgument, "Cannot have args after kwargs"@, span)
            } else {
                match lower_deep_guarded(env, x) {
                    Err(err) => Err(err),
                    Ok(o) => call_items_from(
                        env,
                        items,
                        span,
                        i + 1,
                        started_kwargs,
                        add_item(acc, o, PyCallItemView::Arg(o.expr)),
                    ),
                }
            },
            CallItem::Kwarg(name, x) => match lower_deep_guarded(env, x) {
                Err(err) => Err(err),
                Ok(o) => call_items_from(
                    env,
                    items,
                    span,
                    i + 1,
                    true,
                    add_item(acc, o, PyCallItemView::Kwarg(name.0@, o.expr)),
                ),
            },
            CallItem::ArgSpread(x) => if started_kwargs {
                fail_with(
                    TfErrKind::InvalidArgument,
                    "Cannot have arg spread after kwargs"@,
                    span,
                )
            } else {
                match lower_deep_guarded(env, x) {
                    Err(err) => Err(err),
                    Ok(o) => call_items_from(
                        env,
                        items,
                        span,
                        i + 1,
                        started_kwargs,
                        add_item(acc, o, PyCallItemView::ArgSpread(o.expr)),
                    ),
                }
            },
            CallItem::KwargSpread(x) => match lower_deep_guarded(env, x) {
                Err(err) => Err(err),
                Ok(o) => call_items_from(
                    env,
                    items,
                    span,
                    i + 1,
                    true,
                    add_item(acc, o, PyCallItemView::KwargSpread(o.expr)),
                ),
            },
        }
    }
}

/// The elements of a list, tuple or subscript from the `i`-th on.
pub open spec fn list_items_from(
    env: Env,
    items: Seq<ListItem>,
    i: int,
    acc: ItemsOut<PyListItemView>,
) -> Lowered<ItemsOut<PyListItemView>>
    decreases items, items.len() - i,
{
    if i < 0 || i >= items.len() {
        Ok(acc)
    } else {
        match items[i] {
            ListItem::Item(x) => match lower_deep_guarded(env, x) {
                Err(err) => Err(err),
                Ok(o) => list_items_from(
                    env,
                    items,
                    i + 1,
                    add_item(acc, o, PyListItemView::Item(o.expr)),
                ),
            },
            ListItem::Spread(x) => match lower_deep_guarded(env, x) {
                Err(err) => Err(err),
                Ok(o) => list_items_from(
                    env,
                    items,
                    i + 1,
                    add_item(acc, o, PyListItemView::Spread(o.expr)),
                ),
            },
        }
    }
}

/// The index of a subscript: a single plain item stands for itself, anything
/// else becomes a tuple.
pub open spec fn lower_subscript_items(env: Env, items: Seq<ListItem>, span: Span) -> Lowered<
    ExprOut,
>
    decreases items, items.len() + 1,
{
    if items.len() == 1 && items[0] is Item {
        lower_deep_guarded(env, items[0]->Item_0)
    } else {
        match list_items_from(env, items, 0, no_items()) {
            Err(err) => Err(err),
            Ok(t) => Ok(
                ExprOut {
                    pre: t.pre,
                    expr: mk_expr(PyExprView::Tuple(t.items), span),
                    activates: t.activates,
                },
            ),
        }
    }
}

// ---------------------------------------------------------------------------
// Literals of several parts
// ---------------------------------------------------------------------------

/// A list or tuple literal, in a guarded region of its own.
pub open spec fn lower_list(env: Env, e: SExpr) -> Lowered<ExprOut>
    decreases e, 5int,
{
    match e.0 {
        Expr::List(items) => guarded(
            env.src,
            e.1,
            match list_items_from(env.under(e.1), items@, 0, no_items()) {
                Err(err) => Err(err),
                Ok(t) => Ok(
                    ExprOut {
                        pre: t.pre,
                        expr: mk_expr(PyExprView::List(t.items), e.1),
                        activates: t.activates,
                    },
                ),
            },
        ),
        Expr::Tuple(items) => guarded(
            env.src,
            e.1,
            match list_items_from(env.under(e.1), items@, 0, no_items()) {
                Err(err) => Err(err),
                Ok(t) => Ok(
                    ExprOut {
                        pre: t.pre,
                        expr: mk_expr(PyExprView::Tuple(t.items), e.1),
                        activates: t.activates,
                    },
                ),
            },
        ),
        _ => wrong_node(e.1),
    }
}

pub open spec fn mapping_items_from(
    env: Env,
    items: Seq<MappingItem>,
    i: int,
    acc: ItemsOut<PyDictItemView>,
) -> Lowered<ItemsOut<PyDictItemView>>
    decreases items, items.len() - i,
{
    if i < 0 || i >= items.len() {
        Ok(acc)
    } else {
        match items[i] {
            MappingItem::Item(k, v) => match lower_deep_guarded(env, k) {
                Err(err) => Err(err),
                Ok(ko) => match lower_deep_guarded(env, v) {
                    Err(err) => Err(err),
                    Ok(vo) => mapping_items_from(
                        env,
                        items,
                        i + 1,
                        ItemsOut {
                            pre: acc.pre + ko.pre + vo.pre,
                            items: acc.items.push(PyDictItemView::Item(ko.expr, vo.expr)),
                            activates: acc.activates || ko.activates || vo.activates,
                        },
                    ),
                },
            },
            MappingItem::Spread(x) => match lower_deep_guarded(env, x) {
                Err(err) => Err(err),
                Ok(o) => mapping_items_from(
                    env,
                    items,
                    i + 1,
                    add_item(acc, o, PyDictItemView::Spread(o.expr)),
                ),
            },
        }
    }
}

/// A mapping literal, in a guarded region of its own.
pub open spec fn lower_mapping(env: Env, e: SExpr) -> Lowered<ExprOut>
    decreases e, 5int,
{
    match e.0 {
        Expr::Mapping(items) => guarded(
            env.src,
            e.1,
            match mapping_items_from(env.under(e.1), items@, 0, no_items()) {
                Err(err) => Err(err),
                Ok(t) => Ok(
                    ExprOut {
                        pre: t.pre,
                        expr: mk_expr(PyExprView::Dict(t.items), e.1),
                        activates: t.activates,
                    },
                ),
            },
        ),
        _ => wrong_node(e.1),
    }
}

/// A bound of a slice, where there is one.
pub open spec fn lower_bound(env: Env, bound: Option<Box<SExpr>>) -> Lowered<Option<ExprOut>>
    decreases bound, 13int,
{
    match bound {
        None => Ok(None),
        Some(x) => match lower_deep_guarded(env, *x) {
            Err(err) => Err(err),
            Ok(o) => Ok(Some(o)),
        },
    }
}

/// `acc` after one more bound of a slice; a missing bound is `None`.
pub open spec fn add_bound(
    acc: ItemsOut<PyCallItemView>,
    bound: Option<ExprOut>,
    span: Span,
) -> ItemsOut<PyCallItemView> {
    match bound {
        Some(o) => add_item(acc, o, PyCallItemView::Arg(o.expr)),
        None => ItemsOut {
            pre: acc.pre,
            items: acc.items.push(PyCallItemView::Arg(mk_none(span))),
            activates: acc.activates,
        },
    }
}

/// The inside of the region that guards a slice: the three bounds in order.
pub open spec fn slice_inside(env: Env, e: SExpr) -> Lowered<ExprOut>
    decreases e, 4int,
{
    match e.0 {
        Expr::Slice(a, b, c) => match lower_bound(env, a) {
            Err(err) => Err(err),
            Ok(ao) => match lower_bound(env, b) {
                Err(err) => Err(err),
                Ok(bo) => match lower_bound(env, c) {
                    Err(err) => Err(err),
                    Ok(co) => {
                        let t = add_bound(
                            add_bound(add_bound(no_items(), ao, e.1), bo, e.1),
                            co,
                            e.1,
                        );
                        Ok(
                            ExprOut {
                                pre: t.pre,
                                expr: mk_call(mk_load("slice"@, e.1), t.items, e.1),
                                activates: t.activates,
                            },
                        )
                    },
                },
            },
        },
        _ => wrong_node(e.1),
    }
}

/// A slice `a..b..c`, a call of `slice` in a guarded region of its own.
pub open spec fn lower_slice(env: Env, e: SExpr) -> Lowered<ExprOut>
    decreases e, 5int,
{
    guarded(env.src, e.1, slice_inside(env.under(e.1), e))
}

pub open spec fn fstr_parts_from(
    env: Env,
    parts: Seq<(SFmtExpr, Spanned<String>)>,
    i: int,
    acc: ItemsOut<PyFstrPartView>,
) -> Lowered<ItemsOut<PyFstrPartView>>
    decreases parts, parts.len() - i,
{
    if i < 0 || i >= parts.len() {
        Ok(acc)
    } else {
        match lower_block(env, parts[i].0.0.block, true, false) {
            Err(err) => Err(err),
            Ok(b) => match b.final_ {
                FinalView::Expr(x) => fstr_parts_from(
                    env,
                    parts,
                    i + 1,
                    ItemsOut {
                        pre: acc.pre + b.stmts,
                        items: acc.items.push(PyFstrPartView::Expr(x, Seq::empty())).push(
                            PyFstrPartView::Str(parts[i].1.0@),
                        ),
                        activates: acc.activates || b.activates,
                    },
                ),
                _ => fail_with(
                    TfErrKind::MissingFinalExpr,
                    "f-string expression must have a final expression"@,
                    parts[i].0.1,
                ),
            },
        }
    }
}

/// The inside of the region that guards a formatted string: its opening
/// text, then each interpolated block followed by the text after it.
pub open spec fn fstr_inside(env: Env, e: SExpr) -> Lowered<ExprOut>
    decreases e, 4int,
{
    match e.0 {
        Expr::Fstr(begin, parts) => match fstr_parts_from(
            env,
            parts@,
            0,
            ItemsOut {
                pre: no_stmts(),
                items: seq![PyFstrPartView::Str(begin.0@)],
                activates: false,
            },
        ) {
            Err(err) => Err(err),
            Ok(t) => Ok(
                ExprOut {
                    pre: t.pre,
                    expr: mk_expr(PyExprView::Fstr(t.items), e.1),
                    activates: t.activates,
                },
            ),
        },
        _ => wrong_node(e.1),
    }
}

/// A formatted string, in a guarded region of its own.
pub open spec fn lower_fstr(env: Env, e: SExpr) -> Lowered<ExprOut>
    decreases e, 5int,
{
    guarded(env.src, e.1, fstr_inside(env.under(e.1), e))
}

// ---------------------------------------------------------------------------
// Blocks in expression position
// ---------------------------------------------------------------------------

/// A block whose value is asked for: it must end with a value.
pub open spec fn lower_block_expr(env: Env, e: SExpr) -> Lowered<ExprOut>
    decreases e, 5int,
{
    match e.0 {
        Expr::Block(b) => match lower_block(env, *b, true, false) {
            Err(err) => Err(err),
            Ok(o) => match o.final_ {
                FinalView::Expr(x) => Ok(
                    ExprOut { pre: o.stmts, expr: x, activates: o.activates },
                ),
                _ => fail_with(
                    TfErrKind::MissingFinalExpr,
                    "block-expression must have a final expression"@,
                    b.1,
                ),
            },
        },
        _ => wrong_node(e.1),
    }
}

/// An arm of an `if` or `match` in expression position: its value is
/// assigned to `target`, unless the arm never falls through.
pub open spec fn lower_arm(
    env: Env,
    b: SBlock,
    target: SPyExprView,
    assign_span: Span,
    message: Seq<char>,
) -> Lowered<StmtsOut>
    decreases b, 2int,
{
    match lower_block(env, b, true, false) {
        Err(err) => Err(err),
        Ok(o) => match o.final_ {
            FinalView::Expr(x) => Ok(
                stmts_only(o.stmts.push(mk_assign(target, x, assign_span)), o.activates),
            ),
            FinalView::Never => Ok(stmts_only(o.stmts, o.activates)),
            FinalView::Nothing => fail_with(TfErrKind::MissingFinalExpr, message, b.1),
        },
    }
}

/// `if` in expression position: an `if` statement whose arms assign to a
/// temporary, which is the value.
pub open spec fn lower_if_expr(env: Env, e: SExpr) -> Lowered<ExprOut>
    decreases e, 5int,
{
    match e.0 {
        Expr::If(cond, then, otherwise) => match lower_expr(env, *cond, PyAccessCtx::Load) {
            Err(err) => Err(err),
            Ok(c) => {
                let ret = temp_name(env.src, "ifexp"@, e.1.start);
                match lower_arm(
                    env,
                    *then,
                    mk_store(ret, e.1),
                    e.1,
                    "then block must have a final expression"@,
                ) {
                    Err(err) => Err(err),
                    Ok(t) => match otherwise {
                        None => fail_with(
                            TfErrKind::MissingFinalExpr,
                            "else block is required in an if-expr"@,
                            e.1,
                        ),
                        Some(eb) => match lower_arm(
                            env,
                            *eb,
                            mk_store(ret, e.1),
                            e.1,
                            "else block must have a final expression"@,
                        ) {
                            Err(err) => Err(err),
                            Ok(f) => Ok(
                                ExprOut {
                                    pre: c.pre.push(
                                        mk_stmt(
                                            PyStmtView::If(c.expr, t.stmts, Some(f.stmts)),
                                            e.1,
                                        ),
                                    ),
                                    expr: mk_load(ret, e.1),
                                    activates: c.activates || t.activates || f.activates,
                                },
                            ),
                        },
                    },
                }
            },
        },
        _ => wrong_node(e.1),
    }
}

/// What the cases of a `match` have become so far.
pub struct CasesOut {
    pub aux: Seq<SPyStmtView>,
    pub cases: Seq<PyMatchCaseView>,
    /// Whether the last case seen so far is a default case.
    pub has_default: bool,
    pub activates: bool,
}

/// The pattern of a case: a pattern expression in a region of its own, or
/// `_` where there is none.
pub open spec fn lower_pattern(env: Env, pattern: Option<SExpr>, span: Span) -> Lowered<ExprOut>
    decreases pattern, 13int,
{
    match pattern {
        Some(p) => lower_guarded(env, p),
        None => Ok(ExprOut { pre: no_stmts(), expr: mk_load("_"@, span), activates: false }),
    }
}

pub open spec fn match_expr_cases_from(
    env: Env,
    cases: Seq<(Option<SExpr>, SBlock)>,
    span: Span,
    ret: Seq<char>,
    i: int,
    acc: CasesOut,
) -> Lowered<CasesOut>
    decreases cases, cases.len() - i,
{
    if i < 0 || i >= cases.len() {
        Ok(acc)
    } else if cases[i].0 is None && i != cases.len() - 1 {
        fail_with(
            TfErrKind::MissingDefault,
            "match-expr default case must be the last case"@,
            cases[i].1.1,
        )
    } else {
        match lower_pattern(env, cases[i].0, span) {
            Err(err) => Err(err),
            Ok(p) => match lower_arm(
                env,
                cases[i].1,
                mk_store(ret, span),
                cases[i].1.1,
                "match-expr case must have a final expression"@,
            ) {
                Err(err) => Err(err),
                Ok(b) => match_expr_cases_from(
                    env,
                    cases,
                    span,
                    ret,
                    i + 1,
                    CasesOut {
                        aux: acc.aux + p.pre,
                        cases: acc.cases.push(PyMatchCaseView { pattern: p.expr, body: b.stmts }),
                        has_default: p.expr.value is Ident,
                        activates: acc.activates || p.activates || b.activates,
                    },
                ),
            },
        }
    }
}

/// `match` in expression position: a `match` statement whose cases assign
/// to a temporary, which is the value. The last case must be a default case.
pub open spec fn lower_match_expr(env: Env, e: SExpr) -> Lowered<ExprOut>
    decreases e, 5int,
{
    match e.0 {
        Expr::Match(subject, cases) => match lower_guarded(env, *subject) {
            Err(err) => Err(err),
            Ok(s) => {
                let ret = temp_name(env.src, "matchexp"@, e.1.start);
                match match_expr_cases_from(
                    env,
                    cases@,
                    e.1,
                    ret,
                    0,
                    CasesOut {
                        aux: s.pre,
                        cases: Seq::empty(),
                        has_default: false,
                        activates: s.activates,
                    },
                ) {
                    Err(err) => Err(err),
                    Ok(c) => if !c.has_default {
                        fail_with(
                            TfErrKind::MissingDefault,
                            "match-expr must have a default case"@,
                            e.1,
                        )
                    } else {
                        Ok(
                            ExprOut {
                                pre: c.aux.push(
                                    mk_stmt(PyStmtView::Match(s.expr, c.cases), e.1),
                                ),
                                expr: mk_load(ret, e.1),
                                activates: c.activates,
                            },
                        )
                    },
                }
            },
        },
        _ => wrong_node(e.1),
    }
}

// ---------------------------------------------------------------------------
// Functions and classes
// ---------------------------------------------------------------------------

pub open spec fn no_args() -> ArgsOut {
    ArgsOut { pre: no_stmts(), post: no_stmts(), args: Seq::empty(), activates: false }
}

/// The default value of a parameter, where there is one.
pub open spec fn lower_default(env: Env, default: Option<SExpr>) -> Lowered<Option<ExprOut>>
    decreases default, 13int,
{
    match default {
        None => Ok(None),
        Some(d) => match lower_guarded(env, d) {
            Err(err) => Err(err),
            Ok(o) => Ok(Some(o)),
        },
    }
}

pub open spec fn default_pre(d: Option<ExprOut>) -> Seq<SPyStmtView> {
    match d {
        Some(o) => o.pre,
        None => no_stmts(),
    }
}

pub open spec fn default_expr(d: Option<ExprOut>) -> Option<SPyExprView> {
    match d {
        Some(o) => Some(o.expr),
        None => None,
    }
}

pub open spec fn default_activates(d: Option<ExprOut>) -> bool {
    match d {
        Some(o) => o.activates,
        None => false,
    }
}

/// The parameters of a function from the `i`-th on. A parameter that is a
/// pattern is received in a cursor and unpacked at the start of the body.
pub open spec fn arglist_from(env: Env, args: Seq<ArgDefItem>, i: int, acc: ArgsOut) -> Lowered<
    ArgsOut,
>
    decreases args, args.len() - i,
{
    if i < 0 || i >= args.len() {
        Ok(acc)
    } else {
        match args[i] {
            ArgDefItem::Arg(arg, default) => match lower_default(env, default) {
                Err(err) => Err(err),
                Ok(d) => match lower_target(env, arg, true) {
                    Err(err) => Err(err),
                    Ok(des) => match des.assign_to.value {
                        PyExprView::Ident(name, _) => arglist_from(
                            env,
                            args,
                            i + 1,
                            ArgsOut {
                                pre: acc.pre + default_pre(d),
                                post: acc.post + des.post,
                                args: acc.args.push(PyArgDefItemView::Arg(name, default_expr(d))),
                                activates: acc.activates || default_activates(d)
                                    || des.activates,
                            },
                        ),
                        _ => fail_with(
                            TfErrKind::InternalError,
                            "Internal error: Destructuring assignment target must be an identifier"@,
                            arg.1,
                        ),
                    },
                },
            },
            ArgDefItem::ArgSpread(name) => arglist_from(
                env,
                args,
                i + 1,
                ArgsOut {
                    pre: acc.pre,
                    post: acc.post,
                    args: acc.args.push(PyArgDefItemView::ArgSpread(name.0@)),
                    activates: acc.activates,
                },
            ),
            ArgDefItem::KwargSpread(name) => arglist_from(
                env,
                args,
                i + 1,
                ArgsOut {
                    pre: acc.pre,
                    post: acc.post,
                    args: acc.args.push(PyArgDefItemView::KwargSpread(name.0@)),
                    activates: acc.activates,
                },
            ),
        }
    }
}

/// The parts of the function `e`: the statements that its defaults need,
/// its parameters, and its body, which returns the value of its block.
pub open spec fn prepare_fn(env: Env, e: SExpr, span: Span) -> Lowered<FnParts>
    decreases e, 3int,
{
    match e.0 {
        Expr::Fn(arglist, body) => match arglist_from(env, arglist@, 0, no_args()) {
            Err(err) => Err(err),
            Ok(a) => match lower_block(env, *body, true, false) {
                Err(err) => Err(err),
                Ok(b) => Ok(
                    FnParts {
                        aux: a.pre,
                        body: a.post + (match b.final_ {
                            FinalView::Expr(x) => b.stmts.push(mk_return(x, span)),
                            _ => b.stmts,
                        }),
                        args: a.args,
                        activates: a.activates || b.activates,
                    },
                ),
            },
        },
        _ => wrong_node(e.1),
    }
}

/// A function in expression position.
pub open spec fn lower_fn_exp(env: Env, e: SExpr) -> Lowered<ExprOut>
    decreases e, 5int,
{
    match prepare_fn(env, e, e.1) {
        Err(err) => Err(err),
        Ok(p) => {
            let f = fn_exp(env.src, p.aux, p.args, p.body, e.1);
            Ok(ExprOut { pre: f.pre, expr: f.expr, activates: p.activates })
        },
    }
}

/// The definition of the function `e` under the name `name`.
pub open spec fn fn_def(
    env: Env,
    name: Seq<char>,
    e: SExpr,
    decorators: Seq<SPyExprView>,
    span: Span,
) -> Lowered<StmtsOut>
    decreases e, 4int,
{
    match prepare_fn(env, e, span) {
        Err(err) => Err(err),
        Ok(p) => Ok(
            stmts_only(
                p.aux.push(mk_stmt(PyStmtView::FnDef(name, p.args, p.body, decorators), span)),
                p.activates,
            ),
        ),
    }
}

/// The bases of a class from the `i`-th on: positional or keyword, no spread.
pub open spec fn class_bases_from(
    env: Env,
    bases: Seq<SCallItem>,
    span: Span,
    i: int,
    acc: ItemsOut<PyCallItemView>,
) -> Lowered<ItemsOut<PyCallItemView>>
    decreases bases, bases.len() - i,
{
    if i < 0 || i >= bases.len() {
        Ok(acc)
    } else {
        match bases[i].0 {
            CallItem::Arg(x) => match lower_guarded(env, x) {
                Err(err) => Err(err),
                Ok(o) => class_bases_from(
                    env,
                    bases,
                    span,
                    i + 1,
                    add_item(acc, o, PyCallItemView::Arg(o.expr)),
                ),
            },
            CallItem::Kwarg(name, x) => match lower_guarded(env, x) {
                Err(err) => Err(err),
                Ok(o) => class_bases_from(
                    env,
                    bases,
                    span,
                    i + 1,
                    add_item(acc, o, PyCallItemView::Kwarg(name.0@, o.expr)),
                ),
            },
            _ => fail_with(
                TfErrKind::InvalidArgument,
                "spread args are not allowed in class bases"@,
                span,
            ),
        }
    }
}

/// The definition of the class `e` under the name `name`.
pub open spec fn class_def(
    env: Env,
    name: Seq<char>,
    e: SExpr,
    decorators: Seq<SPyExprView>,
    span: Span,
) -> Lowered<StmtsOut>
    decreases e, 4int,
{
    match e.0 {
        Expr::Class(bases, body) => match lower_block(env, *body, false, false) {
            Err(err) => Err(err),
            Ok(b) => match class_bases_from(env, bases@, span, 0, no_items()) {
                Err(err) => Err(err),
                Ok(bs) => Ok(
                    stmts_only(
                        bs.pre.push(
                            mk_stmt(PyStmtView::ClassDef(name, bs.items, b.stmts, decorators), span),
                        ),
                        b.activates || bs.activates,
                    ),
                ),
            },
        },
        _ => wrong_node(e.1),
    }
}

/// A class in expression position: a definition under the name of a
/// temporary, which is the value.
pub open spec fn lower_class_exp(env: Env, e: SExpr) -> Lowered<ExprOut>
    decreases e, 5int,
{
    let name = temp_name(env.src, "clsexp"@, e.1.start);
    match class_def(env, name, e, Seq::empty(), e.1) {
        Err(err) => Err(err),
        Ok(c) => Ok(ExprOut { pre: c.stmts, expr: mk_load(name, e.1), activates: c.activates }),
    }
}

// ---------------------------------------------------------------------------
// Destructuring
// ---------------------------------------------------------------------------

/// Whether the expression has the form of a target: a name, an attribute, a
/// subscript, or a list or mapping pattern.
pub open spec fn is_target_form(e: Expr) -> bool {
    e is Ident || e is Attribute || e is Subscript || e is List || e is Mapping
}

/// Whether the target is refused before anything of it is lowered: it has
/// not the form of a target, or it is an attribute or subscript where only
/// names may be bound.
pub open spec fn target_refused_at_once(e: Expr, decl_only: bool) -> bool {
    !is_target_form(e) || (decl_only && (e is Attribute || e is Subscript))
}

/// A target of an assignment, a loop or a parameter. With `decl_only` only
/// names may be bound.
pub open spec fn lower_target(env: Env, target: SExpr, decl_only: bool) -> Lowered<DesOut>
    decreases target, 20int,
{
    match target.0 {
        Expr::Ident(id) => match lower_expr(env, target, PyAccessCtx::Store) {
            Err(err) => Err(err),
            Ok(t) => Ok(
                DesOut {
                    assign_to: t.expr,
                    post: t.pre,
                    decls: seq![id.0@],
                    activates: t.activates,
                },
            ),
        },
        Expr::Attribute(_, _) | Expr::Subscript(_, _) => if decl_only {
            fail_with(
                TfErrKind::InvalidAssignTarget,
                "Only identifiers allowed in this destructuring"@,
                target.1,
            )
        } else {
            match lower_expr(env, target, PyAccessCtx::Store) {
                Err(err) => Err(err),
                Ok(t) => Ok(
                    DesOut {
                        assign_to: t.expr,
                        post: t.pre,
                        decls: no_names(),
                        activates: t.activates,
                    },
                ),
            }
        },
        Expr::List(_) => lower_list_target(env, target, decl_only),
        Expr::Mapping(_) => lower_mapping_target(env, target, decl_only),
        _ => fail_with(
            TfErrKind::InvalidAssignTarget,
            "Assignment target is not allowed"@,
            target.1,
        ),
    }
}

/// What the items of a pattern have become so far.
pub struct DesAcc {
    /// The assignments that take the value apart.
    pub stmts: Seq<SPyStmtView>,
    /// The statements that unpack the items further.
    pub post: Seq<SPyStmtView>,
    pub decls: Seq<Seq<char>>,
    pub activates: bool,
}

pub open spec fn cursor_name(src: Seq<u8>, span: Span) -> Seq<char> {
    temp_name(src, "des_curs"@, span.start)
}

pub open spec fn list_name(src: Seq<u8>, span: Span) -> Seq<char> {
    temp_name(src, "des_list"@, span.start)
}

pub open spec fn len_name(src: Seq<u8>, span: Span) -> Seq<char> {
    temp_name(src, "des_len"@, span.start)
}

pub open spec fn dict_name(src: Seq<u8>, span: Span) -> Seq<char> {
    temp_name(src, "des_dict"@, span.start)
}

/// `list_var[index]`.
pub open spec fn list_element(src: Seq<u8>, span: Span, index: int) -> SPyExprView {
    mk_subscript(
        mk_load(list_name(src, span), span),
        mk_num(int_text(index), span),
        PyAccessCtx::Load,
        span,
    )
}

/// `list_var[from : len_var - back]`.
pub open spec fn list_rest(src: Seq<u8>, span: Span, from: int, back: int) -> SPyExprView {
    mk_subscript(
        mk_load(list_name(src, span), span),
        mk_slice(
            Some(mk_num(int_text(from), span)),
            Some(
                mk_binary(
                    PyBinaryOp::Sub,
                    mk_load(len_name(src, span), span),
                    mk_num(int_text(back), span),
                    span,
                ),
            ),
            None,
            span,
        ),
        PyAccessCtx::Load,
        span,
    )
}

/// The items of a list pattern from the `i`-th on. `count` plain items came
/// before; `seen_spread` says whether the spread did.
pub open spec fn des_list_from(
    env: Env,
    items: Seq<ListItem>,
    span: Span,
    decl_only: bool,
    i: int,
    count: int,
    seen_spread: bool,
    acc: DesAcc,
) -> Lowered<DesAcc>
    decreases items, items.len() - i,
{
    if i < 0 || i >= items.len() {
        Ok(acc)
    } else {
        match items[i] {
            ListItem::Item(x) => match lower_target(env, x, decl_only) {
                Err(err) => Err(err),
                Ok(b) => des_list_from(
                    env,
                    items,
                    span,
                    decl_only,
                    i + 1,
                    count + 1,
                    seen_spread,
                    DesAcc {
                        stmts: acc.stmts.push(
                            mk_assign(
                                b.assign_to,
                                list_element(
                                    env.src,
                                    span,
                                    if seen_spread {
                                        -(items.len() - count - 1)
                                    } else {
                                        count
                                    },
                                ),
                                span,
                            ),
                        ),
                        post: acc.post + b.post,
                        decls: acc.decls + b.decls,
                        activates: acc.activates || b.activates,
                    },
                ),
            },
            ListItem::Spread(x) => if seen_spread {
                fail_with(
                    TfErrKind::MultipleSpreads,
                    "Destructuring assignment with multiple spreads is not allowed"@,
                    span,
                )
            } else {
                match lower_target(env, x, decl_only) {
                    Err(err) => Err(err),
                    Ok(b) => des_list_from(
                        env,
                        items,
                        span,
                        decl_only,
                        i + 1,
                        count,
                        true,
                        DesAcc {
                            stmts: acc.stmts.push(
                                mk_assign(
                                    b.assign_to,
                                    list_rest(env.src, span, count, items.len() - 2),
                                    span,
                                ),
                            ),
                            post: acc.post + b.post,
                            decls: acc.decls + b.decls,
                            activates: acc.activates || b.activates,
                        },
                    ),
                }
            },
        }
    }
}

/// A list pattern `[a, *b, c]`: the value goes into a cursor, becomes a
/// list, and each item is assigned from its place in the list.
pub open spec fn lower_list_target(env: Env, target: SExpr, decl_only: bool) -> Lowered<DesOut>
    decreases target, 15int,
{
    match target.0 {
        Expr::List(items) => {
            let span = target.1;
            let cursor = cursor_name(env.src, span);
            let list_var = list_name(env.src, span);
            let len_var = len_name(env.src, span);
            match des_list_from(
                env,
                items@,
                span,
                decl_only,
                0,
                0,
                false,
                DesAcc {
                    stmts: seq![
                        mk_assign(
                            mk_store(list_var, span),
                            mk_call1(mk_load("list"@, span), mk_load(cursor, span), span),
                            span,
                        ),
                        mk_assign(
                            mk_store(len_var, span),
                            mk_call1(mk_load("len"@, span), mk_load(list_var, span), span),
                            span,
                        ),
                    ],
                    post: no_stmts(),
                    decls: no_names(),
                    activates: false,
                },
            ) {
                Err(err) => Err(err),
                Ok(a) => Ok(
                    DesOut {
                        assign_to: mk_store(cursor, span),
                        post: a.stmts + a.post,
                        decls: a.decls,
                        activates: a.activates,
                    },
                ),
            }
        },
        _ => wrong_node(target.1),
    }
}

/// `dict_var.pop(key)`.
pub open spec fn dict_pop(src: Seq<u8>, span: Span, key: SPyExprView) -> SPyExprView {
    mk_call1(
        mk_attribute(mk_load(dict_name(src, span), span), "pop"@, PyAccessCtx::Load, span),
        key,
        span,
    )
}

/// The rest target of a mapping pattern, which receives what is left.
pub open spec fn des_map_rest(
    env: Env,
    items: Seq<MappingItem>,
    span: Span,
    decl_only: bool,
    spread: Option<int>,
    acc: DesAcc,
) -> Lowered<DesAcc>
    decreases items, 0int,
{
    match spread {
        Some(k) if 0 <= k < items.len() && items[k] is Spread => match lower_target(
            env,
            items[k]->Spread_0,
            decl_only,
        ) {
            Err(err) => Err(err),
            Ok(b) => Ok(
                DesAcc {
                    stmts: acc.stmts.push(
                        mk_assign(b.assign_to, mk_load(dict_name(env.src, span), span), span),
                    ),
                    post: acc.post + b.post,
                    decls: acc.decls + b.decls,
                    activates: acc.activates || b.activates,
                },
            ),
        },
        _ => Ok(acc),
    }
}

/// The items of a mapping pattern from the `i`-th on; `spread` is the index
/// of the rest target, if it came before.
pub open spec fn des_map_from(
    env: Env,
    items: Seq<MappingItem>,
    span: Span,
    decl_only: bool,
    i: int,
    spread: Option<int>,
    acc: DesAcc,
) -> Lowered<DesAcc>
    decreases items,
        (if 0 <= i < items.len() {
            items.len() - i + 1
        } else {
            1
        }),
{
    if i < 0 || i >= items.len() {
        des_map_rest(env, items, span, decl_only, spread, acc)
    } else {
        match items[i] {
            MappingItem::Item(key, x) => match lower_target(env, x, decl_only) {
                Err(err) => Err(err),
                Ok(b) => match lower_expr(env, key, PyAccessCtx::Load) {
                    Err(err) => Err(err),
                    Ok(k) => des_map_from(
                        env,
                        items,
                        span,
                        decl_only,
                        i + 1,
                        spread,
                        DesAcc {
                            stmts: acc.stmts.push(
                                mk_assign(b.assign_to, dict_pop(env.src, span, k.expr), span),
                            ),
                            post: acc.post + k.pre + b.post,
                            decls: acc.decls + b.decls,
                            activates: acc.activates || b.activates || k.activates,
                        },
                    ),
                },
            },
            MappingItem::Spread(_) => if spread is Some {
                fail_with(
                    TfErrKind::MultipleSpreads,
                    "Destructuring assignment with multiple spreads is not allowed"@,
                    span,
                )
            } else {
                des_map_from(env, items, span, decl_only, i + 1, Some(i), acc)
            },
        }
    }
}

/// A mapping pattern `[k: p, **rest]`: the value goes into a cursor, becomes
/// a dict, each item pops its key, and the rest target takes what is left.
pub open spec fn lower_mapping_target(env: Env, target: SExpr, decl_only: bool) -> Lowered<DesOut>
    decreases target, 15int,
{
    match target.0 {
        Expr::Mapping(items) => {
            let span = target.1;
            let cursor = cursor_name(env.src, span);
            match des_map_from(
                env,
                items@,
                span,
                decl_only,
                0,
                None,
                DesAcc {
                    stmts: seq![
                        mk_assign(
                            mk_store(dict_name(env.src, span), span),
                            mk_call1(mk_load("dict"@, span), mk_load(cursor, span), span),
                            span,
                        ),
                    ],
                    post: no_stmts(),
                    decls: no_names(),
                    activates: false,
                },
            ) {
                Err(err) => Err(err),
                Ok(a) => Ok(
                    DesOut {
                        assign_to: mk_store(cursor, span),
                        post: a.stmts + a.post,
                        decls: a.decls,
                        activates: a.activates,
                    },
                ),
            }
        },
        _ => wrong_node(target.1),
    }
}

// ---------------------------------------------------------------------------
// Assignments
// ---------------------------------------------------------------------------

/// What is left of the right-hand side of an assignment when its decorators
/// are peeled off: `inner.(d)`, `inner | d` and `d(inner)` each wrap `inner`.
pub open spec fn peel_inner(e: SExpr) -> SExpr
    decreases e,
{
    match e.0 {
        Expr::Then(left, _) => peel_inner(*left),
        Expr::Binary(BinaryOp::Pipe, left, _) => peel_inner(*left),
        Expr::Call(_, args) => if args@.len() == 1 && args@[0].0 is Arg {
            peel_inner(args@[0].0->Arg_0)
        } else {
            e
        },
        _ => e,
    }
}

/// What is left after peeling is the expression itself or a part of it.
pub proof fn lemma_peel_inner_within(e: SExpr)
    ensures
        peel_inner(e) == e || decreases_to!(e => peel_inner(e)),
    decreases e,
{
    match e.0 {
        Expr::Then(left, _) => {
            lemma_peel_inner_within(*left);
        },
        Expr::Binary(BinaryOp::Pipe, left, _) => {
            lemma_peel_inner_within(*left);
        },
        Expr::Call(_, args) => {
            if args@.len() == 1 && args@[0].0 is Arg {
                lemma_peel_inner_within(args@[0].0->Arg_0);
            }
        },
        _ => {},
    }
}

/// The decorators peeled off `e`, outermost first, each lowered in a region
/// of its own and added to `acc`.
pub open spec fn lower_decorators(env: Env, e: SExpr, acc: ItemsOut<SPyExprView>) -> Lowered<
    ItemsOut<SPyExprView>,
>
    decreases e, 30int,
{
    match e.0 {
        Expr::Then(left, right) => match lower_guarded(env, *right) {
            Err(err) => Err(err),
            Ok(o) => lower_decorators(env, *left, add_item(acc, o, o.expr)),
        },
        Expr::Binary(BinaryOp::Pipe, left, right) => match lower_guarded(env, *right) {
            Err(err) => Err(err),
            Ok(o) => lower_decorators(env, *left, add_item(acc, o, o.expr)),
        },
        Expr::Call(f, args) => if args@.len() == 1 && args@[0].0 is Arg {
            match lower_guarded(env, *f) {
                Err(err) => Err(err),
                Ok(o) => lower_decorators(env, args@[0].0->Arg_0, add_item(acc, o, o.expr)),
            }
        } else {
            Ok(acc)
        },
        _ => Ok(acc),
    }
}

/// The statements that bind the targets of an assignment, and the names
/// they introduce.
pub struct BindOut {
    pub stmts: Seq<SPyStmtView>,
    pub decls: Seq<Seq<char>>,
    pub activates: bool,
}

/// Whether the assignment `s` defines a function or a class: a name on the
/// left, and on the right a function or class under any number of decorators.
pub open spec fn is_definition(s: Stmt) -> bool {
    s matches Stmt::Assign(lhs, rhs, _) && lhs.0 is Ident && (peel_inner(rhs).0 is Fn
        || peel_inner(rhs).0 is Class)
}

/// A decorated definition `name = d1(d2(fn))`: the definition of the function
/// or class under `name`, with its decorators outermost first.
pub open spec fn lower_definition(env: Env, s: SStmt) -> Lowered<BindOut>
    decreases s, 3int,
{
    match s.0 {
        Stmt::Assign(lhs, rhs, _) => match lhs.0 {
            Expr::Ident(id) => match lower_decorators(env, rhs, no_items()) {
                Err(err) => Err(err),
                Ok(d) => {
                    proof {
                        lemma_peel_inner_within(rhs);
                    }
                    match (if peel_inner(rhs).0 is Fn {
                        fn_def(env, id.0@, peel_inner(rhs), d.items, s.1)
                    } else {
                        class_def(env, id.0@, peel_inner(rhs), d.items, s.1)
                    }) {
                        Err(err) => Err(err),
                        Ok(f) => Ok(
                            BindOut {
                                stmts: d.pre + f.stmts,
                                decls: seq![id.0@],
                                activates: d.activates || f.activates,
                            },
                        ),
                    }
                },
            },
            _ => wrong_node(s.1),
        },
        _ => wrong_node(s.1),
    }
}

/// The binding that the assignment `s` makes.
pub open spec fn lower_assignment(env: Env, s: SStmt, decl_only: bool) -> Lowered<BindOut>
    decreases s, 4int,
{
    match s.0 {
        Stmt::Assign(lhs, rhs, _) => if is_definition(s.0) {
            lower_definition(env, s)
        } else {
            match lower_guarded(env, rhs) {
                Err(err) => Err(err),
                Ok(v) => match lower_target(env, lhs, decl_only) {
                    Err(err) => Err(err),
                    Ok(d) => Ok(
                        BindOut {
                            stmts: v.pre.push(mk_assign(d.assign_to, v.expr, lhs.1)) + d.post,
                            decls: d.decls,
                            activates: v.activates || d.activates,
                        },
                    ),
                },
            }
        },
        _ => wrong_node(s.1),
    }
}

/// An assignment with its scope modifier.
pub open spec fn lower_assign(env: Env, s: SStmt, top_level: bool) -> Lowered<StmtsOut>
    decreases s, 5int,
{
    match s.0 {
        Stmt::Assign(_, _, mods) => match scope_modifier(mods@, top_level, s.1) {
            Err(err) => Err(err),
            Ok(m) => match lower_assignment(env, s, m is Some) {
                Err(err) => Err(err),
                Ok(b) => Ok(
                    StmtsOut {
                        stmts: scope_stmts(m, b.decls, s.1) + b.stmts,
                        activates: b.activates,
                        exports: if m == Some(AssignModifier::Export) {
                            b.decls
                        } else {
                            no_names()
                        },
                        star_exports: no_names(),
                    },
                ),
            },
        },
        _ => wrong_node(s.1),
    }
}

// ---------------------------------------------------------------------------
// Statements
// ---------------------------------------------------------------------------

/// The statements of a block that is not asked for a value.
pub open spec fn block_stmts(env: Env, b: SBlock) -> Lowered<StmtsOut>
    decreases b, 2int,
{
    match lower_block(env, b, false, false) {
        Err(err) => Err(err),
        Ok(o) => Ok(
            StmtsOut {
                stmts: o.stmts,
                activates: o.activates,
                exports: o.exports,
                star_exports: o.star_exports,
            },
        ),
    }
}

/// The statements of an optional block.
pub open spec fn opt_block_stmts(env: Env, b: Option<Box<SBlock>>) -> Lowered<Option<StmtsOut>>
    decreases b, 3int,
{
    match b {
        None => Ok(None),
        Some(x) => match block_stmts(env, *x) {
            Err(err) => Err(err),
            Ok(o) => Ok(Some(o)),
        },
    }
}

pub open spec fn opt_stmts(o: Option<StmtsOut>) -> Option<Seq<SPyStmtView>> {
    match o {
        Some(s) => Some(s.stmts),
        None => None,
    }
}

pub open spec fn opt_stmts_activates(o: Option<StmtsOut>) -> bool {
    match o {
        Some(s) => s.activates,
        None => false,
    }
}

/// `if` as a statement.
pub open spec fn lower_if_stmt(env: Env, e: SExpr, span: Span) -> Lowered<StmtsOut>
    decreases e, 5int,
{
    match e.0 {
        Expr::If(cond, then, otherwise) => match lower_guarded(env, *cond) {
            Err(err) => Err(err),
            Ok(c) => match block_stmts(env, *then) {
                Err(err) => Err(err),
                Ok(t) => match opt_block_stmts(env, otherwise) {
                    Err(err) => Err(err),
                    Ok(f) => Ok(
                        stmts_only(
                            c.pre.push(
                                mk_stmt(PyStmtView::If(c.expr, t.stmts, opt_stmts(f)), span),
                            ),
                            c.activates || t.activates || opt_stmts_activates(f),
                        ),
                    ),
                },
            },
        },
        _ => wrong_node(e.1),
    }
}

pub open spec fn match_stmt_cases_from(
    env: Env,
    cases: Seq<(Option<SExpr>, SBlock)>,
    span: Span,
    i: int,
    acc: CasesOut,
) -> Lowered<CasesOut>
    decreases cases, cases.len() - i,
{
    if i < 0 || i >= cases.len() {
        Ok(acc)
    } else {
        match lower_pattern(env, cases[i].0, span) {
            Err(err) => Err(err),
            Ok(p) => match block_stmts(env, cases[i].1) {
                Err(err) => Err(err),
                Ok(b) => match_stmt_cases_from(
                    env,
                    cases,
                    span,
                    i + 1,
                    CasesOut {
                        aux: acc.aux + p.pre,
                        cases: acc.cases.push(PyMatchCaseView { pattern: p.expr, body: b.stmts }),
                        has_default: p.expr.value is Ident,
                        activates: acc.activates || p.activates || b.activates,
                    },
                ),
            },
        }
    }
}

/// `match` as a statement.
pub open spec fn lower_match_stmt(env: Env, e: SExpr, span: Span) -> Lowered<StmtsOut>
    decreases e, 5int,
{
    match e.0 {
        Expr::Match(subject, cases) => match lower_guarded(env, *subject) {
            Err(err) => Err(err),
            Ok(s) => match match_stmt_cases_from(
                env,
                cases@,
                span,
                0,
                CasesOut {
                    aux: s.pre,
                    cases: Seq::empty(),
                    has_default: false,
                    activates: s.activates,
                },
            ) {
                Err(err) => Err(err),
                Ok(c) => Ok(
                    stmts_only(
                        c.aux.push(mk_stmt(PyStmtView::Match(s.expr, c.cases), span)),
                        c.activates,
                    ),
                ),
            },
        },
        _ => wrong_node(e.1),
    }
}

/// An expression as a statement. `if` and `match` become statements of
/// their kind; anything else is evaluated in a region of its own.
pub open spec fn lower_expr_stmt(env: Env, e: SExpr, span: Span) -> Lowered<StmtsOut>
    decreases e, 20int,
{
    match e.0 {
        Expr::If(_, _, _) => lower_if_stmt(env, e, span),
        Expr::Match(_, _) => lower_match_stmt(env, e, span),
        _ => match lower_guarded(env, e) {
            Err(err) => Err(err),
            Ok(o) => Ok(
                stmts_only(o.pre.push(mk_stmt(PyStmtView::Expr(o.expr), span)), o.activates),
            ),
        },
    }
}

pub open spec fn lower_for(env: Env, s: SStmt) -> Lowered<StmtsOut>
    decreases s, 5int,
{
    match s.0 {
        Stmt::For(target, iter, body) => match lower_guarded(env, iter) {
            Err(err) => Err(err),
            Ok(it) => match lower_target(env, target, true) {
                Err(err) => Err(err),
                Ok(d) => match block_stmts(env, body) {
                    Err(err) => Err(err),
                    Ok(b) => Ok(
                        stmts_only(
                            it.pre.push(
                                mk_stmt(
                                    PyStmtView::For(d.assign_to, it.expr, d.post + b.stmts),
                                    s.1,
                                ),
                            ),
                            it.activates || d.activates || b.activates,
                        ),
                    ),
                },
            },
        },
        _ => wrong_node(s.1),
    }
}

/// The head of a `while` loop. A condition that needs statements of its own
/// is wrapped in a function of no parameters, which the head calls, so that
/// the statements run before every test.
pub open spec fn while_head(src: Seq<u8>, cond: ExprOut, span: Span) -> ExprOut {
    if cond.pre.len() == 0 {
        ExprOut { pre: no_stmts(), expr: cond.expr, activates: false }
    } else {
        let f = fn_exp(
            src,
            no_stmts(),
            Seq::empty(),
            cond.pre.push(mk_return(cond.expr, span)),
            span,
        );
        ExprOut { pre: f.pre, expr: mk_call(f.expr, Seq::empty(), span), activates: false }
    }
}

pub open spec fn lower_while(env: Env, s: SStmt) -> Lowered<StmtsOut>
    decreases s, 5int,
{
    match s.0 {
        Stmt::While(cond, body) => match lower_guarded(env, cond) {
            Err(err) => Err(err),
            Ok(c) => match block_stmts(env, body) {
                Err(err) => Err(err),
                Ok(b) => {
                    let head = while_head(env.src, c, s.1);
                    Ok(
                        stmts_only(
                            head.pre.push(mk_stmt(PyStmtView::While(head.expr, b.stmts), s.1)),
                            c.activates || b.activates,
                        ),
                    )
                },
            },
        },
        _ => wrong_node(s.1),
    }
}

/// The types that a handler catches; `Exception` where it names none.
pub open spec fn lower_handler_types(env: Env, types: Option<ExceptTypes>, span: Span) -> Lowered<
    ExprOut,
>
    decreases types, 2int,
{
    match types {
        Some(t) => lower_except_types(env, t, span),
        None => Ok(
            ExprOut { pre: no_stmts(), expr: mk_load("Exception"@, span), activates: false },
        ),
    }
}

pub open spec fn try_handlers_from(
    env: Env,
    handlers: Seq<ExceptHandler>,
    span: Span,
    i: int,
    acc: ItemsOut<PyExceptHandlerView>,
) -> Lowered<ItemsOut<PyExceptHandlerView>>
    decreases handlers, handlers.len() - i,
{
    if i < 0 || i >= handlers.len() {
        Ok(acc)
    } else {
        match lower_handler_types(env, handlers[i].types, span) {
            Err(err) => Err(err),
            Ok(t) => match block_stmts(env, handlers[i].body) {
                Err(err) => Err(err),
                Ok(b) => try_handlers_from(
                    env,
                    handlers,
                    span,
                    i + 1,
                    ItemsOut {
                        pre: acc.pre,
                        items: acc.items.push(
                            mk_handler(Some(t.expr), opt_name(handlers[i].name), b.stmts),
                        ),
                        activates: acc.activates || t.activates || b.activates,
                    },
                ),
            },
        }
    }
}

pub open spec fn opt_sblock_stmts(env: Env, b: Option<SBlock>) -> Lowered<Option<StmtsOut>>
    decreases b, 3int,
{
    match b {
        None => Ok(None),
        Some(x) => match block_stmts(env, x) {
            Err(err) => Err(err),
            Ok(o) => Ok(Some(o)),
        },
    }
}

pub open spec fn lower_try(env: Env, s: SStmt) -> Lowered<StmtsOut>
    decreases s, 5int,
{
    match s.0 {
        Stmt::Try(body, handlers, finally) => match block_stmts(env, body) {
            Err(err) => Err(err),
            Ok(b) => match opt_sblock_stmts(env, finally) {
                Err(err) => Err(err),
                Ok(f) => match try_handlers_from(env, handlers@, s.1, 0, no_items()) {
                    Err(err) => Err(err),
                    Ok(h) => Ok(
                        stmts_only(
                            seq![mk_try(b.stmts, h.items, opt_stmts(f), s.1)],
                            b.activates || opt_stmts_activates(f) || h.activates,
                        ),
                    ),
                },
            },
        },
        _ => wrong_node(s.1),
    }
}

/// A statement that evaluates one expression in a region of its own.
pub open spec fn lower_value_stmt(env: Env, s: SStmt) -> Lowered<StmtsOut>
    decreases s, 5int,
{
    match s.0 {
        Stmt::Return(x) => match lower_guarded(env, x) {
            Err(err) => Err(err),
            Ok(o) => Ok(
                stmts_only(o.pre.push(mk_stmt(PyStmtView::Return(o.expr), s.1)), o.activates),
            ),
        },
        Stmt::Raise(x) => match lower_guarded(env, x) {
            Err(err) => Err(err),
            Ok(o) => Ok(
                stmts_only(o.pre.push(mk_stmt(PyStmtView::Raise(o.expr), s.1)), o.activates),
            ),
        },
        Stmt::Assert(x, None) => match lower_guarded(env, x) {
            Err(err) => Err(err),
            Ok(o) => Ok(
                stmts_only(
                    o.pre.push(mk_stmt(PyStmtView::Assert(o.expr, None), s.1)),
                    o.activates,
                ),
            ),
        },
        Stmt::Assert(x, Some(m)) => match lower_guarded(env, x) {
            Err(err) => Err(err),
            Ok(o) => match lower_guarded(env, m) {
                Err(err) => Err(err),
                Ok(mo) => Ok(
                    stmts_only(
                        (o.pre + mo.pre).push(
                            mk_stmt(PyStmtView::Assert(o.expr, Some(mo.expr)), s.1),
                        ),
                        o.activates || mo.activates,
                    ),
                ),
            },
        },
        _ => wrong_node(s.1),
    }
}

/// Whether the statement is refused before anything of it is lowered: an
/// expression statement with modifiers, an assignment whose modifiers are
/// refused, a re-exporting import below the top level, or a statement that
/// lowering never meets.
pub open spec fn refused_at_once(s: SStmt, top_level: bool) -> bool {
    match s.0 {
        Stmt::Expr(_, mods) => mods@.len() > 0,
        Stmt::Assign(_, _, mods) => scope_modifier(mods@, top_level, s.1) is Err,
        Stmt::Import(imp) => imp.reexport && !top_level,
        Stmt::Error => true,
        Stmt::Module => true,
        _ => false,
    }
}

/// A statement.
pub open spec fn lower_stmt(env: Env, s: SStmt, top_level: bool) -> Lowered<StmtsOut>
    decreases s, 10int,
{
    match s.0 {
        Stmt::Expr(x, mods) => if mods@.len() > 0 {
            fail_with(
                TfErrKind::InvalidModifier,
                "Modifiers are not allowed on expression statements"@,
                s.1,
            )
        } else {
            lower_expr_stmt(env, x, s.1)
        },
        Stmt::Assert(_, _) | Stmt::Return(_) | Stmt::Raise(_) => lower_value_stmt(env, s),
        Stmt::Assign(_, _, _) => lower_assign(env, s, top_level),
        Stmt::For(_, _, _) => lower_for(env, s),
        Stmt::While(_, _) => lower_while(env, s),
        Stmt::Try(_, _, _) => lower_try(env, s),
        Stmt::Break => Ok(stmts_only(seq![mk_stmt(PyStmtView::Break, s.1)], false)),
        Stmt::Continue => Ok(stmts_only(seq![mk_stmt(PyStmtView::Continue, s.1)], false)),
        Stmt::Import(imp) => lower_import(imp, s.1, top_level),
        Stmt::Error => fail_with(
            TfErrKind::InternalError,
            "unexpected statement error (should have been caught in lexer)"@,
            s.1,
        ),
        Stmt::Module => fail_with(
            TfErrKind::InternalError,
            "Module statements are not allowed in the transform phase"@,
            s.1,
        ),
    }
}

// ---------------------------------------------------------------------------
// Blocks
// ---------------------------------------------------------------------------

/// What the statements of a block have become so far. Errors of sibling
/// statements accumulate; the block fails at its end if there were any.
pub struct BlockAcc {
    pub stmts: Seq<SPyStmtView>,
    pub errs: Seq<TfErrView>,
    /// Whether no statement has failed.
    pub ok: bool,
    pub activates: bool,
    pub exports: Seq<Seq<char>>,
    pub star_exports: Seq<Seq<char>>,
}

pub open spec fn empty_block() -> BlockAcc {
    BlockAcc {
        stmts: no_stmts(),
        errs: Seq::empty(),
        ok: true,
        activates: false,
        exports: no_names(),
        star_exports: no_names(),
    }
}

/// `acc` after one more statement, which lowered to `r`.
pub open spec fn take_stmt(acc: BlockAcc, r: Lowered<StmtsOut>) -> BlockAcc {
    match r {
        Ok(o) => BlockAcc {
            stmts: acc.stmts + o.stmts,
            errs: acc.errs,
            ok: acc.ok,
            activates: acc.activates || o.activates,
            exports: acc.exports + o.exports,
            star_exports: acc.star_exports + o.star_exports,
        },
        Err(e) => BlockAcc {
            stmts: acc.stmts,
            errs: acc.errs + e,
            ok: false,
            activates: acc.activates,
            exports: acc.exports,
            star_exports: acc.star_exports,
        },
    }
}

/// The statements of a block from the `i`-th up to, and without, the last.
pub open spec fn block_body_from(
    env: Env,
    stmts: Seq<SStmt>,
    top_level: bool,
    i: int,
    acc: BlockAcc,
) -> BlockAcc
    decreases stmts, stmts.len() - i,
{
    if i < 0 || i >= stmts.len() - 1 {
        acc
    } else {
        block_body_from(
            env,
            stmts,
            top_level,
            i + 1,
            take_stmt(acc, lower_stmt(env, stmts[i], top_level)),
        )
    }
}

/// Whether the last statement of a block gives the block its value: it is
/// asked for one, and the statement is an expression.
pub open spec fn ends_with_value(last: Stmt, treat_final_as_expr: bool) -> bool {
    treat_final_as_expr && last is Expr
}

/// The last statement of a block that is asked for a value, where it is an
/// expression: its value is the value of the block.
pub open spec fn lower_final_expr(env: Env, last: SStmt, acc: BlockAcc) -> (BlockAcc, FinalView)
    decreases last, 10int,
{
    match last.0 {
        Stmt::Expr(x, mods) => if mods@.len() > 0 {
            (
                take_stmt(
                    acc,
                    fail_with(
                        TfErrKind::InvalidModifier,
                        "Modifiers are not allowed on expression statements"@,
                        last.1,
                    ),
                ),
                FinalView::Nothing,
            )
        } else {
            match lower_guarded(env, x) {
                Err(e) => (take_stmt(acc, Err(e)), FinalView::Nothing),
                Ok(o) => (take_stmt(acc, Ok(stmts_only(o.pre, o.activates))), FinalView::Expr(o.expr)),
            }
        },
        _ => (acc, FinalView::Nothing),
    }
}

/// A list of statements as a block.
pub open spec fn lower_stmt_list(
    env: Env,
    stmts: Seq<SStmt>,
    treat_final_as_expr: bool,
    top_level: bool,
) -> Lowered<BlockOut>
    decreases stmts, stmts.len() + 1,
{
    if stmts.len() == 0 {
        Ok(
            BlockOut {
                stmts: no_stmts(),
                final_: FinalView::Nothing,
                activates: false,
                exports: no_names(),
                star_exports: no_names(),
            },
        )
    } else {
        let last = stmts[stmts.len() - 1];
        let body = block_body_from(env, stmts, top_level, 0, empty_block());
        let (all, final_) = if ends_with_value(last.0, treat_final_as_expr) {
            lower_final_expr(env, last, body)
        } else {
            (
                take_stmt(body, lower_stmt(env, last, top_level)),
                if never_falls(last.0) {
                    FinalView::Never
                } else {
                    FinalView::Nothing
                },
            )
        };
        if all.ok {
            Ok(
                BlockOut {
                    stmts: all.stmts,
                    final_,
                    activates: all.activates,
                    exports: all.exports,
                    star_exports: all.star_exports,
                },
            )
        } else {
            Err(all.errs)
        }
    }
}

/// A block. Where `treat_final_as_expr` is set the block is asked for a
/// value: a final expression is that value. A final `return`, `raise`,
/// `break` or `continue` never falls through.
pub open spec fn lower_block(
    env: Env,
    b: SBlock,
    treat_final_as_expr: bool,
    top_level: bool,
) -> Lowered<BlockOut>
    decreases b, 1int,
{
    match b.0 {
        Block::Stmts(stmts) => lower_stmt_list(env, stmts@, treat_final_as_expr, top_level),
        Block::Expr(x) => if treat_final_as_expr {
            match lower_expr(env, x, PyAccessCtx::Load) {
                Err(err) => Err(err),
                Ok(t) => Ok(
                    BlockOut {
                        stmts: t.pre,
                        final_: FinalView::Expr(t.expr),
                        activates: t.activates,
                        exports: no_names(),
                        star_exports: no_names(),
                    },
                ),
            }
        } else {
            match lower_expr_stmt(env, x, x.1) {
                Err(err) => Err(err),
                Ok(s) => Ok(
                    BlockOut {
                        stmts: s.stmts,
                        final_: FinalView::Nothing,
                        activates: s.activates,
                        exports: s.exports,
                        star_exports: s.star_exports,
                    },
                ),
            }
        },
    }
}

// ---------------------------------------------------------------------------
// Modules
// ---------------------------------------------------------------------------

/// What lowering a whole source text gives.
pub struct ModuleOut {
    pub py_block: Seq<SPyStmtView>,
    pub exports: Seq<Seq<char>>,
    pub module_star_exports: Seq<Seq<char>>,
}

/// The top-level block of the source text `src`. A final value is kept as an
/// expression statement.
pub open spec fn lower_module(src: Seq<u8>, block: SBlock, treat_final_as_expr: bool) -> Lowered<
    ModuleOut,
> {
    match lower_block(Env { src, top: None }, block, treat_final_as_expr, true) {
        Err(err) => Err(err),
        Ok(o) => Ok(
            ModuleOut {
                py_block: match o.final_ {
                    FinalView::Expr(x) => o.stmts.push(mk_stmt(PyStmtView::Expr(x), x.tl_span)),
                    _ => o.stmts,
                },
                exports: o.exports,
                module_star_exports: o.star_exports,
            },
        ),
    }
}

} // verus!
