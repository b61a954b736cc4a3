//! Lowering of postfix forms: calls, subscripts, attributes and `.()`,
//! plain and mapped.

use vstd::prelude::*;
use crate::ast::{CallItem, Expr, ListItem, SCallItem, SExpr, Span};
use crate::py::ast::{
    call_items_view, list_items_view, PyAccessCtx, PyBlock, PyCallItem, PyCallItemView, PyExpr,
    PyListItem, PyListItemView, SPyExpr,
};
use crate::py::util::{
    mk_load, new_call_items, new_list_items, push_call_item, push_list_item, PyAstBuilder,
};
use crate::transform::context::{kept, same_exports, stepped, TfCtx};
use crate::transform::errors::{fail, TfErrKind, wrong_node};
use crate::transform::expr::{
    placeholder_guard, transform_lifted, transform_with_access,
    transform_with_deep_placeholder_guard, transform_with_placeholder_guard,
};
use crate::transform::model::{add_item, ItemsOut, mapped, no_items};
use crate::transform::outcome::{call_items_result, expr_result, PyExprWithPre, TfResult};
use crate::transform::rules::{
    call_items_from, is_mapped_postfix, is_plain_postfix, list_items_from, lower_deep_guarded,
    lower_postfix, lower_subscript_items, postfix_step,
};

verus! {

/// The arguments of a call, in their order. Positional arguments and
/// positional spreads may not follow a keyword argument or keyword spread.
#[verifier::loop_isolation(false)]
pub fn transform_call_items(ctx: &mut TfCtx, items: &Vec<SCallItem>, span: &Span) -> (r: TfResult<
    (PyBlock, Vec<PyCallItem>),
>)
    requires
        old(ctx).wf(),
    ensures
        call_items_result(
            *old(ctx),
            *final(ctx),
            call_items_from(old(ctx).env(), items@, *span, 0, false, no_items()),
            r,
        ),
    decreases items, 0int,
{
    let ghost env = ctx.env();
    let ghost start = *ctx;
    let ghost mut acc: ItemsOut<PyCallItemView> = no_items();
    let mut started_kwargs = false;
    let mut call_items = new_call_items();
    let mut aux = PyBlock::new();
    let mut i: usize = 0;
    while i < items.len()
        invariant
            i <= items.len(),
            ctx.wf(),
            ctx.env() == env,
            same_exports(start, *ctx),
            stepped(start, *ctx, acc.activates),
            aux@ =~= acc.pre,
            call_items_view(call_items@) =~= acc.items,
            call_items_from(env, items@, *span, 0, false, no_items()) == call_items_from(
                env,
                items@,
                *span,
                i as int,
                started_kwargs,
                acc,
            ),
        decreases items.len() - i,
    {
        let item = &items[i];
        match &item.0 {
            CallItem::Arg(x) => {
                if started_kwargs {
                    return fail(TfErrKind::InvalidArgument, "Cannot have args after kwargs", *span);
                }
                match transform_with_deep_placeholder_guard(ctx, x) {
                    Err(err) => {
                        return Err(err);
                    },
                    Ok(o) => {
                        proof {
                            let m = lower_deep_guarded(env, *x)->Ok_0;
                            acc = add_item(acc, m, PyCallItemView::Arg(m.expr));
                        }
                        aux.extend(o.pre_stmts);
                        push_call_item(&mut call_items, PyCallItem::Arg(o.expr));
                    },
                }
            },
            CallItem::Kwarg(name, x) => {
                match transform_with_deep_placeholder_guard(ctx, x) {
                    Err(err) => {
                        return Err(err);
                    },
                    Ok(o) => {
                        proof {
                            let m = lower_deep_guarded(env, *x)->Ok_0;
                            acc = add_item(acc, m, PyCallItemView::Kwarg(name.0@, m.expr));
                        }
                        started_kwargs = true;
                        aux.extend(o.pre_stmts);
                        push_call_item(&mut call_items, PyCallItem::Kwarg(name.0.clone(), o.expr));
                    },
                }
            },
            CallItem::ArgSpread(x) => {
                if started_kwargs {
                    return fail(
                        TfErrKind::InvalidArgument,
                        "Cannot have arg spread after kwargs",
                        *span,
                    );
                }
                match transform_with_deep_placeholder_guard(ctx, x) {
                    Err(err) => {
                        return Err(err);
                    },
                    Ok(o) => {
                        proof {
                            let m = lower_deep_guarded(env, *x)->Ok_0;
                            acc = add_item(acc, m, PyCallItemView::ArgSpread(m.expr));
                        }
                        aux.extend(o.pre_stmts);
                        push_call_item(&mut call_items, PyCallItem::ArgSpread(o.expr));
                    },
                }
            },
            CallItem::KwargSpread(x) => {
                match transform_with_deep_placeholder_guard(ctx, x) {
                    Err(err) => {
                        return Err(err);
                    },
                    Ok(o) => {
                        proof {
                            let m = lower_deep_guarded(env, *x)->Ok_0;
                            acc = add_item(acc, m, PyCallItemView::KwargSpread(m.expr));
                        }
                        started_kwargs = true;
                        aux.extend(o.pre_stmts);
                        push_call_item(&mut call_items, PyCallItem::KwargSpread(o.expr));
                    },
                }
            },
        }
        i += 1;
    }
    Ok((aux, call_items))
}

/// The elements of a list, tuple or subscript, in their order.
#[verifier::loop_isolation(false)]
pub fn transform_list_items(ctx: &mut TfCtx, items: &Vec<ListItem>) -> (r: TfResult<
    (PyBlock, Vec<PyListItem>),
>)
    requires
        old(ctx).wf(),
    ensures
        same_exports(*old(ctx), *final(ctx)),
        match list_items_from(old(ctx).env(), items@, 0, no_items()) {
            Ok(o) => {
                &&& r is Ok
                &&& r->Ok_0.0@ =~= o.pre
                &&& list_items_view(r->Ok_0.1@) =~= o.items
                &&& stepped(*old(ctx), *final(ctx), o.activates)
            },
            Err(e) => r is Err && r->Err_0@ == e && kept(*old(ctx), *final(ctx)),
        },
    decreases items, 0int,
{
    let ghost env = ctx.env();
    let ghost start = *ctx;
    let ghost mut acc: ItemsOut<PyListItemView> = no_items();
    let mut list_items = new_list_items();
    let mut aux = PyBlock::new();
    let mut i: usize = 0;
    while i < items.len()
        invariant
            i <= items.len(),
            ctx.wf(),
            ctx.env() == env,
            same_exports(start, *ctx),
            stepped(start, *ctx, acc.activates),
            aux@ =~= acc.pre,
            list_items_view(list_items@) =~= acc.items,
            list_items_from(env, items@, 0, no_items()) == list_items_from(
                env,
                items@,
                i as int,
                acc,
            ),
        decreases items.len() - i,
    {
        match &items[i] {
            ListItem::Item(x) => {
                match transform_with_deep_placeholder_guard(ctx, x) {
                    Err(err) => {
                        return Err(err);
                    },
                    Ok(o) => {
                        proof {
                            let m = lower_deep_guarded(env, *x)->Ok_0;
                            acc = add_item(acc, m, PyListItemView::Item(m.expr));
                        }
                        aux.extend(o.pre_stmts);
                        push_list_item(&mut list_items, PyListItem::Item(o.expr));
                    },
                }
            },
            ListItem::Spread(x) => {
                match transform_with_deep_placeholder_guard(ctx, x) {
                    Err(err) => {
                        return Err(err);
                    },
                    Ok(o) => {
                        proof {
                            let m = lower_deep_guarded(env, *x)->Ok_0;
                            acc = add_item(acc, m, PyListItemView::Spread(m.expr));
                        }
                        aux.extend(o.pre_stmts);
                        push_list_item(&mut list_items, PyListItem::Spread(o.expr));
                    },
                }
            },
        }
        i += 1;
    }
    Ok((aux, list_items))
}

/// The index of a subscript: a single plain item stands for itself, anything
/// else becomes a tuple.
pub fn transform_subscript_items(ctx: &mut TfCtx, indices: &Vec<ListItem>, span: &Span) -> (r:
    TfResult<PyExprWithPre>)
    requires
        old(ctx).wf(),
    ensures
        expr_result(
            *old(ctx),
            *final(ctx),
            lower_subscript_items(old(ctx).env(), indices@, *span),
            r,
        ),
    decreases indices, 1int,
{
    if indices.len() == 1 {
        match &indices[0] {
            ListItem::Item(x) => {
                return transform_with_deep_placeholder_guard(ctx, x);
            },
            ListItem::Spread(_) => {},
        }
    }
    match transform_list_items(ctx, indices) {
        Err(err) => Err(err),
        Ok(t) => Ok(PyExprWithPre { pre_stmts: t.0, expr: SPyExpr::new(PyExpr::Tuple(t.1), *span) }),
    }
}

/// `name if __coalesces(name) else step`, where `name` is read at `span`.
fn guard_if_expr(a: &PyAstBuilder, name: &str, span: Span, step: SPyExpr) -> (r: SPyExpr)
    ensures
        r@ == mapped(mk_load(name@, span), step@, a.span),
{
    let b = PyAstBuilder::new(span);
    let test = a.call1(a.load_ident("__coalesces"), b.load_ident(name));
    a.if_expr(test, b.load_ident(name), step)
}

/// The step of a plain postfix form on the lowered receiver `lhs`.
pub(crate) fn transform_plain_step(
    ctx: &mut TfCtx,
    e: &SExpr,
    access: PyAccessCtx,
    lhs_pre: PyBlock,
    lhs: SPyExpr,
) -> (r: TfResult<PyExprWithPre>)
    requires
        old(ctx).wf(),
        e.0 is Call || e.0 is Subscript || e.0 is Attribute || e.0 is Then,
    ensures
        expr_result(
            *old(ctx),
            *final(ctx),
            postfix_step(old(ctx).env(), *e, access, lhs_pre@, lhs@),
            r,
        ),
    decreases e, 3int,
{
    let a = PyAstBuilder::new(e.1);
    let mut aux = lhs_pre;
    match &e.0 {
        Expr::Call(_, list) => match transform_call_items(ctx, list, &e.1) {
            Err(err) => Err(err),
            Ok(t) => {
                aux.extend(t.0);
                Ok(PyExprWithPre { pre_stmts: aux, expr: a.call(lhs, t.1) })
            },
        },
        Expr::Subscript(_, list) => match transform_subscript_items(ctx, list, &e.1) {
            Err(err) => Err(err),
            Ok(t) => {
                aux.extend(t.pre_stmts);
                Ok(PyExprWithPre { pre_stmts: aux, expr: a.subscript(lhs, t.expr, access) })
            },
        },
        Expr::Attribute(_, attr) => Ok(
            PyExprWithPre { pre_stmts: aux, expr: a.attribute(lhs, attr.0.as_str(), access) },
        ),
        Expr::Then(_, rhs) => match transform_with_placeholder_guard(ctx, rhs) {
            Err(err) => Err(err),
            Ok(t) => {
                aux.extend(t.pre_stmts);
                Ok(PyExprWithPre { pre_stmts: aux, expr: a.call1(t.expr, lhs) })
            },
        },
        _ => wrong_node(e.1),
    }
}

/// The step of a mapped postfix form on the receiver that `name` holds.
pub(crate) fn transform_mapped_step(
    ctx: &mut TfCtx,
    e: &SExpr,
    access: PyAccessCtx,
    lhs_pre: PyBlock,
    name: &str,
    name_span: Span,
) -> (r: TfResult<PyExprWithPre>)
    requires
        old(ctx).wf(),
        e.0 is MappedCall || e.0 is MappedSubscript || e.0 is MappedAttribute || e.0 is MappedThen,
    ensures
        expr_result(
            *old(ctx),
            *final(ctx),
            postfix_step(old(ctx).env(), *e, access, lhs_pre@, mk_load(name@, name_span)),
            r,
        ),
    decreases e, 3int,
{
    let a = PyAstBuilder::new(e.1);
    let b = PyAstBuilder::new(name_span);
    let mut aux = lhs_pre;
    match &e.0 {
        Expr::MappedCall(_, list) => match transform_call_items(ctx, list, &e.1) {
            Err(err) => Err(err),
            Ok(t) => {
                aux.extend(t.0);
                let step = a.call(b.load_ident(name), t.1);
                Ok(PyExprWithPre { pre_stmts: aux, expr: guard_if_expr(&a, name, name_span, step) })
            },
        },
        Expr::MappedSubscript(_, list) => match transform_subscript_items(ctx, list, &e.1) {
            Err(err) => Err(err),
            Ok(t) => {
                aux.extend(t.pre_stmts);
                let step = a.subscript(b.load_ident(name), t.expr, access);
                Ok(PyExprWithPre { pre_stmts: aux, expr: guard_if_expr(&a, name, name_span, step) })
            },
        },
        Expr::MappedAttribute(_, attr) => {
            let step = a.attribute(b.load_ident(name), attr.0.as_str(), access);
            Ok(PyExprWithPre { pre_stmts: aux, expr: guard_if_expr(&a, name, name_span, step) })
        },
        Expr::MappedThen(_, rhs) => match transform_with_placeholder_guard(ctx, rhs) {
            Err(err) => Err(err),
            Ok(t) => {
                aux.extend(t.pre_stmts);
                let step = a.call1(t.expr, b.load_ident(name));
                Ok(PyExprWithPre { pre_stmts: aux, expr: guard_if_expr(&a, name, name_span, step) })
            },
        },
        _ => wrong_node(e.1),
    }
}

/// A call, subscript, attribute or `.()` step, plain or mapped. The receiver
/// is lowered outside the region that guards the step; a mapped step lifts it.
pub fn transform_postfix_expr(ctx: &mut TfCtx, e: &SExpr, access: PyAccessCtx) -> (r: TfResult<
    PyExprWithPre,
>)
    requires
        old(ctx).wf(),
    ensures
        expr_result(*old(ctx), *final(ctx), lower_postfix(old(ctx).env(), *e, access), r),
        !is_plain_postfix(e.0) && !is_mapped_postfix(e.0) ==> *final(ctx) == *old(ctx),
        is_mapped_postfix(e.0) && access != PyAccessCtx::Load ==> *final(ctx) == *old(ctx),
        access != PyAccessCtx::Load && !(e.0 is Attribute || e.0 is Subscript) ==> *final(ctx)
            == *old(ctx),
    decreases e, 5int,
{
    match &e.0 {
        Expr::Attribute(obj, _) => transform_plain_postfix(ctx, e, obj, access),
        Expr::Subscript(obj, _) => transform_plain_postfix(ctx, e, obj, access),
        Expr::Call(obj, _) => transform_plain_postfix(ctx, e, obj, access),
        Expr::Then(obj, _) => transform_plain_postfix(ctx, e, obj, access),
        Expr::MappedAttribute(obj, _) => transform_mapped_postfix(ctx, e, obj, access),
        Expr::MappedSubscript(obj, _) => transform_mapped_postfix(ctx, e, obj, access),
        Expr::MappedCall(obj, _) => transform_mapped_postfix(ctx, e, obj, access),
        Expr::MappedThen(obj, _) => transform_mapped_postfix(ctx, e, obj, access),
        _ => fail(
            TfErrKind::InvalidPostfix,
            "Internal error: Postfix expressions can only be attributes, subscripts, calls, or mapped expressions",
            e.1,
        ),
    }
}

/// The receiver of a postfix form.
pub open spec fn receiver_of(e: Expr) -> SExpr {
    match e {
        Expr::Attribute(obj, _) => *obj,
        Expr::Subscript(obj, _) => *obj,
        Expr::Call(obj, _) => *obj,
        Expr::Then(obj, _) => *obj,
        Expr::MappedAttribute(obj, _) => *obj,
        Expr::MappedSubscript(obj, _) => *obj,
        Expr::MappedCall(obj, _) => *obj,
        Expr::MappedThen(obj, _) => *obj,
        _ => arbitrary(),
    }
}

/// A plain postfix form `e` with the receiver `obj`.
pub(crate) fn transform_plain_postfix(ctx: &mut TfCtx, e: &SExpr, obj: &SExpr, access: PyAccessCtx) -> (r:
    TfResult<PyExprWithPre>)
    requires
        old(ctx).wf(),
        e.0 is Call || e.0 is Subscript || e.0 is Attribute || e.0 is Then,
        *obj == receiver_of(e.0),
    ensures
        expr_result(*old(ctx), *final(ctx), lower_postfix(old(ctx).env(), *e, access), r),
        access != PyAccessCtx::Load && !(e.0 is Attribute || e.0 is Subscript) ==> *final(ctx)
            == *old(ctx),
    decreases e, 4int,
{
    let storable = match &e.0 {
        Expr::Attribute(_, _) => true,
        Expr::Subscript(_, _) => true,
        _ => false,
    };
    if access != PyAccessCtx::Load && !storable {
        return fail(
            TfErrKind::InvalidPostfix,
            "Internal error: Only attributes and subscripts can be stored to",
            e.1,
        );
    }
    match transform_with_access(ctx, obj, PyAccessCtx::Load) {
        Err(err) => Err(err),
        Ok(lhs) => {
            ctx.push_guard(e.1);
            let inner = transform_plain_step(ctx, e, access, lhs.pre_stmts, lhs.expr);
            if access != PyAccessCtx::Load {
                let region = ctx.pop_guard();
                match inner {
                    Err(err) => Err(err),
                    Ok(step) => if region.activated {
                        fail(
                            TfErrKind::InvalidAssignTarget,
                            "Assignment target cannot be a function of the placeholder",
                            e.1,
                        )
                    } else {
                        Ok(step)
                    },
                }
            } else {
                placeholder_guard(ctx, &e.1, inner)
            }
        },
    }
}

/// A mapped postfix form `e` with the receiver `obj`.
pub(crate) fn transform_mapped_postfix(ctx: &mut TfCtx, e: &SExpr, obj: &SExpr, access: PyAccessCtx) -> (r:
    TfResult<PyExprWithPre>)
    requires
        old(ctx).wf(),
        e.0 is MappedCall || e.0 is MappedSubscript || e.0 is MappedAttribute || e.0 is MappedThen,
        *obj == receiver_of(e.0),
    ensures
        expr_result(*old(ctx), *final(ctx), lower_postfix(old(ctx).env(), *e, access), r),
        access != PyAccessCtx::Load ==> *final(ctx) == *old(ctx),
    decreases e, 4int,
{
    if access != PyAccessCtx::Load {
        return fail(
            TfErrKind::InvalidPostfix,
            "Internal error: Cannot use null-coalescing in a non-Load context",
            e.1,
        );
    }
    match transform_lifted(ctx, obj) {
        Err(err) => Err(err),
        Ok(lhs) => {
            ctx.push_guard(e.1);
            let inner = transform_mapped_step(
                ctx,
                e,
                access,
                lhs.pre_stmts,
                lhs.name.as_str(),
                lhs.span,
            );
            placeholder_guard(ctx, &e.1, inner)
        },
    }
}

} // verus!
