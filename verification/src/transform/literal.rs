//! Lowering of literals of several parts (lists, tuples, mappings, slices,
//! formatted strings) and of checked expressions.

use vstd::prelude::*;
use crate::ast::{ExceptTypes, Expr, MappingItem, SExpr, Span};
use crate::py::ast::{
    call_items_view, dict_items_view, fstr_parts_view, list_items_view, PyAccessCtx, PyBlock,
    PyCallItem, PyCallItemView, PyDictItem, PyDictItemView, PyExpr, PyFstrPart, PyFstrPartView,
    PyListItem, PyListItemView, SPyExpr,
};
use crate::py::util::{
    new_call_items, new_dict_items, new_fstr_parts, new_handlers, new_list_items,
    push_call_item, push_dict_item, push_fstr_part, push_handler, push_list_item, PyAstBuilder,
};
use crate::transform::block::transform_block;
use crate::transform::context::{kept, same_exports, stepped, TfCtx};
use crate::transform::errors::{fail, TfErrKind, wrong_node};
use crate::transform::expr::{
    placeholder_guard, transform_with_access, transform_with_deep_placeholder_guard,
};
use crate::transform::model::{add_item, ExprOut, ItemsOut, no_items, no_stmts};
use crate::transform::outcome::{BlockFinal, expr_result, PyExprWithPre, TfResult};
use crate::transform::postfix::transform_list_items;
use crate::transform::rules::{
    add_bound, except_types_from, fstr_inside, fstr_parts_from, lower_block, lower_bound,
    lower_checked, lower_deep_guarded, lower_except_type, lower_except_types, lower_fstr,
    lower_list, lower_mapping, lower_slice, mapping_items_from, slice_inside,
};

verus! {

/// A list or tuple literal, in a guarded region of its own.
pub fn transform_list(ctx: &mut TfCtx, e: &SExpr) -> (r: TfResult<PyExprWithPre>)
    requires
        old(ctx).wf(),
    ensures
        expr_result(*old(ctx), *final(ctx), lower_list(old(ctx).env(), *e), r),
    decreases e, 5int,
{
    ctx.push_guard(e.1);
    let inner = match &e.0 {
        Expr::List(items) => match transform_list_items(ctx, items) {
            Err(err) => Err(err),
            Ok(t) => Ok(
                PyExprWithPre { pre_stmts: t.0, expr: SPyExpr::new(PyExpr::List(t.1), e.1) },
            ),
        },
        Expr::Tuple(items) => match transform_list_items(ctx, items) {
            Err(err) => Err(err),
            Ok(t) => Ok(
                PyExprWithPre { pre_stmts: t.0, expr: SPyExpr::new(PyExpr::Tuple(t.1), e.1) },
            ),
        },
        _ => wrong_node(e.1),
    };
    placeholder_guard(ctx, &e.1, inner)
}

/// The items of a mapping literal, in their order.
#[verifier::loop_isolation(false)]
pub fn transform_mapping_items(ctx: &mut TfCtx, items: &Vec<MappingItem>) -> (r: TfResult<
    (PyBlock, Vec<PyDictItem>),
>)
    requires
        old(ctx).wf(),
    ensures
        same_exports(*old(ctx), *final(ctx)),
        match mapping_items_from(old(ctx).env(), items@, 0, no_items()) {
            Ok(o) => {
                &&& r is Ok
                &&& r->Ok_0.0@ =~= o.pre
                &&& dict_items_view(r->Ok_0.1@) =~= o.items
                &&& stepped(*old(ctx), *final(ctx), o.activates)
            },
            Err(e) => r is Err && r->Err_0@ == e && kept(*old(ctx), *final(ctx)),
        },
    decreases items, 0int,
{
    let ghost env = ctx.env();
    let ghost start = *ctx;
    let ghost mut acc: ItemsOut<PyDictItemView> = no_items();
    let mut dict_items = new_dict_items();
    let mut aux = PyBlock::new();
    let mut i: usize = 0;
    while i < items.len()
        invariant
            i <= items.len(),
            ctx.wf(),
            ctx.env() == env,
            same_exports(start, *ctx),
            stepped(start, *ctx, acc.activates),
            aux@ =~= acc.pre,
            dict_items_view(dict_items@) =~= acc.items,
            mapping_items_from(env, items@, 0, no_items()) == mapping_items_from(
                env,
                items@,
                i as int,
                acc,
            ),
        decreases items.len() - i,
    {
        match &items[i] {
            MappingItem::Item(k, v) => {
                match transform_with_deep_placeholder_guard(ctx, k) {
                    Err(err) => {
                        return Err(err);
                    },
                    Ok(key) => match transform_with_deep_placeholder_guard(ctx, v) {
                        Err(err) => {
                            return Err(err);
                        },
                        Ok(value) => {
                            proof {
                                let km = lower_deep_guarded(env, *k)->Ok_0;
                                let vm = lower_deep_guarded(env, *v)->Ok_0;
                                acc = ItemsOut {
                                    pre: acc.pre + km.pre + vm.pre,
                                    items: acc.items.push(PyDictItemView::Item(km.expr, vm.expr)),
                                    activates: acc.activates || km.activates || vm.activates,
                                };
                            }
                            aux.extend(key.pre_stmts);
                            aux.extend(value.pre_stmts);
                            push_dict_item(&mut dict_items, PyDictItem::Item(key.expr, value.expr));
                        },
                    },
                }
            },
            MappingItem::Spread(x) => {
                match transform_with_deep_placeholder_guard(ctx, x) {
                    Err(err) => {
                        return Err(err);
                    },
                    Ok(o) => {
                        proof {
                            let m = lower_deep_guarded(env, *x)->Ok_0;
                            acc = add_item(acc, m, PyDictItemView::Spread(m.expr));
                        }
                        aux.extend(o.pre_stmts);
                        push_dict_item(&mut dict_items, PyDictItem::Spread(o.expr));
                    },
                }
            },
        }
        i += 1;
    }
    Ok((aux, dict_items))
}

/// A mapping literal, in a guarded region of its own.
pub fn transform_mapping(ctx: &mut TfCtx, e: &SExpr) -> (r: TfResult<PyExprWithPre>)
    requires
        old(ctx).wf(),
    ensures
        expr_result(*old(ctx), *final(ctx), lower_mapping(old(ctx).env(), *e), r),
    decreases e, 5int,
{
    ctx.push_guard(e.1);
    let inner = match &e.0 {
        Expr::Mapping(items) => match transform_mapping_items(ctx, items) {
            Err(err) => Err(err),
            Ok(t) => Ok(
                PyExprWithPre { pre_stmts: t.0, expr: SPyExpr::new(PyExpr::Dict(t.1), e.1) },
            ),
        },
        _ => wrong_node(e.1),
    };
    placeholder_guard(ctx, &e.1, inner)
}

/// A bound of a slice, where there is one.
pub fn transform_bound(ctx: &mut TfCtx, bound: &Option<Box<SExpr>>) -> (r: TfResult<
    Option<PyExprWithPre>,
>)
    requires
        old(ctx).wf(),
    ensures
        same_exports(*old(ctx), *final(ctx)),
        match lower_bound(old(ctx).env(), *bound) {
            Ok(None) => r is Ok && r->Ok_0 is None && stepped(*old(ctx), *final(ctx), false),
            Ok(Some(o)) => {
                &&& r is Ok
                &&& r->Ok_0 is Some
                &&& r->Ok_0->Some_0.pre_stmts@ =~= o.pre
                &&& r->Ok_0->Some_0.expr@ == o.expr
                &&& stepped(*old(ctx), *final(ctx), o.activates)
            },
            Err(e) => r is Err && r->Err_0@ == e && kept(*old(ctx), *final(ctx)),
        },
    decreases bound, 13int,
{
    match bound {
        None => Ok(None),
        Some(x) => match transform_with_deep_placeholder_guard(ctx, x) {
            Err(err) => Err(err),
            Ok(o) => Ok(Some(o)),
        },
    }
}

/// Adds a bound of a slice to the arguments of the call of `slice`.
fn push_bound(
    aux: &mut PyBlock,
    items: &mut Vec<PyCallItem>,
    bound: Option<PyExprWithPre>,
    span: Span,
    Ghost(acc): Ghost<ItemsOut<PyCallItemView>>,
    Ghost(model): Ghost<Option<ExprOut>>,
)
    requires
        old(aux)@ == acc.pre,
        call_items_view(old(items)@) == acc.items,
        match model {
            Some(m) => bound is Some && bound->Some_0.pre_stmts@ == m.pre && bound->Some_0.expr@
                == m.expr,
            None => bound is None,
        },
    ensures
        final(aux)@ == add_bound(acc, model, span).pre,
        call_items_view(final(items)@) == add_bound(acc, model, span).items,
{
    match bound {
        Some(x) => {
            aux.extend(x.pre_stmts);
            push_call_item(items, PyCallItem::Arg(x.expr));
        },
        None => {
            push_call_item(items, PyCallItem::Arg(PyAstBuilder::new(span).none()));
        },
    }
}

/// A slice `a..b..c`, a call of `slice` in a guarded region of its own.
pub fn transform_slice(ctx: &mut TfCtx, e: &SExpr) -> (r: TfResult<PyExprWithPre>)
    requires
        old(ctx).wf(),
    ensures
        expr_result(*old(ctx), *final(ctx), lower_slice(old(ctx).env(), *e), r),
    decreases e, 5int,
{
    ctx.push_guard(e.1);
    let inner = transform_slice_bounds(ctx, e);
    placeholder_guard(ctx, &e.1, inner)
}

/// The three bounds of a slice, inside the region that guards it.
fn transform_slice_bounds(ctx: &mut TfCtx, e: &SExpr) -> (r: TfResult<PyExprWithPre>)
    requires
        old(ctx).wf(),
    ensures
        expr_result(*old(ctx), *final(ctx), slice_inside(old(ctx).env(), *e), r),
    decreases e, 4int,
{
    let ghost env = ctx.env();
    match &e.0 {
        Expr::Slice(a, b, c) => {
            let start = match transform_bound(ctx, a) {
                Err(err) => {
                    return Err(err);
                },
                Ok(o) => o,
            };
            let end = match transform_bound(ctx, b) {
                Err(err) => {
                    return Err(err);
                },
                Ok(o) => o,
            };
            let step = match transform_bound(ctx, c) {
                Err(err) => {
                    return Err(err);
                },
                Ok(o) => o,
            };
            let ghost am = lower_bound(env, *a)->Ok_0;
            let ghost bm = lower_bound(env, *b)->Ok_0;
            let ghost cm = lower_bound(env, *c)->Ok_0;
            let ghost acc0: ItemsOut<PyCallItemView> = no_items();
            let ghost acc1 = add_bound(acc0, am, e.1);
            let ghost acc2 = add_bound(acc1, bm, e.1);
            let mut aux = PyBlock::new();
            let mut items = new_call_items();
            push_bound(&mut aux, &mut items, start, e.1, Ghost(acc0), Ghost(am));
            push_bound(&mut aux, &mut items, end, e.1, Ghost(acc1), Ghost(bm));
            push_bound(&mut aux, &mut items, step, e.1, Ghost(acc2), Ghost(cm));
            let a = PyAstBuilder::new(e.1);
            Ok(PyExprWithPre { pre_stmts: aux, expr: a.call(a.load_ident("slice"), items) })
        },
        _ => wrong_node(e.1),
    }
}

/// The parts of a formatted string, inside the region that guards it.
#[verifier::loop_isolation(false)]
fn transform_fstr_parts(ctx: &mut TfCtx, e: &SExpr) -> (r: TfResult<PyExprWithPre>)
    requires
        old(ctx).wf(),
    ensures
        expr_result(*old(ctx), *final(ctx), fstr_inside(old(ctx).env(), *e), r),
    decreases e, 4int,
{
    let ghost env = ctx.env();
    let ghost start = *ctx;
    match &e.0 {
        Expr::Fstr(begin, parts) => {
            let mut aux = PyBlock::new();
            let mut nodes = new_fstr_parts();
            push_fstr_part(&mut nodes, PyFstrPart::Str(begin.0.clone()));
            let ghost init = ItemsOut {
                pre: no_stmts(),
                items: seq![PyFstrPartView::Str(begin.0@)],
                activates: false,
            };
            let ghost mut acc = init;
            let mut i: usize = 0;
            while i < parts.len()
                invariant
                    i <= parts.len(),
                    ctx.wf(),
                    ctx.env() == env,
                    same_exports(start, *ctx),
                    stepped(start, *ctx, acc.activates),
                    aux@ =~= acc.pre,
                    fstr_parts_view(nodes@) =~= acc.items,
                    fstr_parts_from(env, parts@, 0, init) == fstr_parts_from(
                        env,
                        parts@,
                        i as int,
                        acc,
                    ),
                decreases parts.len() - i,
            {
                let part = &parts[i];
                match transform_block(ctx, &part.0.0.block, true, false) {
                    Err(err) => {
                        return Err(err);
                    },
                    Ok(b) => match b.final_ {
                        BlockFinal::Expr(x) => {
                            proof {
                                let m = lower_block(env, part.0.0.block, true, false)->Ok_0;
                                acc = ItemsOut {
                                    pre: acc.pre + m.stmts,
                                    items: acc.items.push(
                                        PyFstrPartView::Expr(m.final_->Expr_0, Seq::empty()),
                                    ).push(PyFstrPartView::Str(part.1.0@)),
                                    activates: acc.activates || m.activates,
                                };
                            }
                            aux.extend(b.stmts);
                            push_fstr_part(&mut nodes, PyFstrPart::Expr(x, String::new()));
                            push_fstr_part(&mut nodes, PyFstrPart::Str(part.1.0.clone()));
                        },
                        _ => {
                            return fail(
                                TfErrKind::MissingFinalExpr,
                                "f-string expression must have a final expression",
                                part.0.1,
                            );
                        },
                    },
                }
                i += 1;
            }
            Ok(PyExprWithPre { pre_stmts: aux, expr: SPyExpr::new(PyExpr::Fstr(nodes), e.1) })
        },
        _ => wrong_node(e.1),
    }
}

/// A formatted string, in a guarded region of its own.
pub fn transform_fstr(ctx: &mut TfCtx, e: &SExpr) -> (r: TfResult<PyExprWithPre>)
    requires
        old(ctx).wf(),
    ensures
        expr_result(*old(ctx), *final(ctx), lower_fstr(old(ctx).env(), *e), r),
    decreases e, 5int,
{
    ctx.push_guard(e.1);
    let inner = transform_fstr_parts(ctx, e);
    placeholder_guard(ctx, &e.1, inner)
}

/// One type of an except clause, which may need no statements of its own.
pub fn transform_except_type(ctx: &mut TfCtx, x: &SExpr) -> (r: TfResult<PyExprWithPre>)
    requires
        old(ctx).wf(),
    ensures
        expr_result(*old(ctx), *final(ctx), lower_except_type(old(ctx).env(), *x), r),
    decreases x, 13int,
{
    match transform_with_access(ctx, x, PyAccessCtx::Load) {
        Err(err) => Err(err),
        Ok(o) => if !o.pre_stmts.is_empty() {
            fail(
                TfErrKind::InternalError,
                "Internal error: Type in except clause cannot have pre-statements",
                o.expr.tl_span,
            )
        } else {
            Ok(o)
        },
    }
}

/// The types of an except clause: one expression, or a tuple of several.
#[verifier::loop_isolation(false)]
pub fn transform_except_types(ctx: &mut TfCtx, t: &ExceptTypes, span: &Span) -> (r: TfResult<
    PyExprWithPre,
>)
    requires
        old(ctx).wf(),
    ensures
        expr_result(*old(ctx), *final(ctx), lower_except_types(old(ctx).env(), *t, *span), r),
    decreases t, 1int,
{
    let ghost env = ctx.env();
    let ghost start = *ctx;
    match t {
        ExceptTypes::Single(x) => transform_except_type(ctx, x),
        ExceptTypes::Multiple(types) => {
            let mut type_nodes = new_list_items();
            let ghost mut acc: ItemsOut<PyListItemView> = no_items();
            let mut i: usize = 0;
            while i < types.len()
                invariant
                    i <= types.len(),
                    ctx.wf(),
                    ctx.env() == env,
                    same_exports(start, *ctx),
                    stepped(start, *ctx, acc.activates),
                    list_items_view(type_nodes@) =~= acc.items,
                    except_types_from(env, types@, 0, no_items()) == except_types_from(
                        env,
                        types@,
                        i as int,
                        acc,
                    ),
                decreases types.len() - i,
            {
                match transform_except_type(ctx, &types[i]) {
                    Err(err) => {
                        return Err(err);
                    },
                    Ok(o) => {
                        proof {
                            let m = lower_except_type(env, types@[i as int])->Ok_0;
                            acc = add_item(acc, m, PyListItemView::Item(m.expr));
                        }
                        push_list_item(&mut type_nodes, PyListItem::Item(o.expr));
                    },
                }
                i += 1;
            }
            Ok(
                PyExprWithPre {
                    pre_stmts: PyBlock::new(),
                    expr: SPyExpr::new(PyExpr::Tuple(type_nodes), *span),
                },
            )
        },
    }
}

/// `try e except Ts`: the value of `e`, or the exception it raised.
pub fn transform_checked(ctx: &mut TfCtx, e: &SExpr) -> (r: TfResult<PyExprWithPre>)
    requires
        old(ctx).wf(),
    ensures
        expr_result(*old(ctx), *final(ctx), lower_checked(old(ctx).env(), *e), r),
    decreases e, 5int,
{
    match &e.0 {
        Expr::Checked(inner, types) => {
            let a = PyAstBuilder::new(e.1);
            let t = match transform_with_access(ctx, inner, PyAccessCtx::Load) {
                Err(err) => {
                    return Err(err);
                },
                Ok(t) => t,
            };
            let var_name = ctx.temp_var_name("chk", e.1.start);
            let mut try_body = t.pre_stmts;
            try_body.push(a.assign(a.ident(var_name.clone(), PyAccessCtx::Store), t.expr));
            let mut catch_body = PyBlock::new();
            catch_body.push(
                a.assign(a.ident(var_name.clone(), PyAccessCtx::Store), a.load_ident("__e")),
            );
            let ty = match types {
                Some(ts) => match transform_except_types(ctx, ts, &e.1) {
                    Err(err) => {
                        return Err(err);
                    },
                    Ok(ty) => ty,
                },
                None => PyExprWithPre {
                    pre_stmts: PyBlock::new(),
                    expr: a.load_ident("Exception"),
                },
            };
            let mut handlers = new_handlers();
            push_handler(&mut handlers, a.except_handler(Some(ty.expr), Some("__e"), catch_body));
            let mut stmts = PyBlock::new();
            stmts.push(a.try_(try_body, handlers, None));
            Ok(PyExprWithPre { pre_stmts: stmts, expr: a.ident(var_name, PyAccessCtx::Load) })
        },
        _ => wrong_node(e.1),
    }
}

} // verus!
