//! Lowering of functions and classes.

use vstd::prelude::*;
use crate::ast::{ArgDefItem, CallItem, Expr, SCallItem, SExpr, Span};
use crate::py::ast::{
    arg_defs_view, call_items_view, PyAccessCtx, PyArgDefItem, PyArgDefItemView, PyBlock,
    PyCallItem, PyCallItemView, PyDecorators, PyExpr, PyStmt, SPyExpr, SPyStmt,
};
use crate::py::util::{new_arg_defs, new_call_items, push_arg_def, push_call_item, PyAstBuilder};
use crate::transform::block::transform_block;
use crate::transform::context::{kept, same_exports, stepped, TfCtx};
use crate::transform::control::transform_block_with_final_stmt;
use crate::transform::destructure::destructure;
use crate::transform::errors::{fail, TfErrKind, wrong_node};
use crate::transform::expr::{make_py_fn_exp, transform_with_placeholder_guard};
use crate::transform::model::{add_item, ArgsOut, ItemsOut, no_items};
use crate::transform::outcome::{
    BlockFinal, call_items_result, DestructureBindings, expr_result, fn_parts_result,
    PyExprWithPre, PyFnParts, stmts_result, TfResult,
};
use crate::transform::rules::{
    arglist_from, class_bases_from, class_def, default_activates, default_expr, default_pre,
    fn_def, lower_class_exp, lower_default, lower_fn_exp, lower_guarded, lower_target, no_args,
    prepare_fn,
};

verus! {

/// The default value of a parameter, where there is one.
pub fn transform_default(ctx: &mut TfCtx, default: &Option<SExpr>) -> (r: TfResult<
    Option<PyExprWithPre>,
>)
    requires
        old(ctx).wf(),
    ensures
        same_exports(*old(ctx), *final(ctx)),
        match lower_default(old(ctx).env(), *default) {
            Ok(None) => r is Ok && r->Ok_0 is None && stepped(*old(ctx), *final(ctx), false),
            Ok(Some(o)) => {
                &&& r is Ok
                &&& r->Ok_0 is Some
                &&& r->Ok_0->Some_0.pre_stmts@ =~= o.pre
                &&& r->Ok_0->Some_0.expr@ == o.expr
                &&& stepped(*old(ctx), *final(ctx), o.activates)
            },
            Err(e) => r is Err && r->Err_0@ == e && kept(*old(ctx), *final(ctx)),
        },
    decreases default, 13int,
{
    match default {
        None => Ok(None),
        Some(d) => match transform_with_placeholder_guard(ctx, d) {
            Err(err) => Err(err),
            Ok(o) => Ok(Some(o)),
        },
    }
}

/// The parameters of a function: the statements that their defaults need,
/// the statements that unpack them in the body, and the parameters.
#[verifier::loop_isolation(false)]
pub fn make_arglist(ctx: &mut TfCtx, args: &Vec<ArgDefItem>) -> (r: TfResult<
    (PyBlock, PyBlock, Vec<PyArgDefItem>),
>)
    requires
        old(ctx).wf(),
    ensures
        same_exports(*old(ctx), *final(ctx)),
        match arglist_from(old(ctx).env(), args@, 0, no_args()) {
            Ok(o) => {
                &&& r is Ok
                &&& r->Ok_0.0@ =~= o.pre
                &&& r->Ok_0.1@ =~= o.post
                &&& arg_defs_view(r->Ok_0.2@) =~= o.args
                &&& stepped(*old(ctx), *final(ctx), o.activates)
            },
            Err(e) => r is Err && r->Err_0@ == e && kept(*old(ctx), *final(ctx)),
        },
    decreases args, 0int,
{
    let ghost env = ctx.env();
    let ghost start = *ctx;
    let ghost mut acc: ArgsOut = no_args();
    let mut pre = PyBlock::new();
    let mut post = PyBlock::new();
    let mut args_vec = new_arg_defs();
    let mut i: usize = 0;
    while i < args.len()
        invariant
            i <= args.len(),
            ctx.wf(),
            ctx.env() == env,
            same_exports(start, *ctx),
            stepped(start, *ctx, acc.activates),
            pre@ =~= acc.pre,
            post@ =~= acc.post,
            arg_defs_view(args_vec@) =~= acc.args,
            arglist_from(env, args@, 0, no_args()) == arglist_from(env, args@, i as int, acc),
        decreases args.len() - i,
    {
        match &args[i] {
            ArgDefItem::Arg(arg, default) => {
                let d = match transform_default(ctx, default) {
                    Err(err) => {
                        return Err(err);
                    },
                    Ok(d) => d,
                };
                let des = match destructure(ctx, arg, true) {
                    Err(err) => {
                        return Err(err);
                    },
                    Ok(des) => des,
                };
                let ghost dm = lower_default(env, *default)->Ok_0;
                let ghost desm = lower_target(env, *arg, true)->Ok_0;
                let DestructureBindings { assign_to, post_stmts, declarations } = des;
                let SPyExpr { value, tl_span } = assign_to;
                let name = match value {
                    PyExpr::Ident(ident, _) => ident,
                    _ => {
                        return fail(
                            TfErrKind::InternalError,
                            "Internal error: Destructuring assignment target must be an identifier",
                            arg.1,
                        );
                    },
                };
                proof {
                    acc = ArgsOut {
                        pre: acc.pre + default_pre(dm),
                        post: acc.post + desm.post,
                        args: acc.args.push(PyArgDefItemView::Arg(name@, default_expr(dm))),
                        activates: acc.activates || default_activates(dm) || desm.activates,
                    };
                }
                let default_node = match d {
                    Some(o) => {
                        pre.extend(o.pre_stmts);
                        Some(o.expr)
                    },
                    None => None,
                };
                post.extend(post_stmts);
                push_arg_def(&mut args_vec, PyArgDefItem::Arg(name, default_node));
            },
            ArgDefItem::ArgSpread(name) => {
                proof {
                    acc = ArgsOut {
                        pre: acc.pre,
                        post: acc.post,
                        args: acc.args.push(PyArgDefItemView::ArgSpread(name.0@)),
                        activates: acc.activates,
                    };
                }
                push_arg_def(&mut args_vec, PyArgDefItem::ArgSpread(name.0.clone()));
            },
            ArgDefItem::KwargSpread(name) => {
                proof {
                    acc = ArgsOut {
                        pre: acc.pre,
                        post: acc.post,
                        args: acc.args.push(PyArgDefItemView::KwargSpread(name.0@)),
                        activates: acc.activates,
                    };
                }
                push_arg_def(&mut args_vec, PyArgDefItem::KwargSpread(name.0.clone()));
            },
        }
        i += 1;
    }
    Ok((pre, post, args_vec))
}

/// The parts of the function `e`: the statements that its defaults need,
/// its parameters, and its body, which returns the value of its block.
pub fn prepare_py_fn(ctx: &mut TfCtx, e: &SExpr, span: &Span) -> (r: TfResult<PyFnParts>)
    requires
        old(ctx).wf(),
    ensures
        fn_parts_result(*old(ctx), *final(ctx), prepare_fn(old(ctx).env(), *e, *span), r),
    decreases e, 3int,
{
    match &e.0 {
        Expr::Fn(arglist, body) => {
            let (pre, post, args) = match make_arglist(ctx, arglist) {
                Err(err) => {
                    return Err(err);
                },
                Ok(a) => a,
            };
            let block = match transform_block(ctx, body, true, false) {
                Err(err) => {
                    return Err(err);
                },
                Ok(b) => b,
            };
            let mut stmts = block.stmts;
            match block.final_ {
                BlockFinal::Expr(x) => {
                    stmts.push(PyAstBuilder::new(*span).return_(x));
                },
                _ => {},
            }
            let mut body_stmts = post;
            body_stmts.extend(stmts);
            Ok(PyFnParts { aux_stmts: pre, body_stmts, args })
        },
        _ => wrong_node(e.1),
    }
}

/// A function in expression position.
pub fn make_fn_exp(ctx: &mut TfCtx, e: &SExpr) -> (r: TfResult<PyExprWithPre>)
    requires
        old(ctx).wf(),
    ensures
        expr_result(*old(ctx), *final(ctx), lower_fn_exp(old(ctx).env(), *e), r),
    decreases e, 5int,
{
    match prepare_py_fn(ctx, e, &e.1) {
        Err(err) => Err(err),
        Ok(p) => Ok(make_py_fn_exp(ctx, p.aux_stmts, p.args, p.body_stmts, &e.1)),
    }
}

/// The definition of the function `e` under the name `name`.
pub fn make_fn_def(
    ctx: &mut TfCtx,
    name: String,
    e: &SExpr,
    decorators: PyDecorators,
    span: &Span,
) -> (r: TfResult<PyBlock>)
    requires
        old(ctx).wf(),
    ensures
        stmts_result(
            *old(ctx),
            *final(ctx),
            false,
            fn_def(old(ctx).env(), name@, *e, decorators@, *span),
            r,
        ),
    decreases e, 4int,
{
    match prepare_py_fn(ctx, e, span) {
        Err(err) => Err(err),
        Ok(p) => {
            let mut aux = p.aux_stmts;
            aux.push(SPyStmt::new(PyStmt::FnDef(name, p.args, p.body_stmts, decorators), *span));
            Ok(aux)
        },
    }
}

/// The bases of a class: positional or keyword, no spread.
#[verifier::loop_isolation(false)]
pub fn transform_class_bases(ctx: &mut TfCtx, bases: &Vec<SCallItem>, span: &Span) -> (r:
    TfResult<(PyBlock, Vec<PyCallItem>)>)
    requires
        old(ctx).wf(),
    ensures
        call_items_result(
            *old(ctx),
            *final(ctx),
            class_bases_from(old(ctx).env(), bases@, *span, 0, no_items()),
            r,
        ),
    decreases bases, 0int,
{
    let ghost env = ctx.env();
    let ghost start = *ctx;
    let ghost mut acc: ItemsOut<PyCallItemView> = no_items();
    let mut stmts = PyBlock::new();
    let mut bases_nodes = new_call_items();
    let mut i: usize = 0;
    while i < bases.len()
        invariant
            i <= bases.len(),
            ctx.wf(),
            ctx.env() == env,
            same_exports(start, *ctx),
            stepped(start, *ctx, acc.activates),
            stmts@ =~= acc.pre,
            call_items_view(bases_nodes@) =~= acc.items,
            class_bases_from(env, bases@, *span, 0, no_items()) == class_bases_from(
                env,
                bases@,
                *span,
                i as int,
                acc,
            ),
        decreases bases.len() - i,
    {
        let base = &bases[i];
        match &base.0 {
            CallItem::Arg(x) => {
                match transform_with_placeholder_guard(ctx, x) {
                    Err(err) => {
                        return Err(err);
                    },
                    Ok(o) => {
                        proof {
                            let m = lower_guarded(env, *x)->Ok_0;
                            acc = add_item(acc, m, PyCallItemView::Arg(m.expr));
                        }
                        stmts.extend(o.pre_stmts);
                        push_call_item(&mut bases_nodes, PyCallItem::Arg(o.expr));
                    },
                }
            },
            CallItem::Kwarg(name, x) => {
                match transform_with_placeholder_guard(ctx, x) {
                    Err(err) => {
                        return Err(err);
                    },
                    Ok(o) => {
                        proof {
                            let m = lower_guarded(env, *x)->Ok_0;
                            acc = add_item(acc, m, PyCallItemView::Kwarg(name.0@, m.expr));
                        }
                        stmts.extend(o.pre_stmts);
                        push_call_item(&mut bases_nodes, PyCallItem::Kwarg(name.0.clone(), o.expr));
                    },
                }
            },
            _ => {
                return fail(
                    TfErrKind::InvalidArgument,
                    "spread args are not allowed in class bases",
                    *span,
                );
            },
        }
        i += 1;
    }
    Ok((stmts, bases_nodes))
}

/// The definition of the class `e` under the name `name`.
pub fn make_class_def(
    ctx: &mut TfCtx,
    name: String,
    e: &SExpr,
    decorators: PyDecorators,
    span: &Span,
) -> (r: TfResult<PyBlock>)
    requires
        old(ctx).wf(),
    ensures
        stmts_result(
            *old(ctx),
            *final(ctx),
            false,
            class_def(old(ctx).env(), name@, *e, decorators@, *span),
            r,
        ),
    decreases e, 4int,
{
    match &e.0 {
        Expr::Class(bases, body) => {
            let block = match transform_block_with_final_stmt(ctx, body) {
                Err(err) => {
                    return Err(err);
                },
                Ok(b) => b,
            };
            let (mut stmts, bases_nodes) = match transform_class_bases(ctx, bases, span) {
                Err(err) => {
                    return Err(err);
                },
                Ok(t) => t,
            };
            stmts.push(SPyStmt::new(PyStmt::ClassDef(name, bases_nodes, block, decorators), *span));
            Ok(stmts)
        },
        _ => wrong_node(e.1),
    }
}

/// A class in expression position: a definition under the name of a
/// temporary, which is the value.
pub fn transform_class_exp(ctx: &mut TfCtx, e: &SExpr) -> (r: TfResult<PyExprWithPre>)
    requires
        old(ctx).wf(),
    ensures
        expr_result(*old(ctx), *final(ctx), lower_class_exp(old(ctx).env(), *e), r),
    decreases e, 5int,
{
    let name = ctx.temp_var_name("clsexp", e.1.start);
    match make_class_def(ctx, name.clone(), e, PyDecorators::new(), &e.1) {
        Err(err) => Err(err),
        Ok(stmts) => Ok(
            PyExprWithPre {
                pre_stmts: stmts,
                expr: PyAstBuilder::new(e.1).ident(name, PyAccessCtx::Load),
            },
        ),
    }
}

} // verus!
