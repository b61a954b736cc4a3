//! The destructuring engine: targets of assignments, loops and parameters.

use vstd::prelude::*;
use crate::ast::{Expr, ListItem, MappingItem, SExpr, Span};
use crate::py::ast::{idents_view, PyAccessCtx, PyBinaryOp, PyBlock, PyIdent, SPyExpr};
use crate::py::util::{
    extend_idents, mk_assign, mk_binary, mk_call1, mk_load, mk_num, mk_slice, mk_store,
    mk_subscript, new_idents, push_ident, PyAstBuilder,
};
use crate::transform::context::{kept, same_exports, stepped, TfCtx};
use crate::transform::errors::{fail, TfErrKind, wrong_node};
use crate::transform::expr::transform_with_access;
use crate::transform::model::Lowered;
use crate::transform::names::{int_text, signed_decimal_string};
use crate::transform::outcome::{des_result, DestructureBindings, TfResult};
use crate::transform::rules::{
    cursor_name, des_list_from, des_map_from, des_map_rest, DesAcc, dict_name, dict_pop,
    len_name, list_element, list_name, list_rest, lower_expr, lower_list_target,
    lower_mapping_target, lower_target, target_refused_at_once,
};

verus! {

/// A target of an assignment, a loop or a parameter. With `decl_only` only
/// names may be bound.
pub fn destructure(ctx: &mut TfCtx, target: &SExpr, decl_only: bool) -> (r: TfResult<
    DestructureBindings,
>)
    requires
        old(ctx).wf(),
    ensures
        des_result(
            *old(ctx),
            *final(ctx),
            lower_target(old(ctx).env(), *target, decl_only),
            r,
        ),
        target_refused_at_once(target.0, decl_only) ==> *final(ctx) == *old(ctx),
    decreases target, 20int,
{
    match &target.0 {
        Expr::Ident(id) => match transform_with_access(ctx, target, PyAccessCtx::Store) {
            Err(err) => Err(err),
            Ok(t) => {
                let mut decls = new_idents();
                push_ident(&mut decls, id.0.clone());
                Ok(
                    DestructureBindings {
                        assign_to: t.expr,
                        post_stmts: t.pre_stmts,
                        declarations: decls,
                    },
                )
            },
        },
        Expr::Attribute(_, _) | Expr::Subscript(_, _) => {
            if decl_only {
                return fail(
                    TfErrKind::InvalidAssignTarget,
                    "Only identifiers allowed in this destructuring",
                    target.1,
                );
            }
            match transform_with_access(ctx, target, PyAccessCtx::Store) {
                Err(err) => Err(err),
                Ok(t) => Ok(
                    DestructureBindings {
                        assign_to: t.expr,
                        post_stmts: t.pre_stmts,
                        declarations: new_idents(),
                    },
                ),
            }
        },
        Expr::List(_) => destructure_list(ctx, target, decl_only),
        Expr::Mapping(_) => destructure_mapping(ctx, target, decl_only),
        _ => fail(TfErrKind::InvalidAssignTarget, "Assignment target is not allowed", target.1),
    }
}

/// `list_var[index]`, where `index` is `magnitude` or its negation.
fn list_element_node(a: &PyAstBuilder, list_var: &str, negative: bool, magnitude: usize) -> (r:
    SPyExpr)
    ensures
        r@ == mk_subscript(
            mk_load(list_var@, a.span),
            mk_num(
                int_text(
                    if negative {
                        -(magnitude as int)
                    } else {
                        magnitude as int
                    },
                ),
                a.span,
            ),
            PyAccessCtx::Load,
            a.span,
        ),
{
    a.subscript(
        a.load_ident(list_var),
        a.num(signed_decimal_string(negative, magnitude)),
        PyAccessCtx::Load,
    )
}

/// `list_var[from : len_var - (n - 2)]`.
fn list_rest_node(a: &PyAstBuilder, list_var: &str, len_var: &str, from: usize, n: usize) -> (r:
    SPyExpr)
    ensures
        r@ == mk_subscript(
            mk_load(list_var@, a.span),
            mk_slice(
                Some(
                    mk_num(int_text(from as int), a.span),
                ),
                Some(
                    mk_binary(
                        PyBinaryOp::Sub,
                        mk_load(len_var@, a.span),
                        mk_num(
                            int_text(n - 2),
                            a.span,
                        ),
                        a.span,
                    ),
                ),
                None,
                a.span,
            ),
            PyAccessCtx::Load,
            a.span,
        ),
{
    let back_text = if n >= 2 {
        signed_decimal_string(false, n - 2)
    } else {
        signed_decimal_string(true, 2 - n)
    };
    a.subscript(
        a.load_ident(list_var),
        a.slice(
            Some(a.num(signed_decimal_string(false, from))),
            Some(a.binary(PyBinaryOp::Sub, a.load_ident(len_var), a.num(back_text))),
            None,
        ),
        PyAccessCtx::Load,
    )
}

/// What the items of a pattern have become: the assignments that take the
/// value apart, the statements that unpack the items further, and the names.
pub struct PatternParts {
    pub stmts: PyBlock,
    pub post: PyBlock,
    pub decls: Vec<PyIdent>,
}

/// `r`, with the state `new` left behind, is what the model says of the
/// items of a pattern.
pub open spec fn parts_result(
    old: TfCtx,
    new: TfCtx,
    model: Lowered<DesAcc>,
    r: TfResult<PatternParts>,
) -> bool {
    &&& same_exports(old, new)
    &&& match model {
        Ok(o) => {
            &&& r is Ok
            &&& r->Ok_0.stmts@ =~= o.stmts
            &&& r->Ok_0.post@ =~= o.post
            &&& idents_view(r->Ok_0.decls@) =~= o.decls
            &&& stepped(old, new, o.activates)
        },
        Err(e) => r is Err && r->Err_0@ == e && kept(old, new),
    }
}

pub open spec fn parts_model(parts: PatternParts, activates: bool) -> DesAcc {
    DesAcc {
        stmts: parts.stmts@,
        post: parts.post@,
        decls: idents_view(parts.decls@),
        activates,
    }
}

/// One plain item of a list pattern.
fn list_item_step(
    ctx: &mut TfCtx,
    x: &SExpr,
    decl_only: bool,
    span: Span,
    list_var: &str,
    negative: bool,
    magnitude: usize,
    parts: PatternParts,
) -> (r: TfResult<PatternParts>)
    requires
        old(ctx).wf(),
        list_var@ == list_name(old(ctx).src(), span),
    ensures
        same_exports(*old(ctx), *final(ctx)),
        match lower_target(old(ctx).env(), *x, decl_only) {
            Ok(b) => {
                &&& r is Ok
                &&& r->Ok_0.stmts@ =~= parts.stmts@.push(
                    mk_assign(
                        b.assign_to,
                        list_element(
                            old(ctx).src(),
                            span,
                            if negative {
                                -(magnitude as int)
                            } else {
                                magnitude as int
                            },
                        ),
                        span,
                    ),
                )
                &&& r->Ok_0.post@ =~= parts.post@ + b.post
                &&& idents_view(r->Ok_0.decls@) =~= idents_view(parts.decls@) + b.decls
                &&& stepped(*old(ctx), *final(ctx), b.activates)
            },
            Err(e) => r is Err && r->Err_0@ == e && kept(*old(ctx), *final(ctx)),
        },
    decreases x, 21int,
{
    let a = PyAstBuilder::new(span);
    let mut parts = parts;
    match destructure(ctx, x, decl_only) {
        Err(err) => Err(err),
        Ok(b) => {
            parts.post.extend(b.post_stmts);
            extend_idents(&mut parts.decls, b.declarations);
            parts.stmts.push(
                a.assign(b.assign_to, list_element_node(&a, list_var, negative, magnitude)),
            );
            Ok(parts)
        },
    }
}

/// The spread item of a list pattern.
fn list_spread_step(
    ctx: &mut TfCtx,
    x: &SExpr,
    decl_only: bool,
    span: Span,
    list_var: &str,
    len_var: &str,
    from: usize,
    n: usize,
    parts: PatternParts,
) -> (r: TfResult<PatternParts>)
    requires
        old(ctx).wf(),
        list_var@ == list_name(old(ctx).src(), span),
        len_var@ == len_name(old(ctx).src(), span),
    ensures
        same_exports(*old(ctx), *final(ctx)),
        match lower_target(old(ctx).env(), *x, decl_only) {
            Ok(b) => {
                &&& r is Ok
                &&& r->Ok_0.stmts@ =~= parts.stmts@.push(
                    mk_assign(
                        b.assign_to,
                        list_rest(old(ctx).src(), span, from as int, n - 2),
                        span,
                    ),
                )
                &&& r->Ok_0.post@ =~= parts.post@ + b.post
                &&& idents_view(r->Ok_0.decls@) =~= idents_view(parts.decls@) + b.decls
                &&& stepped(*old(ctx), *final(ctx), b.activates)
            },
            Err(e) => r is Err && r->Err_0@ == e && kept(*old(ctx), *final(ctx)),
        },
    decreases x, 21int,
{
    let a = PyAstBuilder::new(span);
    let mut parts = parts;
    match destructure(ctx, x, decl_only) {
        Err(err) => Err(err),
        Ok(b) => {
            parts.post.extend(b.post_stmts);
            extend_idents(&mut parts.decls, b.declarations);
            parts.stmts.push(
                a.assign(b.assign_to, list_rest_node(&a, list_var, len_var, from, n)),
            );
            Ok(parts)
        },
    }
}

/// The items of a list pattern, in their order.
#[verifier::loop_isolation(false)]
fn destructure_list_items(
    ctx: &mut TfCtx,
    items: &Vec<ListItem>,
    decl_only: bool,
    span: Span,
    list_var: &str,
    len_var: &str,
    parts0: PatternParts,
) -> (r: TfResult<PatternParts>)
    requires
        old(ctx).wf(),
        list_var@ == list_name(old(ctx).src(), span),
        len_var@ == len_name(old(ctx).src(), span),
    ensures
        parts_result(
            *old(ctx),
            *final(ctx),
            des_list_from(
                old(ctx).env(),
                items@,
                span,
                decl_only,
                0,
                0,
                false,
                parts_model(parts0, false),
            ),
            r,
        ),
    decreases items, 0int,
{
    let ghost env = ctx.env();
    let ghost start = *ctx;
    let ghost init = parts_model(parts0, false);
    let ghost mut activates = false;
    let mut parts = parts0;
    let mut seen_spread = false;
    let mut count: usize = 0;
    let mut i: usize = 0;
    while i < items.len()
        invariant
            i <= items.len(),
            count <= i,
            ctx.wf(),
            ctx.env() == env,
            env == start.env(),
            init == parts_model(parts0, false),
            list_var@ == list_name(env.src, span),
            len_var@ == len_name(env.src, span),
            same_exports(start, *ctx),
            stepped(start, *ctx, activates),
            des_list_from(env, items@, span, decl_only, 0, 0, false, init) == des_list_from(
                env,
                items@,
                span,
                decl_only,
                i as int,
                count as int,
                seen_spread,
                parts_model(parts, activates),
            ),
        decreases items.len() - i,
    {
        match &items[i] {
            ListItem::Item(x) => {
                let negative = seen_spread;
                let magnitude = if seen_spread {
                    items.len() - count - 1
                } else {
                    count
                };
                match list_item_step(
                    ctx,
                    x,
                    decl_only,
                    span,
                    list_var,
                    negative,
                    magnitude,
                    parts,
                ) {
                    Err(err) => {
                        return Err(err);
                    },
                    Ok(p) => {
                        proof {
                            activates = activates || lower_target(
                                env,
                                *x,
                                decl_only,
                            )->Ok_0.activates;
                        }
                        parts = p;
                    },
                }
                count += 1;
            },
            ListItem::Spread(x) => {
                if seen_spread {
                    return fail(
                        TfErrKind::MultipleSpreads,
                        "Destructuring assignment with multiple spreads is not allowed",
                        span,
                    );
                }
                match list_spread_step(
                    ctx,
                    x,
                    decl_only,
                    span,
                    list_var,
                    len_var,
                    count,
                    items.len(),
                    parts,
                ) {
                    Err(err) => {
                        return Err(err);
                    },
                    Ok(p) => {
                        proof {
                            activates = activates || lower_target(
                                env,
                                *x,
                                decl_only,
                            )->Ok_0.activates;
                        }
                        parts = p;
                    },
                }
                seen_spread = true;
            },
        }
        i += 1;
    }
    Ok(parts)
}

/// A list pattern `[a, *b, c]`: the value goes into a cursor, becomes a
/// list, and each item is assigned from its place in the list.
pub fn destructure_list(ctx: &mut TfCtx, target: &SExpr, decl_only: bool) -> (r: TfResult<
    DestructureBindings,
>)
    requires
        old(ctx).wf(),
    ensures
        des_result(
            *old(ctx),
            *final(ctx),
            lower_list_target(old(ctx).env(), *target, decl_only),
            r,
        ),
    decreases target, 15int,
{
    match &target.0 {
        Expr::List(items) => {
            let span = target.1;
            let cursor_var = ctx.temp_var_name("des_curs", span.start);
            let list_var = ctx.temp_var_name("des_list", span.start);
            let len_var = ctx.temp_var_name("des_len", span.start);
            let a = PyAstBuilder::new(span);
            let mut stmts = PyBlock::new();
            stmts.push(
                a.assign(
                    a.ident(list_var.clone(), PyAccessCtx::Store),
                    a.call1(a.load_ident("list"), a.load_ident(cursor_var.as_str())),
                ),
            );
            stmts.push(
                a.assign(
                    a.ident(len_var.clone(), PyAccessCtx::Store),
                    a.call1(a.load_ident("len"), a.load_ident(list_var.as_str())),
                ),
            );
            let ghost src = ctx.src();
            assert(stmts@ =~= seq![
                mk_assign(
                    mk_store(list_name(src, span), span),
                    mk_call1(
                        mk_load("list"@, span),
                        mk_load(cursor_name(src, span), span),
                        span,
                    ),
                    span,
                ),
                mk_assign(
                    mk_store(len_name(src, span), span),
                    mk_call1(
                        mk_load("len"@, span),
                        mk_load(list_name(src, span), span),
                        span,
                    ),
                    span,
                ),
            ]);
            let parts = PatternParts { stmts, post: PyBlock::new(), decls: new_idents() };
            match destructure_list_items(
                ctx,
                items,
                decl_only,
                span,
                list_var.as_str(),
                len_var.as_str(),
                parts,
            ) {
                Err(err) => Err(err),
                Ok(p) => {
                    let mut stmts = p.stmts;
                    stmts.extend(p.post);
                    Ok(
                        DestructureBindings {
                            post_stmts: stmts,
                            assign_to: a.ident(cursor_var, PyAccessCtx::Store),
                            declarations: p.decls,
                        },
                    )
                },
            }
        },
        _ => wrong_node(target.1),
    }
}

pub open spec fn index_model(spread: Option<usize>) -> Option<int> {
    match spread {
        Some(k) => Some(k as int),
        None => None,
    }
}

/// One keyed item of a mapping pattern.
fn map_item_step(
    ctx: &mut TfCtx,
    item: &MappingItem,
    decl_only: bool,
    span: Span,
    dict_var: &str,
    parts: PatternParts,
) -> (r: TfResult<PatternParts>)
    requires
        old(ctx).wf(),
        item is Item,
        dict_var@ == dict_name(old(ctx).src(), span),
    ensures
        same_exports(*old(ctx), *final(ctx)),
        match lower_target(old(ctx).env(), item->Item_1, decl_only) {
            Err(e) => r is Err && r->Err_0@ == e && kept(*old(ctx), *final(ctx)),
            Ok(b) => match lower_expr(old(ctx).env(), item->Item_0, PyAccessCtx::Load) {
                Err(e) => r is Err && r->Err_0@ == e && kept(*old(ctx), *final(ctx)),
                Ok(k) => {
                    &&& r is Ok
                    &&& r->Ok_0.stmts@ =~= parts.stmts@.push(
                        mk_assign(
                            b.assign_to,
                            dict_pop(old(ctx).src(), span, k.expr),
                            span,
                        ),
                    )
                    &&& r->Ok_0.post@ =~= parts.post@ + k.pre + b.post
                    &&& idents_view(r->Ok_0.decls@) =~= idents_view(parts.decls@) + b.decls
                    &&& stepped(*old(ctx), *final(ctx), b.activates || k.activates)
                },
            },
        },
    decreases item, 0int,
{
    let a = PyAstBuilder::new(span);
    let mut parts = parts;
    match item {
        MappingItem::Item(key, x) => {
            let b = match destructure(ctx, x, decl_only) {
                Err(err) => {
                    return Err(err);
                },
                Ok(b) => b,
            };
            let k = match transform_with_access(ctx, key, PyAccessCtx::Load) {
                Err(err) => {
                    return Err(err);
                },
                Ok(k) => k,
            };
            parts.post.extend(k.pre_stmts);
            parts.post.extend(b.post_stmts);
            extend_idents(&mut parts.decls, b.declarations);
            parts.stmts.push(
                a.assign(
                    b.assign_to,
                    a.call1(a.attribute(a.load_ident(dict_var), "pop", PyAccessCtx::Load), k.expr),
                ),
            );
            Ok(parts)
        },
        _ => Ok(parts),
    }
}

/// The rest target of a mapping pattern, which receives what is left.
fn map_rest_step(
    ctx: &mut TfCtx,
    x: &SExpr,
    decl_only: bool,
    span: Span,
    dict_var: &str,
    parts: PatternParts,
) -> (r: TfResult<PatternParts>)
    requires
        old(ctx).wf(),
        dict_var@ == dict_name(old(ctx).src(), span),
    ensures
        same_exports(*old(ctx), *final(ctx)),
        match lower_target(old(ctx).env(), *x, decl_only) {
            Err(e) => r is Err && r->Err_0@ == e && kept(*old(ctx), *final(ctx)),
            Ok(b) => {
                &&& r is Ok
                &&& r->Ok_0.stmts@ =~= parts.stmts@.push(
                    mk_assign(
                        b.assign_to,
                        mk_load(dict_name(old(ctx).src(), span), span),
                        span,
                    ),
                )
                &&& r->Ok_0.post@ =~= parts.post@ + b.post
                &&& idents_view(r->Ok_0.decls@) =~= idents_view(parts.decls@) + b.decls
                &&& stepped(*old(ctx), *final(ctx), b.activates)
            },
        },
    decreases x, 21int,
{
    let a = PyAstBuilder::new(span);
    let mut parts = parts;
    match destructure(ctx, x, decl_only) {
        Err(err) => Err(err),
        Ok(b) => {
            parts.post.extend(b.post_stmts);
            extend_idents(&mut parts.decls, b.declarations);
            parts.stmts.push(a.assign(b.assign_to, a.load_ident(dict_var)));
            Ok(parts)
        },
    }
}

/// The items of a mapping pattern, in their order, and then its rest target.
#[verifier::loop_isolation(false)]
fn destructure_mapping_items(
    ctx: &mut TfCtx,
    items: &Vec<MappingItem>,
    decl_only: bool,
    span: Span,
    dict_var: &str,
    parts0: PatternParts,
) -> (r: TfResult<PatternParts>)
    requires
        old(ctx).wf(),
        dict_var@ == dict_name(old(ctx).src(), span),
    ensures
        parts_result(
            *old(ctx),
            *final(ctx),
            des_map_from(
                old(ctx).env(),
                items@,
                span,
                decl_only,
                0,
                None,
                parts_model(parts0, false),
            ),
            r,
        ),
    decreases items, 0int,
{
    let ghost env = ctx.env();
    let ghost start = *ctx;
    let ghost init = parts_model(parts0, false);
    let ghost mut activates = false;
    let mut parts = parts0;
    let mut spread: Option<usize> = None;
    let mut i: usize = 0;
    while i < items.len()
        invariant
            i <= items.len(),
            spread is Some ==> spread->Some_0 < i && items@[spread->Some_0 as int] is Spread,
            ctx.wf(),
            ctx.env() == env,
            env == start.env(),
            init == parts_model(parts0, false),
            dict_var@ == dict_name(env.src, span),
            same_exports(start, *ctx),
            stepped(start, *ctx, activates),
            des_map_from(env, items@, span, decl_only, 0, None, init) == des_map_from(
                env,
                items@,
                span,
                decl_only,
                i as int,
                index_model(spread),
                parts_model(parts, activates),
            ),
        decreases items.len() - i,
    {
        match &items[i] {
            MappingItem::Item(key, x) => {
                match map_item_step(ctx, &items[i], decl_only, span, dict_var, parts) {
                    Err(err) => {
                        return Err(err);
                    },
                    Ok(p) => {
                        proof {
                            activates = activates || lower_target(
                                env,
                                *x,
                                decl_only,
                            )->Ok_0.activates || lower_expr(
                                env,
                                *key,
                                PyAccessCtx::Load,
                            )->Ok_0.activates;
                        }
                        parts = p;
                    },
                }
            },
            MappingItem::Spread(_) => {
                match spread {
                    Some(_) => {
                        return fail(
                            TfErrKind::MultipleSpreads,
                            "Destructuring assignment with multiple spreads is not allowed",
                            span,
                        );
                    },
                    None => {},
                }
                spread = Some(i);
            },
        }
        i += 1;
    }
    assert(des_map_from(
        env,
        items@,
        span,
        decl_only,
        i as int,
        index_model(spread),
        parts_model(parts, activates),
    ) == des_map_rest(
        env,
        items@,
        span,
        decl_only,
        index_model(spread),
        parts_model(parts, activates),
    ));
    match spread {
        Some(k) => match &items[k] {
            MappingItem::Spread(x) => map_rest_step(ctx, x, decl_only, span, dict_var, parts),
            _ => Ok(parts),
        },
        None => Ok(parts),
    }
}

/// A mapping pattern `[k: p, **rest]`: the value goes into a cursor, becomes
/// a dict, each item pops its key, and the rest target takes what is left.
pub fn destructure_mapping(ctx: &mut TfCtx, target: &SExpr, decl_only: bool) -> (r: TfResult<
    DestructureBindings,
>)
    requires
        old(ctx).wf(),
    ensures
        des_result(
            *old(ctx),
            *final(ctx),
            lower_mapping_target(old(ctx).env(), *target, decl_only),
            r,
        ),
    decreases target, 15int,
{
    match &target.0 {
        Expr::Mapping(items) => {
            let span = target.1;
            let cursor_var = ctx.temp_var_name("des_curs", span.start);
            let dict_var = ctx.temp_var_name("des_dict", span.start);
            let a = PyAstBuilder::new(span);
            let mut stmts = PyBlock::new();
            stmts.push(
                a.assign(
                    a.ident(dict_var.clone(), PyAccessCtx::Store),
                    a.call1(a.load_ident("dict"), a.load_ident(cursor_var.as_str())),
                ),
            );
            let parts = PatternParts { stmts, post: PyBlock::new(), decls: new_idents() };
            match destructure_mapping_items(ctx, items, decl_only, span, dict_var.as_str(), parts) {
                Err(err) => Err(err),
                Ok(p) => {
                    let mut stmts = p.stmts;
                    stmts.extend(p.post);
                    Ok(
                        DestructureBindings {
                            post_stmts: stmts,
                            assign_to: a.ident(cursor_var, PyAccessCtx::Store),
                            declarations: p.decls,
                        },
                    )
                },
            }
        },
        _ => wrong_node(target.1),
    }
}

} // verus!
