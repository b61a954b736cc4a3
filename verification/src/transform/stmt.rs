//! Lowering of statements.

use vstd::prelude::*;
use vstd::string::StringExecFns;
use crate::ast::{
    AssignModifier, BinaryOp, CallItem, ExceptHandler, ExceptTypes, Expr, ImportList,
    ImportStmt, SBlock, SExpr, SIdent, Span, SStmt, Stmt,
};
use crate::py::ast::{
    aliases_view, handlers_view, idents_view, PyBlock, PyDecorators, PyExceptHandler,
    PyExceptHandlerView, PyIdent, PyImportAlias, PyStmt, SPyStmt,
};
use crate::py::util::{
    extend_idents, mk_handler, new_aliases, new_arg_defs, new_call_items, new_handlers,
    new_idents, push_alias, push_handler, push_ident, PyAstBuilder,
};
use crate::transform::context::{exported, exports_extended, kept, same_exports, stepped, TfCtx};
use crate::transform::control::{transform_block_with_final_stmt, transform_expr_stmt};
use crate::transform::destructure::destructure;
use crate::transform::errors::{fail, TfErrKind, wrong_node};
use crate::transform::expr::{make_py_fn_exp, transform_with_placeholder_guard};
use crate::transform::function::{make_class_def, make_fn_def};
use crate::transform::literal::transform_except_types;
use crate::transform::model::{
    dots, ExprOut, ItemsOut, join_dots, leaf_alias, leaf_bound_name, leaves_aliases,
    leaves_bound_names, lower_import, no_items, no_names, opt_name, scope_modifier, scope_stmts,
};
use crate::transform::outcome::{bind_result, expr_result, PyExprWithPre, stmts_result, TfResult};
use crate::transform::rules::{
    block_stmts, is_definition, lemma_peel_inner_within, lower_assign, lower_assignment,
    lower_decorators, lower_definition, lower_for, lower_handler_types, lower_stmt, lower_try,
    lower_value_stmt, lower_while, opt_sblock_stmts, peel_inner, refused_at_once,
    try_handlers_from, while_head,
};

verus! {

/// The scope modifier of an assignment: at most one, and `export` only at
/// the top level.
pub fn get_scope_modifier(mods: &Vec<AssignModifier>, is_top_level: bool, span: &Span) -> (r:
    TfResult<Option<AssignModifier>>)
    ensures
        match scope_modifier(mods@, is_top_level, *span) {
            Ok(m) => r is Ok && r->Ok_0 == m,
            Err(e) => r is Err && r->Err_0@ == e,
        },
{
    if mods.len() > 1 {
        return fail(
            TfErrKind::InvalidModifier,
            "Only one scope modifier is allowed in an assignment",
            *span,
        );
    }
    if mods.len() == 1 {
        let m = mods[0];
        if !is_top_level && m == AssignModifier::Export {
            return fail(
                TfErrKind::InvalidModifier,
                "Export modifier is only allowed at the top level",
                *span,
            );
        }
        Ok(Some(m))
    } else {
        Ok(None)
    }
}

/// What a scope modifier does to the names `decls`: `global` and `nonlocal`
/// declare them, `export` marks them for re-export.
pub fn get_scope_modifying_statements(
    ctx: &mut TfCtx,
    modifier: Option<AssignModifier>,
    decls: Vec<PyIdent>,
    span: &Span,
) -> (r: PyBlock)
    ensures
        r@ =~= scope_stmts(modifier, idents_view(decls@), *span),
        stepped(*old(ctx), *final(ctx), false),
        exported(
            *old(ctx),
            *final(ctx),
            if modifier == Some(AssignModifier::Export) {
                idents_view(decls@)
            } else {
                no_names()
            },
            no_names(),
        ),
        modifier != Some(AssignModifier::Export) ==> same_exports(*old(ctx), *final(ctx)),
        exports_extended(*old(ctx), *final(ctx)),
{
    let mut stmts = PyBlock::new();
    match modifier {
        Some(AssignModifier::Export) => {
            extend_idents(&mut ctx.exports, decls);
        },
        Some(AssignModifier::Global) => {
            stmts.push(SPyStmt::new(PyStmt::Global(decls), *span));
        },
        Some(AssignModifier::Nonlocal) => {
            stmts.push(SPyStmt::new(PyStmt::Nonlocal(decls), *span));
        },
        None => {},
    }
    stmts
}

/// What is left of `e` when its decorators are peeled off.
pub fn peel_innermost(e: &SExpr) -> (r: &SExpr)
    ensures
        *r == peel_inner(*e),
    decreases e,
{
    match &e.0 {
        Expr::Then(left, _) => peel_innermost(left),
        Expr::Binary(BinaryOp::Pipe, left, _) => peel_innermost(left),
        Expr::Call(_, args) => {
            if args.len() == 1 {
                match &args[0].0 {
                    CallItem::Arg(arg) => peel_innermost(arg),
                    _ => e,
                }
            } else {
                e
            }
        },
        _ => e,
    }
}

/// The decorators peeled off `e`, outermost first, each lowered in a region
/// of its own and added to `decorators`, its statements to `pre`.
pub fn transform_decorators(
    ctx: &mut TfCtx,
    e: &SExpr,
    pre: PyBlock,
    decorators: PyDecorators,
) -> (r: TfResult<(PyBlock, PyDecorators)>)
    requires
        old(ctx).wf(),
    ensures
        same_exports(*old(ctx), *final(ctx)),
        match lower_decorators(
            old(ctx).env(),
            *e,
            ItemsOut { pre: pre@, items: decorators@, activates: false },
        ) {
            Ok(o) => {
                &&& r is Ok
                &&& r->Ok_0.0@ =~= o.pre
                &&& r->Ok_0.1@ =~= o.items
                &&& !o.activates
                &&& stepped(*old(ctx), *final(ctx), false)
            },
            Err(err) => r is Err && r->Err_0@ == err && kept(*old(ctx), *final(ctx)),
        },
    decreases e, 30int,
{
    let mut pre = pre;
    let mut decorators = decorators;
    match &e.0 {
        Expr::Then(left, right) => match transform_with_placeholder_guard(ctx, right) {
            Err(err) => Err(err),
            Ok(o) => {
                pre.extend(o.pre_stmts);
                decorators.push(o.expr);
                transform_decorators(ctx, left, pre, decorators)
            },
        },
        Expr::Binary(BinaryOp::Pipe, left, right) => match transform_with_placeholder_guard(
            ctx,
            right,
        ) {
            Err(err) => Err(err),
            Ok(o) => {
                pre.extend(o.pre_stmts);
                decorators.push(o.expr);
                transform_decorators(ctx, left, pre, decorators)
            },
        },
        Expr::Call(f, args) => {
            if args.len() == 1 {
                match &args[0].0 {
                    CallItem::Arg(arg) => match transform_with_placeholder_guard(ctx, f) {
                        Err(err) => Err(err),
                        Ok(o) => {
                            pre.extend(o.pre_stmts);
                            decorators.push(o.expr);
                            transform_decorators(ctx, arg, pre, decorators)
                        },
                    },
                    _ => Ok((pre, decorators)),
                }
            } else {
                Ok((pre, decorators))
            }
        },
        _ => Ok((pre, decorators)),
    }
}

/// A decorated definition `name = d1(d2(fn))`: the definition of the function
/// or class under `name`, with its decorators outermost first.
pub fn transform_definition(ctx: &mut TfCtx, s: &SStmt) -> (r: TfResult<(PyBlock, Vec<PyIdent>)>)
    requires
        old(ctx).wf(),
    ensures
        bind_result(*old(ctx), *final(ctx), lower_definition(old(ctx).env(), *s), r),
    decreases s, 3int,
{
    match &s.0 {
        Stmt::Assign(lhs, rhs, _) => match &lhs.0 {
            Expr::Ident(id) => {
                let (pre, decorators) = match transform_decorators(
                    ctx,
                    rhs,
                    PyBlock::new(),
                    PyDecorators::new(),
                ) {
                    Err(err) => {
                        return Err(err);
                    },
                    Ok(d) => d,
                };
                let inner = peel_innermost(rhs);
                proof {
                    lemma_peel_inner_within(*rhs);
                }
                let def = match &inner.0 {
                    Expr::Fn(_, _) => make_fn_def(ctx, id.0.clone(), inner, decorators, &s.1),
                    _ => make_class_def(ctx, id.0.clone(), inner, decorators, &s.1),
                };
                match def {
                    Err(err) => Err(err),
                    Ok(f) => {
                        let mut stmts = pre;
                        stmts.extend(f);
                        let mut decls = new_idents();
                        push_ident(&mut decls, id.0.clone());
                        Ok((stmts, decls))
                    },
                }
            },
            _ => wrong_node(s.1),
        },
        _ => wrong_node(s.1),
    }
}

/// Whether the assignment `s` defines a function or a class.
fn defines(s: &SStmt) -> (b: bool)
    ensures
        b == is_definition(s.0),
{
    match &s.0 {
        Stmt::Assign(lhs, rhs, _) => match &lhs.0 {
            Expr::Ident(_) => {
                let inner = peel_innermost(rhs);
                match &inner.0 {
                    Expr::Fn(_, _) => true,
                    Expr::Class(_, _) => true,
                    _ => false,
                }
            },
            _ => false,
        },
        _ => false,
    }
}

/// The binding that the assignment `s` makes.
pub fn transform_assignment(ctx: &mut TfCtx, s: &SStmt, decl_only: bool) -> (r: TfResult<
    (PyBlock, Vec<PyIdent>),
>)
    requires
        old(ctx).wf(),
    ensures
        bind_result(*old(ctx), *final(ctx), lower_assignment(old(ctx).env(), *s, decl_only), r),
    decreases s, 4int,
{
    if defines(s) {
        return transform_definition(ctx, s);
    }
    match &s.0 {
        Stmt::Assign(lhs, rhs, _) => {
            let v = match transform_with_placeholder_guard(ctx, rhs) {
                Err(err) => {
                    return Err(err);
                },
                Ok(v) => v,
            };
            let d = match destructure(ctx, lhs, decl_only) {
                Err(err) => {
                    return Err(err);
                },
                Ok(d) => d,
            };
            let mut stmts = v.pre_stmts;
            stmts.push(SPyStmt::new(PyStmt::Assign(d.assign_to, v.expr), lhs.1));
            stmts.extend(d.post_stmts);
            Ok((stmts, d.declarations))
        },
        _ => wrong_node(s.1),
    }
}

/// An assignment with its scope modifier.
pub fn transform_assign(ctx: &mut TfCtx, s: &SStmt, top_level: bool) -> (r: TfResult<PyBlock>)
    requires
        old(ctx).wf(),
    ensures
        stmts_result(
            *old(ctx),
            *final(ctx),
            top_level,
            lower_assign(old(ctx).env(), *s, top_level),
            r,
        ),
        refused_at_once(*s, top_level) ==> *final(ctx) == *old(ctx),
    decreases s, 5int,
{
    match &s.0 {
        Stmt::Assign(_, _, mods) => {
            let m = match get_scope_modifier(mods, top_level, &s.1) {
                Err(err) => {
                    return Err(err);
                },
                Ok(m) => m,
            };
            let decl_only = match m {
                Some(_) => true,
                None => false,
            };
            let (binding, decls) = match transform_assignment(ctx, s, decl_only) {
                Err(err) => {
                    return Err(err);
                },
                Ok(b) => b,
            };
            let mut stmts = get_scope_modifying_statements(ctx, m, decls, &s.1);
            stmts.extend(binding);
            Ok(stmts)
        },
        _ => wrong_node(s.1),
    }
}

/// A `return`, `raise` or `assert`: its expressions, each in a region of
/// its own.
pub fn transform_value_stmt(ctx: &mut TfCtx, s: &SStmt) -> (r: TfResult<PyBlock>)
    requires
        old(ctx).wf(),
    ensures
        stmts_result(*old(ctx), *final(ctx), false, lower_value_stmt(old(ctx).env(), *s), r),
    decreases s, 5int,
{
    match &s.0 {
        Stmt::Return(x) => match transform_with_placeholder_guard(ctx, x) {
            Err(err) => Err(err),
            Ok(o) => {
                let mut stmts = o.pre_stmts;
                stmts.push(SPyStmt::new(PyStmt::Return(o.expr), s.1));
                Ok(stmts)
            },
        },
        Stmt::Raise(x) => match transform_with_placeholder_guard(ctx, x) {
            Err(err) => Err(err),
            Ok(o) => {
                let mut stmts = o.pre_stmts;
                stmts.push(SPyStmt::new(PyStmt::Raise(o.expr), s.1));
                Ok(stmts)
            },
        },
        Stmt::Assert(x, None) => match transform_with_placeholder_guard(ctx, x) {
            Err(err) => Err(err),
            Ok(o) => {
                let mut stmts = o.pre_stmts;
                stmts.push(SPyStmt::new(PyStmt::Assert(o.expr, None), s.1));
                Ok(stmts)
            },
        },
        Stmt::Assert(x, Some(m)) => match transform_with_placeholder_guard(ctx, x) {
            Err(err) => Err(err),
            Ok(o) => match transform_with_placeholder_guard(ctx, m) {
                Err(err) => Err(err),
                Ok(mo) => {
                    let mut stmts = o.pre_stmts;
                    stmts.extend(mo.pre_stmts);
                    stmts.push(SPyStmt::new(PyStmt::Assert(o.expr, Some(mo.expr)), s.1));
                    Ok(stmts)
                },
            },
        },
        _ => wrong_node(s.1),
    }
}

/// A `for` loop: the statements that unpack its target open its body.
pub fn transform_for(ctx: &mut TfCtx, s: &SStmt) -> (r: TfResult<PyBlock>)
    requires
        old(ctx).wf(),
    ensures
        stmts_result(*old(ctx), *final(ctx), false, lower_for(old(ctx).env(), *s), r),
    decreases s, 5int,
{
    match &s.0 {
        Stmt::For(target, iter, body) => {
            let it = match transform_with_placeholder_guard(ctx, iter) {
                Err(err) => {
                    return Err(err);
                },
                Ok(it) => it,
            };
            let d = match destructure(ctx, target, true) {
                Err(err) => {
                    return Err(err);
                },
                Ok(d) => d,
            };
            let b = match transform_block_with_final_stmt(ctx, body) {
                Err(err) => {
                    return Err(err);
                },
                Ok(b) => b,
            };
            let mut body_block = d.post_stmts;
            body_block.extend(b);
            let mut block = it.pre_stmts;
            block.push(SPyStmt::new(PyStmt::For(d.assign_to, it.expr, body_block), s.1));
            Ok(block)
        },
        _ => wrong_node(s.1),
    }
}

/// The head of a `while` loop whose condition lowered to `cond`.
pub fn make_while_head(ctx: &TfCtx, cond: PyExprWithPre, span: &Span) -> (r: PyExprWithPre)
    requires
        ctx.wf(),
    ensures
        r.pre_stmts@ =~= while_head(
            ctx.src(),
            ExprOut { pre: cond.pre_stmts@, expr: cond.expr@, activates: false },
            *span,
        ).pre,
        r.expr@ == while_head(
            ctx.src(),
            ExprOut { pre: cond.pre_stmts@, expr: cond.expr@, activates: false },
            *span,
        ).expr,
{
    if cond.pre_stmts.is_empty() {
        PyExprWithPre { pre_stmts: PyBlock::new(), expr: cond.expr }
    } else {
        let a = PyAstBuilder::new(*span);
        let mut body = cond.pre_stmts;
        body.push(a.return_(cond.expr));
        let f = make_py_fn_exp(ctx, PyBlock::new(), new_arg_defs(), body, span);
        PyExprWithPre {
            pre_stmts: f.pre_stmts,
            expr: a.call(f.expr, new_call_items()),
        }
    }
}

/// A `while` loop.
pub fn transform_while(ctx: &mut TfCtx, s: &SStmt) -> (r: TfResult<PyBlock>)
    requires
        old(ctx).wf(),
    ensures
        stmts_result(*old(ctx), *final(ctx), false, lower_while(old(ctx).env(), *s), r),
    decreases s, 5int,
{
    match &s.0 {
        Stmt::While(cond, body) => {
            let c = match transform_with_placeholder_guard(ctx, cond) {
                Err(err) => {
                    return Err(err);
                },
                Ok(c) => c,
            };
            let b = match transform_block_with_final_stmt(ctx, body) {
                Err(err) => {
                    return Err(err);
                },
                Ok(b) => b,
            };
            let head = make_while_head(ctx, c, &s.1);
            let mut stmts = head.pre_stmts;
            stmts.push(SPyStmt::new(PyStmt::While(head.expr, b), s.1));
            Ok(stmts)
        },
        _ => wrong_node(s.1),
    }
}

/// The types that a handler catches; `Exception` where it names none.
pub fn transform_handler_types(ctx: &mut TfCtx, types: &Option<ExceptTypes>, span: &Span) -> (r:
    TfResult<PyExprWithPre>)
    requires
        old(ctx).wf(),
    ensures
        expr_result(
            *old(ctx),
            *final(ctx),
            lower_handler_types(old(ctx).env(), *types, *span),
            r,
        ),
    decreases types, 2int,
{
    match types {
        Some(t) => transform_except_types(ctx, t, span),
        None => Ok(
            PyExprWithPre {
                pre_stmts: PyBlock::new(),
                expr: PyAstBuilder::new(*span).load_ident("Exception"),
            },
        ),
    }
}

/// The handlers of a `try` statement, in their order.
#[verifier::loop_isolation(false)]
pub fn transform_handlers(ctx: &mut TfCtx, handlers: &Vec<ExceptHandler>, span: &Span) -> (r:
    TfResult<Vec<PyExceptHandler>>)
    requires
        old(ctx).wf(),
    ensures
        same_exports(*old(ctx), *final(ctx)),
        match try_handlers_from(old(ctx).env(), handlers@, *span, 0, no_items()) {
            Ok(o) => {
                &&& r is Ok
                &&& handlers_view(r->Ok_0@) =~= o.items
                &&& stepped(*old(ctx), *final(ctx), o.activates)
            },
            Err(e) => r is Err && r->Err_0@ == e && kept(*old(ctx), *final(ctx)),
        },
    decreases handlers, 0int,
{
    let ghost env = ctx.env();
    let ghost start = *ctx;
    let ghost mut acc: ItemsOut<PyExceptHandlerView> = no_items();
    let mut excepts = new_handlers();
    let mut i: usize = 0;
    while i < handlers.len()
        invariant
            i <= handlers.len(),
            ctx.wf(),
            ctx.env() == env,
            same_exports(start, *ctx),
            stepped(start, *ctx, acc.activates),
            handlers_view(excepts@) =~= acc.items,
            try_handlers_from(env, handlers@, *span, 0, no_items()) == try_handlers_from(
                env,
                handlers@,
                *span,
                i as int,
                acc,
            ),
        decreases handlers.len() - i,
    {
        let handler = &handlers[i];
        let t = match transform_handler_types(ctx, &handler.types, span) {
            Err(err) => {
                return Err(err);
            },
            Ok(t) => t,
        };
        let b = match transform_block_with_final_stmt(ctx, &handler.body) {
            Err(err) => {
                return Err(err);
            },
            Ok(b) => b,
        };
        let name = match &handler.name {
            Some(n) => Some(n.0.clone()),
            None => None,
        };
        proof {
            let tm = lower_handler_types(env, handler.types, *span)->Ok_0;
            let bm = block_stmts(env, handler.body)->Ok_0;
            acc = ItemsOut {
                pre: acc.pre,
                items: acc.items.push(
                    mk_handler(
                        Some(tm.expr),
                        opt_name(handler.name),
                        bm.stmts,
                    ),
                ),
                activates: acc.activates || tm.activates || bm.activates,
            };
        }
        push_handler(&mut excepts, PyExceptHandler { typ: Some(t.expr), name, body: b });
        i += 1;
    }
    Ok(excepts)
}

/// The statements of an optional block.
pub fn transform_opt_sblock(ctx: &mut TfCtx, b: &Option<SBlock>) -> (r: TfResult<Option<PyBlock>>)
    requires
        old(ctx).wf(),
    ensures
        same_exports(*old(ctx), *final(ctx)),
        match opt_sblock_stmts(old(ctx).env(), *b) {
            Ok(None) => r is Ok && r->Ok_0 is None && stepped(*old(ctx), *final(ctx), false),
            Ok(Some(o)) => {
                &&& r is Ok
                &&& r->Ok_0 is Some
                &&& r->Ok_0->Some_0@ =~= o.stmts
                &&& stepped(*old(ctx), *final(ctx), o.activates)
            },
            Err(e) => r is Err && r->Err_0@ == e && kept(*old(ctx), *final(ctx)),
        },
    decreases b, 3int,
{
    match b {
        None => Ok(None),
        Some(x) => match transform_block_with_final_stmt(ctx, x) {
            Err(err) => Err(err),
            Ok(o) => Ok(Some(o)),
        },
    }
}

/// A `try` statement.
pub fn transform_try(ctx: &mut TfCtx, s: &SStmt) -> (r: TfResult<PyBlock>)
    requires
        old(ctx).wf(),
    ensures
        stmts_result(*old(ctx), *final(ctx), false, lower_try(old(ctx).env(), *s), r),
    decreases s, 5int,
{
    match &s.0 {
        Stmt::Try(body, handlers, finally) => {
            let b = match transform_block_with_final_stmt(ctx, body) {
                Err(err) => {
                    return Err(err);
                },
                Ok(b) => b,
            };
            let f = match transform_opt_sblock(ctx, finally) {
                Err(err) => {
                    return Err(err);
                },
                Ok(f) => f,
            };
            let h = match transform_handlers(ctx, handlers, &s.1) {
                Err(err) => {
                    return Err(err);
                },
                Ok(h) => h,
            };
            let mut stmts = PyBlock::new();
            stmts.push(PyAstBuilder::new(s.1).try_(b, h, f));
            Ok(stmts)
        },
        _ => wrong_node(s.1),
    }
}

/// The names of `trunk`, joined by dots.
pub fn join_trunk(trunk: &Vec<SIdent>) -> (s: String)
    ensures
        s@ == join_dots(trunk@, trunk@.len() as int),
{
    let mut s = String::new();
    let mut i: usize = 0;
    while i < trunk.len()
        invariant
            i <= trunk.len(),
            s@ == join_dots(trunk@, i as int),
        decreases trunk.len() - i,
    {
        if i > 0 {
            s.append(".");
        }
        s.append(trunk[i].0.as_str());
        proof {
            if i == 0 {
                assert(Seq::<char>::empty() + trunk@[0].0@ =~= trunk@[0].0@);
            }
        }
        i += 1;
    }
    s
}

/// `level` dots.
pub fn dots_string(level: usize) -> (s: String)
    ensures
        s@ == dots(level as int),
{
    let mut s = String::new();
    let mut i: usize = 0;
    while i < level
        invariant
            i <= level,
            s@ == dots(i as int),
        decreases level - i,
    {
        s.append(".");
        i += 1;
    }
    s
}

/// The aliases that a list of imported leaves becomes, and the names under
/// which the leaves are bound.
pub fn import_leaves(leaves: &Vec<(SIdent, Option<SIdent>)>) -> (r: (
    Vec<PyImportAlias>,
    Vec<PyIdent>,
))
    ensures
        aliases_view(r.0@) =~= leaves_aliases(leaves@),
        idents_view(r.1@) =~= leaves_bound_names(leaves@),
{
    let mut aliases = new_aliases();
    let mut names = new_idents();
    let mut i: usize = 0;
    while i < leaves.len()
        invariant
            i <= leaves.len(),
            aliases_view(aliases@).len() == i,
            idents_view(names@).len() == i,
            forall|k: int| 0 <= k < i ==> aliases_view(aliases@)[k] == leaf_alias(leaves@[k]),
            forall|k: int| 0 <= k < i ==> idents_view(names@)[k] == leaf_bound_name(leaves@[k]),
        decreases leaves.len() - i,
    {
        let leaf = &leaves[i];
        let as_name = match &leaf.1 {
            Some(a) => Some(a.0.clone()),
            None => None,
        };
        let bound = match &leaf.1 {
            Some(a) => a.0.clone(),
            None => leaf.0.0.clone(),
        };
        push_alias(&mut aliases, PyImportAlias { name: leaf.0.0.clone(), as_name });
        push_ident(&mut names, bound);
        i += 1;
    }
    (aliases, names)
}

/// An import statement. A re-exporting import marks what it binds.
pub fn transform_import(ctx: &mut TfCtx, imp: &ImportStmt, span: &Span, top_level: bool) -> (r:
    TfResult<PyBlock>)
    requires
        old(ctx).wf(),
    ensures
        stmts_result(*old(ctx), *final(ctx), top_level, lower_import(*imp, *span, top_level), r),
        imp.reexport && !top_level ==> *final(ctx) == *old(ctx),
{
    let base_module = join_trunk(&imp.trunk);
    let mut full_module = dots_string(imp.level);
    full_module.append(base_module.as_str());
    if imp.reexport && !top_level {
        return fail(
            TfErrKind::InvalidReexport,
            "Re-exporting imports is only allowed at the top level",
            *span,
        );
    }
    let aliases = match &imp.imports {
        ImportList::Star => {
            let mut aliases = new_aliases();
            push_alias(&mut aliases, PyImportAlias { name: "*".to_owned(), as_name: None });
            if imp.reexport {
                push_ident(&mut ctx.module_star_exports, full_module);
            }
            aliases
        },
        ImportList::Leaves(leaves) => {
            let (aliases, names) = import_leaves(leaves);
            if imp.reexport {
                extend_idents(&mut ctx.exports, names);
            }
            aliases
        },
    };
    let a = PyAstBuilder::new(*span);
    let py_import = if imp.trunk.len() > 0 {
        a.import_from(Some(base_module), aliases, imp.level)
    } else if imp.level != 0 {
        a.import_from(None, aliases, imp.level)
    } else {
        a.import(aliases)
    };
    let mut stmts = PyBlock::new();
    stmts.push(py_import);
    Ok(stmts)
}

/// A statement.
pub fn transform_stmt(ctx: &mut TfCtx, s: &SStmt, top_level: bool) -> (r: TfResult<PyBlock>)
    requires
        old(ctx).wf(),
    ensures
        stmts_result(
            *old(ctx),
            *final(ctx),
            top_level,
            lower_stmt(old(ctx).env(), *s, top_level),
            r,
        ),
        refused_at_once(*s, top_level) ==> *final(ctx) == *old(ctx),
    decreases s, 10int,
{
    match &s.0 {
        Stmt::Expr(x, mods) => {
            if mods.len() > 0 {
                return fail(
                    TfErrKind::InvalidModifier,
                    "Modifiers are not allowed on expression statements",
                    s.1,
                );
            }
            transform_expr_stmt(ctx, x, &s.1)
        },
        Stmt::Assert(_, _) => transform_value_stmt(ctx, s),
        Stmt::Return(_) => transform_value_stmt(ctx, s),
        Stmt::Raise(_) => transform_value_stmt(ctx, s),
        Stmt::Assign(_, _, _) => transform_assign(ctx, s, top_level),
        Stmt::For(_, _, _) => transform_for(ctx, s),
        Stmt::While(_, _) => transform_while(ctx, s),
        Stmt::Try(_, _, _) => transform_try(ctx, s),
        Stmt::Break => {
            let mut stmts = PyBlock::new();
            stmts.push(SPyStmt::new(PyStmt::Break, s.1));
            Ok(stmts)
        },
        Stmt::Continue => {
            let mut stmts = PyBlock::new();
            stmts.push(SPyStmt::new(PyStmt::Continue, s.1));
            Ok(stmts)
        },
        Stmt::Import(imp) => transform_import(ctx, imp, &s.1, top_level),
        Stmt::Error => fail(
            TfErrKind::InternalError,
            "unexpected statement error (should have been caught in lexer)",
            s.1,
        ),
        Stmt::Module => fail(
            TfErrKind::InternalError,
            "Module statements are not allowed in the transform phase",
            s.1,
        ),
    }
}

} // verus!
