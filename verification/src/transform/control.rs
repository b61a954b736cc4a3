//! Lowering of `if`, `match` and blocks, as expressions and as statements.

use vstd::prelude::*;
use crate::ast::{Block, Expr, SBlock, SExpr, Span};
use crate::py::ast::{
    match_cases_view, PyAccessCtx, PyBlock, PyExpr, PyMatchCase, PyMatchCaseView, PyStmt,
    SPyExpr, SPyStmt,
};
use crate::py::util::{mk_store, new_match_cases, push_match_case, PyAstBuilder};
use crate::transform::block::transform_block;
use crate::transform::context::{kept, same_exports, stepped, TfCtx};
use crate::transform::errors::{fail, TfErrKind, wrong_node};
use crate::transform::expr::{transform_with_access, transform_with_placeholder_guard};
use crate::transform::outcome::{
    block_result, BlockFinal, expr_result, PyBlockWithFinal, PyExprWithPre, stmts_result,
    TfResult,
};
use crate::transform::rules::{
    block_stmts, CasesOut, lower_arm, lower_block, lower_block_expr, lower_expr_stmt,
    lower_guarded, lower_if_expr, lower_if_stmt, lower_match_expr, lower_match_stmt,
    lower_pattern, match_expr_cases_from, match_stmt_cases_from, opt_block_stmts,
};

verus! {

/// The statements of a block that is not asked for a value.
pub fn transform_block_with_final_stmt(ctx: &mut TfCtx, b: &SBlock) -> (r: TfResult<PyBlock>)
    requires
        old(ctx).wf(),
    ensures
        stmts_result(*old(ctx), *final(ctx), false, block_stmts(old(ctx).env(), *b), r),
    decreases b, 2int,
{
    match transform_block(ctx, b, false, false) {
        Err(err) => Err(err),
        Ok(tr) => Ok(tr.stmts),
    }
}

/// A block that is asked for a value.
pub fn transform_block_with_final_expr(ctx: &mut TfCtx, b: &SBlock) -> (r: TfResult<
    PyBlockWithFinal,
>)
    requires
        old(ctx).wf(),
    ensures
        block_result(
            *old(ctx),
            *final(ctx),
            false,
            lower_block(old(ctx).env(), *b, true, false),
            r,
        ),
    decreases b, 2int,
{
    transform_block(ctx, b, true, false)
}

/// The statements of an optional block.
pub fn transform_opt_block(ctx: &mut TfCtx, b: &Option<Box<SBlock>>) -> (r: TfResult<
    Option<PyBlock>,
>)
    requires
        old(ctx).wf(),
    ensures
        same_exports(*old(ctx), *final(ctx)),
        match opt_block_stmts(old(ctx).env(), *b) {
            Ok(None) => r is Ok && r->Ok_0 is None && stepped(*old(ctx), *final(ctx), false),
            Ok(Some(o)) => {
                &&& r is Ok
                &&& r->Ok_0 is Some
                &&& r->Ok_0->Some_0@ =~= o.stmts
                &&& stepped(*old(ctx), *final(ctx), o.activates)
            },
            Err(e) => r is Err && r->Err_0@ == e && kept(*old(ctx), *final(ctx)),
        },
    decreases b, 3int,
{
    match b {
        None => Ok(None),
        Some(x) => match transform_block_with_final_stmt(ctx, x) {
            Err(err) => Err(err),
            Ok(o) => Ok(Some(o)),
        },
    }
}

/// A block whose value is asked for: it must end with a value.
pub fn transform_block_expr(ctx: &mut TfCtx, e: &SExpr) -> (r: TfResult<PyExprWithPre>)
    requires
        old(ctx).wf(),
    ensures
        expr_result(*old(ctx), *final(ctx), lower_block_expr(old(ctx).env(), *e), r),
    decreases e, 5int,
{
    match &e.0 {
        Expr::Block(b) => match transform_block(ctx, b, true, false) {
            Err(err) => Err(err),
            Ok(o) => match o.final_ {
                BlockFinal::Expr(x) => Ok(PyExprWithPre { pre_stmts: o.stmts, expr: x }),
                _ => fail(
                    TfErrKind::MissingFinalExpr,
                    "block-expression must have a final expression",
                    b.1,
                ),
            },
        },
        _ => wrong_node(e.1),
    }
}

/// An arm of an `if` or `match` in expression position: its value is
/// assigned to the temporary `ret`, unless the arm never falls through.
pub fn transform_arm(
    ctx: &mut TfCtx,
    b: &SBlock,
    ret: &str,
    ret_span: Span,
    assign_span: Span,
    message: &str,
) -> (r: TfResult<PyBlock>)
    requires
        old(ctx).wf(),
    ensures
        stmts_result(
            *old(ctx),
            *final(ctx),
            false,
            lower_arm(old(ctx).env(), *b, mk_store(ret@, ret_span), assign_span, message@),
            r,
        ),
    decreases b, 2int,
{
    match transform_block(ctx, b, true, false) {
        Err(err) => Err(err),
        Ok(o) => {
            let mut stmts = o.stmts;
            match o.final_ {
                BlockFinal::Expr(x) => {
                    let target = PyAstBuilder::new(ret_span).store_ident(ret);
                    stmts.push(PyAstBuilder::new(assign_span).assign(target, x));
                    Ok(stmts)
                },
                BlockFinal::Never => Ok(stmts),
                BlockFinal::Nothing => fail(TfErrKind::MissingFinalExpr, message, b.1),
            }
        },
    }
}

/// `if` in expression position: an `if` statement whose arms assign to a
/// temporary, which is the value.
pub fn transform_if_expr(ctx: &mut TfCtx, e: &SExpr) -> (r: TfResult<PyExprWithPre>)
    requires
        old(ctx).wf(),
    ensures
        expr_result(*old(ctx), *final(ctx), lower_if_expr(old(ctx).env(), *e), r),
    decreases e, 5int,
{
    match &e.0 {
        Expr::If(cond, then, otherwise) => {
            let c = match transform_with_access(ctx, cond, PyAccessCtx::Load) {
                Err(err) => {
                    return Err(err);
                },
                Ok(c) => c,
            };
            let ret = ctx.temp_var_name("ifexp", e.1.start);
            let t = match transform_arm(
                ctx,
                then,
                ret.as_str(),
                e.1,
                e.1,
                "then block must have a final expression",
            ) {
                Err(err) => {
                    return Err(err);
                },
                Ok(t) => t,
            };
            let eb = match otherwise {
                None => {
                    return fail(
                        TfErrKind::MissingFinalExpr,
                        "else block is required in an if-expr",
                        e.1,
                    );
                },
                Some(eb) => eb,
            };
            let f = match transform_arm(
                ctx,
                eb,
                ret.as_str(),
                e.1,
                e.1,
                "else block must have a final expression",
            ) {
                Err(err) => {
                    return Err(err);
                },
                Ok(f) => f,
            };
            let mut aux = c.pre_stmts;
            aux.push(SPyStmt::new(PyStmt::If(c.expr, t, Some(f)), e.1));
            Ok(
                PyExprWithPre {
                    pre_stmts: aux,
                    expr: PyAstBuilder::new(e.1).load_ident(ret.as_str()),
                },
            )
        },
        _ => wrong_node(e.1),
    }
}

/// The pattern of a case: a pattern expression in a region of its own, or
/// `_` where there is none.
pub fn transform_pattern(ctx: &mut TfCtx, pattern: &Option<SExpr>, span: &Span) -> (r: TfResult<
    PyExprWithPre,
>)
    requires
        old(ctx).wf(),
    ensures
        expr_result(*old(ctx), *final(ctx), lower_pattern(old(ctx).env(), *pattern, *span), r),
    decreases pattern, 13int,
{
    match pattern {
        Some(p) => transform_with_placeholder_guard(ctx, p),
        None => Ok(
            PyExprWithPre {
                pre_stmts: PyBlock::new(),
                expr: PyAstBuilder::new(*span).load_ident("_"),
            },
        ),
    }
}

/// Whether a pattern is a plain name, which catches everything.
fn is_default_pattern(p: &SPyExpr) -> (b: bool)
    ensures
        b == (p@.value is Ident),
{
    match &p.value {
        PyExpr::Ident(_, _) => true,
        _ => false,
    }
}

/// `match` in expression position: a `match` statement whose cases assign
/// to a temporary, which is the value. The last case must be a default case.
#[verifier::loop_isolation(false)]
pub fn transform_match_expr(ctx: &mut TfCtx, e: &SExpr) -> (r: TfResult<PyExprWithPre>)
    requires
        old(ctx).wf(),
    ensures
        expr_result(*old(ctx), *final(ctx), lower_match_expr(old(ctx).env(), *e), r),
    decreases e, 5int,
{
    let ghost env = ctx.env();
    let ghost start = *ctx;
    match &e.0 {
        Expr::Match(subject, cases) => {
            let s = match transform_with_placeholder_guard(ctx, subject) {
                Err(err) => {
                    return Err(err);
                },
                Ok(s) => s,
            };
            let ret = ctx.temp_var_name("matchexp", e.1.start);
            let ghost init = CasesOut {
                aux: s.pre_stmts@,
                cases: Seq::empty(),
                has_default: false,
                activates: lower_guarded(env, **subject)->Ok_0.activates,
            };
            let ghost mut acc = init;
            let mut aux = s.pre_stmts;
            let mut py_cases = new_match_cases();
            let mut has_default = false;
            let mut i: usize = 0;
            while i < cases.len()
                invariant
                    i <= cases.len(),
                    ctx.wf(),
                    ctx.env() == env,
                    same_exports(start, *ctx),
                    stepped(start, *ctx, acc.activates),
                    aux@ =~= acc.aux,
                    match_cases_view(py_cases@) =~= acc.cases,
                    has_default == acc.has_default,
                    match_expr_cases_from(env, cases@, e.1, ret@, 0, init)
                        == match_expr_cases_from(env, cases@, e.1, ret@, i as int, acc),
                decreases cases.len() - i,
            {
                let case = &cases[i];
                let no_pattern = match &case.0 {
                    None => true,
                    Some(_) => false,
                };
                if no_pattern && i != cases.len() - 1 {
                    return fail(
                        TfErrKind::MissingDefault,
                        "match-expr default case must be the last case",
                        case.1.1,
                    );
                }
                let p = match transform_pattern(ctx, &case.0, &e.1) {
                    Err(err) => {
                        return Err(err);
                    },
                    Ok(p) => p,
                };
                let b = match transform_arm(
                    ctx,
                    &case.1,
                    ret.as_str(),
                    e.1,
                    case.1.1,
                    "match-expr case must have a final expression",
                ) {
                    Err(err) => {
                        return Err(err);
                    },
                    Ok(b) => b,
                };
                proof {
                    let pm = lower_pattern(env, case.0, e.1)->Ok_0;
                    let bm = lower_arm(
                        env,
                        case.1,
                        mk_store(ret@, e.1),
                        case.1.1,
                        "match-expr case must have a final expression"@,
                    )->Ok_0;
                    acc = CasesOut {
                        aux: acc.aux + pm.pre,
                        cases: acc.cases.push(PyMatchCaseView { pattern: pm.expr, body: bm.stmts }),
                        has_default: pm.expr.value is Ident,
                        activates: acc.activates || pm.activates || bm.activates,
                    };
                }
                has_default = is_default_pattern(&p.expr);
                aux.extend(p.pre_stmts);
                push_match_case(&mut py_cases, PyMatchCase { pattern: p.expr, body: b });
                i += 1;
            }
            if !has_default {
                return fail(
                    TfErrKind::MissingDefault,
                    "match-expr must have a default case",
                    e.1,
                );
            }
            aux.push(SPyStmt::new(PyStmt::Match(s.expr, py_cases), e.1));
            Ok(
                PyExprWithPre {
                    pre_stmts: aux,
                    expr: PyAstBuilder::new(e.1).load_ident(ret.as_str()),
                },
            )
        },
        _ => wrong_node(e.1),
    }
}

/// `if` as a statement.
pub fn transform_if_stmt(ctx: &mut TfCtx, e: &SExpr, span: &Span) -> (r: TfResult<PyBlock>)
    requires
        old(ctx).wf(),
    ensures
        stmts_result(*old(ctx), *final(ctx), false, lower_if_stmt(old(ctx).env(), *e, *span), r),
    decreases e, 5int,
{
    match &e.0 {
        Expr::If(cond, then, otherwise) => {
            let c = match transform_with_placeholder_guard(ctx, cond) {
                Err(err) => {
                    return Err(err);
                },
                Ok(c) => c,
            };
            let t = match transform_block_with_final_stmt(ctx, then) {
                Err(err) => {
                    return Err(err);
                },
                Ok(t) => t,
            };
            let f = match transform_opt_block(ctx, otherwise) {
                Err(err) => {
                    return Err(err);
                },
                Ok(f) => f,
            };
            let mut stmts = c.pre_stmts;
            stmts.push(SPyStmt::new(PyStmt::If(c.expr, t, f), *span));
            Ok(stmts)
        },
        _ => wrong_node(e.1),
    }
}

/// `match` as a statement.
#[verifier::loop_isolation(false)]
pub fn transform_match_stmt(ctx: &mut TfCtx, e: &SExpr, span: &Span) -> (r: TfResult<PyBlock>)
    requires
        old(ctx).wf(),
    ensures
        stmts_result(
            *old(ctx),
            *final(ctx),
            false,
            lower_match_stmt(old(ctx).env(), *e, *span),
            r,
        ),
    decreases e, 5int,
{
    let ghost env = ctx.env();
    let ghost start = *ctx;
    match &e.0 {
        Expr::Match(subject, cases) => {
            let s = match transform_with_placeholder_guard(ctx, subject) {
                Err(err) => {
                    return Err(err);
                },
                Ok(s) => s,
            };
            let ghost init = CasesOut {
                aux: s.pre_stmts@,
                cases: Seq::empty(),
                has_default: false,
                activates: lower_guarded(env, **subject)->Ok_0.activates,
            };
            let ghost mut acc = init;
            let mut aux = s.pre_stmts;
            let mut py_cases = new_match_cases();
            let mut i: usize = 0;
            while i < cases.len()
                invariant
                    i <= cases.len(),
                    ctx.wf(),
                    ctx.env() == env,
                    same_exports(start, *ctx),
                    stepped(start, *ctx, acc.activates),
                    aux@ =~= acc.aux,
                    match_cases_view(py_cases@) =~= acc.cases,
                    match_stmt_cases_from(env, cases@, *span, 0, init) == match_stmt_cases_from(
                        env,
                        cases@,
                        *span,
                        i as int,
                        acc,
                    ),
                decreases cases.len() - i,
            {
                let case = &cases[i];
                let p = match transform_pattern(ctx, &case.0, span) {
                    Err(err) => {
                        return Err(err);
                    },
                    Ok(p) => p,
                };
                let b = match transform_block_with_final_stmt(ctx, &case.1) {
                    Err(err) => {
                        return Err(err);
                    },
                    Ok(b) => b,
                };
                proof {
                    let pm = lower_pattern(env, case.0, *span)->Ok_0;
                    let bm = block_stmts(env, case.1)->Ok_0;
                    acc = CasesOut {
                        aux: acc.aux + pm.pre,
                        cases: acc.cases.push(PyMatchCaseView { pattern: pm.expr, body: bm.stmts }),
                        has_default: pm.expr.value is Ident,
                        activates: acc.activates || pm.activates || bm.activates,
                    };
                }
                aux.extend(p.pre_stmts);
                push_match_case(&mut py_cases, PyMatchCase { pattern: p.expr, body: b });
                i += 1;
            }
            aux.push(SPyStmt::new(PyStmt::Match(s.expr, py_cases), *span));
            Ok(aux)
        },
        _ => wrong_node(e.1),
    }
}

/// An expression as a statement. `if` and `match` become statements of
/// their kind; anything else is evaluated in a region of its own.
pub fn transform_expr_stmt(ctx: &mut TfCtx, e: &SExpr, span: &Span) -> (r: TfResult<PyBlock>)
    requires
        old(ctx).wf(),
    ensures
        stmts_result(
            *old(ctx),
            *final(ctx),
            false,
            lower_expr_stmt(old(ctx).env(), *e, *span),
            r,
        ),
    decreases e, 20int,
{
    match &e.0 {
        Expr::If(_, _, _) => transform_if_stmt(ctx, e, span),
        Expr::Match(_, _) => transform_match_stmt(ctx, e, span),
        _ => match transform_with_placeholder_guard(ctx, e) {
            Err(err) => Err(err),
            Ok(o) => {
                let mut stmts = o.pre_stmts;
                stmts.push(SPyStmt::new(PyStmt::Expr(o.expr), *span));
                Ok(stmts)
            },
        },
    }
}

} // verus!
