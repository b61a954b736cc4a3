//! The block shaper: lowering of blocks, with or without a final value.

use vstd::prelude::*;
use crate::ast::{Block, SBlock, SStmt, Stmt};
use crate::py::ast::{PyAccessCtx, PyBlock};
use crate::transform::context::{exported, exports_extended, kept, same_exports, stepped, TfCtx};
use crate::transform::control::transform_expr_stmt;
use crate::transform::errors::{fail, TfErrKind, TfErrs};
use crate::transform::expr::{transform_with_access, transform_with_placeholder_guard};
use crate::transform::model::{
    fail_with, FinalView, Lowered, never_falls, no_names, stmts_only, StmtsOut,
};
use crate::transform::outcome::{block_result, BlockFinal, PyBlockWithFinal, stmts_result, TfResult};
use crate::transform::rules::{
    block_body_from, BlockAcc, empty_block, lower_block, lower_final_expr, lower_guarded,
    lower_stmt, lower_stmt_list, take_stmt,
};
use crate::transform::stmt::transform_stmt;

verus! {

/// How a block ends whose last statement is `last` and gives no value.
fn final_of(last: &Stmt) -> (f: BlockFinal)
    ensures
        f@ == (if never_falls(*last) {
            FinalView::Never
        } else {
            FinalView::Nothing
        }),
{
    match last {
        Stmt::Return(_) => BlockFinal::Never,
        Stmt::Raise(_) => BlockFinal::Never,
        Stmt::Break => BlockFinal::Never,
        Stmt::Continue => BlockFinal::Never,
        _ => BlockFinal::Nothing,
    }
}

/// The statements and errors that the statements of a block have given.
pub struct BlockParts {
    pub stmts: PyBlock,
    pub errs: TfErrs,
    /// Whether no statement has failed.
    pub ok: bool,
}

/// `parts`, with the state `now`, is what the model says that the
/// statements of a block have given so far, from the state `start`.
pub open spec fn shaped(
    start: TfCtx,
    now: TfCtx,
    top_level: bool,
    parts: BlockParts,
    acc: BlockAcc,
) -> bool {
    &&& now.wf()
    &&& kept(start, now)
    &&& !top_level ==> same_exports(start, now)
    &&& exports_extended(start, now)
    &&& parts.ok == acc.ok
    &&& acc.ok ==> stepped(start, now, acc.activates) && exported(
        start,
        now,
        acc.exports,
        acc.star_exports,
    )
    &&& parts.stmts@ =~= acc.stmts
    &&& parts.errs@ =~= acc.errs
}

/// `after` is `before` with the statements or the errors of `r` added.
pub open spec fn absorbed(before: BlockParts, r: TfResult<PyBlock>, after: BlockParts) -> bool {
    match r {
        Ok(t) => after.stmts@ =~= before.stmts@ + t@ && after.errs@ == before.errs@ && after.ok
            == before.ok,
        Err(e) => after.stmts@ == before.stmts@ && after.errs@ =~= before.errs@ + e@ && !after.ok,
    }
}

/// Adds what a statement gave to `parts`.
fn absorb(parts: BlockParts, r: TfResult<PyBlock>) -> (after: BlockParts)
    ensures
        absorbed(parts, r, after),
{
    let mut parts = parts;
    match r {
        Ok(t) => {
            parts.stmts.extend(t);
        },
        Err(e) => {
            parts.errs.extend(e);
            parts.ok = false;
        },
    }
    parts
}

/// A block stays in shape when one more statement is taken.
proof fn lemma_take_stmt(
    start: TfCtx,
    before: TfCtx,
    after: TfCtx,
    top_level: bool,
    acc: BlockAcc,
    m: Lowered<StmtsOut>,
    parts: BlockParts,
    r: TfResult<PyBlock>,
    taken: BlockParts,
)
    requires
        shaped(start, before, top_level, parts, acc),
        stmts_result(before, after, top_level, m, r),
        absorbed(parts, r, taken),
    ensures
        shaped(start, after, top_level, taken, take_stmt(acc, m)),
{
    if acc.ok && m is Ok {
        let o = m->Ok_0;
        assert(after.exports_view() =~= start.exports_view() + (acc.exports + o.exports));
        assert(after.star_exports_view() =~= start.star_exports_view() + (acc.star_exports
            + o.star_exports));
    }
}

/// The last statement of a block that is asked for a value, where it is an
/// expression: its value is the value of the block.
fn take_final_expr(
    ctx: &mut TfCtx,
    last: &SStmt,
    is_top_level: bool,
    parts: BlockParts,
    Ghost(start): Ghost<TfCtx>,
    Ghost(acc): Ghost<BlockAcc>,
) -> (r: (BlockParts, BlockFinal))
    requires
        shaped(start, *old(ctx), is_top_level, parts, acc),
        last.0 is Expr,
    ensures
        shaped(
            start,
            *final(ctx),
            is_top_level,
            r.0,
            lower_final_expr(old(ctx).env(), *last, acc).0,
        ),
        r.1@ == lower_final_expr(old(ctx).env(), *last, acc).1,
    decreases last, 11int,
{
    let ghost before = *ctx;
    match &last.0 {
        Stmt::Expr(x, mods) => {
            if mods.len() > 0 {
                let failed: TfResult<PyBlock> = fail(
                    TfErrKind::InvalidModifier,
                    "Modifiers are not allowed on expression statements",
                    last.1,
                );
                let taken = absorb(parts, failed);
                proof {
                    lemma_take_stmt(
                        start,
                        before,
                        before,
                        is_top_level,
                        acc,
                        fail_with(
                            TfErrKind::InvalidModifier,
                            "Modifiers are not allowed on expression statements"@,
                            last.1,
                        ),
                        parts,
                        failed,
                        taken,
                    );
                }
                (taken, BlockFinal::Nothing)
            } else {
                match transform_with_placeholder_guard(ctx, x) {
                    Ok(o) => {
                        let pre: TfResult<PyBlock> = Ok(o.pre_stmts);
                        let taken = absorb(parts, pre);
                        proof {
                            let m = lower_guarded(before.env(), *x)->Ok_0;
                            assert(ctx.exports_view() =~= before.exports_view()
                                + no_names());
                            assert(ctx.star_exports_view() =~= before.star_exports_view()
                                + no_names());
                            lemma_take_stmt(
                                start,
                                before,
                                *ctx,
                                is_top_level,
                                acc,
                                Ok(stmts_only(m.pre, m.activates)),
                                parts,
                                pre,
                                taken,
                            );
                        }
                        (taken, BlockFinal::Expr(o.expr))
                    },
                    Err(e) => {
                        let failed: TfResult<PyBlock> = Err(e);
                        let taken = absorb(parts, failed);
                        proof {
                            lemma_take_stmt(
                                start,
                                before,
                                *ctx,
                                is_top_level,
                                acc,
                                Err(lower_guarded(before.env(), *x)->Err_0),
                                parts,
                                failed,
                                taken,
                            );
                        }
                        (taken, BlockFinal::Nothing)
                    },
                }
            }
        },
        _ => (parts, BlockFinal::Nothing),
    }
}

/// The statements of a block up to, and without, the last.
fn transform_body(
    ctx: &mut TfCtx,
    stmts: &Vec<SStmt>,
    is_top_level: bool,
) -> (r: BlockParts)
    requires
        old(ctx).wf(),
        stmts@.len() > 0,
    ensures
        shaped(
            *old(ctx),
            *final(ctx),
            is_top_level,
            r,
            block_body_from(old(ctx).env(), stmts@, is_top_level, 0, empty_block()),
        ),
    decreases stmts, 1int,
{
    let ghost env = ctx.env();
    let ghost start = *ctx;
    let mut parts = BlockParts { stmts: PyBlock::new(), errs: TfErrs::new(), ok: true };
    let ghost mut acc: BlockAcc = empty_block();
    proof {
        assert(ctx.exports_view() =~= start.exports_view() + acc.exports);
        assert(ctx.star_exports_view() =~= start.star_exports_view() + acc.star_exports);
    }
    let mut i: usize = 0;
    while i < stmts.len() - 1
        invariant
            stmts@.len() > 0,
            i <= stmts.len() - 1,
            env == start.env(),
            ctx.env() == env,
            shaped(start, *ctx, is_top_level, parts, acc),
            block_body_from(env, stmts@, is_top_level, 0, empty_block()) == block_body_from(
                env,
                stmts@,
                is_top_level,
                i as int,
                acc,
            ),
        decreases stmts.len() - i,
    {
        let ghost before = *ctx;
        let r = transform_stmt(ctx, &stmts[i], is_top_level);
        let ghost parts_before = parts;
        let ghost m = lower_stmt(env, stmts@[i as int], is_top_level);
        parts = absorb(parts, r);
        proof {
            lemma_take_stmt(start, before, *ctx, is_top_level, acc, m, parts_before, r, parts);
            acc = take_stmt(acc, m);
        }
        i += 1;
    }
    parts
}

/// A list of statements as a block. The errors of sibling statements
/// accumulate; the block fails at its end if there were any.
pub fn transform_stmt_list(
    ctx: &mut TfCtx,
    stmts: &Vec<SStmt>,
    treat_final_as_expr: bool,
    is_top_level: bool,
) -> (r: TfResult<PyBlockWithFinal>)
    requires
        old(ctx).wf(),
    ensures
        block_result(
            *old(ctx),
            *final(ctx),
            is_top_level,
            lower_stmt_list(old(ctx).env(), stmts@, treat_final_as_expr, is_top_level),
            r,
        ),
    decreases stmts, 2int,
{
    let ghost env = ctx.env();
    let ghost start = *ctx;
    if stmts.len() == 0 {
        return Ok(PyBlockWithFinal { stmts: PyBlock::new(), final_: BlockFinal::Nothing });
    }
    let n_exports = ctx.exports.len();
    let n_star_exports = ctx.module_star_exports.len();
    let body = transform_body(ctx, stmts, is_top_level);
    let ghost body_acc = block_body_from(env, stmts@, is_top_level, 0, empty_block());
    let last = &stmts[stmts.len() - 1];
    let is_expr = match &last.0 {
        Stmt::Expr(_, _) => true,
        _ => false,
    };
    let (all, final_) = if treat_final_as_expr && is_expr {
        take_final_expr(ctx, last, is_top_level, body, Ghost(start), Ghost(body_acc))
    } else {
        let ghost before = *ctx;
        let r = transform_stmt(ctx, last, is_top_level);
        let all = absorb(body, r);
        proof {
            lemma_take_stmt(
                start,
                before,
                *ctx,
                is_top_level,
                body_acc,
                lower_stmt(env, *last, is_top_level),
                body,
                r,
                all,
            );
        }
        (all, final_of(&last.0))
    };
    if all.ok {
        Ok(PyBlockWithFinal { stmts: all.stmts, final_ })
    } else {
        // a block that fails marks nothing for re-export
        ctx.exports.truncate(n_exports);
        ctx.module_star_exports.truncate(n_star_exports);
        assert(ctx.exports@ =~= start.exports@);
        assert(ctx.module_star_exports@ =~= start.module_star_exports@);
        Err(all.errs)
    }
}

/// A block. Where `treat_final_as_expr` is set the block is asked for a
/// value: a final expression is that value. A final `return`, `raise`,
/// `break` or `continue` never falls through.
pub fn transform_block(
    ctx: &mut TfCtx,
    b: &SBlock,
    treat_final_as_expr: bool,
    is_top_level: bool,
) -> (r: TfResult<PyBlockWithFinal>)
    requires
        old(ctx).wf(),
    ensures
        block_result(
            *old(ctx),
            *final(ctx),
            is_top_level,
            lower_block(old(ctx).env(), *b, treat_final_as_expr, is_top_level),
            r,
        ),
    decreases b, 1int,
{
    match &b.0 {
        Block::Stmts(stmts) => transform_stmt_list(ctx, stmts, treat_final_as_expr, is_top_level),
        Block::Expr(x) => {
            if treat_final_as_expr {
                match transform_with_access(ctx, x, PyAccessCtx::Load) {
                    Err(err) => Err(err),
                    Ok(t) => Ok(
                        PyBlockWithFinal { stmts: t.pre_stmts, final_: BlockFinal::Expr(t.expr) },
                    ),
                }
            } else {
                match transform_expr_stmt(ctx, x, &x.1) {
                    Err(err) => Err(err),
                    Ok(s) => Ok(PyBlockWithFinal { stmts: s, final_: BlockFinal::Nothing }),
                }
            }
        },
    }
}

} // verus!
