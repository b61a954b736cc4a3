//! The entry point of the lowering pass.

use vstd::prelude::*;
use vstd::string::StringSliceAdditionalSpecFns;
use crate::ast::SBlock;
use crate::py::ast::{idents_view, PyBlock, PyIdent, PyStmt, SPyStmt};
use crate::transform::block::transform_block;
use crate::transform::context::TfCtx;
use crate::transform::outcome::{BlockFinal, TfResult};
use crate::transform::rules::lower_module;

verus! {

/// What lowering a source text gives.
#[derive(Debug)]
pub struct TransformOutput {
    pub py_block: PyBlock,
    /// The names marked for re-export, in the order met.
    pub exports: Vec<PyIdent>,
    /// The modules re-exported whole, in the order met.
    pub module_star_exports: Vec<PyIdent>,
}

/// `r` is what the top-level block `block` of the text `src` lowers to.
pub open spec fn is_lowering_of(
    src: Seq<u8>,
    block: SBlock,
    treat_final_as_expr: bool,
    r: TfResult<TransformOutput>,
) -> bool {
    match lower_module(src, block, treat_final_as_expr) {
        Ok(o) => {
            &&& r is Ok
            &&& r->Ok_0.py_block@ =~= o.py_block
            &&& idents_view(r->Ok_0.exports@) =~= o.exports
            &&& idents_view(r->Ok_0.module_star_exports@) =~= o.module_star_exports
        },
        Err(e) => r is Err && r->Err_0@ == e,
    }
}

/// Lowers the top-level block `block` of the text `source`. With
/// `treat_final_as_expr` a final expression is kept as an expression
/// statement. The result is a function of the arguments alone, and all the
/// guarded regions that lowering enters it has left at the end.
pub fn transform_ast(source: &str, block: &SBlock, treat_final_as_expr: bool) -> (r: TfResult<
    TransformOutput,
>)
    requires
        source.spec_bytes().len() < usize::MAX,
    ensures
        is_lowering_of(source.spec_bytes(), *block, treat_final_as_expr, r),
{
    let mut ctx = TfCtx::new(source);
    match transform_block(&mut ctx, block, treat_final_as_expr, true) {
        Err(err) => Err(err),
        Ok(b) => {
            assert(ctx.placeholder_ctx_stack@.len() == 0);
            let mut stmts = b.stmts;
            match b.final_ {
                BlockFinal::Expr(x) => {
                    let span = x.tl_span;
                    stmts.push(SPyStmt::new(PyStmt::Expr(x), span));
                },
                _ => {},
            }
            assert(idents_view(ctx.exports@) =~= Seq::<Seq<char>>::empty() + lower_module(
                source.spec_bytes(),
                *block,
                treat_final_as_expr,
            )->Ok_0.exports);
            Ok(
                TransformOutput {
                    py_block: stmts,
                    exports: ctx.exports,
                    module_star_exports: ctx.module_star_exports,
                },
            )
        },
    }
}

/// Lowering is deterministic: two runs on the same text and block give the
/// same statements and the same re-exports, or the same errors.
pub proof fn lemma_lowering_is_deterministic(
    src: Seq<u8>,
    block: SBlock,
    treat_final_as_expr: bool,
    first: TfResult<TransformOutput>,
    second: TfResult<TransformOutput>,
)
    requires
        is_lowering_of(src, block, treat_final_as_expr, first),
        is_lowering_of(src, block, treat_final_as_expr, second),
    ensures
        first is Ok <==> second is Ok,
        first is Ok ==> {
            &&& first->Ok_0.py_block@ == second->Ok_0.py_block@
            &&& idents_view(first->Ok_0.exports@) == idents_view(second->Ok_0.exports@)
            &&& idents_view(first->Ok_0.module_star_exports@) == idents_view(
                second->Ok_0.module_star_exports@,
            )
        },
        first is Err ==> first->Err_0@ == second->Err_0@,
{
}

} // verus!
