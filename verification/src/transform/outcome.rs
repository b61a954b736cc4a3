//! What the lowering functions return, and how a returned value and the
//! state left behind answer to a rule of the model.

use vstd::prelude::*;
use crate::ast::Span;
use crate::py::ast::{
    arg_defs_view, call_items_view, idents_view, PyArgDefItem, PyBlock, PyCallItem,
    PyCallItemView, PyIdent, SPyExpr,
};
use crate::py::util::mk_load;
use crate::transform::context::{exported, exports_extended, kept, same_exports, stepped, TfCtx};
use crate::transform::errors::TfErrs;
use crate::transform::model::{
    BlockOut, DesOut, ExprOut, FinalView, FnParts, ItemsOut, Lowered, StmtsOut,
};
use crate::transform::rules::BindOut;

verus! {

pub type TfResult<T> = Result<T, TfErrs>;

/// An expression with the statements that must run before it.
#[derive(Debug, PartialEq)]
pub struct PyExprWithPre {
    pub pre_stmts: PyBlock,
    pub expr: SPyExpr,
}

/// How a block ends.
#[derive(Debug, PartialEq)]
pub enum BlockFinal {
    Expr(SPyExpr),
    Never,
    Nothing,
}

#[derive(Debug, PartialEq)]
pub struct PyBlockWithFinal {
    pub stmts: PyBlock,
    pub final_: BlockFinal,
}

impl View for BlockFinal {
    type V = FinalView;

    open spec fn view(&self) -> FinalView {
        match self {
            BlockFinal::Expr(e) => FinalView::Expr(e@),
            BlockFinal::Never => FinalView::Never,
            BlockFinal::Nothing => FinalView::Nothing,
        }
    }
}

/// A destructured target.
#[derive(Debug, PartialEq)]
pub struct DestructureBindings {
    pub assign_to: SPyExpr,
    pub post_stmts: PyBlock,
    pub declarations: Vec<PyIdent>,
}

/// A value that is read through a name: a plain name, or the temporary that
/// holds the value.
pub struct LiftedExpr {
    pub pre_stmts: PyBlock,
    pub name: String,
    pub span: Span,
}

/// The parts of a lowered function.
pub struct PyFnParts {
    pub aux_stmts: PyBlock,
    pub body_stmts: PyBlock,
    pub args: Vec<PyArgDefItem>,
}

/// `r`, with the state `new` left behind, is what the model says of an
/// expression.
pub open spec fn expr_result(
    old: TfCtx,
    new: TfCtx,
    model: Lowered<ExprOut>,
    r: TfResult<PyExprWithPre>,
) -> bool {
    &&& same_exports(old, new)
    &&& match model {
        Ok(o) => {
            &&& r is Ok
            &&& r->Ok_0.pre_stmts@ =~= o.pre
            &&& r->Ok_0.expr@ == o.expr
            &&& stepped(old, new, o.activates)
        },
        Err(e) => r is Err && r->Err_0@ == e && kept(old, new),
    }
}

/// `r`, with the state `new` left behind, is what the model says of a lifted
/// expression.
pub open spec fn lifted_result(
    old: TfCtx,
    new: TfCtx,
    model: Lowered<ExprOut>,
    r: TfResult<LiftedExpr>,
) -> bool {
    &&& same_exports(old, new)
    &&& match model {
        Ok(o) => {
            &&& r is Ok
            &&& r->Ok_0.pre_stmts@ =~= o.pre
            &&& mk_load(r->Ok_0.name@, r->Ok_0.span) == o.expr
            &&& stepped(old, new, o.activates)
        },
        Err(e) => r is Err && r->Err_0@ == e && kept(old, new),
    }
}

/// `r`, with the state `new` left behind, is what the model says of a
/// statement or of the statements of a block.
pub open spec fn stmts_result(
    old: TfCtx,
    new: TfCtx,
    top_level: bool,
    model: Lowered<StmtsOut>,
    r: TfResult<PyBlock>,
) -> bool {
    &&& !top_level ==> same_exports(old, new)
    &&& exports_extended(old, new)
    &&& match model {
        Ok(o) => {
            &&& r is Ok
            &&& r->Ok_0@ =~= o.stmts
            &&& stepped(old, new, o.activates)
            &&& exported(old, new, o.exports, o.star_exports)
        },
        Err(e) => r is Err && r->Err_0@ == e && kept(old, new) && same_exports(old, new),
    }
}

/// `r`, with the state `new` left behind, is what the model says of a block.
pub open spec fn block_result(
    old: TfCtx,
    new: TfCtx,
    top_level: bool,
    model: Lowered<BlockOut>,
    r: TfResult<PyBlockWithFinal>,
) -> bool {
    &&& !top_level ==> same_exports(old, new)
    &&& exports_extended(old, new)
    &&& match model {
        Ok(o) => {
            &&& r is Ok
            &&& r->Ok_0.stmts@ =~= o.stmts
            &&& r->Ok_0.final_@ == o.final_
            &&& stepped(old, new, o.activates)
            &&& exported(old, new, o.exports, o.star_exports)
        },
        Err(e) => r is Err && r->Err_0@ == e && kept(old, new) && same_exports(old, new),
    }
}

/// `r`, with the state `new` left behind, is what the model says of a
/// destructured target.
pub open spec fn des_result(
    old: TfCtx,
    new: TfCtx,
    model: Lowered<DesOut>,
    r: TfResult<DestructureBindings>,
) -> bool {
    &&& same_exports(old, new)
    &&& match model {
        Ok(o) => {
            &&& r is Ok
            &&& r->Ok_0.assign_to@ == o.assign_to
            &&& r->Ok_0.post_stmts@ =~= o.post
            &&& idents_view(r->Ok_0.declarations@) =~= o.decls
            &&& stepped(old, new, o.activates)
        },
        Err(e) => r is Err && r->Err_0@ == e && kept(old, new),
    }
}

/// `r`, with the state `new` left behind, is what the model says of the
/// binding of an assignment.
pub open spec fn bind_result(
    old: TfCtx,
    new: TfCtx,
    model: Lowered<BindOut>,
    r: TfResult<(PyBlock, Vec<PyIdent>)>,
) -> bool {
    &&& same_exports(old, new)
    &&& match model {
        Ok(o) => {
            &&& r is Ok
            &&& r->Ok_0.0@ =~= o.stmts
            &&& idents_view(r->Ok_0.1@) =~= o.decls
            &&& stepped(old, new, o.activates)
        },
        Err(e) => r is Err && r->Err_0@ == e && kept(old, new),
    }
}

/// `r`, with the state `new` left behind, is what the model says of the
/// arguments of a call or the bases of a class.
pub open spec fn call_items_result(
    old: TfCtx,
    new: TfCtx,
    model: Lowered<ItemsOut<PyCallItemView>>,
    r: TfResult<(PyBlock, Vec<PyCallItem>)>,
) -> bool {
    &&& same_exports(old, new)
    &&& match model {
        Ok(o) => {
            &&& r is Ok
            &&& r->Ok_0.0@ =~= o.pre
            &&& call_items_view(r->Ok_0.1@) =~= o.items
            &&& stepped(old, new, o.activates)
        },
        Err(e) => r is Err && r->Err_0@ == e && kept(old, new),
    }
}

/// `r`, with the state `new` left behind, is what the model says of the
/// parts of a function.
pub open spec fn fn_parts_result(
    old: TfCtx,
    new: TfCtx,
    model: Lowered<FnParts>,
    r: TfResult<PyFnParts>,
) -> bool {
    &&& same_exports(old, new)
    &&& match model {
        Ok(o) => {
            &&& r is Ok
            &&& r->Ok_0.aux_stmts@ =~= o.aux
            &&& r->Ok_0.body_stmts@ =~= o.body
            &&& arg_defs_view(r->Ok_0.args@) =~= o.args
            &&& stepped(old, new, o.activates)
        },
        Err(e) => r is Err && r->Err_0@ == e && kept(old, new),
    }
}

} // verus!
