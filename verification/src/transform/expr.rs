//! Lowering of expressions.

use vstd::prelude::*;
use crate::ast::{BinaryOp, Expr, Literal, SExpr, Span, UnaryOp};
use crate::py::ast::{
    arg_defs_view, PyAccessCtx, PyArgDefItem, PyBinaryOp, PyBlock, PyDecorators, PyExpr,
    PyLiteral, PyStmt, PyUnaryOp, SPyExpr, SPyStmt,
};
use crate::py::util::{new_arg_defs, push_arg_def, PyAstBuilder};
use crate::transform::context::{same_exports, TfCtx};
use crate::transform::control::{transform_block_expr, transform_if_expr, transform_match_expr};
use crate::transform::errors::{fail, TfErrKind, wrong_node};
use crate::transform::function::{make_fn_exp, transform_class_exp};
use crate::transform::literal::{
    transform_checked, transform_fstr, transform_list, transform_mapping, transform_slice,
};
use crate::transform::model::{binary_op_view, close_guard, ExprOut, fn_exp, lower_placeholder};
use crate::transform::outcome::{expr_result, lifted_result, LiftedExpr, PyExprWithPre, TfResult};
use crate::transform::postfix::transform_postfix_expr;
use crate::transform::rules::{
    is_assignable_form, lower_binary, lower_deep_guarded, lower_expr, lower_guarded,
    lower_lifted, lower_unary,
};

verus! {

/// A placeholder: the parameter of the innermost guarded region, which it
/// activates.
pub fn transform_placeholder(ctx: &mut TfCtx, span: &Span, access: PyAccessCtx) -> (r: TfResult<
    PyExprWithPre,
>)
    requires
        old(ctx).wf(),
    ensures
        expr_result(
            *old(ctx),
            *final(ctx),
            lower_placeholder(old(ctx).env(), *span, access),
            r,
        ),
        old(ctx).top() is None ==> *final(ctx) == *old(ctx),
{
    match ctx.activate_top() {
        None => fail(
            TfErrKind::PlaceholderOutsideContext,
            "Placeholder expression outside of placeholder context",
            *span,
        ),
        Some(guard) => {
            let name = ctx.temp_var_name("ph", guard.start);
            Ok(
                PyExprWithPre {
                    pre_stmts: PyBlock::new(),
                    expr: PyAstBuilder::new(*span).ident(name, access),
                },
            )
        },
    }
}

/// A function in expression position from its lowered parts: a lambda where
/// the body is one `return`, else a named definition.
pub fn make_py_fn_exp(
    ctx: &TfCtx,
    aux: PyBlock,
    args: Vec<PyArgDefItem>,
    body: PyBlock,
    span: &Span,
) -> (r: PyExprWithPre)
    requires
        ctx.wf(),
    ensures
        r.pre_stmts@ =~= fn_exp(ctx.src(), aux@, arg_defs_view(args@), body@, *span).pre,
        r.expr@ == fn_exp(ctx.src(), aux@, arg_defs_view(args@), body@, *span).expr,
{
    let mut body = body;
    let mut aux = aux;
    let ghost body0 = body.0@;
    if body.len() == 1 {
        let last = body.0.pop().unwrap();
        let SPyStmt { value, tl_span } = last;
        match value {
            PyStmt::Return(expr) => {
                return PyExprWithPre {
                    pre_stmts: aux,
                    expr: SPyExpr::new(PyExpr::Lambda(args, Box::new(expr)), *span),
                };
            },
            other => {
                body.0.push(SPyStmt { value: other, tl_span });
                assert(body.0@ =~= body0);
            },
        }
    }
    let name = ctx.temp_var_name("fnexp", span.start);
    aux.push(SPyStmt::new(PyStmt::FnDef(name.clone(), args, body, PyDecorators::new()), *span));
    PyExprWithPre { pre_stmts: aux, expr: PyAstBuilder::new(*span).ident(name, PyAccessCtx::Load) }
}

/// Leaves the guarded region at `span`, whose inside lowered to `inner`. An
/// activated region becomes a function of the placeholder.
pub fn placeholder_guard(ctx: &mut TfCtx, span: &Span, inner: TfResult<PyExprWithPre>) -> (r:
    TfResult<PyExprWithPre>)
    requires
        old(ctx).wf(),
        old(ctx).placeholder_ctx_stack@.len() > 0,
        old(ctx).placeholder_ctx_stack@.last().span == *span,
    ensures
        final(ctx).line_cache == old(ctx).line_cache,
        same_exports(*old(ctx), *final(ctx)),
        final(ctx).placeholder_ctx_stack@ == old(ctx).placeholder_ctx_stack@.drop_last(),
        match inner {
            Ok(i) => {
                let c = close_guard(
                    old(ctx).src(),
                    *span,
                    ExprOut {
                        pre: i.pre_stmts@,
                        expr: i.expr@,
                        activates: old(ctx).placeholder_ctx_stack@.last().activated,
                    },
                );
                r is Ok && r->Ok_0.pre_stmts@ =~= c.pre && r->Ok_0.expr@ == c.expr
            },
            Err(e) => r is Err && r->Err_0@ == e@,
        },
{
    let popped = ctx.pop_guard();
    match inner {
        Err(e) => Err(e),
        Ok(i) => if popped.activated {
            let var_name = ctx.temp_var_name("ph", span.start);
            let mut body = i.pre_stmts;
            body.push(PyAstBuilder::new(*span).return_(i.expr));
            let mut args = new_arg_defs();
            push_arg_def(&mut args, PyArgDefItem::Arg(var_name, None));
            Ok(make_py_fn_exp(ctx, PyBlock::new(), args, body, span))
        } else {
            Ok(i)
        },
    }
}

/// An expression inside a guarded region of its own.
pub fn transform_with_placeholder_guard(ctx: &mut TfCtx, e: &SExpr) -> (r: TfResult<
    PyExprWithPre,
>)
    requires
        old(ctx).wf(),
    ensures
        expr_result(*old(ctx), *final(ctx), lower_guarded(old(ctx).env(), *e), r),
    decreases e, 11int,
{
    ctx.push_guard(e.1);
    let inner = transform_with_access(ctx, e, PyAccessCtx::Load);
    placeholder_guard(ctx, &e.1, inner)
}

/// An operand of a call, subscript, slice or literal.
pub fn transform_with_deep_placeholder_guard(ctx: &mut TfCtx, e: &SExpr) -> (r: TfResult<
    PyExprWithPre,
>)
    requires
        old(ctx).wf(),
    ensures
        expr_result(*old(ctx), *final(ctx), lower_deep_guarded(old(ctx).env(), *e), r),
        e.0 is Placeholder && old(ctx).top() is None ==> *final(ctx) == *old(ctx),
    decreases e, 12int,
{
    match &e.0 {
        Expr::Placeholder => transform_placeholder(ctx, &e.1, PyAccessCtx::Load),
        _ => transform_with_placeholder_guard(ctx, e),
    }
}

/// An expression that is read more than once.
pub fn transform_lifted(ctx: &mut TfCtx, e: &SExpr) -> (r: TfResult<LiftedExpr>)
    requires
        old(ctx).wf(),
    ensures
        lifted_result(*old(ctx), *final(ctx), lower_lifted(old(ctx).env(), *e), r),
    decreases e, 11int,
{
    match transform_with_access(ctx, e, PyAccessCtx::Load) {
        Err(err) => Err(err),
        Ok(value) => match &e.0 {
            Expr::Ident(id) => Ok(
                LiftedExpr { pre_stmts: value.pre_stmts, name: id.0.clone(), span: id.1 },
            ),
            _ => {
                let temp_var = ctx.temp_var_name("tmp", e.1.start);
                let a = PyAstBuilder::new(e.1);
                let mut aux = value.pre_stmts;
                aux.push(a.assign(a.ident(temp_var.clone(), PyAccessCtx::Store), value.expr));
                Ok(LiftedExpr { pre_stmts: aux, name: temp_var, span: e.1 })
            },
        },
    }
}

/// An expression read in `Load` context.
pub fn transform_expr(ctx: &mut TfCtx, e: &SExpr) -> (r: TfResult<PyExprWithPre>)
    requires
        old(ctx).wf(),
    ensures
        expr_result(*old(ctx), *final(ctx), lower_expr(old(ctx).env(), *e, PyAccessCtx::Load), r),
    decreases e, 11int,
{
    transform_with_access(ctx, e, PyAccessCtx::Load)
}

/// An expression, read or written as `access` says.
pub fn transform_with_access(ctx: &mut TfCtx, e: &SExpr, access: PyAccessCtx) -> (r: TfResult<
    PyExprWithPre,
>)
    requires
        old(ctx).wf(),
    ensures
        expr_result(*old(ctx), *final(ctx), lower_expr(old(ctx).env(), *e, access), r),
        !is_assignable_form(e.0) && access != PyAccessCtx::Load ==> *final(ctx) == *old(ctx),
        e.0 is Placeholder && old(ctx).top() is None ==> *final(ctx) == *old(ctx),
    decreases e, 10int,
{
    let assignable = match &e.0 {
        Expr::Attribute(_, _) | Expr::Subscript(_, _) | Expr::Ident(_) => true,
        _ => false,
    };
    if !assignable && access != PyAccessCtx::Load {
        return fail(
            TfErrKind::InvalidAssignTarget,
            "Expression context must be Load for this expression",
            e.1,
        );
    }
    match &e.0 {
        Expr::Placeholder => transform_placeholder(ctx, &e.1, access),
        Expr::Literal(lit) => {
            let value = match &lit.0 {
                Literal::Num(s) => PyLiteral::Num(s.clone()),
                Literal::Str(s) => PyLiteral::Str(s.clone()),
                Literal::Bool(b) => PyLiteral::Bool(*b),
                Literal::Null => PyLiteral::Null,
            };
            Ok(
                PyExprWithPre {
                    pre_stmts: PyBlock::new(),
                    expr: SPyExpr::new(PyExpr::Literal(value), lit.1),
                },
            )
        },
        Expr::Ident(id) => Ok(
            PyExprWithPre {
                pre_stmts: PyBlock::new(),
                expr: PyAstBuilder::new(id.1).ident(id.0.clone(), access),
            },
        ),
        Expr::Attribute(_, _)
        | Expr::MappedAttribute(_, _)
        | Expr::Call(_, _)
        | Expr::MappedCall(_, _)
        | Expr::Subscript(_, _)
        | Expr::MappedSubscript(_, _)
        | Expr::Then(_, _)
        | Expr::MappedThen(_, _) => transform_postfix_expr(ctx, e, access),
        Expr::Binary(_, _, _) => transform_binary(ctx, e),
        Expr::Unary(_, _) => transform_unary(ctx, e),
        Expr::Checked(_, _) => transform_checked(ctx, e),
        Expr::Fn(_, _) => make_fn_exp(ctx, e),
        Expr::Class(_, _) => transform_class_exp(ctx, e),
        Expr::If(_, _, _) => transform_if_expr(ctx, e),
        Expr::Block(_) => transform_block_expr(ctx, e),
        Expr::Match(_, _) => transform_match_expr(ctx, e),
        Expr::List(_) => transform_list(ctx, e),
        Expr::Tuple(_) => transform_list(ctx, e),
        Expr::Mapping(_) => transform_mapping(ctx, e),
        Expr::Slice(_, _, _) => transform_slice(ctx, e),
        Expr::Fstr(_, _) => transform_fstr(ctx, e),
    }
}

/// The Python operator of a binary operator other than `|` and `??`.
fn binary_op(op: BinaryOp) -> (r: PyBinaryOp)
    requires
        binary_op_view(op) is Some,
    ensures
        Some(r) == binary_op_view(op),
{
    match op {
        BinaryOp::Add => PyBinaryOp::Add,
        BinaryOp::Sub => PyBinaryOp::Sub,
        BinaryOp::Mul => PyBinaryOp::Mult,
        BinaryOp::Div => PyBinaryOp::Div,
        BinaryOp::Mod => PyBinaryOp::Mod,
        BinaryOp::Exp => PyBinaryOp::Pow,
        BinaryOp::MatMul => PyBinaryOp::MatMult,
        BinaryOp::Lt => PyBinaryOp::Lt,
        BinaryOp::Gt => PyBinaryOp::Gt,
        BinaryOp::Leq => PyBinaryOp::Leq,
        BinaryOp::Geq => PyBinaryOp::Geq,
        BinaryOp::Eq => PyBinaryOp::Eq,
        BinaryOp::Neq => PyBinaryOp::Neq,
        BinaryOp::Is => PyBinaryOp::Is,
        _ => PyBinaryOp::Nis,
    }
}

/// A binary operation. `l | r` is the call `r(l)`; `l ?? r` reads `l` once
/// and gives `r` where `l` coalesces.
pub fn transform_binary(ctx: &mut TfCtx, e: &SExpr) -> (r: TfResult<PyExprWithPre>)
    requires
        old(ctx).wf(),
    ensures
        expr_result(*old(ctx), *final(ctx), lower_binary(old(ctx).env(), *e), r),
    decreases e, 5int,
{
    let a = PyAstBuilder::new(e.1);
    match &e.0 {
        Expr::Binary(BinaryOp::Pipe, l, r) => {
            match transform_with_placeholder_guard(ctx, l) {
                Err(err) => Err(err),
                Ok(lhs) => match transform_with_placeholder_guard(ctx, r) {
                    Err(err) => Err(err),
                    Ok(rhs) => {
                        let mut aux = lhs.pre_stmts;
                        aux.extend(rhs.pre_stmts);
                        Ok(PyExprWithPre { pre_stmts: aux, expr: a.call1(rhs.expr, lhs.expr) })
                    },
                },
            }
        },
        Expr::Binary(BinaryOp::Coalesce, l, r) => {
            match transform_lifted(ctx, l) {
                Err(err) => Err(err),
                Ok(lhs) => match transform_with_access(ctx, r, PyAccessCtx::Load) {
                    Err(err) => Err(err),
                    Ok(rhs) => {
                        let b = PyAstBuilder::new(lhs.span);
                        let mut aux = lhs.pre_stmts;
                        aux.extend(rhs.pre_stmts);
                        let test = a.call1(
                            a.load_ident("__coalesces"),
                            b.load_ident(lhs.name.as_str()),
                        );
                        Ok(
                            PyExprWithPre {
                                pre_stmts: aux,
                                expr: a.if_expr(test, rhs.expr, b.load_ident(lhs.name.as_str())),
                            },
                        )
                    },
                },
            }
        },
        Expr::Binary(op, l, r) => {
            match transform_with_access(ctx, l, PyAccessCtx::Load) {
                Err(err) => Err(err),
                Ok(lhs) => match transform_with_access(ctx, r, PyAccessCtx::Load) {
                    Err(err) => Err(err),
                    Ok(rhs) => {
                        let mut aux = lhs.pre_stmts;
                        aux.extend(rhs.pre_stmts);
                        Ok(
                            PyExprWithPre {
                                pre_stmts: aux,
                                expr: a.binary(binary_op(*op), lhs.expr, rhs.expr),
                            },
                        )
                    },
                },
            }
        },
        _ => wrong_node(e.1),
    }
}

/// A unary operation; `yield` and `yield from` are expressions of their own.
pub fn transform_unary(ctx: &mut TfCtx, e: &SExpr) -> (r: TfResult<PyExprWithPre>)
    requires
        old(ctx).wf(),
    ensures
        expr_result(*old(ctx), *final(ctx), lower_unary(old(ctx).env(), *e), r),
    decreases e, 5int,
{
    match &e.0 {
        Expr::Unary(op, x) => match transform_with_access(ctx, x, PyAccessCtx::Load) {
            Err(err) => Err(err),
            Ok(o) => {
                let inner = Box::new(o.expr);
                let value = match op {
                    UnaryOp::Neg => PyExpr::Unary(PyUnaryOp::Neg, inner),
                    UnaryOp::Pos => PyExpr::Unary(PyUnaryOp::Pos, inner),
                    UnaryOp::Inv => PyExpr::Unary(PyUnaryOp::Inv, inner),
                    UnaryOp::Yield => PyExpr::Yield(inner),
                    UnaryOp::YieldFrom => PyExpr::YieldFrom(inner),
                };
                Ok(PyExprWithPre { pre_stmts: o.pre_stmts, expr: SPyExpr::new(value, e.1) })
            },
        },
        _ => wrong_node(e.1),
    }
}

} // verus!
