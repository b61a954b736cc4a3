//! What lowering computes, as mathematical functions from a syntax tree to
//! the views of the Python nodes it becomes.
//!
//! A lowering step depends on the source text (for the names of temporaries)
//! and on the innermost placeholder-guarded region around the node. Besides
//! its nodes it reports whether it met a placeholder that belongs to that
//! region (`activates`), and which names it marked for re-export.

use vstd::prelude::*;
use crate::ast::{
    AssignModifier, BinaryOp, Expr, ImportList, ImportStmt, Literal, SIdent, Span, Stmt,
};
use crate::py::ast::{
    PyAccessCtx, PyArgDefItemView, PyBinaryOp, PyExprView, PyImportAliasView, PyLiteralView,
    PyStmtView, SPyExprView, SPyStmtView,
};
use crate::py::util::{
    mk_call1, mk_expr, mk_ident, mk_if_expr, mk_import, mk_import_from, mk_load, mk_return,
    mk_stmt,
};
use crate::transform::errors::{one_err, TfErrKind, TfErrView};
use crate::transform::names::temp_name;

verus! {

/// The result of a lowering step: its value, or the errors it reports.
pub type Lowered<T> = Result<T, Seq<TfErrView>>;

/// What a lowering step reads besides its node.
pub struct Env {
    /// The bytes of the source text.
    pub src: Seq<u8>,
    /// The span of the innermost placeholder-guarded region, if any.
    pub top: Option<Span>,
}

impl Env {
    /// The environment inside a guarded region that starts at `span`.
    pub open spec fn under(self, span: Span) -> Env {
        Env { src: self.src, top: Some(span) }
    }
}

/// An expression with the statements that must run before it.
pub struct ExprOut {
    pub pre: Seq<SPyStmtView>,
    pub expr: SPyExprView,
    pub activates: bool,
}

/// Lowered items of a list of arguments, elements or parts.
pub struct ItemsOut<T> {
    pub pre: Seq<SPyStmtView>,
    pub items: Seq<T>,
    pub activates: bool,
}

/// Lowered statements.
pub struct StmtsOut {
    pub stmts: Seq<SPyStmtView>,
    pub activates: bool,
    pub exports: Seq<Seq<char>>,
    pub star_exports: Seq<Seq<char>>,
}

/// How a block ends.
pub enum FinalView {
    /// With a value.
    Expr(SPyExprView),
    /// With a statement that never falls through.
    Never,
    /// With a statement that may fall through.
    Nothing,
}

pub struct BlockOut {
    pub stmts: Seq<SPyStmtView>,
    pub final_: FinalView,
    pub activates: bool,
    pub exports: Seq<Seq<char>>,
    pub star_exports: Seq<Seq<char>>,
}

/// A destructured target.
pub struct DesOut {
    /// The node that receives the value.
    pub assign_to: SPyExprView,
    /// The statements that unpack it further.
    pub post: Seq<SPyStmtView>,
    /// The names it introduces.
    pub decls: Seq<Seq<char>>,
    pub activates: bool,
}

/// Lowered parameters of a function.
pub struct ArgsOut {
    pub pre: Seq<SPyStmtView>,
    pub post: Seq<SPyStmtView>,
    pub args: Seq<PyArgDefItemView>,
    pub activates: bool,
}

/// The parts of a lowered function.
pub struct FnParts {
    pub aux: Seq<SPyStmtView>,
    pub body: Seq<SPyStmtView>,
    pub args: Seq<PyArgDefItemView>,
    pub activates: bool,
}

pub open spec fn fail_with<T>(kind: TfErrKind, message: Seq<char>, span: Span) -> Lowered<T> {
    Err(one_err(kind, message, span))
}

/// What a rule gives for a node of another kind than its own.
pub open spec fn wrong_node<T>(span: Span) -> Lowered<T> {
    fail_with(TfErrKind::InternalError, "Internal error: node of an unexpected kind"@, span)
}

pub open spec fn no_stmts() -> Seq<SPyStmtView> {
    Seq::empty()
}

pub open spec fn no_names() -> Seq<Seq<char>> {
    Seq::empty()
}

// ---------------------------------------------------------------------------
// Operators
// ---------------------------------------------------------------------------

/// The Python operator of a binary operator; `|` and `??` have none.
pub open spec fn binary_op_view(op: BinaryOp) -> Option<PyBinaryOp> {
    match op {
        BinaryOp::Add => Some(PyBinaryOp::Add),
        BinaryOp::Sub => Some(PyBinaryOp::Sub),
        BinaryOp::Mul => Some(PyBinaryOp::Mult),
        BinaryOp::Div => Some(PyBinaryOp::Div),
        BinaryOp::Mod => Some(PyBinaryOp::Mod),
        BinaryOp::Exp => Some(PyBinaryOp::Pow),
        BinaryOp::MatMul => Some(PyBinaryOp::MatMult),
        BinaryOp::Lt => Some(PyBinaryOp::Lt),
        BinaryOp::Gt => Some(PyBinaryOp::Gt),
        BinaryOp::Leq => Some(PyBinaryOp::Leq),
        BinaryOp::Geq => Some(PyBinaryOp::Geq),
        BinaryOp::Eq => Some(PyBinaryOp::Eq),
        BinaryOp::Neq => Some(PyBinaryOp::Neq),
        BinaryOp::Is => Some(PyBinaryOp::Is),
        BinaryOp::Nis => Some(PyBinaryOp::Nis),
        BinaryOp::Coalesce => None,
        BinaryOp::Pipe => None,
    }
}

pub open spec fn literal_expr(lit: Literal, span: Span) -> SPyExprView {
    mk_expr(
        PyExprView::Literal(
            match lit {
                Literal::Num(s) => PyLiteralView::Num(s@),
                Literal::Str(s) => PyLiteralView::Str(s@),
                Literal::Bool(b) => PyLiteralView::Bool(b),
                Literal::Null => PyLiteralView::Null,
            },
        ),
        span,
    )
}

// ---------------------------------------------------------------------------
// Placeholders and synthesized functions
// ---------------------------------------------------------------------------

/// The name of the parameter that stands for the placeholder of the guarded
/// region that starts at `span`.
pub open spec fn placeholder_name(src: Seq<u8>, span: Span) -> Seq<char> {
    temp_name(src, "ph"@, span.start)
}

/// A placeholder read in `access` context: the parameter of the innermost
/// guarded region, which it activates.
pub open spec fn lower_placeholder(env: Env, span: Span, access: PyAccessCtx) -> Lowered<ExprOut> {
    match env.top {
        None => fail_with(
            TfErrKind::PlaceholderOutsideContext,
            "Placeholder expression outside of placeholder context"@,
            span,
        ),
        Some(guard) => Ok(
            ExprOut {
                pre: no_stmts(),
                expr: mk_ident(placeholder_name(env.src, guard), access, span),
                activates: true,
            },
        ),
    }
}

/// A function in expression position, after the statements `aux`. A body
/// that is one `return` becomes a lambda; any other body becomes a named
/// definition appended to `aux`, and the expression is its name.
pub open spec fn fn_exp(
    src: Seq<u8>,
    aux: Seq<SPyStmtView>,
    args: Seq<PyArgDefItemView>,
    body: Seq<SPyStmtView>,
    span: Span,
) -> ExprOut {
    if body.len() == 1 && body[0].value is Return {
        ExprOut {
            pre: aux,
            expr: mk_expr(PyExprView::Lambda(args, Box::new(body[0].value->Return_0)), span),
            activates: false,
        }
    } else {
        let name = temp_name(src, "fnexp"@, span.start);
        ExprOut {
            pre: aux.push(mk_stmt(PyStmtView::FnDef(name, args, body, Seq::empty()), span)),
            expr: mk_load(name, span),
            activates: false,
        }
    }
}

/// What leaves the guarded region at `span` whose inside lowered to `inner`.
/// An activated region becomes a function of the placeholder.
pub open spec fn close_guard(src: Seq<u8>, span: Span, inner: ExprOut) -> ExprOut {
    if inner.activates {
        fn_exp(
            src,
            no_stmts(),
            seq![PyArgDefItemView::Arg(placeholder_name(src, span), None)],
            inner.pre.push(mk_return(inner.expr, span)),
            span,
        )
    } else {
        ExprOut { pre: inner.pre, expr: inner.expr, activates: false }
    }
}

pub open spec fn guarded(src: Seq<u8>, span: Span, inner: Lowered<ExprOut>) -> Lowered<ExprOut> {
    match inner {
        Err(e) => Err(e),
        Ok(o) => Ok(close_guard(src, span, o)),
    }
}

/// `then if __coalesces(subject) else otherwise`, the short-circuit of the
/// mapped postfix forms and of `??`.
pub open spec fn coalesce_test(subject: SPyExprView, span: Span) -> SPyExprView {
    mk_call1(mk_load("__coalesces"@, span), subject, span)
}

/// `subject if __coalesces(subject) else step`: a mapped postfix step.
pub open spec fn mapped(subject: SPyExprView, step: SPyExprView, span: Span) -> SPyExprView {
    mk_if_expr(coalesce_test(subject, span), subject, step, span)
}

pub open spec fn no_items<T>() -> ItemsOut<T> {
    ItemsOut { pre: no_stmts(), items: Seq::empty(), activates: false }
}

/// `acc` after one more item `item`, which came with the prelude of `o`.
pub open spec fn add_item<T>(acc: ItemsOut<T>, o: ExprOut, item: T) -> ItemsOut<T> {
    ItemsOut {
        pre: acc.pre + o.pre,
        items: acc.items.push(item),
        activates: acc.activates || o.activates,
    }
}

pub open spec fn stmts_only(stmts: Seq<SPyStmtView>, activates: bool) -> StmtsOut {
    StmtsOut { stmts, activates, exports: no_names(), star_exports: no_names() }
}

/// Whether a statement of this kind never falls through.
pub open spec fn never_falls(s: Stmt) -> bool {
    s is Return || s is Raise || s is Break || s is Continue
}

// ---------------------------------------------------------------------------
// Scope modifiers
// ---------------------------------------------------------------------------

/// The scope modifier of an assignment: at most one, and `export` only at
/// the top level.
pub open spec fn scope_modifier(
    mods: Seq<AssignModifier>,
    top_level: bool,
    span: Span,
) -> Lowered<Option<AssignModifier>> {
    if mods.len() > 1 {
        fail_with(
            TfErrKind::InvalidModifier,
            "Only one scope modifier is allowed in an assignment"@,
            span,
        )
    } else if mods.len() == 1 && !top_level && mods[0] == AssignModifier::Export {
        fail_with(
            TfErrKind::InvalidModifier,
            "Export modifier is only allowed at the top level"@,
            span,
        )
    } else if mods.len() == 1 {
        Ok(Some(mods[0]))
    } else {
        Ok(None)
    }
}

/// The declaration that puts `decls` into the scope that `modifier` names.
pub open spec fn scope_stmts(
    modifier: Option<AssignModifier>,
    decls: Seq<Seq<char>>,
    span: Span,
) -> Seq<SPyStmtView> {
    match modifier {
        Some(AssignModifier::Global) => seq![mk_stmt(PyStmtView::Global(decls), span)],
        Some(AssignModifier::Nonlocal) => seq![mk_stmt(PyStmtView::Nonlocal(decls), span)],
        _ => no_stmts(),
    }
}

// ---------------------------------------------------------------------------
// Imports
// ---------------------------------------------------------------------------

/// The first `n` names of `trunk`, joined by dots.
pub open spec fn join_dots(trunk: Seq<SIdent>, n: int) -> Seq<char>
    decreases n,
{
    if n <= 0 {
        Seq::empty()
    } else if n == 1 {
        trunk[0].0@
    } else {
        join_dots(trunk, n - 1) + "."@ + trunk[n - 1].0@
    }
}

/// `n` dots.
pub open spec fn dots(n: int) -> Seq<char>
    decreases n,
{
    if n <= 0 {
        Seq::empty()
    } else {
        dots(n - 1) + "."@
    }
}

pub open spec fn opt_name(o: Option<SIdent>) -> Option<Seq<char>> {
    match o {
        Some(a) => Some(a.0@),
        None => None,
    }
}

pub open spec fn leaf_alias(leaf: (SIdent, Option<SIdent>)) -> PyImportAliasView {
    PyImportAliasView { name: leaf.0.0@, as_name: opt_name(leaf.1) }
}

/// The name under which an imported leaf is bound: its alias, or else itself.
pub open spec fn leaf_bound_name(leaf: (SIdent, Option<SIdent>)) -> Seq<char> {
    match leaf.1 {
        Some(a) => a.0@,
        None => leaf.0.0@,
    }
}

pub open spec fn leaves_aliases(leaves: Seq<(SIdent, Option<SIdent>)>) -> Seq<PyImportAliasView> {
    Seq::new(leaves.len(), |i: int| leaf_alias(leaves[i]))
}

pub open spec fn leaves_bound_names(leaves: Seq<(SIdent, Option<SIdent>)>) -> Seq<Seq<char>> {
    Seq::new(leaves.len(), |i: int| leaf_bound_name(leaves[i]))
}

pub open spec fn import_aliases(imports: ImportList) -> Seq<PyImportAliasView> {
    match imports {
        ImportList::Star => seq![PyImportAliasView { name: "*"@, as_name: None }],
        ImportList::Leaves(leaves) => leaves_aliases(leaves@),
    }
}

/// An import statement. With a trunk it is `from trunk import ..`, with dots
/// alone `from .. import ..`, else a plain `import`. A re-exporting import
/// marks what it binds.
pub open spec fn lower_import(imp: ImportStmt, span: Span, top_level: bool) -> Lowered<StmtsOut> {
    let base = join_dots(imp.trunk@, imp.trunk@.len() as int);
    let full = dots(imp.level as int) + base;
    let aliases = import_aliases(imp.imports);
    if imp.reexport && !top_level {
        fail_with(
            TfErrKind::InvalidReexport,
            "Re-exporting imports is only allowed at the top level"@,
            span,
        )
    } else {
        Ok(
            StmtsOut {
                stmts: seq![
                    if imp.trunk@.len() > 0 {
                        mk_import_from(Some(base), aliases, imp.level, span)
                    } else if imp.level != 0 {
                        mk_import_from(None, aliases, imp.level, span)
                    } else {
                        mk_import(aliases, span)
                    },
                ],
                activates: false,
                exports: match imp.imports {
                    ImportList::Leaves(leaves) if imp.reexport => leaves_bound_names(leaves@),
                    _ => no_names(),
                },
                star_exports: match imp.imports {
                    ImportList::Star if imp.reexport => seq![full],
                    _ => no_names(),
                },
            },
        )
    }
}

} // verus!
