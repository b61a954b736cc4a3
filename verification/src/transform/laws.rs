//! Laws of the lowering rules.

use vstd::prelude::*;
use crate::ast::{
    BinaryOp, Block, CallItem, Expr, ListItem, MappingItem, SBlock, SCallItem, SExpr, Span,
    SStmt,
};
use crate::py::ast::{
    PyAccessCtx, PyCallItemView, PyDictItemView, PyListItemView, PyMatchCaseView, PyStmtView,
    SPyExprView, SPyStmtView,
};
use crate::py::util::{mk_assign, mk_attribute, mk_if_expr, mk_load, mk_stmt, mk_store};
use crate::transform::context::{kept, stepped, TfCtx};
use crate::transform::errors::{TfErrKind, TfErrView};
use crate::transform::model::{
    add_item, coalesce_test, Env, ExprOut, fail_with, FinalView, ItemsOut, Lowered, mapped,
    never_falls, no_items, StmtsOut,
};
use crate::transform::names::temp_name;
use crate::transform::rules::{
    block_body_from, call_items_from, CasesOut, empty_block, ends_with_value, fn_def,
    is_definition, list_items_from, lower_arm, lower_assignment, lower_binary, lower_block,
    lower_bound, lower_decorators, lower_deep_guarded, lower_definition, lower_expr,
    lower_final_expr, lower_guarded, lower_lifted, lower_match_expr, lower_pattern,
    lower_postfix, lower_stmt, mapping_items_from, match_expr_cases_from, peel_inner,
    postfix_step, prepare_fn, slice_inside,
};
use crate::transform::store::call_item_expr;

verus! {

// ---------------------------------------------------------------------------
// Guarded regions
// ---------------------------------------------------------------------------

/// Every lowering step leaves the guarded regions as it found them: as many
/// as before, each where it was. A run that starts with none ends with none.
pub proof fn lemma_guards_balanced(old: TfCtx, new: TfCtx, activates: bool)
    requires
        stepped(old, new, activates) || kept(old, new),
    ensures
        new.placeholder_ctx_stack@.len() == old.placeholder_ctx_stack@.len(),
        new.top() == old.top(),
        old.placeholder_ctx_stack@.len() == 0 ==> new.placeholder_ctx_stack@.len() == 0,
{
}

/// An expression in a region of its own never activates the region around it.
pub proof fn lemma_guarded_contains_placeholders(env: Env, e: SExpr)
    requires
        lower_guarded(env, e) is Ok,
    ensures
        !lower_guarded(env, e)->Ok_0.activates,
{
}

/// What an expression in a region of its own lowers to depends on the source
/// text alone, not on the regions around it.
pub proof fn lemma_guarded_ignores_outer_region(env: Env, other: Env, e: SExpr)
    requires
        env.src == other.src,
    ensures
        lower_guarded(env, e) == lower_guarded(other, e),
{
    assert(env.under(e.1) == other.under(e.1));
}

// ---------------------------------------------------------------------------
// Order of effects
// ---------------------------------------------------------------------------

/// The left operand of a binary operation as the operation lowers it.
pub open spec fn left_operand(env: Env, e: SExpr) -> Lowered<ExprOut> {
    match e.0 {
        Expr::Binary(BinaryOp::Pipe, l, _) => lower_guarded(env, *l),
        Expr::Binary(BinaryOp::Coalesce, l, _) => lower_lifted(env, *l),
        Expr::Binary(_, l, _) => lower_expr(env, *l, PyAccessCtx::Load),
        _ => Err(Seq::empty()),
    }
}

/// The right operand of a binary operation as the operation lowers it.
pub open spec fn right_operand(env: Env, e: SExpr) -> Lowered<ExprOut> {
    match e.0 {
        Expr::Binary(BinaryOp::Pipe, _, r) => lower_guarded(env, *r),
        Expr::Binary(_, _, r) => lower_expr(env, *r, PyAccessCtx::Load),
        _ => Err(Seq::empty()),
    }
}

/// The statements of a binary operation are those of its left operand and
/// then those of its right operand: source order is kept.
pub proof fn lemma_binary_keeps_source_order(env: Env, e: SExpr)
    requires
        e.0 is Binary,
        lower_expr(env, e, PyAccessCtx::Load) is Ok,
    ensures
        left_operand(env, e) is Ok,
        right_operand(env, e) is Ok,
        lower_expr(env, e, PyAccessCtx::Load)->Ok_0.pre == left_operand(env, e)->Ok_0.pre
            + right_operand(env, e)->Ok_0.pre,
{
}

/// The statements that the arguments of a call need come after those of the
/// arguments before them, and none is dropped.
pub proof fn lemma_call_items_keep_source_order(
    env: Env,
    items: Seq<SCallItem>,
    span: Span,
    i: int,
    started_kwargs: bool,
    acc: ItemsOut<PyCallItemView>,
)
    requires
        0 <= i,
        call_items_from(env, items, span, i, started_kwargs, acc) is Ok,
    ensures
        acc.pre.is_prefix_of(call_items_from(env, items, span, i, started_kwargs, acc)->Ok_0.pre),
        acc.items.is_prefix_of(
            call_items_from(env, items, span, i, started_kwargs, acc)->Ok_0.items,
        ),
    decreases items.len() - i,
{
    if i < items.len() {
        let x = match items[i].0 {
            CallItem::Arg(x) => x,
            CallItem::Kwarg(_, x) => x,
            CallItem::ArgSpread(x) => x,
            CallItem::KwargSpread(x) => x,
        };
        let o = lower_deep_guarded(env, x)->Ok_0;
        let started = started_kwargs || items[i].0 is Kwarg || items[i].0 is KwargSpread;
        let item = match items[i].0 {
            CallItem::Arg(_) => PyCallItemView::Arg(o.expr),
            CallItem::Kwarg(name, _) => PyCallItemView::Kwarg(name.0@, o.expr),
            CallItem::ArgSpread(_) => PyCallItemView::ArgSpread(o.expr),
            CallItem::KwargSpread(_) => PyCallItemView::KwargSpread(o.expr),
        };
        let next = ItemsOut {
            pre: acc.pre + o.pre,
            items: acc.items.push(item),
            activates: acc.activates || o.activates,
        };
        lemma_call_items_keep_source_order(env, items, span, i + 1, started, next);
    }
}

/// The statements that the elements of a list need come after those of the
/// elements before them, and none is dropped.
pub proof fn lemma_list_items_keep_source_order(
    env: Env,
    items: Seq<ListItem>,
    i: int,
    acc: ItemsOut<PyListItemView>,
)
    requires
        0 <= i,
        list_items_from(env, items, i, acc) is Ok,
    ensures
        acc.pre.is_prefix_of(list_items_from(env, items, i, acc)->Ok_0.pre),
        acc.items.is_prefix_of(list_items_from(env, items, i, acc)->Ok_0.items),
    decreases items.len() - i,
{
    if i < items.len() {
        let x = match items[i] {
            ListItem::Item(x) => x,
            ListItem::Spread(x) => x,
        };
        let o = lower_deep_guarded(env, x)->Ok_0;
        let item = match items[i] {
            ListItem::Item(_) => PyListItemView::Item(o.expr),
            ListItem::Spread(_) => PyListItemView::Spread(o.expr),
        };
        let next = ItemsOut {
            pre: acc.pre + o.pre,
            items: acc.items.push(item),
            activates: acc.activates || o.activates,
        };
        lemma_list_items_keep_source_order(env, items, i + 1, next);
    }
}

/// The statements that the items of a mapping need come after those of the
/// items before them, and none is dropped.
pub proof fn lemma_mapping_items_keep_source_order(
    env: Env,
    items: Seq<MappingItem>,
    i: int,
    acc: ItemsOut<PyDictItemView>,
)
    requires
        0 <= i,
        mapping_items_from(env, items, i, acc) is Ok,
    ensures
        acc.pre.is_prefix_of(mapping_items_from(env, items, i, acc)->Ok_0.pre),
        acc.items.is_prefix_of(mapping_items_from(env, items, i, acc)->Ok_0.items),
    decreases items.len() - i,
{
    if i < items.len() {
        match items[i] {
            MappingItem::Item(k, v) => {
                let ko = lower_deep_guarded(env, k)->Ok_0;
                let vo = lower_deep_guarded(env, v)->Ok_0;
                let next = ItemsOut {
                    pre: acc.pre + ko.pre + vo.pre,
                    items: acc.items.push(PyDictItemView::Item(ko.expr, vo.expr)),
                    activates: acc.activates || ko.activates || vo.activates,
                };
                lemma_mapping_items_keep_source_order(env, items, i + 1, next);
            },
            MappingItem::Spread(x) => {
                let o = lower_deep_guarded(env, x)->Ok_0;
                let next = ItemsOut {
                    pre: acc.pre + o.pre,
                    items: acc.items.push(PyDictItemView::Spread(o.expr)),
                    activates: acc.activates || o.activates,
                };
                lemma_mapping_items_keep_source_order(env, items, i + 1, next);
            },
        }
    }
}

/// The statements of a call are those of its receiver and then those of its
/// arguments.
pub proof fn lemma_call_keeps_source_order(
    env: Env,
    e: SExpr,
    access: PyAccessCtx,
    lhs_pre: Seq<SPyStmtView>,
    lhs_expr: SPyExprView,
)
    requires
        e.0 is Call,
        postfix_step(env, e, access, lhs_pre, lhs_expr) is Ok,
    ensures
        call_items_from(env, e.0->Call_1@, e.1, 0, false, no_items()) is Ok,
        postfix_step(env, e, access, lhs_pre, lhs_expr)->Ok_0.pre == lhs_pre + call_items_from(
            env,
            e.0->Call_1@,
            e.1,
            0,
            false,
            no_items(),
        )->Ok_0.pre,
{
}

/// The statements of a slice are those of its start, then those of its end,
/// then those of its step.
pub proof fn lemma_slice_keeps_source_order(env: Env, e: SExpr)
    requires
        e.0 is Slice,
        slice_inside(env, e) is Ok,
    ensures
        ({
            let a = lower_bound(env, e.0->Slice_0);
            let b = lower_bound(env, e.0->Slice_1);
            let c = lower_bound(env, e.0->Slice_2);
            &&& a is Ok
            &&& b is Ok
            &&& c is Ok
            &&& slice_inside(env, e)->Ok_0.pre =~= bound_pre(a->Ok_0) + bound_pre(b->Ok_0)
                + bound_pre(c->Ok_0)
        }),
{
}

/// The statements that a bound of a slice needs.
pub open spec fn bound_pre(bound: Option<ExprOut>) -> Seq<SPyStmtView> {
    match bound {
        Some(o) => o.pre,
        None => Seq::empty(),
    }
}

// ---------------------------------------------------------------------------
// Blocks in expression position
// ---------------------------------------------------------------------------

/// Whether a statement always leaves the block it stands in.
pub open spec fn is_terminal(s: SPyStmtView) -> bool {
    s.value is Return || s.value is Raise || s.value is Break || s.value is Continue
}

/// A block whose value is asked for by a block expression ends with a value.
pub proof fn lemma_block_expr_ends_with_value(env: Env, e: SExpr)
    requires
        e.0 is Block,
        lower_expr(env, e, PyAccessCtx::Load) is Ok,
    ensures
        lower_block(env, *e.0->Block_0, true, false) is Ok,
        lower_block(env, *e.0->Block_0, true, false)->Ok_0.final_ == FinalView::Expr(
            lower_expr(env, e, PyAccessCtx::Load)->Ok_0.expr,
        ),
{
}

/// An arm of an `if` or `match` in expression position ends with a value
/// or never falls through.
pub proof fn lemma_arm_ends_with_value_or_never(
    env: Env,
    b: SBlock,
    target: SPyExprView,
    assign_span: Span,
    message: Seq<char>,
)
    requires
        lower_arm(env, b, target, assign_span, message) is Ok,
    ensures
        lower_block(env, b, true, false) is Ok,
        lower_block(env, b, true, false)->Ok_0.final_ is Expr || lower_block(
            env,
            b,
            true,
            false,
        )->Ok_0.final_ is Never,
{
}

/// A block that never falls through ends with `return`, `raise`, `break`
/// or `continue`.
pub proof fn lemma_never_ends_with_exit(
    env: Env,
    b: SBlock,
    treat_final_as_expr: bool,
    top_level: bool,
)
    requires
        lower_block(env, b, treat_final_as_expr, top_level) is Ok,
        lower_block(env, b, treat_final_as_expr, top_level)->Ok_0.final_ is Never,
    ensures
        lower_block(env, b, treat_final_as_expr, top_level)->Ok_0.stmts.len() > 0,
        is_terminal(lower_block(env, b, treat_final_as_expr, top_level)->Ok_0.stmts.last()),
{
    match b.0 {
        Block::Stmts(stmts) => {
            let stmts = stmts@;
            let last = stmts[stmts.len() - 1];
            let body = block_body_from(env, stmts, top_level, 0, empty_block());
            if ends_with_value(last.0, treat_final_as_expr) {
                assert(lower_final_expr(env, last, body).1 !is Never);
            } else {
                let m = lower_stmt(env, last, top_level);
                assert(m is Ok);
                assert(never_falls(last.0));
                let tail = m->Ok_0.stmts;
                assert(tail.len() > 0 && is_terminal(tail.last()));
                assert((body.stmts + tail).last() == tail.last());
            }
        },
        Block::Expr(_) => {},
    }
}

// ---------------------------------------------------------------------------
// Single evaluation
// ---------------------------------------------------------------------------

/// `l ?? r`, where `l` is not a plain name, evaluates `l` once: its value is
/// stored in a temporary before anything of `r` runs, and the expression
/// reads the temporary alone.
pub proof fn lemma_coalesce_reads_left_once(env: Env, e: SExpr)
    requires
        e.0 matches Expr::Binary(BinaryOp::Coalesce, l, _) && !(l.0 is Ident),
        lower_expr(env, e, PyAccessCtx::Load) is Ok,
    ensures
        ({
            let l = *e.0->Binary_1;
            let r = *e.0->Binary_2;
            let lo = lower_expr(env, l, PyAccessCtx::Load);
            let ro = lower_expr(env, r, PyAccessCtx::Load);
            let tmp = temp_name(env.src, "tmp"@, l.1.start);
            let o = lower_expr(env, e, PyAccessCtx::Load)->Ok_0;
            &&& lo is Ok
            &&& ro is Ok
            &&& o.pre == lo->Ok_0.pre.push(mk_assign(mk_store(tmp, l.1), lo->Ok_0.expr, l.1))
                + ro->Ok_0.pre
            &&& o.expr == mk_if_expr(
                coalesce_test(mk_load(tmp, l.1), e.1),
                ro->Ok_0.expr,
                mk_load(tmp, l.1),
                e.1,
            )
        }),
{
    let l = *e.0->Binary_1;
    let r = *e.0->Binary_2;
    assert(lower_expr(env, e, PyAccessCtx::Load) == lower_binary(env, e));
    assert(lower_lifted(env, l) is Ok);
    assert(lower_expr(env, l, PyAccessCtx::Load) is Ok);
}

/// `x?.name`, where `x` is not a plain name, evaluates `x` once: its value
/// is stored in a temporary, and the expression reads the temporary alone.
pub proof fn lemma_mapped_attribute_reads_receiver_once(env: Env, e: SExpr)
    requires
        e.0 matches Expr::MappedAttribute(x, _) && !(x.0 is Ident),
        lower_expr(env, e, PyAccessCtx::Load) is Ok,
    ensures
        ({
            let x = *e.0->MappedAttribute_0;
            let name = e.0->MappedAttribute_1.0@;
            let xo = lower_expr(env, x, PyAccessCtx::Load);
            let tmp = temp_name(env.src, "tmp"@, x.1.start);
            let o = lower_expr(env, e, PyAccessCtx::Load)->Ok_0;
            &&& xo is Ok
            &&& o.pre == xo->Ok_0.pre.push(mk_assign(mk_store(tmp, x.1), xo->Ok_0.expr, x.1))
            &&& o.expr == mapped(
                mk_load(tmp, x.1),
                mk_attribute(mk_load(tmp, x.1), name, PyAccessCtx::Load, e.1),
                e.1,
            )
        }),
{
    let x = *e.0->MappedAttribute_0;
    assert(lower_expr(env, e, PyAccessCtx::Load) == lower_postfix(env, e, PyAccessCtx::Load));
    assert(lower_lifted(env, x) is Ok);
    let lhs = lower_lifted(env, x)->Ok_0;
    assert(lower_expr(env, x, PyAccessCtx::Load) is Ok);
    let step = postfix_step(
        env.under(e.1),
        e,
        PyAccessCtx::Load,
        lhs.pre,
        lhs.expr,
    );
    assert(step is Ok && !step->Ok_0.activates);
}

// ---------------------------------------------------------------------------
// Decorators and pipes
// ---------------------------------------------------------------------------

/// `name = g(fn)` defines what `name = fn` defines, with `g` as its
/// decorator: after the statements that `g` needs, the same definition
/// carries the lowered `g`.
pub proof fn lemma_decorator_sugar(env: Env, plain: SStmt, decorated: SStmt, decl_only: bool)
    requires
        plain.0 is Assign,
        plain.0->Assign_0.0 is Ident,
        plain.0->Assign_1.0 is Fn,
        decorated.0 is Assign,
        decorated.0->Assign_0 == plain.0->Assign_0,
        decorated.0->Assign_1.0 is Call,
        decorated.0->Assign_1.0->Call_1@.len() == 1,
        decorated.0->Assign_1.0->Call_1@[0].0 == CallItem::Arg(plain.0->Assign_1),
        decorated.1 == plain.1,
        lower_guarded(env, *decorated.0->Assign_1.0->Call_0) is Ok,
        lower_assignment(env, plain, decl_only) is Ok,
    ensures
        ({
            let name = plain.0->Assign_0.0->Ident_0.0@;
            let g = lower_guarded(env, *decorated.0->Assign_1.0->Call_0)->Ok_0;
            let parts = prepare_fn(env, plain.0->Assign_1, plain.1);
            let p = lower_assignment(env, plain, decl_only)->Ok_0;
            let d = lower_assignment(env, decorated, decl_only);
            &&& parts is Ok
            &&& p.stmts =~= parts->Ok_0.aux.push(
                mk_stmt(
                    PyStmtView::FnDef(name, parts->Ok_0.args, parts->Ok_0.body, Seq::empty()),
                    plain.1,
                ),
            )
            &&& d is Ok
            &&& d->Ok_0.stmts =~= g.pre + parts->Ok_0.aux.push(
                mk_stmt(
                    PyStmtView::FnDef(name, parts->Ok_0.args, parts->Ok_0.body, seq![g.expr]),
                    plain.1,
                ),
            )
            &&& d->Ok_0.decls == p.decls
        }),
{
    let f = plain.0->Assign_1;
    let call = decorated.0->Assign_1;
    let name = plain.0->Assign_0.0->Ident_0.0@;
    let g = lower_guarded(env, *call.0->Call_0)->Ok_0;
    assert(peel_inner(f) == f);
    assert(peel_inner(call) == f);
    assert(is_definition(plain.0));
    assert(is_definition(decorated.0));
    assert(lower_assignment(env, plain, decl_only) == lower_definition(
        env,
        plain,
    ));
    assert(lower_assignment(env, decorated, decl_only)
        == lower_definition(env, decorated));
    assert(lower_decorators(env, f, no_items()) == Ok::<
        ItemsOut<SPyExprView>,
        Seq<TfErrView>,
    >(no_items()));
    let acc = add_item(no_items::<SPyExprView>(), g, g.expr);
    assert(lower_decorators(env, f, acc) == Ok::<
        ItemsOut<SPyExprView>,
        Seq<TfErrView>,
    >(acc));
    assert(lower_decorators(env, call, no_items()) == Ok::<
        ItemsOut<SPyExprView>,
        Seq<TfErrView>,
    >(acc));
    assert(acc.items =~= seq![g.expr]);
    assert(acc.pre =~= g.pre);
    let plain_def = fn_def(env, name, f, Seq::empty(), plain.1);
    assert(plain_def is Ok);
    assert(prepare_fn(env, f, plain.1) is Ok);
    let dec_def = fn_def(env, name, f, acc.items, plain.1);
    assert(dec_def is Ok);
}

/// `x | f` lowers to what the call `f(x)` lowers to, where `x` is not the
/// bare placeholder, `f` reads no placeholder of the region around it, and
/// `x` and `f` do not both need statements of their own (the pipe runs those
/// of `x` first, the call those of `f`).
pub proof fn lemma_pipe_is_call(env: Env, pipe: SExpr, call: SExpr)
    requires
        pipe.0 is Binary,
        pipe.0->Binary_0 is Pipe,
        call.0 is Call,
        *call.0->Call_0 == *pipe.0->Binary_2,
        call.0->Call_1@.len() == 1,
        call.0->Call_1@[0].0 == CallItem::Arg(*pipe.0->Binary_1),
        call.1 == pipe.1,
        !(pipe.0->Binary_1.0 is Placeholder),
        lower_expr(env, *pipe.0->Binary_2, PyAccessCtx::Load) == lower_expr(
            env.under(pipe.0->Binary_2.1),
            *pipe.0->Binary_2,
            PyAccessCtx::Load,
        ),
        lower_expr(env, *pipe.0->Binary_2, PyAccessCtx::Load) is Ok ==> !lower_expr(
            env,
            *pipe.0->Binary_2,
            PyAccessCtx::Load,
        )->Ok_0.activates,
        lower_guarded(env, *pipe.0->Binary_1) is Ok && lower_expr(
            env,
            *pipe.0->Binary_2,
            PyAccessCtx::Load,
        ) is Ok ==> lower_guarded(env, *pipe.0->Binary_1)->Ok_0.pre.len() == 0 || lower_expr(
            env,
            *pipe.0->Binary_2,
            PyAccessCtx::Load,
        )->Ok_0.pre.len() == 0,
    ensures
        lower_expr(env, pipe, PyAccessCtx::Load) is Ok <==> lower_expr(
            env,
            call,
            PyAccessCtx::Load,
        ) is Ok,
        lower_expr(env, pipe, PyAccessCtx::Load) is Ok ==> {
            let p = lower_expr(env, pipe, PyAccessCtx::Load)->Ok_0;
            let c = lower_expr(env, call, PyAccessCtx::Load)->Ok_0;
            &&& p.pre =~= c.pre
            &&& p.expr == c.expr
            &&& p.activates == c.activates
        },
{
    let x = *pipe.0->Binary_1;
    let f = *pipe.0->Binary_2;
    let inner = env.under(call.1);
    assert(lower_expr(env, pipe, PyAccessCtx::Load) == lower_binary(env, pipe));
    assert(lower_expr(env, call, PyAccessCtx::Load) == lower_postfix(env, call, PyAccessCtx::Load));
    lemma_guarded_ignores_outer_region(env, inner, x);
    let items = call.0->Call_1@;
    assert(lower_deep_guarded(inner, x) == lower_guarded(inner, x));
    let first = call_items_from(inner, items, call.1, 0, false, no_items());
    if lower_guarded(env, x) is Ok {
        let xo = lower_guarded(env, x)->Ok_0;
        let acc = add_item(
            no_items::<PyCallItemView>(),
            xo,
            PyCallItemView::Arg(xo.expr),
        );
        assert(call_items_from(inner, items, call.1, 1, false, acc) == Ok::<
            ItemsOut<PyCallItemView>,
            Seq<TfErrView>,
        >(acc));
        assert(first == Ok::<ItemsOut<PyCallItemView>, Seq<TfErrView>>(
            acc,
        ));
        assert(acc.items =~= seq![PyCallItemView::Arg(xo.expr)]);
        assert(acc.pre =~= xo.pre);
        assert(!acc.activates);
    } else {
        assert(first is Err);
    }
    if lower_expr(env, f, PyAccessCtx::Load) is Ok {
        let fo = lower_expr(env, f, PyAccessCtx::Load)->Ok_0;
        assert(lower_guarded(env, f) is Ok);
        assert(lower_guarded(env, f)->Ok_0.expr == fo.expr);
        assert(lower_guarded(env, f)->Ok_0.pre == fo.pre);
        let step = postfix_step(
            inner,
            call,
            PyAccessCtx::Load,
            fo.pre,
            fo.expr,
        );
        if first is Ok {
            assert(step is Ok);
            assert(!step->Ok_0.activates);
        } else {
            assert(step is Err);
        }
    } else {
        assert(lower_guarded(env, f) is Err);
    }
}

// ---------------------------------------------------------------------------
// All arguments of a call
// ---------------------------------------------------------------------------

/// The Python argument that an argument becomes, given what its expression
/// lowered to: of the same kind, and under the same keyword.
pub open spec fn call_item_of(item: CallItem, expr: SPyExprView) -> PyCallItemView {
    match item {
        CallItem::Arg(_) => PyCallItemView::Arg(expr),
        CallItem::Kwarg(name, _) => PyCallItemView::Kwarg(name.0@, expr),
        CallItem::ArgSpread(_) => PyCallItemView::ArgSpread(expr),
        CallItem::KwargSpread(_) => PyCallItemView::KwargSpread(expr),
    }
}

/// What the `k`-th argument lowers to by itself.
pub open spec fn call_item_lowered(env: Env, items: Seq<SCallItem>, k: int) -> Lowered<ExprOut> {
    lower_deep_guarded(env, call_item_expr(items[k].0))
}

/// The statements of the arguments from the `i`-th on, in argument order.
pub open spec fn call_items_pre_from(env: Env, items: Seq<SCallItem>, i: int) -> Seq<SPyStmtView>
    decreases items.len() - i,
{
    if i < 0 || i >= items.len() {
        Seq::empty()
    } else {
        call_item_lowered(env, items, i)->Ok_0.pre + call_items_pre_from(env, items, i + 1)
    }
}

/// Whether, from the `i`-th argument on, no positional argument or spread
/// follows a keyword argument or spread.
pub open spec fn keywords_come_last(items: Seq<SCallItem>, i: int, started_kwargs: bool) -> bool
    decreases items.len() - i,
{
    if i < 0 || i >= items.len() {
        true
    } else if items[i].0 is Arg || items[i].0 is ArgSpread {
        !started_kwargs && keywords_come_last(items, i + 1, started_kwargs)
    } else {
        keywords_come_last(items, i + 1, true)
    }
}

/// Where every argument lowers by itself, the arguments of a call lower
/// exactly when no positional argument follows a keyword; else there is one
/// error, at the span of the call. On success there is one Python argument
/// for each argument, of its kind and with its lowered expression, and the
/// statements are those of the arguments, one after the other in argument
/// order.
pub proof fn lemma_call_items_in_order(
    env: Env,
    items: Seq<SCallItem>,
    span: Span,
    i: int,
    started_kwargs: bool,
    acc: ItemsOut<PyCallItemView>,
)
    requires
        0 <= i <= items.len(),
        forall|k: int| i <= k < items.len() ==> (#[trigger] call_item_lowered(env, items, k)) is Ok,
    ensures
        call_items_from(env, items, span, i, started_kwargs, acc) is Ok <==> keywords_come_last(
            items,
            i,
            started_kwargs,
        ),
        call_items_from(env, items, span, i, started_kwargs, acc) is Err ==> {
            let errs = call_items_from(env, items, span, i, started_kwargs, acc)->Err_0;
            &&& errs.len() == 1
            &&& errs[0].kind == TfErrKind::InvalidArgument
            &&& errs[0].span == Some(span)
        },
        call_items_from(env, items, span, i, started_kwargs, acc) is Ok ==> {
            let o = call_items_from(env, items, span, i, started_kwargs, acc)->Ok_0;
            &&& o.pre =~= acc.pre + call_items_pre_from(env, items, i)
            &&& o.items.len() == acc.items.len() + items.len() - i
            &&& forall|j: int| 0 <= j < acc.items.len() ==> o.items[j] == acc.items[j]
            &&& forall|k: int|
                i <= k < items.len() ==> o.items[acc.items.len() + k - i] == call_item_of(
                    items[k].0,
                    (#[trigger] call_item_lowered(env, items, k))->Ok_0.expr,
                )
        },
    decreases items.len() - i,
{
    if i < items.len() {
        let lowered = call_item_lowered(env, items, i);
        assert(lowered is Ok);
        let o = lowered->Ok_0;
        let positional = items[i].0 is Arg || items[i].0 is ArgSpread;
        if !(positional && started_kwargs) {
            let started = started_kwargs || !positional;
            let next = add_item(acc, o, call_item_of(items[i].0, o.expr));
            assert(call_items_from(env, items, span, i, started_kwargs, acc) == call_items_from(
                env,
                items,
                span,
                i + 1,
                started,
                next,
            ));
            lemma_call_items_in_order(env, items, span, i + 1, started, next);
            let r = call_items_from(env, items, span, i + 1, started, next);
            if r is Ok {
                let out = r->Ok_0;
                assert(out.items[acc.items.len() as int] == next.items[acc.items.len() as int]);
                assert forall|k: int| i <= k < items.len() implies out.items[acc.items.len() + k
                    - i] == call_item_of(
                    items[k].0,
                    (#[trigger] call_item_lowered(env, items, k))->Ok_0.expr,
                ) by {
                    if k > i {
                        assert(out.items[next.items.len() + k - (i + 1)] == call_item_of(
                            items[k].0,
                            call_item_lowered(env, items, k)->Ok_0.expr,
                        ));
                    }
                }
                assert forall|j: int| 0 <= j < acc.items.len() implies out.items[j]
                    == acc.items[j] by {
                    assert(out.items[j] == next.items[j]);
                }
            }
        }
    }
}

// ---------------------------------------------------------------------------
// All cases of a match expression
// ---------------------------------------------------------------------------

/// The message of a case that ends without a value.
pub open spec fn case_message() -> Seq<char> {
    "match-expr case must have a final expression"@
}

/// What the body of the `k`-th case lowers to as an arm of the match whose
/// value goes into the temporary `ret`.
pub open spec fn case_arm(
    env: Env,
    cases: Seq<(Option<SExpr>, SBlock)>,
    span: Span,
    ret: Seq<char>,
    k: int,
) -> Lowered<StmtsOut> {
    lower_arm(env, cases[k].1, mk_store(ret, span), cases[k].1.1, case_message())
}

/// An arm in expression position is its block, followed by the assignment
/// of the block's value to the target where the block ends with a value; a
/// block that never falls through gets no assignment, and a block that may
/// fall through without a value fails, at the span of the block.
pub proof fn lemma_arm_assigns_or_exits(
    env: Env,
    b: SBlock,
    target: SPyExprView,
    assign_span: Span,
    message: Seq<char>,
)
    requires
        lower_block(env, b, true, false) is Ok,
    ensures
        ({
            let o = lower_block(env, b, true, false)->Ok_0;
            let arm = lower_arm(env, b, target, assign_span, message);
            &&& o.final_ is Expr ==> arm is Ok && arm->Ok_0.stmts == o.stmts.push(
                mk_assign(target, o.final_->Expr_0, assign_span),
            )
            &&& o.final_ is Never ==> arm is Ok && arm->Ok_0.stmts == o.stmts
            &&& o.final_ is Nothing ==> arm == fail_with::<StmtsOut>(
                TfErrKind::MissingFinalExpr,
                message,
                b.1,
            )
        }),
{
}

/// Where the cases of a match expression lower, every case has lowered: its
/// body ends with a value or never falls through, and the Python cases are
/// the lowered patterns and arms, in source order.
pub proof fn lemma_match_cases_all_lowered(
    env: Env,
    cases: Seq<(Option<SExpr>, SBlock)>,
    span: Span,
    ret: Seq<char>,
    i: int,
    acc: CasesOut,
)
    requires
        0 <= i <= cases.len(),
        match_expr_cases_from(env, cases, span, ret, i, acc) is Ok,
    ensures
        ({
            let o = match_expr_cases_from(env, cases, span, ret, i, acc)->Ok_0;
            &&& o.cases.len() == acc.cases.len() + cases.len() - i
            &&& forall|j: int| 0 <= j < acc.cases.len() ==> o.cases[j] == acc.cases[j]
            &&& i < cases.len() ==> o.has_default == (lower_pattern(
                env,
                cases[cases.len() - 1].0,
                span,
            )->Ok_0.expr.value is Ident)
            &&& i == cases.len() ==> o.has_default == acc.has_default
            &&& forall|k: int|
                i <= k < cases.len() ==> {
                    let p = lower_pattern(env, cases[k].0, span);
                    let arm = #[trigger] case_arm(env, cases, span, ret, k);
                    let body = lower_block(env, cases[k].1, true, false);
                    &&& p is Ok
                    &&& arm is Ok
                    &&& body is Ok
                    &&& body->Ok_0.final_ is Expr || body->Ok_0.final_ is Never
                    &&& o.cases[acc.cases.len() + k - i] == (PyMatchCaseView {
                        pattern: p->Ok_0.expr,
                        body: arm->Ok_0.stmts,
                    })
                }
        }),
    decreases cases.len() - i,
{
    if i < cases.len() {
        let p = lower_pattern(env, cases[i].0, span)->Ok_0;
        let arm = case_arm(env, cases, span, ret, i);
        assert(arm is Ok);
        let next = CasesOut {
            aux: acc.aux + p.pre,
            cases: acc.cases.push(PyMatchCaseView { pattern: p.expr, body: arm->Ok_0.stmts }),
            has_default: p.expr.value is Ident,
            activates: acc.activates || p.activates || arm->Ok_0.activates,
        };
        assert(match_expr_cases_from(env, cases, span, ret, i, acc) == match_expr_cases_from(
            env,
            cases,
            span,
            ret,
            i + 1,
            next,
        ));
        lemma_match_cases_all_lowered(env, cases, span, ret, i + 1, next);
        let out = match_expr_cases_from(env, cases, span, ret, i + 1, next)->Ok_0;
        assert(out.cases[acc.cases.len() as int] == next.cases[acc.cases.len() as int]);
        assert forall|j: int| 0 <= j < acc.cases.len() implies out.cases[j] == acc.cases[j] by {
            assert(out.cases[j] == next.cases[j]);
        }
        assert forall|k: int| i <= k < cases.len() implies {
            let p = lower_pattern(env, cases[k].0, span);
            let arm = #[trigger] case_arm(env, cases, span, ret, k);
            let body = lower_block(env, cases[k].1, true, false);
            &&& p is Ok
            &&& arm is Ok
            &&& body is Ok
            &&& body->Ok_0.final_ is Expr || body->Ok_0.final_ is Never
            &&& out.cases[acc.cases.len() + k - i] == (PyMatchCaseView {
                pattern: p->Ok_0.expr,
                body: arm->Ok_0.stmts,
            })
        } by {
            if k > i {
                assert(out.cases[next.cases.len() + k - (i + 1)] == (PyMatchCaseView {
                    pattern: lower_pattern(env, cases[k].0, span)->Ok_0.expr,
                    body: case_arm(env, cases, span, ret, k)->Ok_0.stmts,
                }));
            }
        }
    }
}

/// Where every pattern and every arm lowers and no case but the last is
/// without a pattern, the cases of a match expression lower.
pub proof fn lemma_match_cases_lower(
    env: Env,
    cases: Seq<(Option<SExpr>, SBlock)>,
    span: Span,
    ret: Seq<char>,
    i: int,
    acc: CasesOut,
)
    requires
        0 <= i <= cases.len(),
        forall|k: int|
            i <= k < cases.len() ==> {
                &&& (#[trigger] case_arm(env, cases, span, ret, k)) is Ok
                &&& lower_pattern(env, cases[k].0, span) is Ok
                &&& cases[k].0 is None ==> k == cases.len() - 1
            },
    ensures
        match_expr_cases_from(env, cases, span, ret, i, acc) is Ok,
    decreases cases.len() - i,
{
    if i < cases.len() {
        let p = lower_pattern(env, cases[i].0, span)->Ok_0;
        let arm = case_arm(env, cases, span, ret, i);
        assert(arm is Ok);
        let next = CasesOut {
            aux: acc.aux + p.pre,
            cases: acc.cases.push(PyMatchCaseView { pattern: p.expr, body: arm->Ok_0.stmts }),
            has_default: p.expr.value is Ident,
            activates: acc.activates || p.activates || arm->Ok_0.activates,
        };
        lemma_match_cases_lower(env, cases, span, ret, i + 1, next);
    }
}

/// A match expression whose subject, patterns and bodies lower, whose last
/// case is a default case and in which no other case is without a pattern,
/// lowers exactly when every body ends with a value or never falls through.
/// Its value is then the temporary, and its last statement the `match` with
/// one Python case for each case, in source order.
pub proof fn lemma_match_expr_lowers_iff_cases_end(env: Env, e: SExpr)
    requires
        e.0 is Match,
        lower_guarded(env, *e.0->Match_0) is Ok,
        e.0->Match_1@.len() > 0,
        lower_pattern(
            env,
            e.0->Match_1@[e.0->Match_1@.len() - 1].0,
            e.1,
        )->Ok_0.expr.value is Ident,
        forall|k: int|
            0 <= k < e.0->Match_1@.len() ==> {
                &&& lower_pattern(env, (#[trigger] e.0->Match_1@[k]).0, e.1) is Ok
                &&& lower_block(env, e.0->Match_1@[k].1, true, false) is Ok
                &&& e.0->Match_1@[k].0 is None ==> k == e.0->Match_1@.len() - 1
            },
    ensures
        lower_match_expr(env, e) is Ok <==> (forall|k: int|
            0 <= k < e.0->Match_1@.len() ==> {
                let body = lower_block(env, (#[trigger] e.0->Match_1@[k]).1, true, false)->Ok_0;
                body.final_ is Expr || body.final_ is Never
            }),
        lower_match_expr(env, e) is Ok ==> {
            let o = lower_match_expr(env, e)->Ok_0;
            let ret = temp_name(env.src, "matchexp"@, e.1.start);
            &&& o.expr == mk_load(ret, e.1)
            &&& o.pre.len() > 0
            &&& o.pre.last().value is Match
            &&& o.pre.last().value->Match_1.len() == e.0->Match_1@.len()
            &&& forall|k: int|
                0 <= k < e.0->Match_1@.len() ==> o.pre.last().value->Match_1[k]
                    == (PyMatchCaseView {
                    pattern: lower_pattern(env, e.0->Match_1@[k].0, e.1)->Ok_0.expr,
                    body: (#[trigger] case_arm(env, e.0->Match_1@, e.1, ret, k))->Ok_0.stmts,
                })
        },
{
    let cases = e.0->Match_1@;
    let s = lower_guarded(env, *e.0->Match_0)->Ok_0;
    let ret = temp_name(env.src, "matchexp"@, e.1.start);
    let init = CasesOut {
        aux: s.pre,
        cases: Seq::empty(),
        has_default: false,
        activates: s.activates,
    };
    let folded = match_expr_cases_from(env, cases, e.1, ret, 0, init);
    let all_end = forall|k: int|
        0 <= k < cases.len() ==> {
            let body = lower_block(env, (#[trigger] cases[k]).1, true, false)->Ok_0;
            body.final_ is Expr || body.final_ is Never
        };
    if folded is Ok {
        lemma_match_cases_all_lowered(env, cases, e.1, ret, 0, init);
        assert forall|k: int| 0 <= k < cases.len() implies {
            let body = lower_block(env, (#[trigger] cases[k]).1, true, false)->Ok_0;
            body.final_ is Expr || body.final_ is Never
        } by {
            assert(case_arm(env, cases, e.1, ret, k) is Ok);
        }
        assert(lower_match_expr(env, e) is Ok);
    }
    if all_end {
        assert forall|k: int| 0 <= k < cases.len() implies {
            &&& (#[trigger] case_arm(env, cases, e.1, ret, k)) is Ok
            &&& lower_pattern(env, cases[k].0, e.1) is Ok
            &&& cases[k].0 is None ==> k == cases.len() - 1
        } by {
            assert(cases[k].1 == cases[k].1);
            lemma_arm_assigns_or_exits(
                env,
                cases[k].1,
                mk_store(ret, e.1),
                cases[k].1.1,
                case_message(),
            );
        }
        lemma_match_cases_lower(env, cases, e.1, ret, 0, init);
    }
}

} // verus!
