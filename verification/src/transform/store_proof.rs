//! Proof that lowering writes to assignment targets only, rule by rule.
//!
//! For each rule there is a lemma `writes_..` that says what the rule's result
//! keeps to; the lemmas `reads_..` say the same of single nodes. The laws at
//! the end of the file are what the lemmas add up to.

use vstd::prelude::*;
use crate::ast::{
    ArgDefItem, BinaryOp, Block, CallItem, ExceptHandler, ExceptTypes, Expr, ListItem,
    MappingItem, SBlock, SCallItem, SExpr, SFmtExpr, Span, Spanned, SStmt, Stmt,
};
use crate::py::ast::{
    PyAccessCtx, PyArgDefItemView, PyBinaryOp, PyCallItemView, PyDictItemView,
    PyExceptHandlerView, PyExprView, PyFstrPartView, PyListItemView, PyMatchCaseView,
    PyStmtView, SPyExprView, SPyStmtView,
};
use crate::py::util::{
    mk_assign, mk_attribute, mk_binary, mk_call, mk_call1, mk_expr, mk_handler, mk_if_expr,
    mk_load, mk_num, mk_return, mk_slice, mk_stmt, mk_store, mk_subscript, mk_try, opt_boxed,
};
use crate::transform::entry::{is_lowering_of, TransformOutput};
use crate::transform::model::{
    add_item, ArgsOut, BlockOut, close_guard, coalesce_test, DesOut, Env, ExprOut, FinalView,
    fn_exp, FnParts, ItemsOut, lower_import, mapped, no_items, opt_name, placeholder_name,
    scope_modifier, scope_stmts, StmtsOut,
};
use crate::transform::names::{int_text, temp_name};
use crate::transform::outcome::TfResult;
use crate::transform::postfix::receiver_of;
use crate::transform::rules::{
    add_bound, arglist_from, block_body_from, block_stmts, BlockAcc, call_items_from, CasesOut,
    class_bases_from, class_def, cursor_name, default_activates, default_expr, default_pre,
    des_list_from, des_map_from, des_map_rest, DesAcc, dict_name, dict_pop, empty_block,
    ends_with_value, except_types_from, fn_def, fstr_inside, fstr_parts_from, is_definition,
    lemma_peel_inner_within, len_name, list_element, list_items_from, list_name, list_rest,
    lower_arm, lower_assign, lower_assignment, lower_binary, lower_block, lower_block_expr,
    lower_bound, lower_checked, lower_class_exp, lower_decorators, lower_deep_guarded,
    lower_default, lower_definition, lower_except_type, lower_except_types, lower_expr,
    lower_expr_stmt, lower_final_expr, lower_fn_exp, lower_for, lower_fstr, lower_guarded,
    lower_handler_types, lower_if_expr, lower_if_stmt, lower_lifted, lower_list,
    lower_list_target, lower_mapping, lower_mapping_target, lower_match_expr, lower_match_stmt,
    lower_module, lower_pattern, lower_postfix, lower_slice, lower_stmt, lower_stmt_list,
    lower_subscript_items, lower_target, lower_try, lower_unary, lower_value_stmt, lower_while,
    mapping_items_from, match_expr_cases_from, match_stmt_cases_from, no_args, opt_block_stmts,
    opt_sblock_stmts, opt_stmts, peel_inner, postfix_step, prepare_fn, slice_inside, take_stmt,
    try_handlers_from, while_head,
};
use crate::transform::store::{
    all_write_to_targets, arg_defs_read_only, call_item_expr, call_item_reads_only,
    call_items_read_only, case_writes_to_targets, dict_items_read_only, exprs_read_only,
    fstr_parts_read_only, handler_writes_to_targets, is_target, item_expr, list_items_read_only,
    opt_box_reads_only, reads_only, writes_to_targets,
};

verus! {

// ---------------------------------------------------------------------------
// What is shown of each result
// ---------------------------------------------------------------------------

pub open spec fn ok_expr(o: ExprOut) -> bool {
    all_write_to_targets(o.pre) && reads_only(o.expr)
}

pub open spec fn ok_opt_expr(o: Option<ExprOut>) -> bool {
    match o {
        Some(x) => ok_expr(x),
        None => true,
    }
}

pub open spec fn ok_stmts(o: StmtsOut) -> bool {
    all_write_to_targets(o.stmts)
}

pub open spec fn ok_opt_stmts(o: Option<StmtsOut>) -> bool {
    match o {
        Some(x) => ok_stmts(x),
        None => true,
    }
}

pub open spec fn ok_block(o: BlockOut) -> bool {
    all_write_to_targets(o.stmts) && (o.final_ is Expr ==> reads_only(o.final_->Expr_0))
}

pub open spec fn ok_des(o: DesOut) -> bool {
    is_target(o.assign_to) && all_write_to_targets(o.post)
}

pub open spec fn ok_des_acc(o: DesAcc) -> bool {
    all_write_to_targets(o.stmts) && all_write_to_targets(o.post)
}

pub open spec fn ok_args(o: ArgsOut) -> bool {
    all_write_to_targets(o.pre) && all_write_to_targets(o.post) && arg_defs_read_only(o.args)
}

pub open spec fn ok_fn_parts(o: FnParts) -> bool {
    all_write_to_targets(o.aux) && all_write_to_targets(o.body) && arg_defs_read_only(o.args)
}

pub open spec fn ok_cases(o: CasesOut) -> bool {
    all_write_to_targets(o.aux) && forall|i: int|
        0 <= i < o.cases.len() ==> case_writes_to_targets(#[trigger] o.cases[i])
}

pub open spec fn ok_handlers(o: ItemsOut<PyExceptHandlerView>) -> bool {
    forall|i: int| 0 <= i < o.items.len() ==> handler_writes_to_targets(#[trigger] o.items[i])
}

// ---------------------------------------------------------------------------
// Sequences
// ---------------------------------------------------------------------------

proof fn writes_add(a: Seq<SPyStmtView>, b: Seq<SPyStmtView>)
    requires
        all_write_to_targets(a),
        all_write_to_targets(b),
    ensures
        all_write_to_targets(a + b),
{
    assert forall|i: int| 0 <= i < (a + b).len() implies writes_to_targets(
        #[trigger] (a + b)[i],
    ) by {
        if i < a.len() {
            assert((a + b)[i] == a[i]);
        } else {
            assert((a + b)[i] == b[i - a.len()]);
        }
    }
}

proof fn writes_push(a: Seq<SPyStmtView>, s: SPyStmtView)
    requires
        all_write_to_targets(a),
        writes_to_targets(s),
    ensures
        all_write_to_targets(a.push(s)),
{
    assert forall|i: int| 0 <= i < a.push(s).len() implies
        writes_to_targets(#[trigger] a.push(s)[i]) by {
        if i < a.len() {
            assert(a.push(s)[i] == a[i]);
        } else {
            assert(a.push(s)[i] == s);
        }
    }
}

// ---------------------------------------------------------------------------
// Nodes
// ---------------------------------------------------------------------------

proof fn reads_load(name: Seq<char>, span: Span)
    ensures
        reads_only(mk_load(name, span)),
{
}

proof fn reads_call1(f: SPyExprView, x: SPyExprView, span: Span)
    requires
        reads_only(f),
        reads_only(x),
    ensures
        reads_only(mk_call1(f, x, span)),
{
    let args = seq![PyCallItemView::Arg(x)];
    assert(call_item_reads_only(args[0]));
}

proof fn reads_call(f: SPyExprView, args: Seq<PyCallItemView>, span: Span)
    requires
        reads_only(f),
        call_items_read_only(args),
    ensures
        reads_only(mk_call(f, args, span)),
{
}

proof fn reads_if_expr(c: SPyExprView, t: SPyExprView, f: SPyExprView, span: Span)
    requires
        reads_only(c),
        reads_only(t),
        reads_only(f),
    ensures
        reads_only(mk_if_expr(c, t, f, span)),
{
}

proof fn reads_mapped(subject: SPyExprView, step: SPyExprView, span: Span)
    requires
        reads_only(subject),
        reads_only(step),
    ensures
        reads_only(mapped(subject, step, span)),
{
    reads_load("__coalesces"@, span);
    reads_call1(mk_load("__coalesces"@, span), subject, span);
    reads_if_expr(coalesce_test(subject, span), subject, step, span);
}

proof fn reads_attribute(o: SPyExprView, name: Seq<char>, ctx: PyAccessCtx, span: Span)
    requires
        reads_only(o),
    ensures
        ctx == PyAccessCtx::Load ==> reads_only(mk_attribute(o, name, ctx, span)),
        ctx == PyAccessCtx::Store ==> is_target(mk_attribute(o, name, ctx, span)),
{
}

proof fn reads_subscript(o: SPyExprView, i: SPyExprView, ctx: PyAccessCtx, span: Span)
    requires
        reads_only(o),
        reads_only(i),
    ensures
        ctx == PyAccessCtx::Load ==> reads_only(mk_subscript(o, i, ctx, span)),
        ctx == PyAccessCtx::Store ==> is_target(mk_subscript(o, i, ctx, span)),
{
}

proof fn writes_assign_stmt(target: SPyExprView, value: SPyExprView, span: Span)
    requires
        is_target(target),
        reads_only(value),
    ensures
        writes_to_targets(mk_assign(target, value, span)),
{
}

proof fn reads_list_element(src: Seq<u8>, span: Span, index: int)
    ensures
        reads_only(list_element(src, span, index)),
{
    reads_load(list_name(src, span), span);
    reads_subscript(
        mk_load(list_name(src, span), span),
        mk_num(int_text(index), span),
        PyAccessCtx::Load,
        span,
    );
}

proof fn reads_list_rest(src: Seq<u8>, span: Span, from: int, back: int)
    ensures
        reads_only(list_rest(src, span, from, back)),
{
    reads_load(list_name(src, span), span);
    reads_load(len_name(src, span), span);
    let start = mk_num(int_text(from), span);
    let end = mk_binary(
        crate::py::ast::PyBinaryOp::Sub,
        mk_load(len_name(src, span), span),
        mk_num(int_text(back), span),
        span,
    );
    let back_num = mk_num(int_text(back), span);
    assert(reads_only(back_num));
    assert(reads_only(start));
    assert(reads_only(end));
    let slice = mk_slice(Some(start), Some(end), None, span);
    assert(opt_box_reads_only(
        opt_boxed(Some(start)),
    ));
    assert(opt_box_reads_only(opt_boxed(Some(end))));
    assert(opt_box_reads_only(
        opt_boxed(None::<SPyExprView>),
    ));
    assert(reads_only(slice));
    reads_subscript(mk_load(list_name(src, span), span), slice, PyAccessCtx::Load, span);
}

proof fn reads_dict_pop(src: Seq<u8>, span: Span, key: SPyExprView)
    requires
        reads_only(key),
    ensures
        reads_only(dict_pop(src, span, key)),
{
    reads_load(dict_name(src, span), span);
    reads_attribute(mk_load(dict_name(src, span), span), "pop"@, PyAccessCtx::Load, span);
    reads_call1(
        mk_attribute(mk_load(dict_name(src, span), span), "pop"@, PyAccessCtx::Load, span),
        key,
        span,
    );
}

proof fn writes_first_assign(var: Seq<char>, callee: Seq<char>, arg: Seq<char>, span: Span)
    ensures
        writes_to_targets(
            mk_assign(
                mk_store(var, span),
                mk_call1(mk_load(callee, span), mk_load(arg, span), span),
                span,
            ),
        ),
{
    reads_load(callee, span);
    reads_load(arg, span);
    reads_call1(mk_load(callee, span), mk_load(arg, span), span);
    writes_assign_stmt(
        mk_store(var, span),
        mk_call1(mk_load(callee, span), mk_load(arg, span), span),
        span,
    );
}

// ---------------------------------------------------------------------------
// Synthesized functions and guards
// ---------------------------------------------------------------------------

proof fn writes_fn_exp(
    src: Seq<u8>,
    aux: Seq<SPyStmtView>,
    args: Seq<PyArgDefItemView>,
    body: Seq<SPyStmtView>,
    span: Span,
)
    requires
        all_write_to_targets(aux),
        arg_defs_read_only(args),
        all_write_to_targets(body),
    ensures
        ok_expr(fn_exp(src, aux, args, body, span)),
{
    if body.len() == 1 && body[0].value is Return {
        assert(writes_to_targets(body[0]));
    } else {
        let name = temp_name(src, "fnexp"@, span.start);
        let def = mk_stmt(
            crate::py::ast::PyStmtView::FnDef(name, args, body, Seq::empty()),
            span,
        );
        assert(exprs_read_only(Seq::<SPyExprView>::empty()));
        writes_push(aux, def);
    }
}

proof fn writes_close_guard(src: Seq<u8>, span: Span, inner: ExprOut)
    requires
        ok_expr(inner),
    ensures
        ok_expr(close_guard(src, span, inner)),
{
    if inner.activates {
        let args = seq![
            PyArgDefItemView::Arg(placeholder_name(src, span), None),
        ];
        let ret = mk_return(inner.expr, span);
        writes_push(inner.pre, ret);
        assert(all_write_to_targets(Seq::<SPyStmtView>::empty()));
        writes_fn_exp(src, Seq::empty(), args, inner.pre.push(ret), span);
    }
}

// ---------------------------------------------------------------------------
// Expressions
// ---------------------------------------------------------------------------

proof fn writes_expr(env: Env, e: SExpr, access: PyAccessCtx)
    requires
        lower_expr(env, e, access) is Ok,
    ensures
        all_write_to_targets(lower_expr(env, e, access)->Ok_0.pre),
        access == PyAccessCtx::Load ==> reads_only(lower_expr(env, e, access)->Ok_0.expr),
        access == PyAccessCtx::Store ==> is_target(lower_expr(env, e, access)->Ok_0.expr),
    decreases e, 10int,
{
    match e.0 {
        Expr::Checked(_, _) => writes_checked(env, e),
        Expr::Placeholder => {},
        Expr::Fn(_, _) => writes_fn_expr(env, e),
        Expr::Class(_, _) => writes_class_exp(env, e),
        Expr::Literal(_) => {},
        Expr::Ident(_) => {},
        Expr::Attribute(_, _)
        | Expr::MappedAttribute(_, _)
        | Expr::Call(_, _)
        | Expr::MappedCall(_, _)
        | Expr::Subscript(_, _)
        | Expr::MappedSubscript(_, _)
        | Expr::Then(_, _)
        | Expr::MappedThen(_, _) => writes_postfix(env, e, access),
        Expr::If(_, _, _) => writes_if_expr(env, e),
        Expr::Block(_) => writes_block_expr(env, e),
        Expr::Match(_, _) => writes_match_expr(env, e),
        Expr::Binary(_, _, _) => writes_binary(env, e),
        Expr::Unary(_, _) => writes_unary(env, e),
        Expr::List(_) | Expr::Tuple(_) => writes_list(env, e),
        Expr::Mapping(_) => writes_mapping(env, e),
        Expr::Slice(_, _, _) => writes_slice(env, e),
        Expr::Fstr(_, _) => writes_fstr(env, e),
    }
}

proof fn writes_guarded(env: Env, e: SExpr)
    requires
        lower_guarded(env, e) is Ok,
    ensures
        ok_expr(lower_guarded(env, e)->Ok_0),
    decreases e, 11int,
{
    let inner = lower_expr(env.under(e.1), e, PyAccessCtx::Load);
    writes_expr(env.under(e.1), e, PyAccessCtx::Load);
    writes_close_guard(env.src, e.1, inner->Ok_0);
}

proof fn writes_deep_guarded(env: Env, e: SExpr)
    requires
        lower_deep_guarded(env, e) is Ok,
    ensures
        ok_expr(lower_deep_guarded(env, e)->Ok_0),
    decreases e, 12int,
{
    if e.0 is Placeholder {
    } else {
        writes_guarded(env, e);
    }
}

proof fn writes_lifted(env: Env, e: SExpr)
    requires
        lower_lifted(env, e) is Ok,
    ensures
        ok_expr(lower_lifted(env, e)->Ok_0),
    decreases e, 11int,
{
    writes_expr(env, e, PyAccessCtx::Load);
    let v = lower_expr(env, e, PyAccessCtx::Load)->Ok_0;
    if !(e.0 is Ident) {
        let name = temp_name(env.src, "tmp"@, e.1.start);
        writes_push(v.pre, mk_assign(mk_store(name, e.1), v.expr, e.1));
    }
}

proof fn writes_binary(env: Env, e: SExpr)
    requires
        lower_binary(env, e) is Ok,
    ensures
        ok_expr(lower_binary(env, e)->Ok_0),
    decreases e, 5int,
{
    match e.0 {
        Expr::Binary(BinaryOp::Pipe, l, r) => {
            writes_guarded(env, *l);
            writes_guarded(env, *r);
            let lo = lower_guarded(env, *l)->Ok_0;
            let ro = lower_guarded(env, *r)->Ok_0;
            writes_add(lo.pre, ro.pre);
            reads_call1(ro.expr, lo.expr, e.1);
        },
        Expr::Binary(BinaryOp::Coalesce, l, r) => {
            writes_lifted(env, *l);
            writes_expr(env, *r, PyAccessCtx::Load);
            let lo = lower_lifted(env, *l)->Ok_0;
            let ro = lower_expr(env, *r, PyAccessCtx::Load)->Ok_0;
            writes_add(lo.pre, ro.pre);
            reads_load("__coalesces"@, e.1);
            reads_call1(mk_load("__coalesces"@, e.1), lo.expr, e.1);
            reads_if_expr(coalesce_test(lo.expr, e.1), ro.expr, lo.expr, e.1);
        },
        Expr::Binary(_, l, r) => {
            writes_expr(env, *l, PyAccessCtx::Load);
            writes_expr(env, *r, PyAccessCtx::Load);
            writes_add(
                lower_expr(env, *l, PyAccessCtx::Load)->Ok_0.pre,
                lower_expr(env, *r, PyAccessCtx::Load)->Ok_0.pre,
            );
        },
        _ => {},
    }
}

proof fn writes_unary(env: Env, e: SExpr)
    requires
        lower_unary(env, e) is Ok,
    ensures
        ok_expr(lower_unary(env, e)->Ok_0),
    decreases e, 5int,
{
    match e.0 {
        Expr::Unary(_, x) => {
            writes_expr(env, *x, PyAccessCtx::Load);
        },
        _ => {},
    }
}

proof fn writes_except_type(env: Env, x: SExpr)
    requires
        lower_except_type(env, x) is Ok,
    ensures
        ok_expr(lower_except_type(env, x)->Ok_0),
    decreases x, 13int,
{
    writes_expr(env, x, PyAccessCtx::Load);
}

proof fn writes_except_types_from(env: Env, types: Seq<SExpr>, i: int, acc: ItemsOut<PyListItemView>)
    requires
        0 <= i,
        list_items_read_only(acc.items),
        except_types_from(env, types, i, acc) is Ok,
    ensures
        list_items_read_only(except_types_from(env, types, i, acc)->Ok_0.items),
    decreases types, types.len() - i,
{
    if i < types.len() {
        writes_except_type(env, types[i]);
        let o = lower_except_type(env, types[i])->Ok_0;
        let next = add_item(acc, o, PyListItemView::Item(o.expr));
        writes_except_types_from(env, types, i + 1, next);
    }
}

proof fn writes_except_types(env: Env, t: ExceptTypes, span: Span)
    requires
        lower_except_types(env, t, span) is Ok,
    ensures
        ok_expr(lower_except_types(env, t, span)->Ok_0),
    decreases t, 1int,
{
    match t {
        ExceptTypes::Single(x) => {
            writes_except_type(env, x);
        },
        ExceptTypes::Multiple(types) => {
            writes_except_types_from(env, types@, 0, no_items());
        },
    }
}

proof fn writes_checked(env: Env, e: SExpr)
    requires
        lower_checked(env, e) is Ok,
    ensures
        ok_expr(lower_checked(env, e)->Ok_0),
    decreases e, 5int,
{
    match e.0 {
        Expr::Checked(inner, types) => {
            writes_expr(env, *inner, PyAccessCtx::Load);
            let t = lower_expr(env, *inner, PyAccessCtx::Load)->Ok_0;
            let var = temp_name(env.src, "chk"@, e.1.start);
            let first = mk_assign(mk_store(var, e.1), t.expr, e.1);
            writes_push(t.pre, first);
            let second = mk_assign(
                mk_store(var, e.1),
                mk_load("__e"@, e.1),
                e.1,
            );
            let catch_body = seq![second];
            assert(all_write_to_targets(catch_body));
            match types {
                Some(ts) => {
                    writes_except_types(env, *ts, e.1);
                },
                None => {},
            }
            let ty = (match types {
                Some(ts) => lower_except_types(env, *ts, e.1),
                None => Ok(
                    ExprOut {
                        pre: Seq::empty(),
                        expr: mk_load("Exception"@, e.1),
                        activates: false,
                    },
                ),
            })->Ok_0;
            let handler = mk_handler(Some(ty.expr), Some("__e"@), catch_body);
            assert(handler_writes_to_targets(handler));
            let stmt = mk_try(t.pre.push(first), seq![handler], None, e.1);
            assert(writes_to_targets(stmt));
            assert(all_write_to_targets(seq![stmt]));
        },
        _ => {},
    }
}

// ---------------------------------------------------------------------------
// Postfix forms
// ---------------------------------------------------------------------------

proof fn writes_call_items_from(
    env: Env,
    items: Seq<SCallItem>,
    span: Span,
    i: int,
    started_kwargs: bool,
    acc: ItemsOut<PyCallItemView>,
)
    requires
        0 <= i,
        all_write_to_targets(acc.pre),
        call_items_read_only(acc.items),
        call_items_from(env, items, span, i, started_kwargs, acc) is Ok,
    ensures
        all_write_to_targets(call_items_from(env, items, span, i, started_kwargs, acc)->Ok_0.pre),
        call_items_read_only(call_items_from(env, items, span, i, started_kwargs, acc)->Ok_0.items),
    decreases items, items.len() - i,
{
    if i < items.len() {
        let x = call_item_expr(items[i].0);
        writes_deep_guarded(env, x);
        let o = lower_deep_guarded(env, x)->Ok_0;
        let started = started_kwargs || items[i].0 is Kwarg || items[i].0 is KwargSpread;
        let item = match items[i].0 {
            CallItem::Arg(_) => PyCallItemView::Arg(o.expr),
            CallItem::Kwarg(name, _) => PyCallItemView::Kwarg(name.0@, o.expr),
            CallItem::ArgSpread(_) => PyCallItemView::ArgSpread(o.expr),
            CallItem::KwargSpread(_) => PyCallItemView::KwargSpread(o.expr),
        };
        let next = add_item(acc, o, item);
        writes_add(acc.pre, o.pre);
        writes_call_items_from(env, items, span, i + 1, started, next);
    }
}

proof fn writes_list_items_from(env: Env, items: Seq<ListItem>, i: int, acc: ItemsOut<PyListItemView>)
    requires
        0 <= i,
        all_write_to_targets(acc.pre),
        list_items_read_only(acc.items),
        list_items_from(env, items, i, acc) is Ok,
    ensures
        all_write_to_targets(list_items_from(env, items, i, acc)->Ok_0.pre),
        list_items_read_only(list_items_from(env, items, i, acc)->Ok_0.items),
    decreases items, items.len() - i,
{
    if i < items.len() {
        let x = item_expr(items[i]);
        writes_deep_guarded(env, x);
        let o = lower_deep_guarded(env, x)->Ok_0;
        let item = match items[i] {
            ListItem::Item(_) => PyListItemView::Item(o.expr),
            ListItem::Spread(_) => PyListItemView::Spread(o.expr),
        };
        let next = add_item(acc, o, item);
        writes_add(acc.pre, o.pre);
        writes_list_items_from(env, items, i + 1, next);
    }
}

proof fn writes_subscript_items(env: Env, items: Seq<ListItem>, span: Span)
    requires
        lower_subscript_items(env, items, span) is Ok,
    ensures
        ok_expr(lower_subscript_items(env, items, span)->Ok_0),
    decreases items, items.len() + 1,
{
    if items.len() == 1 && items[0] is Item {
        assert(item_expr(items[0]) == items[0]->Item_0);
        writes_deep_guarded(env, items[0]->Item_0);
    } else {
        assert(all_write_to_targets(Seq::<SPyStmtView>::empty()));
        writes_list_items_from(env, items, 0, no_items());
    }
}

proof fn writes_postfix_step(
    env: Env,
    e: SExpr,
    access: PyAccessCtx,
    lhs_pre: Seq<SPyStmtView>,
    lhs_expr: SPyExprView,
)
    requires
        all_write_to_targets(lhs_pre),
        reads_only(lhs_expr),
        postfix_step(env, e, access, lhs_pre, lhs_expr) is Ok,
        e.0 is MappedCall || e.0 is MappedSubscript || e.0 is MappedAttribute || e.0 is MappedThen
            ==> access == PyAccessCtx::Load,
    ensures
        all_write_to_targets(postfix_step(env, e, access, lhs_pre, lhs_expr)->Ok_0.pre),
        access == PyAccessCtx::Load ==> reads_only(
            postfix_step(env, e, access, lhs_pre, lhs_expr)->Ok_0.expr,
        ),
        access == PyAccessCtx::Store && (e.0 is Attribute || e.0 is Subscript) ==> is_target(
            postfix_step(env, e, access, lhs_pre, lhs_expr)->Ok_0.expr,
        ),
    decreases e, 3int,
{
    match e.0 {
        Expr::Call(_, list) => {
            writes_step_call(env, e, access, lhs_pre, lhs_expr);
        },
        Expr::MappedCall(_, list) => {
            writes_step_call(env, e, access, lhs_pre, lhs_expr);
        },
        Expr::Subscript(_, list) => {
            writes_step_subscript(env, e, access, lhs_pre, lhs_expr);
        },
        Expr::MappedSubscript(_, list) => {
            writes_step_subscript(env, e, access, lhs_pre, lhs_expr);
        },
        Expr::Attribute(_, attr) => {
            reads_attribute(lhs_expr, attr.0@, access, e.1);
        },
        Expr::MappedAttribute(_, attr) => {
            reads_attribute(lhs_expr, attr.0@, access, e.1);
            reads_mapped(lhs_expr, mk_attribute(lhs_expr, attr.0@, access, e.1), e.1);
        },
        Expr::Then(_, rhs) => {
            writes_step_then(env, e, access, lhs_pre, lhs_expr);
        },
        Expr::MappedThen(_, rhs) => {
            writes_step_then(env, e, access, lhs_pre, lhs_expr);
        },
        _ => {},
    }
}

proof fn writes_step_call(
    env: Env,
    e: SExpr,
    access: PyAccessCtx,
    lhs_pre: Seq<SPyStmtView>,
    lhs_expr: SPyExprView,
)
    requires
        e.0 is Call || e.0 is MappedCall,
        all_write_to_targets(lhs_pre),
        reads_only(lhs_expr),
        postfix_step(env, e, access, lhs_pre, lhs_expr) is Ok,
    ensures
        ok_expr(postfix_step(env, e, access, lhs_pre, lhs_expr)->Ok_0),
    decreases e, 2int,
{
    let list = match e.0 {
        Expr::Call(_, list) => list@,
        Expr::MappedCall(_, list) => list@,
        _ => Seq::empty(),
    };
    assert(all_write_to_targets(Seq::<SPyStmtView>::empty()));
    writes_call_items_from(env, list, e.1, 0, false, no_items());
    let t = call_items_from(env, list, e.1, 0, false, no_items())->Ok_0;
    writes_add(lhs_pre, t.pre);
    reads_call(lhs_expr, t.items, e.1);
    reads_mapped(lhs_expr, mk_call(lhs_expr, t.items, e.1), e.1);
}

proof fn writes_step_subscript(
    env: Env,
    e: SExpr,
    access: PyAccessCtx,
    lhs_pre: Seq<SPyStmtView>,
    lhs_expr: SPyExprView,
)
    requires
        e.0 is Subscript || e.0 is MappedSubscript,
        e.0 is MappedSubscript ==> access == PyAccessCtx::Load,
        all_write_to_targets(lhs_pre),
        reads_only(lhs_expr),
        postfix_step(env, e, access, lhs_pre, lhs_expr) is Ok,
    ensures
        all_write_to_targets(postfix_step(env, e, access, lhs_pre, lhs_expr)->Ok_0.pre),
        access == PyAccessCtx::Load ==> reads_only(
            postfix_step(env, e, access, lhs_pre, lhs_expr)->Ok_0.expr,
        ),
        access == PyAccessCtx::Store && e.0 is Subscript ==> is_target(
            postfix_step(env, e, access, lhs_pre, lhs_expr)->Ok_0.expr,
        ),
    decreases e, 2int,
{
    let list = match e.0 {
        Expr::Subscript(_, list) => list@,
        Expr::MappedSubscript(_, list) => list@,
        _ => Seq::empty(),
    };
    writes_subscript_items(env, list, e.1);
    let t = lower_subscript_items(env, list, e.1)->Ok_0;
    writes_add(lhs_pre, t.pre);
    reads_subscript(lhs_expr, t.expr, access, e.1);
    if access == PyAccessCtx::Load {
        reads_mapped(lhs_expr, mk_subscript(lhs_expr, t.expr, access, e.1), e.1);
    }
}

proof fn writes_step_then(
    env: Env,
    e: SExpr,
    access: PyAccessCtx,
    lhs_pre: Seq<SPyStmtView>,
    lhs_expr: SPyExprView,
)
    requires
        e.0 is Then || e.0 is MappedThen,
        all_write_to_targets(lhs_pre),
        reads_only(lhs_expr),
        postfix_step(env, e, access, lhs_pre, lhs_expr) is Ok,
    ensures
        ok_expr(postfix_step(env, e, access, lhs_pre, lhs_expr)->Ok_0),
    decreases e, 2int,
{
    let rhs = match e.0 {
        Expr::Then(_, rhs) => *rhs,
        Expr::MappedThen(_, rhs) => *rhs,
        _ => e,
    };
    writes_guarded(env, rhs);
    let r = lower_guarded(env, rhs)->Ok_0;
    writes_add(lhs_pre, r.pre);
    reads_call1(r.expr, lhs_expr, e.1);
    reads_mapped(lhs_expr, mk_call1(r.expr, lhs_expr, e.1), e.1);
}

proof fn writes_postfix(env: Env, e: SExpr, access: PyAccessCtx)
    requires
        lower_postfix(env, e, access) is Ok,
    ensures
        all_write_to_targets(lower_postfix(env, e, access)->Ok_0.pre),
        access == PyAccessCtx::Load ==> reads_only(lower_postfix(env, e, access)->Ok_0.expr),
        access == PyAccessCtx::Store ==> is_target(lower_postfix(env, e, access)->Ok_0.expr),
    decreases e, 5int,
{
    match e.0 {
        Expr::Attribute(obj, _) => writes_plain_postfix(env, e, *obj, access),
        Expr::Subscript(obj, _) => writes_plain_postfix(env, e, *obj, access),
        Expr::Call(obj, _) => writes_plain_postfix(env, e, *obj, access),
        Expr::Then(obj, _) => writes_plain_postfix(env, e, *obj, access),
        Expr::MappedAttribute(obj, _) => writes_mapped_postfix(env, e, *obj, access),
        Expr::MappedSubscript(obj, _) => writes_mapped_postfix(env, e, *obj, access),
        Expr::MappedCall(obj, _) => writes_mapped_postfix(env, e, *obj, access),
        Expr::MappedThen(obj, _) => writes_mapped_postfix(env, e, *obj, access),
        _ => {},
    }
}

proof fn writes_plain_postfix(env: Env, e: SExpr, obj: SExpr, access: PyAccessCtx)
    requires
        e.0 is Call || e.0 is Subscript || e.0 is Attribute || e.0 is Then,
        obj == receiver_of(e.0),
        lower_postfix(env, e, access) is Ok,
    ensures
        all_write_to_targets(lower_postfix(env, e, access)->Ok_0.pre),
        access == PyAccessCtx::Load ==> reads_only(lower_postfix(env, e, access)->Ok_0.expr),
        access == PyAccessCtx::Store ==> is_target(lower_postfix(env, e, access)->Ok_0.expr),
    decreases e, 4int,
{
    let inner = env.under(e.1);
    let lowered = lower_expr(env, obj, PyAccessCtx::Load);
    assert(lowered is Ok);
    writes_expr(env, obj, PyAccessCtx::Load);
    let lhs = lowered->Ok_0;
    let step = postfix_step(inner, e, access, lhs.pre, lhs.expr);
    assert(step is Ok);
    assert(lower_postfix(env, e, access)->Ok_0.pre == close_guard(env.src, e.1, step->Ok_0).pre);
    assert(lower_postfix(env, e, access)->Ok_0.expr == close_guard(
        env.src,
        e.1,
        step->Ok_0,
    ).expr);
    writes_postfix_step(inner, e, access, lhs.pre, lhs.expr);
    if access == PyAccessCtx::Load {
        writes_close_guard(env.src, e.1, step->Ok_0);
    } else {
        assert(e.0 is Attribute || e.0 is Subscript);
        assert(!step->Ok_0.activates);
    }
}

proof fn writes_mapped_postfix(env: Env, e: SExpr, obj: SExpr, access: PyAccessCtx)
    requires
        e.0 is MappedCall || e.0 is MappedSubscript || e.0 is MappedAttribute || e.0 is MappedThen,
        obj == receiver_of(e.0),
        lower_postfix(env, e, access) is Ok,
    ensures
        access == PyAccessCtx::Load,
        ok_expr(lower_postfix(env, e, access)->Ok_0),
    decreases e, 4int,
{
    let inner = env.under(e.1);
    assert(access == PyAccessCtx::Load);
    assert(lower_lifted(env, obj) is Ok);
    writes_lifted(env, obj);
    let lhs = lower_lifted(env, obj)->Ok_0;
    let step = postfix_step(inner, e, access, lhs.pre, lhs.expr);
    assert(step is Ok);
    writes_postfix_step(inner, e, access, lhs.pre, lhs.expr);
    writes_close_guard(env.src, e.1, step->Ok_0);
}

// ---------------------------------------------------------------------------
// Literals of several parts
// ---------------------------------------------------------------------------

proof fn writes_list(env: Env, e: SExpr)
    requires
        lower_list(env, e) is Ok,
    ensures
        ok_expr(lower_list(env, e)->Ok_0),
    decreases e, 5int,
{
    let inner = env.under(e.1);
    assert(all_write_to_targets(Seq::<SPyStmtView>::empty()));
    match e.0 {
        Expr::List(items) => {
            writes_list_items_from(inner, items@, 0, no_items());
            let t = list_items_from(inner, items@, 0, no_items())->Ok_0;
            writes_close_guard(
                env.src,
                e.1,
                ExprOut {
                    pre: t.pre,
                    expr: mk_expr(crate::py::ast::PyExprView::List(t.items), e.1),
                    activates: t.activates,
                },
            );
        },
        Expr::Tuple(items) => {
            writes_list_items_from(inner, items@, 0, no_items());
            let t = list_items_from(inner, items@, 0, no_items())->Ok_0;
            writes_close_guard(
                env.src,
                e.1,
                ExprOut {
                    pre: t.pre,
                    expr: mk_expr(crate::py::ast::PyExprView::Tuple(t.items), e.1),
                    activates: t.activates,
                },
            );
        },
        _ => {},
    }
}

proof fn writes_mapping_items_from(
    env: Env,
    items: Seq<MappingItem>,
    i: int,
    acc: ItemsOut<PyDictItemView>,
)
    requires
        0 <= i,
        all_write_to_targets(acc.pre),
        dict_items_read_only(acc.items),
        mapping_items_from(env, items, i, acc) is Ok,
    ensures
        all_write_to_targets(mapping_items_from(env, items, i, acc)->Ok_0.pre),
        dict_items_read_only(mapping_items_from(env, items, i, acc)->Ok_0.items),
    decreases items, items.len() - i,
{
    if i < items.len() {
        match items[i] {
            MappingItem::Item(k, v) => {
                writes_deep_guarded(env, k);
                writes_deep_guarded(env, v);
                let ko = lower_deep_guarded(env, k)->Ok_0;
                let vo = lower_deep_guarded(env, v)->Ok_0;
                writes_add(acc.pre, ko.pre);
                writes_add(acc.pre + ko.pre, vo.pre);
                let next = ItemsOut {
                    pre: acc.pre + ko.pre + vo.pre,
                    items: acc.items.push(PyDictItemView::Item(ko.expr, vo.expr)),
                    activates: acc.activates || ko.activates || vo.activates,
                };
                writes_mapping_items_from(env, items, i + 1, next);
            },
            MappingItem::Spread(x) => {
                writes_deep_guarded(env, x);
                let o = lower_deep_guarded(env, x)->Ok_0;
                writes_add(acc.pre, o.pre);
                let next = add_item(acc, o, PyDictItemView::Spread(o.expr));
                writes_mapping_items_from(env, items, i + 1, next);
            },
        }
    }
}

proof fn writes_mapping(env: Env, e: SExpr)
    requires
        lower_mapping(env, e) is Ok,
    ensures
        ok_expr(lower_mapping(env, e)->Ok_0),
    decreases e, 5int,
{
    let inner = env.under(e.1);
    assert(all_write_to_targets(Seq::<SPyStmtView>::empty()));
    match e.0 {
        Expr::Mapping(items) => {
            writes_mapping_items_from(inner, items@, 0, no_items());
            let t = mapping_items_from(inner, items@, 0, no_items())->Ok_0;
            writes_close_guard(
                env.src,
                e.1,
                ExprOut {
                    pre: t.pre,
                    expr: mk_expr(crate::py::ast::PyExprView::Dict(t.items), e.1),
                    activates: t.activates,
                },
            );
        },
        _ => {},
    }
}

proof fn writes_bound(env: Env, bound: Option<Box<SExpr>>)
    requires
        lower_bound(env, bound) is Ok,
    ensures
        ok_opt_expr(lower_bound(env, bound)->Ok_0),
    decreases bound, 13int,
{
    match bound {
        None => {},
        Some(x) => {
            writes_deep_guarded(env, *x);
        },
    }
}

proof fn writes_add_bound(acc: ItemsOut<PyCallItemView>, bound: Option<ExprOut>, span: Span)
    requires
        all_write_to_targets(acc.pre),
        call_items_read_only(acc.items),
        ok_opt_expr(bound),
    ensures
        all_write_to_targets(add_bound(acc, bound, span).pre),
        call_items_read_only(add_bound(acc, bound, span).items),
{
    match bound {
        Some(o) => {
            writes_add(acc.pre, o.pre);
        },
        None => {},
    }
}

proof fn writes_slice_inside(env: Env, e: SExpr)
    requires
        slice_inside(env, e) is Ok,
    ensures
        ok_expr(slice_inside(env, e)->Ok_0),
    decreases e, 4int,
{
    match e.0 {
        Expr::Slice(a, b, c) => {
            writes_bound(env, a);
            writes_bound(env, b);
            writes_bound(env, c);
            let ao = lower_bound(env, a)->Ok_0;
            let bo = lower_bound(env, b)->Ok_0;
            let co = lower_bound(env, c)->Ok_0;
            assert(all_write_to_targets(Seq::<SPyStmtView>::empty()));
            writes_add_bound(no_items(), ao, e.1);
            writes_add_bound(add_bound(no_items(), ao, e.1), bo, e.1);
            writes_add_bound(add_bound(add_bound(no_items(), ao, e.1), bo, e.1), co, e.1);
            let t = add_bound(add_bound(add_bound(no_items(), ao, e.1), bo, e.1), co, e.1);
            reads_load("slice"@, e.1);
            reads_call(mk_load("slice"@, e.1), t.items, e.1);
        },
        _ => {},
    }
}

proof fn writes_slice(env: Env, e: SExpr)
    requires
        lower_slice(env, e) is Ok,
    ensures
        ok_expr(lower_slice(env, e)->Ok_0),
    decreases e, 5int,
{
    writes_slice_inside(env.under(e.1), e);
    writes_close_guard(env.src, e.1, slice_inside(env.under(e.1), e)->Ok_0);
}

proof fn writes_fstr_parts_from(
    env: Env,
    parts: Seq<(SFmtExpr, Spanned<String>)>,
    i: int,
    acc: ItemsOut<PyFstrPartView>,
)
    requires
        0 <= i,
        all_write_to_targets(acc.pre),
        fstr_parts_read_only(acc.items),
        fstr_parts_from(env, parts, i, acc) is Ok,
    ensures
        all_write_to_targets(fstr_parts_from(env, parts, i, acc)->Ok_0.pre),
        fstr_parts_read_only(fstr_parts_from(env, parts, i, acc)->Ok_0.items),
    decreases parts, parts.len() - i,
{
    if i < parts.len() {
        writes_block(env, parts[i].0.0.block, true, false);
        let b = lower_block(env, parts[i].0.0.block, true, false)->Ok_0;
        writes_add(acc.pre, b.stmts);
        let next = ItemsOut {
            pre: acc.pre + b.stmts,
            items: acc.items.push(PyFstrPartView::Expr(b.final_->Expr_0, Seq::empty())).push(
                PyFstrPartView::Str(parts[i].1.0@),
            ),
            activates: acc.activates || b.activates,
        };
        writes_fstr_parts_from(env, parts, i + 1, next);
    }
}

proof fn writes_fstr_inside(env: Env, e: SExpr)
    requires
        fstr_inside(env, e) is Ok,
    ensures
        ok_expr(fstr_inside(env, e)->Ok_0),
    decreases e, 4int,
{
    match e.0 {
        Expr::Fstr(begin, parts) => {
            let init = ItemsOut {
                pre: Seq::<SPyStmtView>::empty(),
                items: seq![PyFstrPartView::Str(begin.0@)],
                activates: false,
            };
            assert(all_write_to_targets(init.pre));
            writes_fstr_parts_from(env, parts@, 0, init);
        },
        _ => {},
    }
}

proof fn writes_fstr(env: Env, e: SExpr)
    requires
        lower_fstr(env, e) is Ok,
    ensures
        ok_expr(lower_fstr(env, e)->Ok_0),
    decreases e, 5int,
{
    writes_fstr_inside(env.under(e.1), e);
    writes_close_guard(env.src, e.1, fstr_inside(env.under(e.1), e)->Ok_0);
}

// ---------------------------------------------------------------------------
// Blocks in expression position
// ---------------------------------------------------------------------------

proof fn writes_block_expr(env: Env, e: SExpr)
    requires
        lower_block_expr(env, e) is Ok,
    ensures
        ok_expr(lower_block_expr(env, e)->Ok_0),
    decreases e, 5int,
{
    match e.0 {
        Expr::Block(b) => {
            writes_block(env, *b, true, false);
        },
        _ => {},
    }
}

proof fn writes_arm(env: Env, b: SBlock, target: SPyExprView, assign_span: Span, message: Seq<char>)
    requires
        is_target(target),
        lower_arm(env, b, target, assign_span, message) is Ok,
    ensures
        ok_stmts(lower_arm(env, b, target, assign_span, message)->Ok_0),
    decreases b, 2int,
{
    writes_block(env, b, true, false);
    let o = lower_block(env, b, true, false)->Ok_0;
    match o.final_ {
        FinalView::Expr(x) => {
            writes_push(o.stmts, mk_assign(target, x, assign_span));
        },
        _ => {},
    }
}

proof fn writes_if_expr(env: Env, e: SExpr)
    requires
        lower_if_expr(env, e) is Ok,
    ensures
        ok_expr(lower_if_expr(env, e)->Ok_0),
    decreases e, 5int,
{
    match e.0 {
        Expr::If(cond, then, otherwise) => {
            writes_expr(env, *cond, PyAccessCtx::Load);
            let c = lower_expr(env, *cond, PyAccessCtx::Load)->Ok_0;
            let ret = temp_name(env.src, "ifexp"@, e.1.start);
            let target = mk_store(ret, e.1);
            writes_arm(env, *then, target, e.1, "then block must have a final expression"@);
            let t = lower_arm(
                env,
                *then,
                target,
                e.1,
                "then block must have a final expression"@,
            )->Ok_0;
            match otherwise {
                Some(eb) => {
                    writes_arm(env, *eb, target, e.1, "else block must have a final expression"@);
                    let f = lower_arm(
                        env,
                        *eb,
                        target,
                        e.1,
                        "else block must have a final expression"@,
                    )->Ok_0;
                    writes_push(
                        c.pre,
                        mk_stmt(
                            crate::py::ast::PyStmtView::If(c.expr, t.stmts, Some(f.stmts)),
                            e.1,
                        ),
                    );
                },
                None => {},
            }
        },
        _ => {},
    }
}

proof fn writes_pattern(env: Env, pattern: Option<SExpr>, span: Span)
    requires
        lower_pattern(env, pattern, span) is Ok,
    ensures
        ok_expr(lower_pattern(env, pattern, span)->Ok_0),
    decreases pattern, 13int,
{
    match pattern {
        Some(p) => {
            writes_guarded(env, p);
        },
        None => {
            assert(all_write_to_targets(Seq::<SPyStmtView>::empty()));
        },
    }
}

proof fn writes_match_expr_cases_from(
    env: Env,
    cases: Seq<(Option<SExpr>, SBlock)>,
    span: Span,
    ret: Seq<char>,
    i: int,
    acc: CasesOut,
)
    requires
        0 <= i,
        ok_cases(acc),
        match_expr_cases_from(env, cases, span, ret, i, acc) is Ok,
    ensures
        ok_cases(match_expr_cases_from(env, cases, span, ret, i, acc)->Ok_0),
    decreases cases, cases.len() - i,
{
    if i < cases.len() {
        writes_pattern(env, cases[i].0, span);
        let p = lower_pattern(env, cases[i].0, span)->Ok_0;
        let message = "match-expr case must have a final expression"@;
        writes_arm(env, cases[i].1, mk_store(ret, span), cases[i].1.1, message);
        let b = lower_arm(env, cases[i].1, mk_store(ret, span), cases[i].1.1, message)->Ok_0;
        writes_add(acc.aux, p.pre);
        let next = CasesOut {
            aux: acc.aux + p.pre,
            cases: acc.cases.push(PyMatchCaseView { pattern: p.expr, body: b.stmts }),
            has_default: p.expr.value is Ident,
            activates: acc.activates || p.activates || b.activates,
        };
        assert(ok_cases(next));
        writes_match_expr_cases_from(env, cases, span, ret, i + 1, next);
    }
}

proof fn writes_match_expr(env: Env, e: SExpr)
    requires
        lower_match_expr(env, e) is Ok,
    ensures
        ok_expr(lower_match_expr(env, e)->Ok_0),
    decreases e, 5int,
{
    match e.0 {
        Expr::Match(subject, cases) => {
            writes_guarded(env, *subject);
            let s = lower_guarded(env, *subject)->Ok_0;
            let ret = temp_name(env.src, "matchexp"@, e.1.start);
            let init = CasesOut {
                aux: s.pre,
                cases: Seq::empty(),
                has_default: false,
                activates: s.activates,
            };
            writes_match_expr_cases_from(env, cases@, e.1, ret, 0, init);
            let c = match_expr_cases_from(env, cases@, e.1, ret, 0, init)->Ok_0;
            writes_push(
                c.aux,
                mk_stmt(crate::py::ast::PyStmtView::Match(s.expr, c.cases), e.1),
            );
        },
        _ => {},
    }
}

// ---------------------------------------------------------------------------
// Functions and classes
// ---------------------------------------------------------------------------

proof fn writes_default(env: Env, default: Option<SExpr>)
    requires
        lower_default(env, default) is Ok,
    ensures
        ok_opt_expr(lower_default(env, default)->Ok_0),
    decreases default, 13int,
{
    match default {
        None => {},
        Some(d) => {
            writes_guarded(env, d);
        },
    }
}

proof fn writes_arglist_from(env: Env, args: Seq<ArgDefItem>, i: int, acc: ArgsOut)
    requires
        0 <= i,
        ok_args(acc),
        arglist_from(env, args, i, acc) is Ok,
    ensures
        ok_args(arglist_from(env, args, i, acc)->Ok_0),
    decreases args, args.len() - i,
{
    if i < args.len() {
        match args[i] {
            ArgDefItem::Arg(arg, default) => {
                writes_default(env, default);
                writes_target(env, arg, true);
                let d = lower_default(env, default)->Ok_0;
                let des = lower_target(env, arg, true)->Ok_0;
                let name = des.assign_to.value->Ident_0;
                writes_add(acc.pre, default_pre(d));
                writes_add(acc.post, des.post);
                let next = ArgsOut {
                    pre: acc.pre + default_pre(d),
                    post: acc.post + des.post,
                    args: acc.args.push(
                        PyArgDefItemView::Arg(name, default_expr(d)),
                    ),
                    activates: acc.activates || default_activates(d)
                        || des.activates,
                };
                assert(ok_args(next));
                writes_arglist_from(env, args, i + 1, next);
            },
            ArgDefItem::ArgSpread(name) => {
                let next = ArgsOut {
                    pre: acc.pre,
                    post: acc.post,
                    args: acc.args.push(PyArgDefItemView::ArgSpread(name.0@)),
                    activates: acc.activates,
                };
                writes_arglist_from(env, args, i + 1, next);
            },
            ArgDefItem::KwargSpread(name) => {
                let next = ArgsOut {
                    pre: acc.pre,
                    post: acc.post,
                    args: acc.args.push(PyArgDefItemView::KwargSpread(name.0@)),
                    activates: acc.activates,
                };
                writes_arglist_from(env, args, i + 1, next);
            },
        }
    }
}

proof fn writes_prepare_fn(env: Env, e: SExpr, span: Span)
    requires
        prepare_fn(env, e, span) is Ok,
    ensures
        ok_fn_parts(prepare_fn(env, e, span)->Ok_0),
    decreases e, 3int,
{
    match e.0 {
        Expr::Fn(arglist, body) => {
            assert(all_write_to_targets(Seq::<SPyStmtView>::empty()));
            writes_arglist_from(env, arglist@, 0, no_args());
            writes_block(env, *body, true, false);
            let a = arglist_from(env, arglist@, 0, no_args())->Ok_0;
            let b = lower_block(env, *body, true, false)->Ok_0;
            match b.final_ {
                FinalView::Expr(x) => {
                    writes_push(b.stmts, mk_return(x, span));
                    writes_add(a.post, b.stmts.push(mk_return(x, span)));
                },
                _ => {
                    writes_add(a.post, b.stmts);
                },
            }
        },
        _ => {},
    }
}

proof fn writes_fn_expr(env: Env, e: SExpr)
    requires
        lower_fn_exp(env, e) is Ok,
    ensures
        ok_expr(lower_fn_exp(env, e)->Ok_0),
    decreases e, 5int,
{
    writes_prepare_fn(env, e, e.1);
    let p = prepare_fn(env, e, e.1)->Ok_0;
    writes_fn_exp(env.src, p.aux, p.args, p.body, e.1);
}

proof fn writes_fn_def(env: Env, name: Seq<char>, e: SExpr, decorators: Seq<SPyExprView>, span: Span)
    requires
        exprs_read_only(decorators),
        fn_def(env, name, e, decorators, span) is Ok,
    ensures
        ok_stmts(fn_def(env, name, e, decorators, span)->Ok_0),
    decreases e, 4int,
{
    writes_prepare_fn(env, e, span);
    let p = prepare_fn(env, e, span)->Ok_0;
    writes_push(
        p.aux,
        mk_stmt(
            crate::py::ast::PyStmtView::FnDef(name, p.args, p.body, decorators),
            span,
        ),
    );
}

proof fn writes_class_bases_from(
    env: Env,
    bases: Seq<SCallItem>,
    span: Span,
    i: int,
    acc: ItemsOut<PyCallItemView>,
)
    requires
        0 <= i,
        all_write_to_targets(acc.pre),
        call_items_read_only(acc.items),
        class_bases_from(env, bases, span, i, acc) is Ok,
    ensures
        all_write_to_targets(class_bases_from(env, bases, span, i, acc)->Ok_0.pre),
        call_items_read_only(class_bases_from(env, bases, span, i, acc)->Ok_0.items),
    decreases bases, bases.len() - i,
{
    if i < bases.len() {
        let x = call_item_expr(bases[i].0);
        writes_guarded(env, x);
        let o = lower_guarded(env, x)->Ok_0;
        let item = match bases[i].0 {
            CallItem::Kwarg(name, _) => PyCallItemView::Kwarg(name.0@, o.expr),
            _ => PyCallItemView::Arg(o.expr),
        };
        let next = add_item(acc, o, item);
        writes_add(acc.pre, o.pre);
        writes_class_bases_from(env, bases, span, i + 1, next);
    }
}

proof fn writes_class_def(
    env: Env,
    name: Seq<char>,
    e: SExpr,
    decorators: Seq<SPyExprView>,
    span: Span,
)
    requires
        exprs_read_only(decorators),
        class_def(env, name, e, decorators, span) is Ok,
    ensures
        ok_stmts(class_def(env, name, e, decorators, span)->Ok_0),
    decreases e, 4int,
{
    match e.0 {
        Expr::Class(bases, body) => {
            writes_block(env, *body, false, false);
            assert(all_write_to_targets(Seq::<SPyStmtView>::empty()));
            writes_class_bases_from(env, bases@, span, 0, no_items());
            let b = lower_block(env, *body, false, false)->Ok_0;
            let bs = class_bases_from(env, bases@, span, 0, no_items())->Ok_0;
            writes_push(
                bs.pre,
                mk_stmt(
                    crate::py::ast::PyStmtView::ClassDef(name, bs.items, b.stmts, decorators),
                    span,
                ),
            );
        },
        _ => {},
    }
}

proof fn writes_class_exp(env: Env, e: SExpr)
    requires
        lower_class_exp(env, e) is Ok,
    ensures
        ok_expr(lower_class_exp(env, e)->Ok_0),
    decreases e, 5int,
{
    let name = temp_name(env.src, "clsexp"@, e.1.start);
    assert(exprs_read_only(Seq::<SPyExprView>::empty()));
    writes_class_def(env, name, e, Seq::empty(), e.1);
}

// ---------------------------------------------------------------------------
// Destructuring
// ---------------------------------------------------------------------------

proof fn writes_target(env: Env, target: SExpr, decl_only: bool)
    requires
        lower_target(env, target, decl_only) is Ok,
    ensures
        ok_des(lower_target(env, target, decl_only)->Ok_0),
    decreases target, 20int,
{
    match target.0 {
        Expr::Ident(_) => {
            writes_expr(env, target, PyAccessCtx::Store);
        },
        Expr::Attribute(_, _) => {
            writes_expr(env, target, PyAccessCtx::Store);
        },
        Expr::Subscript(_, _) => {
            writes_expr(env, target, PyAccessCtx::Store);
        },
        Expr::List(_) => {
            writes_list_target(env, target, decl_only);
        },
        Expr::Mapping(_) => {
            writes_mapping_target(env, target, decl_only);
        },
        _ => {},
    }
}

proof fn writes_des_list_from(
    env: Env,
    items: Seq<ListItem>,
    span: Span,
    decl_only: bool,
    i: int,
    count: int,
    seen_spread: bool,
    acc: DesAcc,
)
    requires
        0 <= i,
        ok_des_acc(acc),
        des_list_from(env, items, span, decl_only, i, count, seen_spread, acc) is Ok,
    ensures
        ok_des_acc(des_list_from(env, items, span, decl_only, i, count, seen_spread, acc)->Ok_0),
    decreases items, items.len() - i,
{
    if i < items.len() {
        let x = item_expr(items[i]);
        writes_target(env, x, decl_only);
        let b = lower_target(env, x, decl_only)->Ok_0;
        writes_add(acc.post, b.post);
        match items[i] {
            ListItem::Item(_) => {
                let stmt = mk_assign(
                    b.assign_to,
                    list_element(
                        env.src,
                        span,
                        if seen_spread {
                            -(items.len() - count - 1)
                        } else {
                            count
                        },
                    ),
                    span,
                );
                reads_list_element(
                    env.src,
                    span,
                    if seen_spread {
                        -(items.len() - count - 1)
                    } else {
                        count
                    },
                );
                writes_push(acc.stmts, stmt);
                let next = DesAcc {
                    stmts: acc.stmts.push(stmt),
                    post: acc.post + b.post,
                    decls: acc.decls + b.decls,
                    activates: acc.activates || b.activates,
                };
                writes_des_list_from(env, items, span, decl_only, i + 1, count + 1, seen_spread, next);
            },
            ListItem::Spread(_) => {
                let stmt = mk_assign(
                    b.assign_to,
                    list_rest(env.src, span, count, items.len() - 2),
                    span,
                );
                reads_list_rest(env.src, span, count, items.len() - 2);
                writes_push(acc.stmts, stmt);
                let next = DesAcc {
                    stmts: acc.stmts.push(stmt),
                    post: acc.post + b.post,
                    decls: acc.decls + b.decls,
                    activates: acc.activates || b.activates,
                };
                writes_des_list_from(env, items, span, decl_only, i + 1, count, true, next);
            },
        }
    }
}

proof fn writes_list_target(env: Env, target: SExpr, decl_only: bool)
    requires
        lower_list_target(env, target, decl_only) is Ok,
    ensures
        ok_des(lower_list_target(env, target, decl_only)->Ok_0),
    decreases target, 15int,
{
    match target.0 {
        Expr::List(items) => {
            let span = target.1;
            let cursor = cursor_name(env.src, span);
            let list_var = list_name(env.src, span);
            let len_var = len_name(env.src, span);
            let first = mk_assign(
                mk_store(list_var, span),
                mk_call1(
                    mk_load("list"@, span),
                    mk_load(cursor, span),
                    span,
                ),
                span,
            );
            let second = mk_assign(
                mk_store(len_var, span),
                mk_call1(
                    mk_load("len"@, span),
                    mk_load(list_var, span),
                    span,
                ),
                span,
            );
            let init = DesAcc {
                stmts: seq![first, second],
                post: Seq::empty(),
                decls: Seq::empty(),
                activates: false,
            };
            writes_first_assign(list_var, "list"@, cursor, span);
            writes_first_assign(len_var, "len"@, list_var, span);
            assert(all_write_to_targets(init.stmts));
            assert(all_write_to_targets(init.post));
            writes_des_list_from(env, items@, span, decl_only, 0, 0, false, init);
            let a = des_list_from(env, items@, span, decl_only, 0, 0, false, init)->Ok_0;
            writes_add(a.stmts, a.post);
        },
        _ => {},
    }
}

proof fn writes_des_map_rest(
    env: Env,
    items: Seq<MappingItem>,
    span: Span,
    decl_only: bool,
    spread: Option<int>,
    acc: DesAcc,
)
    requires
        ok_des_acc(acc),
        des_map_rest(env, items, span, decl_only, spread, acc) is Ok,
    ensures
        ok_des_acc(des_map_rest(env, items, span, decl_only, spread, acc)->Ok_0),
    decreases items, 0int,
{
    match spread {
        Some(k) => {
            if 0 <= k < items.len() && items[k] is Spread {
                let x = items[k]->Spread_0;
                writes_target(env, x, decl_only);
                let b = lower_target(env, x, decl_only)->Ok_0;
                writes_add(acc.post, b.post);
                writes_push(
                    acc.stmts,
                    mk_assign(
                        b.assign_to,
                        mk_load(
                            dict_name(env.src, span),
                            span,
                        ),
                        span,
                    ),
                );
            }
        },
        None => {},
    }
}

proof fn writes_des_map_from(
    env: Env,
    items: Seq<MappingItem>,
    span: Span,
    decl_only: bool,
    i: int,
    spread: Option<int>,
    acc: DesAcc,
)
    requires
        ok_des_acc(acc),
        des_map_from(env, items, span, decl_only, i, spread, acc) is Ok,
    ensures
        ok_des_acc(des_map_from(env, items, span, decl_only, i, spread, acc)->Ok_0),
    decreases items,
        (if 0 <= i < items.len() {
            items.len() - i + 1
        } else {
            1
        }),
{
    if i < 0 || i >= items.len() {
        writes_des_map_rest(env, items, span, decl_only, spread, acc);
    } else {
        match items[i] {
            MappingItem::Item(key, x) => {
                writes_target(env, x, decl_only);
                writes_expr(env, key, PyAccessCtx::Load);
                let b = lower_target(env, x, decl_only)->Ok_0;
                let k = lower_expr(env, key, PyAccessCtx::Load)->Ok_0;
                writes_add(acc.post, k.pre);
                writes_add(acc.post + k.pre, b.post);
                let stmt = mk_assign(
                    b.assign_to,
                    dict_pop(env.src, span, k.expr),
                    span,
                );
                reads_dict_pop(env.src, span, k.expr);
                writes_push(acc.stmts, stmt);
                let next = DesAcc {
                    stmts: acc.stmts.push(stmt),
                    post: acc.post + k.pre + b.post,
                    decls: acc.decls + b.decls,
                    activates: acc.activates || b.activates || k.activates,
                };
                writes_des_map_from(env, items, span, decl_only, i + 1, spread, next);
            },
            MappingItem::Spread(_) => {
                writes_des_map_from(env, items, span, decl_only, i + 1, Some(i), acc);
            },
        }
    }
}

proof fn writes_mapping_target(env: Env, target: SExpr, decl_only: bool)
    requires
        lower_mapping_target(env, target, decl_only) is Ok,
    ensures
        ok_des(lower_mapping_target(env, target, decl_only)->Ok_0),
    decreases target, 15int,
{
    match target.0 {
        Expr::Mapping(items) => {
            let span = target.1;
            let cursor = cursor_name(env.src, span);
            let first = mk_assign(
                mk_store(dict_name(env.src, span), span),
                mk_call1(
                    mk_load("dict"@, span),
                    mk_load(cursor, span),
                    span,
                ),
                span,
            );
            let init = DesAcc {
                stmts: seq![first],
                post: Seq::empty(),
                decls: Seq::empty(),
                activates: false,
            };
            writes_first_assign(dict_name(env.src, span), "dict"@, cursor, span);
            assert(all_write_to_targets(init.stmts));
            assert(all_write_to_targets(init.post));
            writes_des_map_from(env, items@, span, decl_only, 0, None, init);
            let a = des_map_from(env, items@, span, decl_only, 0, None, init)->Ok_0;
            writes_add(a.stmts, a.post);
        },
        _ => {},
    }
}

// ---------------------------------------------------------------------------
// Assignments
// ---------------------------------------------------------------------------

proof fn writes_decorators(env: Env, e: SExpr, acc: ItemsOut<SPyExprView>)
    requires
        all_write_to_targets(acc.pre),
        exprs_read_only(acc.items),
        lower_decorators(env, e, acc) is Ok,
    ensures
        all_write_to_targets(lower_decorators(env, e, acc)->Ok_0.pre),
        exprs_read_only(lower_decorators(env, e, acc)->Ok_0.items),
    decreases e, 30int,
{
    match e.0 {
        Expr::Then(left, right) => {
            writes_guarded(env, *right);
            let o = lower_guarded(env, *right)->Ok_0;
            writes_add(acc.pre, o.pre);
            writes_decorators(env, *left, add_item(acc, o, o.expr));
        },
        Expr::Binary(BinaryOp::Pipe, left, right) => {
            writes_guarded(env, *right);
            let o = lower_guarded(env, *right)->Ok_0;
            writes_add(acc.pre, o.pre);
            writes_decorators(env, *left, add_item(acc, o, o.expr));
        },
        Expr::Call(f, args) => {
            if args@.len() == 1 && args@[0].0 is Arg {
                writes_guarded(env, *f);
                let o = lower_guarded(env, *f)->Ok_0;
                writes_add(acc.pre, o.pre);
                writes_decorators(env, args@[0].0->Arg_0, add_item(acc, o, o.expr));
            }
        },
        _ => {},
    }
}

proof fn writes_definition(env: Env, s: SStmt)
    requires
        lower_definition(env, s) is Ok,
    ensures
        all_write_to_targets(lower_definition(env, s)->Ok_0.stmts),
    decreases s, 3int,
{
    match s.0 {
        Stmt::Assign(lhs, rhs, _) => match lhs.0 {
            Expr::Ident(id) => {
                assert(all_write_to_targets(Seq::<SPyStmtView>::empty()));
                assert(exprs_read_only(Seq::<SPyExprView>::empty()));
                writes_decorators(env, rhs, no_items());
                let d = lower_decorators(env, rhs, no_items())->Ok_0;
                lemma_peel_inner_within(rhs);
                if peel_inner(rhs).0 is Fn {
                    writes_fn_def(env, id.0@, peel_inner(rhs), d.items, s.1);
                    writes_add(d.pre, fn_def(env, id.0@, peel_inner(rhs), d.items, s.1)->Ok_0.stmts);
                } else {
                    writes_class_def(env, id.0@, peel_inner(rhs), d.items, s.1);
                    writes_add(d.pre, class_def(env, id.0@, peel_inner(rhs), d.items, s.1)->Ok_0.stmts);
                }
            },
            _ => {},
        },
        _ => {},
    }
}

proof fn writes_assignment(env: Env, s: SStmt, decl_only: bool)
    requires
        lower_assignment(env, s, decl_only) is Ok,
    ensures
        all_write_to_targets(lower_assignment(env, s, decl_only)->Ok_0.stmts),
    decreases s, 4int,
{
    match s.0 {
        Stmt::Assign(lhs, rhs, _) => {
            if is_definition(s.0) {
                writes_definition(env, s);
            } else {
                writes_guarded(env, rhs);
                writes_target(env, lhs, decl_only);
                let v = lower_guarded(env, rhs)->Ok_0;
                let d = lower_target(env, lhs, decl_only)->Ok_0;
                writes_push(v.pre, mk_assign(d.assign_to, v.expr, lhs.1));
                writes_add(v.pre.push(mk_assign(d.assign_to, v.expr, lhs.1)), d.post);
            }
        },
        _ => {},
    }
}

proof fn writes_assign(env: Env, s: SStmt, top_level: bool)
    requires
        lower_assign(env, s, top_level) is Ok,
    ensures
        ok_stmts(lower_assign(env, s, top_level)->Ok_0),
    decreases s, 5int,
{
    match s.0 {
        Stmt::Assign(_, _, mods) => {
            let m = scope_modifier(mods@, top_level, s.1)->Ok_0;
            writes_assignment(env, s, m is Some);
            let b = lower_assignment(env, s, m is Some)->Ok_0;
            assert(all_write_to_targets(scope_stmts(m, b.decls, s.1)));
            writes_add(scope_stmts(m, b.decls, s.1), b.stmts);
        },
        _ => {},
    }
}

// ---------------------------------------------------------------------------
// Statements
// ---------------------------------------------------------------------------

proof fn writes_block_stmts(env: Env, b: SBlock)
    requires
        block_stmts(env, b) is Ok,
    ensures
        ok_stmts(block_stmts(env, b)->Ok_0),
    decreases b, 2int,
{
    writes_block(env, b, false, false);
}

proof fn writes_opt_block_stmts(env: Env, b: Option<Box<SBlock>>)
    requires
        opt_block_stmts(env, b) is Ok,
    ensures
        ok_opt_stmts(opt_block_stmts(env, b)->Ok_0),
    decreases b, 3int,
{
    match b {
        None => {},
        Some(x) => {
            writes_block_stmts(env, *x);
        },
    }
}

proof fn writes_opt_sblock_stmts(env: Env, b: Option<SBlock>)
    requires
        opt_sblock_stmts(env, b) is Ok,
    ensures
        ok_opt_stmts(opt_sblock_stmts(env, b)->Ok_0),
    decreases b, 3int,
{
    match b {
        None => {},
        Some(x) => {
            writes_block_stmts(env, x);
        },
    }
}

proof fn writes_if_stmt(env: Env, e: SExpr, span: Span)
    requires
        lower_if_stmt(env, e, span) is Ok,
    ensures
        ok_stmts(lower_if_stmt(env, e, span)->Ok_0),
    decreases e, 5int,
{
    match e.0 {
        Expr::If(cond, then, otherwise) => {
            writes_guarded(env, *cond);
            writes_block_stmts(env, *then);
            writes_opt_block_stmts(env, otherwise);
            let c = lower_guarded(env, *cond)->Ok_0;
            let t = block_stmts(env, *then)->Ok_0;
            let f = opt_block_stmts(env, otherwise)->Ok_0;
            writes_push(
                c.pre,
                mk_stmt(
                    crate::py::ast::PyStmtView::If(
                        c.expr,
                        t.stmts,
                        opt_stmts(f),
                    ),
                    span,
                ),
            );
        },
        _ => {},
    }
}

proof fn writes_match_stmt_cases_from(
    env: Env,
    cases: Seq<(Option<SExpr>, SBlock)>,
    span: Span,
    i: int,
    acc: CasesOut,
)
    requires
        0 <= i,
        ok_cases(acc),
        match_stmt_cases_from(env, cases, span, i, acc) is Ok,
    ensures
        ok_cases(match_stmt_cases_from(env, cases, span, i, acc)->Ok_0),
    decreases cases, cases.len() - i,
{
    if i < cases.len() {
        writes_pattern(env, cases[i].0, span);
        writes_block_stmts(env, cases[i].1);
        let p = lower_pattern(env, cases[i].0, span)->Ok_0;
        let b = block_stmts(env, cases[i].1)->Ok_0;
        writes_add(acc.aux, p.pre);
        let next = CasesOut {
            aux: acc.aux + p.pre,
            cases: acc.cases.push(PyMatchCaseView { pattern: p.expr, body: b.stmts }),
            has_default: p.expr.value is Ident,
            activates: acc.activates || p.activates || b.activates,
        };
        assert(ok_cases(next));
        writes_match_stmt_cases_from(env, cases, span, i + 1, next);
    }
}

proof fn writes_match_stmt(env: Env, e: SExpr, span: Span)
    requires
        lower_match_stmt(env, e, span) is Ok,
    ensures
        ok_stmts(lower_match_stmt(env, e, span)->Ok_0),
    decreases e, 5int,
{
    match e.0 {
        Expr::Match(subject, cases) => {
            writes_guarded(env, *subject);
            let s = lower_guarded(env, *subject)->Ok_0;
            let init = CasesOut {
                aux: s.pre,
                cases: Seq::empty(),
                has_default: false,
                activates: s.activates,
            };
            writes_match_stmt_cases_from(env, cases@, span, 0, init);
            let c = match_stmt_cases_from(env, cases@, span, 0, init)->Ok_0;
            writes_push(
                c.aux,
                mk_stmt(crate::py::ast::PyStmtView::Match(s.expr, c.cases), span),
            );
        },
        _ => {},
    }
}

proof fn writes_expr_stmt(env: Env, e: SExpr, span: Span)
    requires
        lower_expr_stmt(env, e, span) is Ok,
    ensures
        ok_stmts(lower_expr_stmt(env, e, span)->Ok_0),
    decreases e, 20int,
{
    match e.0 {
        Expr::If(_, _, _) => {
            writes_if_stmt(env, e, span);
        },
        Expr::Match(_, _) => {
            writes_match_stmt(env, e, span);
        },
        _ => {
            writes_guarded(env, e);
            let o = lower_guarded(env, e)->Ok_0;
            writes_push(
                o.pre,
                mk_stmt(crate::py::ast::PyStmtView::Expr(o.expr), span),
            );
        },
    }
}

proof fn writes_for(env: Env, s: SStmt)
    requires
        lower_for(env, s) is Ok,
    ensures
        ok_stmts(lower_for(env, s)->Ok_0),
    decreases s, 5int,
{
    match s.0 {
        Stmt::For(target, iter, body) => {
            writes_guarded(env, iter);
            writes_target(env, target, true);
            writes_block_stmts(env, body);
            let it = lower_guarded(env, iter)->Ok_0;
            let d = lower_target(env, target, true)->Ok_0;
            let b = block_stmts(env, body)->Ok_0;
            writes_add(d.post, b.stmts);
            writes_push(
                it.pre,
                mk_stmt(
                    crate::py::ast::PyStmtView::For(d.assign_to, it.expr, d.post + b.stmts),
                    s.1,
                ),
            );
        },
        _ => {},
    }
}

proof fn writes_while_head(src: Seq<u8>, cond: ExprOut, span: Span)
    requires
        ok_expr(cond),
    ensures
        ok_expr(while_head(src, cond, span)),
{
    assert(all_write_to_targets(Seq::<SPyStmtView>::empty()));
    if cond.pre.len() > 0 {
        let ret = mk_return(cond.expr, span);
        writes_push(cond.pre, ret);
        assert(arg_defs_read_only(Seq::<PyArgDefItemView>::empty()));
        writes_fn_exp(src, Seq::empty(), Seq::empty(), cond.pre.push(ret), span);
    }
}

proof fn writes_while(env: Env, s: SStmt)
    requires
        lower_while(env, s) is Ok,
    ensures
        ok_stmts(lower_while(env, s)->Ok_0),
    decreases s, 5int,
{
    match s.0 {
        Stmt::While(cond, body) => {
            writes_guarded(env, cond);
            writes_block_stmts(env, body);
            let c = lower_guarded(env, cond)->Ok_0;
            let b = block_stmts(env, body)->Ok_0;
            writes_while_head(env.src, c, s.1);
            let head = while_head(env.src, c, s.1);
            writes_push(
                head.pre,
                mk_stmt(
                    crate::py::ast::PyStmtView::While(head.expr, b.stmts),
                    s.1,
                ),
            );
        },
        _ => {},
    }
}

proof fn writes_handler_types(env: Env, types: Option<ExceptTypes>, span: Span)
    requires
        lower_handler_types(env, types, span) is Ok,
    ensures
        ok_expr(lower_handler_types(env, types, span)->Ok_0),
    decreases types, 2int,
{
    match types {
        Some(t) => {
            writes_except_types(env, t, span);
        },
        None => {
            assert(all_write_to_targets(Seq::<SPyStmtView>::empty()));
        },
    }
}

proof fn writes_try_handlers_from(
    env: Env,
    handlers: Seq<ExceptHandler>,
    span: Span,
    i: int,
    acc: ItemsOut<PyExceptHandlerView>,
)
    requires
        0 <= i,
        ok_handlers(acc),
        try_handlers_from(env, handlers, span, i, acc) is Ok,
    ensures
        ok_handlers(try_handlers_from(env, handlers, span, i, acc)->Ok_0),
    decreases handlers, handlers.len() - i,
{
    if i < handlers.len() {
        writes_handler_types(env, handlers[i].types, span);
        writes_block_stmts(env, handlers[i].body);
        let t = lower_handler_types(env, handlers[i].types, span)->Ok_0;
        let b = block_stmts(env, handlers[i].body)->Ok_0;
        let next = ItemsOut {
            pre: acc.pre,
            items: acc.items.push(
                mk_handler(
                    Some(t.expr),
                    opt_name(handlers[i].name),
                    b.stmts,
                ),
            ),
            activates: acc.activates || t.activates || b.activates,
        };
        assert(ok_handlers(next));
        writes_try_handlers_from(env, handlers, span, i + 1, next);
    }
}

proof fn writes_try(env: Env, s: SStmt)
    requires
        lower_try(env, s) is Ok,
    ensures
        ok_stmts(lower_try(env, s)->Ok_0),
    decreases s, 5int,
{
    match s.0 {
        Stmt::Try(body, handlers, finally) => {
            writes_block_stmts(env, body);
            writes_opt_sblock_stmts(env, finally);
            writes_try_handlers_from(env, handlers@, s.1, 0, no_items());
            let b = block_stmts(env, body)->Ok_0;
            let f = opt_sblock_stmts(env, finally)->Ok_0;
            let h = try_handlers_from(env, handlers@, s.1, 0, no_items())->Ok_0;
            let stmt = mk_try(
                b.stmts,
                h.items,
                opt_stmts(f),
                s.1,
            );
            assert(writes_to_targets(stmt));
            assert(all_write_to_targets(seq![stmt]));
        },
        _ => {},
    }
}

proof fn writes_value_stmt(env: Env, s: SStmt)
    requires
        lower_value_stmt(env, s) is Ok,
    ensures
        ok_stmts(lower_value_stmt(env, s)->Ok_0),
    decreases s, 5int,
{
    match s.0 {
        Stmt::Return(x) => {
            writes_guarded(env, x);
            let o = lower_guarded(env, x)->Ok_0;
            writes_push(
                o.pre,
                mk_stmt(crate::py::ast::PyStmtView::Return(o.expr), s.1),
            );
        },
        Stmt::Raise(x) => {
            writes_guarded(env, x);
            let o = lower_guarded(env, x)->Ok_0;
            writes_push(
                o.pre,
                mk_stmt(crate::py::ast::PyStmtView::Raise(o.expr), s.1),
            );
        },
        Stmt::Assert(x, None) => {
            writes_guarded(env, x);
            let o = lower_guarded(env, x)->Ok_0;
            writes_push(
                o.pre,
                mk_stmt(crate::py::ast::PyStmtView::Assert(o.expr, None), s.1),
            );
        },
        Stmt::Assert(x, Some(m)) => {
            writes_guarded(env, x);
            writes_guarded(env, m);
            let o = lower_guarded(env, x)->Ok_0;
            let mo = lower_guarded(env, m)->Ok_0;
            writes_add(o.pre, mo.pre);
            writes_push(
                o.pre + mo.pre,
                mk_stmt(
                    crate::py::ast::PyStmtView::Assert(o.expr, Some(mo.expr)),
                    s.1,
                ),
            );
        },
        _ => {},
    }
}

proof fn writes_stmt(env: Env, s: SStmt, top_level: bool)
    requires
        lower_stmt(env, s, top_level) is Ok,
    ensures
        ok_stmts(lower_stmt(env, s, top_level)->Ok_0),
    decreases s, 10int,
{
    match s.0 {
        Stmt::Expr(x, _) => {
            writes_expr_stmt(env, x, s.1);
        },
        Stmt::Assert(_, _) | Stmt::Return(_) | Stmt::Raise(_) => {
            writes_value_stmt(env, s);
        },
        Stmt::Assign(_, _, _) => {
            writes_assign(env, s, top_level);
        },
        Stmt::For(_, _, _) => {
            writes_for(env, s);
        },
        Stmt::While(_, _) => {
            writes_while(env, s);
        },
        Stmt::Try(_, _, _) => {
            writes_try(env, s);
        },
        Stmt::Break => {
            assert(all_write_to_targets(lower_stmt(env, s, top_level)->Ok_0.stmts));
        },
        Stmt::Continue => {
            assert(all_write_to_targets(lower_stmt(env, s, top_level)->Ok_0.stmts));
        },
        Stmt::Import(imp) => {
            assert(all_write_to_targets(lower_import(imp, s.1, top_level)->Ok_0.stmts));
        },
        _ => {},
    }
}

// ---------------------------------------------------------------------------
// Blocks
// ---------------------------------------------------------------------------

proof fn writes_take_stmt(env: Env, s: SStmt, top_level: bool, acc: BlockAcc)
    requires
        all_write_to_targets(acc.stmts),
    ensures
        all_write_to_targets(take_stmt(acc, lower_stmt(env, s, top_level)).stmts),
    decreases s, 11int,
{
    if lower_stmt(env, s, top_level) is Ok {
        writes_stmt(env, s, top_level);
        writes_add(acc.stmts, lower_stmt(env, s, top_level)->Ok_0.stmts);
    }
}

proof fn writes_block_body_from(env: Env, stmts: Seq<SStmt>, top_level: bool, i: int, acc: BlockAcc)
    requires
        0 <= i,
        all_write_to_targets(acc.stmts),
    ensures
        all_write_to_targets(block_body_from(env, stmts, top_level, i, acc).stmts),
    decreases stmts, stmts.len() - i,
{
    if i < stmts.len() - 1 {
        writes_take_stmt(env, stmts[i], top_level, acc);
        writes_block_body_from(
            env,
            stmts,
            top_level,
            i + 1,
            take_stmt(acc, lower_stmt(env, stmts[i], top_level)),
        );
    }
}

proof fn writes_final_expr(env: Env, last: SStmt, acc: BlockAcc)
    requires
        all_write_to_targets(acc.stmts),
    ensures
        all_write_to_targets(lower_final_expr(env, last, acc).0.stmts),
        lower_final_expr(env, last, acc).1 is Expr ==> reads_only(
            lower_final_expr(env, last, acc).1->Expr_0,
        ),
    decreases last, 10int,
{
    match last.0 {
        Stmt::Expr(x, mods) => {
            if mods@.len() == 0 && lower_guarded(env, x) is Ok {
                writes_guarded(env, x);
                writes_add(acc.stmts, lower_guarded(env, x)->Ok_0.pre);
            }
        },
        _ => {},
    }
}

proof fn writes_stmt_list(env: Env, stmts: Seq<SStmt>, treat_final_as_expr: bool, top_level: bool)
    requires
        lower_stmt_list(env, stmts, treat_final_as_expr, top_level) is Ok,
    ensures
        ok_block(lower_stmt_list(env, stmts, treat_final_as_expr, top_level)->Ok_0),
    decreases stmts, stmts.len() + 1,
{
    assert(all_write_to_targets(Seq::<SPyStmtView>::empty()));
    if stmts.len() > 0 {
        let last = stmts[stmts.len() - 1];
        writes_block_body_from(env, stmts, top_level, 0, empty_block());
        let body = block_body_from(env, stmts, top_level, 0, empty_block());
        if ends_with_value(last.0, treat_final_as_expr) {
            writes_final_expr(env, last, body);
        } else {
            writes_take_stmt(env, last, top_level, body);
        }
    }
}

proof fn writes_block(env: Env, b: SBlock, treat_final_as_expr: bool, top_level: bool)
    requires
        lower_block(env, b, treat_final_as_expr, top_level) is Ok,
    ensures
        ok_block(lower_block(env, b, treat_final_as_expr, top_level)->Ok_0),
    decreases b, 1int,
{
    match b.0 {
        Block::Stmts(stmts) => {
            writes_stmt_list(env, stmts@, treat_final_as_expr, top_level);
        },
        Block::Expr(x) => {
            if treat_final_as_expr {
                writes_expr(env, x, PyAccessCtx::Load);
            } else {
                writes_expr_stmt(env, x, x.1);
            }
        },
    }
}

// ---------------------------------------------------------------------------
// The law
// ---------------------------------------------------------------------------

/// In what a block lowers to, every node in `Store` context is the target
/// of an assignment or of a `for` loop, and is a name, an attribute or a
/// subscript.
pub proof fn lemma_block_writes_to_targets(
    env: Env,
    b: SBlock,
    treat_final_as_expr: bool,
    top_level: bool,
)
    requires
        lower_block(env, b, treat_final_as_expr, top_level) is Ok,
    ensures
        all_write_to_targets(lower_block(env, b, treat_final_as_expr, top_level)->Ok_0.stmts),
        lower_block(env, b, treat_final_as_expr, top_level)->Ok_0.final_ is Expr ==> reads_only(
            lower_block(env, b, treat_final_as_expr, top_level)->Ok_0.final_->Expr_0,
        ),
{
    writes_block(env, b, treat_final_as_expr, top_level);
}

/// In the statements that a source text lowers to, every node in `Store`
/// context is the target of an assignment or of a `for` loop, and is a name,
/// an attribute or a subscript.
pub proof fn lemma_module_writes_to_targets(src: Seq<u8>, block: SBlock, treat_final_as_expr: bool)
    requires
        lower_module(src, block, treat_final_as_expr) is Ok,
    ensures
        all_write_to_targets(lower_module(src, block, treat_final_as_expr)->Ok_0.py_block),
{
    let env = Env { src, top: None };
    writes_block(env, block, treat_final_as_expr, true);
    let o = lower_block(env, block, treat_final_as_expr, true)->Ok_0;
    match o.final_ {
        FinalView::Expr(x) => {
            writes_push(
                o.stmts,
                mk_stmt(crate::py::ast::PyStmtView::Expr(x), x.tl_span),
            );
        },
        _ => {},
    }
}

/// What an expression lowers to in `Load` context holds no node in `Store`
/// context but the targets of the statements inside it; in `Store` context
/// it is itself a target.
pub proof fn lemma_expr_writes_to_targets(env: Env, e: SExpr, access: PyAccessCtx)
    requires
        lower_expr(env, e, access) is Ok,
    ensures
        all_write_to_targets(lower_expr(env, e, access)->Ok_0.pre),
        access == PyAccessCtx::Load ==> reads_only(lower_expr(env, e, access)->Ok_0.expr),
        access == PyAccessCtx::Store ==> is_target(lower_expr(env, e, access)->Ok_0.expr),
{
    writes_expr(env, e, access);
}

/// What `transform_ast` returns writes to assignment targets only.
pub proof fn lemma_output_writes_to_targets(
    src: Seq<u8>,
    block: SBlock,
    treat_final_as_expr: bool,
    r: TfResult<TransformOutput>,
)
    requires
        is_lowering_of(src, block, treat_final_as_expr, r),
        r is Ok,
    ensures
        all_write_to_targets(r->Ok_0.py_block@),
{
    lemma_module_writes_to_targets(src, block, treat_final_as_expr);
}

/// The node that receives the value of a destructured target is a name, an
/// attribute or a subscript in `Store` context, whatever the target.
pub proof fn lemma_destructure_target_is_assignable(env: Env, target: SExpr, decl_only: bool)
    requires
        lower_target(env, target, decl_only) is Ok,
    ensures
        is_target(lower_target(env, target, decl_only)->Ok_0.assign_to),
        all_write_to_targets(lower_target(env, target, decl_only)->Ok_0.post),
{
    writes_target(env, target, decl_only);
}

} // verus!
