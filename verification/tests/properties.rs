use koatl_core::ast::{
    AssignModifier, BinaryOp, Block, CallItem, Expr, ImportList, ImportStmt, ListItem, Literal,
    SBlock, SCallItem, SExpr, SStmt, Span, Stmt,
};
use koatl_core::linecol::LineColCache;
use koatl_core::py::ast::{
    PyAccessCtx, PyBinaryOp, PyBlock, PyCallItem, PyExpr, PyStmt, SPyExpr, SPyStmt,
};
use koatl_core::py::util::PyAstBuilder;
use koatl_core::transform::block::transform_block;
use koatl_core::transform::context::TfCtx;
use koatl_core::transform::control::transform_block_with_final_expr;
use koatl_core::transform::destructure::destructure;
use koatl_core::transform::expr::{transform_expr, transform_with_access};
use koatl_core::transform::postfix::transform_postfix_expr;
use koatl_core::transform::stmt::transform_stmt;
use koatl_core::transform::TfErrKind;
use koatl_core::transform::names::{decimal_string, signed_decimal_string};
use koatl_core::transform::outcome::BlockFinal;
use koatl_core::transform::transform_ast;

fn sp(start: usize, end: usize) -> Span {
    Span::new(start, end)
}

fn ident(name: &str, start: usize, end: usize) -> SExpr {
    (Expr::Ident((name.to_string(), sp(start, end))), sp(start, end))
}

fn num(text: &str, start: usize, end: usize) -> SExpr {
    (Expr::Literal((Literal::Num(text.to_string()), sp(start, end))), sp(start, end))
}

fn arg(e: SExpr) -> SCallItem {
    let span = e.1;
    (CallItem::Arg(e), span)
}

fn call(f: SExpr, args: Vec<SCallItem>, start: usize, end: usize) -> SExpr {
    (Expr::Call(Box::new(f), args), sp(start, end))
}

fn binary(op: BinaryOp, l: SExpr, r: SExpr) -> SExpr {
    let span = sp(l.1.start, r.1.end);
    (Expr::Binary(op, Box::new(l), Box::new(r)), span)
}

fn expr_stmt(e: SExpr) -> SStmt {
    let span = e.1;
    (Stmt::Expr(e, vec![]), span)
}

fn block(stmts: Vec<SStmt>, end: usize) -> SBlock {
    (Block::Stmts(stmts), sp(0, end))
}

fn load(name: &str, span: Span) -> SPyExpr {
    PyAstBuilder::new(span).load_ident(name)
}

fn store(name: &str, span: Span) -> SPyExpr {
    PyAstBuilder::new(span).store_ident(name)
}

fn lower_one(source: &str, e: SExpr) -> PyBlock {
    let end = source.len();
    transform_ast(source, &block(vec![expr_stmt(e)], end), false).unwrap().py_block
}

fn is_temp_name(name: &str) -> bool {
    // __tl_[a-z_]+_l[0-9]+c[0-9]+
    let rest = match name.strip_prefix("__tl_") {
        Some(r) => r,
        None => return false,
    };
    let c = match rest.rfind('c') {
        Some(c) => c,
        None => return false,
    };
    let (head, col) = (&rest[..c], &rest[c + 1..]);
    let l = match head.rfind("_l") {
        Some(l) => l,
        None => return false,
    };
    let (kind, line) = (&head[..l], &head[l + 2..]);
    !kind.is_empty()
        && kind.chars().all(|ch| ch.is_ascii_lowercase() || ch == '_')
        && !line.is_empty()
        && line.chars().all(|ch| ch.is_ascii_digit())
        && !col.is_empty()
        && col.chars().all(|ch| ch.is_ascii_digit())
}

#[test]
fn lowering_is_deterministic() {
    let source = "f() ?? g(1)";
    let make = || {
        binary(
            BinaryOp::Coalesce,
            call(ident("f", 0, 1), vec![], 0, 3),
            call(ident("g", 7, 8), vec![arg(num("1", 9, 10))], 7, 11),
        )
    };
    assert_eq!(lower_one(source, make()), lower_one(source, make()));
}

#[test]
fn line_and_column_count_from_one() {
    let cache = LineColCache::new("ab\ncd\n\nxyz");
    assert_eq!(cache.linecol(0), (1, 1));
    assert_eq!(cache.linecol(1), (1, 2));
    assert_eq!(cache.linecol(2), (1, 3));
    assert_eq!(cache.linecol(3), (2, 1));
    assert_eq!(cache.linecol(5), (2, 3));
    assert_eq!(cache.linecol(6), (3, 1));
    assert_eq!(cache.linecol(7), (4, 1));
    assert_eq!(cache.linecol(9), (4, 3));
}

#[test]
fn offsets_past_the_end_count_as_the_end() {
    let cache = LineColCache::new("ab\ncd");
    assert_eq!(cache.linecol(5), (2, 3));
    assert_eq!(cache.linecol(6), (2, 3));
    assert_eq!(cache.linecol(usize::MAX), (2, 3));
    let empty = LineColCache::new("");
    assert_eq!(empty.linecol(0), (1, 1));
    assert_eq!(empty.linecol(10), (1, 1));
}

#[test]
fn columns_are_counted_in_bytes() {
    // 'é' takes two bytes
    let cache = LineColCache::new("é=1");
    assert_eq!(cache.linecol(2), (1, 3));
}

#[test]
fn decimal_text_of_integers() {
    assert_eq!(decimal_string(0), "0");
    assert_eq!(decimal_string(7), "7");
    assert_eq!(decimal_string(10), "10");
    assert_eq!(decimal_string(12345), "12345");
    assert_eq!(decimal_string(1_000_000), "1000000");
    assert_eq!(signed_decimal_string(false, 42), "42");
    assert_eq!(signed_decimal_string(true, 42), "-42");
    assert_eq!(signed_decimal_string(true, 0), "0");
}

#[test]
fn temporary_names_encode_kind_line_and_column() {
    let ctx = TfCtx::new("a\nbc = d");
    assert_eq!(ctx.temp_var_name("tmp", 0), "__tl_tmp_l1c1");
    assert_eq!(ctx.temp_var_name("ifexp", 2), "__tl_ifexp_l2c1");
    assert_eq!(ctx.temp_var_name("des_curs", 7), "__tl_des_curs_l2c6");
    for kind in [
        "ph", "fnexp", "tmp", "chk", "ifexp", "matchexp", "clsexp", "des_curs", "des_list",
        "des_len", "des_dict",
    ] {
        for offset in 0..9 {
            assert!(is_temp_name(&ctx.temp_var_name(kind, offset)));
        }
    }
}

#[test]
fn temporaries_at_distinct_places_have_distinct_names() {
    let ctx = TfCtx::new("ab\ncd\nef");
    let mut names = Vec::new();
    for kind in ["tmp", "ph", "chk"] {
        for offset in 0..8 {
            names.push(ctx.temp_var_name(kind, offset));
        }
    }
    for i in 0..names.len() {
        for j in 0..names.len() {
            assert_eq!(names[i] == names[j], i == j);
        }
    }
}

#[test]
fn guards_are_balanced() {
    let source = "f($, [1, $])";
    let list = (
        Expr::List(vec![
            ListItem::Item(num("1", 6, 7)),
            ListItem::Item((Expr::Placeholder, sp(9, 10))),
        ]),
        sp(5, 11),
    );
    let e = call(
        ident("f", 0, 1),
        vec![arg((Expr::Placeholder, sp(2, 3))), arg(list)],
        0,
        12,
    );
    let mut ctx = TfCtx::new(source);
    let out = transform_block(&mut ctx, &block(vec![expr_stmt(e)], 12), false, true);
    assert!(out.is_ok());
    assert!(ctx.placeholder_ctx_stack.is_empty());
}

#[test]
fn guards_are_balanced_after_an_error() {
    // a placeholder with no region around it, inside a nested call
    let source = "f(1)";
    let mut ctx = TfCtx::new(source);
    let b = (Block::Expr((Expr::Placeholder, sp(0, 1))), sp(0, 1));
    assert!(transform_block(&mut ctx, &b, true, true).is_err());
    assert!(ctx.placeholder_ctx_stack.is_empty());
    // an error deep inside nested regions leaves the stack as it was
    let bad_arg = (
        Expr::Binary(
            BinaryOp::Add,
            Box::new(num("1", 2, 3)),
            Box::new((
                Expr::MappedAttribute(Box::new(ident("a", 2, 3)), ("b".to_string(), sp(2, 3))),
                sp(2, 3),
            )),
        ),
        sp(2, 3),
    );
    let target = call(ident("f", 0, 1), vec![arg(bad_arg)], 0, 4);
    let stmt = (Stmt::For(target, ident("xs", 0, 1), block(vec![], 0)), sp(0, 4));
    let out = transform_block(&mut ctx, &block(vec![stmt], 4), false, true);
    assert!(out.is_err());
    assert!(ctx.placeholder_ctx_stack.is_empty());
}

#[test]
fn statements_of_the_left_operand_come_first() {
    // (f() ?? a) + (g() ?? b)
    let source = "(f() ?? a) + (g() ?? b)";
    let left = binary(
        BinaryOp::Coalesce,
        call(ident("f", 1, 2), vec![], 1, 4),
        ident("a", 8, 9),
    );
    let right = binary(
        BinaryOp::Coalesce,
        call(ident("g", 14, 15), vec![], 14, 17),
        ident("b", 21, 22),
    );
    let out = lower_one(source, binary(BinaryOp::Add, left, right));
    assert_eq!(out.0.len(), 3);
    let l = sp(1, 4);
    let r = sp(14, 17);
    assert_eq!(
        out.0[0],
        SPyStmt::new(
            PyStmt::Assign(
                store("__tl_tmp_l1c2", l),
                PyAstBuilder::new(l).call(load("f", sp(1, 2)), vec![])
            ),
            l
        )
    );
    assert_eq!(
        out.0[1],
        SPyStmt::new(
            PyStmt::Assign(
                store("__tl_tmp_l1c15", r),
                PyAstBuilder::new(r).call(load("g", sp(14, 15)), vec![])
            ),
            r
        )
    );
    assert!(matches!(
        &out.0[2].value,
        PyStmt::Expr(SPyExpr { value: PyExpr::Binary(PyBinaryOp::Add, _, _), .. })
    ));
}

#[test]
fn pipe_is_the_call_of_its_right_side() {
    let source = "x | f    ";
    let pipe = (
        Expr::Binary(
            BinaryOp::Pipe,
            Box::new(ident("x", 0, 1)),
            Box::new(ident("f", 4, 5)),
        ),
        sp(0, 5),
    );
    let as_call = call(ident("f", 4, 5), vec![arg(ident("x", 0, 1))], 0, 5);
    let piped = lower_one(source, pipe);
    assert_eq!(piped, lower_one(source, as_call));
    let whole = sp(0, 5);
    let a = PyAstBuilder::new(whole);
    assert_eq!(
        piped,
        PyBlock(vec![SPyStmt::new(
            PyStmt::Expr(a.call(
                load("f", sp(4, 5)),
                vec![PyCallItem::Arg(load("x", sp(0, 1)))]
            )),
            whole
        )])
    );
}

#[test]
fn coalesce_evaluates_its_left_side_once() {
    let source = "f() ?? y";
    let e = binary(BinaryOp::Coalesce, call(ident("f", 0, 1), vec![], 0, 3), ident("y", 7, 8));
    let out = lower_one(source, e);
    let l = sp(0, 3);
    let whole = sp(0, 8);
    let a = PyAstBuilder::new(whole);
    let tmp = "__tl_tmp_l1c1";
    let expected = PyBlock(vec![
        PyAstBuilder::new(l).assign(store(tmp, l), PyAstBuilder::new(l).call(load("f", sp(0, 1)), vec![])),
        SPyStmt::new(
            PyStmt::Expr(a.if_expr(
                a.call1(load("__coalesces", whole), load(tmp, l)),
                load("y", sp(7, 8)),
                load(tmp, l),
            )),
            whole,
        ),
    ]);
    assert_eq!(out, expected);
}

#[test]
fn coalesce_reads_a_plain_name_directly() {
    let source = "x ?? y";
    let e = binary(BinaryOp::Coalesce, ident("x", 0, 1), ident("y", 5, 6));
    let out = lower_one(source, e);
    let whole = sp(0, 6);
    let a = PyAstBuilder::new(whole);
    let expected = PyBlock(vec![SPyStmt::new(
        PyStmt::Expr(a.if_expr(
            a.call1(load("__coalesces", whole), load("x", sp(0, 1))),
            load("y", sp(5, 6)),
            load("x", sp(0, 1)),
        )),
        whole,
    )]);
    assert_eq!(out, expected);
}

#[test]
fn mapped_attribute_evaluates_its_receiver_once() {
    let source = "f()?.y";
    let e = (
        Expr::MappedAttribute(
            Box::new(call(ident("f", 0, 1), vec![], 0, 3)),
            ("y".to_string(), sp(5, 6)),
        ),
        sp(0, 6),
    );
    let out = lower_one(source, e);
    let l = sp(0, 3);
    let whole = sp(0, 6);
    let a = PyAstBuilder::new(whole);
    let tmp = "__tl_tmp_l1c1";
    let expected = PyBlock(vec![
        PyAstBuilder::new(l).assign(store(tmp, l), PyAstBuilder::new(l).call(load("f", sp(0, 1)), vec![])),
        SPyStmt::new(
            PyStmt::Expr(a.if_expr(
                a.call1(load("__coalesces", whole), load(tmp, l)),
                load(tmp, l),
                a.attribute(load(tmp, l), "y", PyAccessCtx::Load),
            )),
            whole,
        ),
    ]);
    assert_eq!(out, expected);
}

#[test]
fn a_block_in_expression_position_ends_with_a_value() {
    let source = "x = block: 1";
    let body = (Block::Stmts(vec![expr_stmt(num("1", 11, 12))]), sp(11, 12));
    let e = (Expr::Block(Box::new(body)), sp(4, 12));
    let mut ctx = TfCtx::new(source);
    let b = (Block::Expr(e), sp(4, 12));
    let out = transform_block(&mut ctx, &b, true, false).unwrap();
    assert!(out.stmts.0.is_empty());
    match out.final_ {
        BlockFinal::Expr(e) => assert_eq!(e.tl_span, sp(11, 12)),
        other => panic!("unexpected final {:?}", other),
    }
}

#[test]
fn a_block_that_returns_never_falls_through() {
    let source = "return 1";
    let stmt = (Stmt::Return(num("1", 7, 8)), sp(0, 8));
    let mut ctx = TfCtx::new(source);
    let out = transform_block(&mut ctx, &block(vec![stmt], 8), true, false).unwrap();
    assert_eq!(out.final_, BlockFinal::Never);
    assert!(matches!(out.stmts.0.last().unwrap().value, PyStmt::Return(_)));
}

#[test]
fn a_block_that_ends_with_an_assignment_has_no_value() {
    let source = "a = 1";
    let stmt = (Stmt::Assign(ident("a", 0, 1), num("1", 4, 5), vec![]), sp(0, 5));
    let mut ctx = TfCtx::new(source);
    let out = transform_block(&mut ctx, &block(vec![stmt], 5), true, false).unwrap();
    assert_eq!(out.final_, BlockFinal::Nothing);
    let empty = transform_block(&mut ctx, &block(vec![], 0), true, false).unwrap();
    assert_eq!(empty.final_, BlockFinal::Nothing);
    assert!(empty.stmts.0.is_empty());
}

#[test]
fn a_placeholder_index_is_refused_in_a_subscript_target() {
    // a[$] = 1: the bare placeholder would turn the target into a function
    let source = "a[$] = 1";
    let target = (
        Expr::Subscript(
            Box::new(ident("a", 0, 1)),
            vec![ListItem::Item((Expr::Placeholder, sp(2, 3)))],
        ),
        sp(0, 4),
    );
    let stmt = (Stmt::Assign(target, num("1", 7, 8), vec![]), sp(0, 8));
    let errs = transform_ast(source, &block(vec![stmt], 8), false).unwrap_err();
    assert_eq!(errs.0.len(), 1);
    assert_eq!(errs.0[0].kind, TfErrKind::InvalidAssignTarget);
    assert_eq!(
        errs.0[0].message,
        "Assignment target cannot be a function of the placeholder"
    );
    assert_eq!(errs.0[0].span, Some(sp(0, 4)));

    // in a pattern too, and with the placeholder among several indices
    let source = "[b, a[0, $]] = x";
    let inner = (
        Expr::Subscript(
            Box::new(ident("a", 4, 5)),
            vec![
                ListItem::Item(num("0", 6, 7)),
                ListItem::Item((Expr::Placeholder, sp(9, 10))),
            ],
        ),
        sp(4, 11),
    );
    let pattern = (
        Expr::List(vec![ListItem::Item(ident("b", 1, 2)), ListItem::Item(inner)]),
        sp(0, 12),
    );
    let stmt = (Stmt::Assign(pattern, ident("x", 15, 16), vec![]), sp(0, 16));
    let mut ctx = TfCtx::new(source);
    let errs = transform_block(&mut ctx, &block(vec![stmt], 16), false, true).unwrap_err();
    assert_eq!(errs.0.len(), 1);
    assert_eq!(errs.0[0].kind, TfErrKind::InvalidAssignTarget);
    assert_eq!(errs.0[0].span, Some(sp(4, 11)));
    assert!(ctx.placeholder_ctx_stack.is_empty());
}

#[test]
fn a_placeholder_inside_an_index_belongs_to_the_index() {
    // a[$ + 1] = 2: the index is a function, the target is the subscript
    let source = "a[$ + 1] = 2";
    let index = binary(BinaryOp::Add, (Expr::Placeholder, sp(2, 3)), num("1", 6, 7));
    let target = (
        Expr::Subscript(Box::new(ident("a", 0, 1)), vec![ListItem::Item(index)]),
        sp(0, 8),
    );
    let stmt = (Stmt::Assign(target, num("2", 11, 12), vec![]), sp(0, 12));
    let out = transform_ast(source, &block(vec![stmt], 12), false).unwrap();
    match &out.py_block.0[0].value {
        PyStmt::Assign(SPyExpr { value: PyExpr::Subscript(obj, index, ctx), .. }, _) => {
            assert_eq!(*ctx, PyAccessCtx::Store);
            assert_eq!(**obj, load("a", sp(0, 1)));
            assert!(matches!(index.value, PyExpr::Lambda(_, _)));
        }
        other => panic!("unexpected statement {:?}", other),
    }
}

#[test]
fn a_refusal_before_lowering_leaves_the_state_as_it_was() {
    let source = "0123456789";
    let mut ctx = TfCtx::new(source);
    ctx.push_guard(sp(0, 9));
    ctx.exports.push("kept".to_string());
    ctx.module_star_exports.push("pkg".to_string());
    let check = |ctx: &TfCtx| {
        assert_eq!(ctx.placeholder_ctx_stack.len(), 1);
        assert!(!ctx.placeholder_ctx_stack[0].activated);
        assert_eq!(ctx.placeholder_ctx_stack[0].span, sp(0, 9));
        assert_eq!(ctx.exports, vec!["kept".to_string()]);
        assert_eq!(ctx.module_star_exports, vec!["pkg".to_string()]);
    };
    // an expression that cannot stand in Store context
    let e = binary(BinaryOp::Add, (Expr::Placeholder, sp(0, 1)), num("1", 4, 5));
    assert!(transform_with_access(&mut ctx, &e, PyAccessCtx::Store).is_err());
    check(&ctx);
    // a mapped form in Store context
    let mapped = (
        Expr::MappedAttribute(
            Box::new((Expr::Placeholder, sp(0, 1))),
            ("b".to_string(), sp(3, 4)),
        ),
        sp(0, 4),
    );
    assert!(transform_postfix_expr(&mut ctx, &mapped, PyAccessCtx::Store).is_err());
    check(&ctx);
    // a target of another form, and an attribute where only names are bound
    assert!(destructure(&mut ctx, &e, false).is_err());
    check(&ctx);
    let attr = (
        Expr::Attribute(Box::new((Expr::Placeholder, sp(0, 1))), ("b".to_string(), sp(2, 3))),
        sp(0, 3),
    );
    assert!(destructure(&mut ctx, &attr, true).is_err());
    check(&ctx);
    // an expression statement with modifiers, at the top level
    let stmt = (
        Stmt::Expr((Expr::Placeholder, sp(0, 1)), vec![AssignModifier::Export]),
        sp(0, 1),
    );
    assert!(transform_stmt(&mut ctx, &stmt, true).is_err());
    check(&ctx);
}

#[test]
fn a_block_that_fails_marks_nothing_for_reexport() {
    let source = "export a = 1; export import m.*; module";
    let export = (
        Stmt::Assign(ident("a", 7, 8), num("1", 11, 12), vec![AssignModifier::Export]),
        sp(0, 12),
    );
    let import = (
        Stmt::Import(ImportStmt {
            trunk: vec![("m".to_string(), sp(28, 29))],
            imports: ImportList::Star,
            level: 0,
            reexport: true,
        }),
        sp(14, 31),
    );
    let bad = (Stmt::Module, sp(33, 39));
    let mut ctx = TfCtx::new(source);
    ctx.exports.push("before".to_string());
    let out = transform_block(&mut ctx, &block(vec![export, import, bad], 39), false, true);
    assert!(out.is_err());
    assert_eq!(ctx.exports, vec!["before".to_string()]);
    assert!(ctx.module_star_exports.is_empty());
    assert!(ctx.placeholder_ctx_stack.is_empty());
}

#[test]
fn assignment_targets_are_names_attributes_or_subscripts() {
    // x.y[0] = f(1); [a, b.c] = g
    let source = "x.y[0] = f(1); [a, b.c] = g";
    let attr = (
        Expr::Attribute(Box::new(ident("x", 0, 1)), ("y".to_string(), sp(2, 3))),
        sp(0, 3),
    );
    let first = (
        Stmt::Assign(
            (Expr::Subscript(Box::new(attr), vec![ListItem::Item(num("0", 4, 5))]), sp(0, 6)),
            call(ident("f", 9, 10), vec![arg(num("1", 11, 12))], 9, 13),
            vec![],
        ),
        sp(0, 13),
    );
    let pattern = (
        Expr::List(vec![
            ListItem::Item(ident("a", 16, 17)),
            ListItem::Item((
                Expr::Attribute(Box::new(ident("b", 19, 20)), ("c".to_string(), sp(21, 22))),
                sp(19, 22),
            )),
        ]),
        sp(15, 23),
    );
    let second = (Stmt::Assign(pattern, ident("g", 26, 27), vec![]), sp(15, 27));
    let out = transform_ast(source, &block(vec![first, second], 27), false).unwrap();
    assert_eq!(out.py_block.0.len(), 6);
    for stmt in &out.py_block.0 {
        match &stmt.value {
            PyStmt::Assign(target, _) => match &target.value {
                PyExpr::Ident(_, ctx) => assert_eq!(*ctx, PyAccessCtx::Store),
                PyExpr::Attribute(obj, _, ctx) => {
                    assert_eq!(*ctx, PyAccessCtx::Store);
                    assert!(matches!(obj.value, PyExpr::Ident(_, PyAccessCtx::Load)));
                }
                PyExpr::Subscript(obj, _, ctx) => {
                    assert_eq!(*ctx, PyAccessCtx::Store);
                    assert!(matches!(obj.value, PyExpr::Attribute(_, _, PyAccessCtx::Load)));
                }
                other => panic!("unexpected target {:?}", other),
            },
            other => panic!("unexpected statement {:?}", other),
        }
    }
}

#[test]
fn an_expression_is_read_in_load_context() {
    let mut ctx = TfCtx::new("f(x)");
    let e = call(ident("f", 0, 1), vec![arg(ident("x", 2, 3))], 0, 4);
    let out = transform_expr(&mut ctx, &e).unwrap();
    let a = PyAstBuilder::new(sp(0, 4));
    assert!(out.pre_stmts.0.is_empty());
    assert_eq!(
        out.expr,
        a.call(load("f", sp(0, 1)), vec![a.call_arg(load("x", sp(2, 3)))])
    );
    let b = (Block::Expr(e), sp(0, 4));
    let shaped = transform_block_with_final_expr(&mut ctx, &b).unwrap();
    assert!(shaped.stmts.0.is_empty());
    assert_eq!(shaped.final_, BlockFinal::Expr(out.expr));
}

#[test]
fn temporaries_of_one_kind_at_one_place_share_their_name() {
    // (a() ?? b) ?? c: both left sides start at the same offset
    let source = "(a() ?? b) ?? c";
    let inner = binary(
        BinaryOp::Coalesce,
        call(ident("a", 1, 2), vec![], 1, 4),
        ident("b", 8, 9),
    );
    let outer = binary(BinaryOp::Coalesce, inner, ident("c", 14, 15));
    let out = lower_one(source, outer);
    assert_eq!(out.0.len(), 3);
    for stmt in &out.0[..2] {
        match &stmt.value {
            PyStmt::Assign(SPyExpr { value: PyExpr::Ident(name, PyAccessCtx::Store), .. }, _) => {
                assert_eq!(name, "__tl_tmp_l1c2");
            }
            other => panic!("unexpected statement {:?}", other),
        }
    }
}

#[test]
fn regions_are_entered_activated_and_left() {
    let mut ctx = TfCtx::new("abc");
    assert_eq!(ctx.activate_top(), None);
    ctx.push_guard(sp(0, 3));
    ctx.push_guard(sp(1, 2));
    assert_eq!(ctx.placeholder_ctx_stack.len(), 2);
    assert!(!ctx.placeholder_ctx_stack[1].activated);
    assert_eq!(ctx.activate_top(), Some(sp(1, 2)));
    assert!(ctx.placeholder_ctx_stack[1].activated);
    assert!(!ctx.placeholder_ctx_stack[0].activated);
    let top = ctx.pop_guard();
    assert!(top.activated);
    assert_eq!(top.span, sp(1, 2));
    let outer = ctx.pop_guard();
    assert!(!outer.activated);
    assert_eq!(outer.span, sp(0, 3));
    assert!(ctx.placeholder_ctx_stack.is_empty());
}
