use koatl_core::ast::{
    AssignModifier, BinaryOp, Block, CallItem, Expr, ImportList, ImportStmt, ListItem, Literal,
    MappingItem, SBlock, SCallItem, SExpr, SStmt, Span, Stmt,
};
use koatl_core::transform::{transform_ast, TfErr, TfErrBuilder, TfErrKind, TfErrs};

fn sp(start: usize, end: usize) -> Span {
    Span::new(start, end)
}

fn ident(name: &str, start: usize, end: usize) -> SExpr {
    (Expr::Ident((name.to_string(), sp(start, end))), sp(start, end))
}

fn num(text: &str, start: usize, end: usize) -> SExpr {
    (Expr::Literal((Literal::Num(text.to_string()), sp(start, end))), sp(start, end))
}

fn arg(e: SExpr) -> SCallItem {
    let span = e.1;
    (CallItem::Arg(e), span)
}

fn expr_stmt(e: SExpr) -> SStmt {
    let span = e.1;
    (Stmt::Expr(e, vec![]), span)
}

fn block(stmts: Vec<SStmt>) -> SBlock {
    (Block::Stmts(stmts), sp(0, 40))
}

fn inner_block(stmts: Vec<SStmt>, start: usize, end: usize) -> SBlock {
    (Block::Stmts(stmts), sp(start, end))
}

const SOURCE: &str = "0123456789012345678901234567890123456789";

fn errors_of(stmts: Vec<SStmt>) -> Vec<TfErr> {
    match transform_ast(SOURCE, &block(stmts), false) {
        Ok(out) => panic!("lowering succeeded: {:?}", out),
        Err(errs) => errs.0,
    }
}

fn the_error(stmts: Vec<SStmt>) -> TfErr {
    let mut errs = errors_of(stmts);
    assert_eq!(errs.len(), 1);
    errs.pop().unwrap()
}

fn expect(err: &TfErr, kind: TfErrKind, message: &str, span: Span) {
    assert_eq!(err.kind, kind);
    assert_eq!(err.message, message);
    assert_eq!(err.span, Some(span));
}

#[test]
fn error_builder_builds_what_it_was_given() {
    let err = TfErrBuilder::default()
        .kind(TfErrKind::MissingDefault)
        .message("no default")
        .span(sp(3, 4))
        .build();
    assert_eq!(
        err,
        TfErr {
            kind: TfErrKind::MissingDefault,
            message: "no default".to_string(),
            span: Some(sp(3, 4))
        }
    );
    let plain = TfErrBuilder::default().build();
    assert_eq!(plain.kind, TfErrKind::InternalError);
    assert_eq!(plain.message, "");
    assert_eq!(plain.span, None);
    let errs = TfErrBuilder::default().message("m").build_errs();
    assert_eq!(errs.0.len(), 1);
    assert_eq!(errs.0[0].message, "m");
}

#[test]
fn error_lists_append_in_order() {
    let mut errs = TfErrs::new();
    assert!(errs.0.is_empty());
    errs.extend(TfErrBuilder::default().message("first").build_errs());
    let mut more = TfErrBuilder::default().message("second").build_errs();
    more.extend(TfErrBuilder::default().message("third").build_errs());
    errs.extend(more);
    let messages: Vec<&str> = errs.0.iter().map(|e| e.message.as_str()).collect();
    assert_eq!(messages, vec!["first", "second", "third"]);
}

#[test]
fn modifiers_on_an_expression_statement_are_refused() {
    let stmt = (Stmt::Expr(ident("a", 7, 8), vec![AssignModifier::Global]), sp(0, 8));
    expect(
        &the_error(vec![stmt]),
        TfErrKind::InvalidModifier,
        "Modifiers are not allowed on expression statements",
        sp(0, 8),
    );
}

#[test]
fn modifiers_on_a_final_expression_are_refused() {
    let stmt = (Stmt::Expr(ident("a", 7, 8), vec![AssignModifier::Export]), sp(0, 8));
    match transform_ast(SOURCE, &block(vec![stmt]), true) {
        Ok(out) => panic!("lowering succeeded: {:?}", out),
        Err(errs) => {
            assert_eq!(errs.0.len(), 1);
            expect(
                &errs.0[0],
                TfErrKind::InvalidModifier,
                "Modifiers are not allowed on expression statements",
                sp(0, 8),
            );
        }
    }
}

#[test]
fn two_scope_modifiers_are_refused() {
    let stmt = (
        Stmt::Assign(
            ident("a", 16, 17),
            num("1", 20, 21),
            vec![AssignModifier::Global, AssignModifier::Nonlocal],
        ),
        sp(0, 21),
    );
    expect(
        &the_error(vec![stmt]),
        TfErrKind::InvalidModifier,
        "Only one scope modifier is allowed in an assignment",
        sp(0, 21),
    );
}

#[test]
fn export_below_the_top_level_is_refused() {
    let inner = (
        Stmt::Assign(ident("a", 17, 18), num("1", 21, 22), vec![AssignModifier::Export]),
        sp(10, 22),
    );
    let loop_ = (
        Stmt::While(ident("c", 6, 7), inner_block(vec![inner], 10, 22)),
        sp(0, 22),
    );
    expect(
        &the_error(vec![loop_]),
        TfErrKind::InvalidModifier,
        "Export modifier is only allowed at the top level",
        sp(10, 22),
    );
}

#[test]
fn two_spreads_in_a_list_pattern_are_refused() {
    let target = (
        Expr::List(vec![
            ListItem::Spread(ident("a", 2, 3)),
            ListItem::Spread(ident("b", 6, 7)),
        ]),
        sp(0, 8),
    );
    let stmt = (Stmt::Assign(target, ident("xs", 11, 13), vec![]), sp(0, 13));
    expect(
        &the_error(vec![stmt]),
        TfErrKind::MultipleSpreads,
        "Destructuring assignment with multiple spreads is not allowed",
        sp(0, 8),
    );
}

#[test]
fn two_rest_targets_in_a_mapping_pattern_are_refused() {
    let target = (
        Expr::Mapping(vec![
            MappingItem::Spread(ident("a", 3, 4)),
            MappingItem::Item(ident("k", 6, 7), ident("v", 9, 10)),
            MappingItem::Spread(ident("b", 14, 15)),
        ]),
        sp(0, 16),
    );
    let stmt = (Stmt::Assign(target, ident("xs", 19, 21), vec![]), sp(0, 21));
    expect(
        &the_error(vec![stmt]),
        TfErrKind::MultipleSpreads,
        "Destructuring assignment with multiple spreads is not allowed",
        sp(0, 16),
    );
}

#[test]
fn a_literal_is_no_assignment_target() {
    let stmt = (Stmt::Assign(num("1", 0, 1), ident("x", 4, 5), vec![]), sp(0, 5));
    expect(
        &the_error(vec![stmt]),
        TfErrKind::InvalidAssignTarget,
        "Assignment target is not allowed",
        sp(0, 1),
    );
}

#[test]
fn a_loop_target_binds_names_only() {
    let target = (
        Expr::Attribute(Box::new(ident("a", 4, 5)), ("b".to_string(), sp(6, 7))),
        sp(4, 7),
    );
    let stmt = (
        Stmt::For(target, ident("xs", 11, 13), inner_block(vec![], 15, 15)),
        sp(0, 15),
    );
    expect(
        &the_error(vec![stmt]),
        TfErrKind::InvalidAssignTarget,
        "Only identifiers allowed in this destructuring",
        sp(4, 7),
    );
}

#[test]
fn a_declared_target_binds_names_only() {
    let target = (
        Expr::Subscript(Box::new(ident("a", 7, 8)), vec![ListItem::Item(num("0", 9, 10))]),
        sp(7, 11),
    );
    let stmt = (
        Stmt::Assign(target, num("1", 14, 15), vec![AssignModifier::Global]),
        sp(0, 15),
    );
    expect(
        &the_error(vec![stmt]),
        TfErrKind::InvalidAssignTarget,
        "Only identifiers allowed in this destructuring",
        sp(7, 11),
    );
}

fn if_expr(then: SBlock, otherwise: Option<SBlock>) -> SExpr {
    (
        Expr::If(
            Box::new(ident("c", 7, 8)),
            Box::new(then),
            otherwise.map(Box::new),
        ),
        sp(4, 30),
    )
}

#[test]
fn an_arm_without_a_value_is_refused() {
    let assign = (Stmt::Assign(ident("a", 10, 11), num("1", 14, 15), vec![]), sp(10, 15));
    let then = inner_block(vec![assign], 10, 15);
    let otherwise = inner_block(vec![expr_stmt(num("2", 22, 23))], 22, 23);
    let stmt = (Stmt::Return(if_expr(then, Some(otherwise))), sp(0, 30));
    expect(
        &the_error(vec![stmt]),
        TfErrKind::MissingFinalExpr,
        "then block must have a final expression",
        sp(10, 15),
    );

    let assign = (Stmt::Assign(ident("a", 22, 23), num("1", 26, 27), vec![]), sp(22, 27));
    let then = inner_block(vec![expr_stmt(num("1", 10, 11))], 10, 11);
    let otherwise = inner_block(vec![assign], 22, 27);
    let stmt = (Stmt::Return(if_expr(then, Some(otherwise))), sp(0, 30));
    expect(
        &the_error(vec![stmt]),
        TfErrKind::MissingFinalExpr,
        "else block must have a final expression",
        sp(22, 27),
    );
}

#[test]
fn an_if_expression_needs_an_else_arm() {
    let then = inner_block(vec![expr_stmt(num("1", 10, 11))], 10, 11);
    let stmt = (Stmt::Return(if_expr(then, None)), sp(0, 30));
    expect(
        &the_error(vec![stmt]),
        TfErrKind::MissingFinalExpr,
        "else block is required in an if-expr",
        sp(4, 30),
    );
}

#[test]
fn an_arm_that_returns_needs_no_value() {
    let ret = (Stmt::Return(num("1", 17, 18)), sp(10, 18));
    let then = inner_block(vec![ret], 10, 18);
    let otherwise = inner_block(vec![expr_stmt(num("2", 22, 23))], 22, 23);
    let stmt = (Stmt::Return(if_expr(then, Some(otherwise))), sp(0, 30));
    assert!(transform_ast(SOURCE, &block(vec![stmt]), false).is_ok());
}

#[test]
fn a_block_expression_needs_a_value() {
    let assign = (Stmt::Assign(ident("a", 10, 11), num("1", 14, 15), vec![]), sp(10, 15));
    let e = (Expr::Block(Box::new(inner_block(vec![assign], 10, 15))), sp(4, 15));
    let stmt = (Stmt::Return(e), sp(0, 15));
    expect(
        &the_error(vec![stmt]),
        TfErrKind::MissingFinalExpr,
        "block-expression must have a final expression",
        sp(10, 15),
    );
}

fn match_expr(cases: Vec<(Option<SExpr>, SBlock)>) -> SStmt {
    let e = (Expr::Match(Box::new(ident("x", 7, 8)), cases), sp(7, 35));
    (Stmt::Return(e), sp(0, 35))
}

fn value_block(text: &str, start: usize) -> SBlock {
    inner_block(vec![expr_stmt(num(text, start, start + 1))], start, start + 1)
}

#[test]
fn a_match_expression_needs_a_default_case() {
    let stmt = match_expr(vec![(Some(num("1", 16, 17)), value_block("2", 19))]);
    expect(
        &the_error(vec![stmt]),
        TfErrKind::MissingDefault,
        "match-expr must have a default case",
        sp(7, 35),
    );
    let none = match_expr(vec![]);
    expect(
        &the_error(vec![none]),
        TfErrKind::MissingDefault,
        "match-expr must have a default case",
        sp(7, 35),
    );
}

#[test]
fn the_default_case_comes_last() {
    let stmt = match_expr(vec![
        (None, value_block("1", 16)),
        (Some(num("2", 20, 21)), value_block("3", 23)),
    ]);
    expect(
        &the_error(vec![stmt]),
        TfErrKind::MissingDefault,
        "match-expr default case must be the last case",
        sp(16, 17),
    );
    let name_first = match_expr(vec![
        (Some(ident("y", 16, 17)), value_block("1", 19)),
        (Some(num("2", 22, 23)), value_block("3", 25)),
    ]);
    expect(
        &the_error(vec![name_first]),
        TfErrKind::MissingDefault,
        "match-expr must have a default case",
        sp(7, 35),
    );
}

#[test]
fn a_match_expression_with_a_last_default_case_lowers() {
    let with_else = match_expr(vec![
        (Some(num("1", 16, 17)), value_block("2", 19)),
        (None, value_block("3", 23)),
    ]);
    assert!(transform_ast(SOURCE, &block(vec![with_else]), false).is_ok());
    let with_name = match_expr(vec![
        (Some(num("1", 16, 17)), value_block("2", 19)),
        (Some(ident("y", 22, 23)), value_block("3", 25)),
    ]);
    assert!(transform_ast(SOURCE, &block(vec![with_name]), false).is_ok());
}

#[test]
fn a_case_of_a_match_expression_needs_a_value() {
    let assign = (Stmt::Assign(ident("a", 16, 17), num("1", 20, 21), vec![]), sp(16, 21));
    let stmt = match_expr(vec![(None, inner_block(vec![assign], 16, 21))]);
    expect(
        &the_error(vec![stmt]),
        TfErrKind::MissingFinalExpr,
        "match-expr case must have a final expression",
        sp(16, 21),
    );
}

#[test]
fn a_placeholder_needs_a_region() {
    let b = (Block::Expr((Expr::Placeholder, sp(3, 4))), sp(3, 4));
    match transform_ast(SOURCE, &b, true) {
        Ok(out) => panic!("lowering succeeded: {:?}", out),
        Err(errs) => {
            assert_eq!(errs.0.len(), 1);
            expect(
                &errs.0[0],
                TfErrKind::PlaceholderOutsideContext,
                "Placeholder expression outside of placeholder context",
                sp(3, 4),
            );
        }
    }
}

#[test]
fn a_mapped_form_is_no_assignment_target() {
    let target = (
        Expr::MappedAttribute(Box::new(ident("a", 0, 1)), ("b".to_string(), sp(3, 4))),
        sp(0, 4),
    );
    let stmt = (Stmt::Assign(target, num("1", 7, 8), vec![]), sp(0, 8));
    expect(
        &the_error(vec![stmt]),
        TfErrKind::InvalidAssignTarget,
        "Assignment target is not allowed",
        sp(0, 4),
    );
}

#[test]
fn a_reexporting_import_stands_at_the_top_level() {
    let imp = ImportStmt {
        trunk: vec![("m".to_string(), sp(24, 25))],
        imports: ImportList::Star,
        level: 0,
        reexport: true,
    };
    let inner = (Stmt::Import(imp), sp(10, 27));
    let loop_ = (
        Stmt::While(ident("c", 6, 7), inner_block(vec![inner], 10, 27)),
        sp(0, 27),
    );
    expect(
        &the_error(vec![loop_]),
        TfErrKind::InvalidReexport,
        "Re-exporting imports is only allowed at the top level",
        sp(10, 27),
    );
}

fn kwarg(name: &str, e: SExpr) -> SCallItem {
    let span = e.1;
    (CallItem::Kwarg((name.to_string(), span), e), span)
}

#[test]
fn positional_arguments_come_before_keyword_arguments() {
    let e = (
        Expr::Call(
            Box::new(ident("f", 0, 1)),
            vec![kwarg("k", num("1", 4, 5)), arg(num("2", 7, 8))],
        ),
        sp(0, 9),
    );
    expect(
        &the_error(vec![expr_stmt(e)]),
        TfErrKind::InvalidArgument,
        "Cannot have args after kwargs",
        sp(0, 9),
    );
    let spread = num("2", 8, 9);
    let e = (
        Expr::Call(
            Box::new(ident("f", 0, 1)),
            vec![
                (CallItem::KwargSpread(ident("kw", 4, 6)), sp(2, 6)),
                (CallItem::ArgSpread(spread), sp(7, 9)),
            ],
        ),
        sp(0, 10),
    );
    expect(
        &the_error(vec![expr_stmt(e)]),
        TfErrKind::InvalidArgument,
        "Cannot have arg spread after kwargs",
        sp(0, 10),
    );
}

#[test]
fn class_bases_take_no_spread() {
    let e = (
        Expr::Class(
            vec![(CallItem::ArgSpread(ident("bs", 7, 9)), sp(6, 9))],
            Box::new(inner_block(vec![], 12, 12)),
        ),
        sp(0, 12),
    );
    expect(
        &the_error(vec![expr_stmt(e)]),
        TfErrKind::InvalidArgument,
        "spread args are not allowed in class bases",
        sp(0, 12),
    );
}

#[test]
fn statements_that_lowering_never_meets_are_internal_errors() {
    expect(
        &the_error(vec![(Stmt::Error, sp(2, 3))]),
        TfErrKind::InternalError,
        "unexpected statement error (should have been caught in lexer)",
        sp(2, 3),
    );
    expect(
        &the_error(vec![(Stmt::Module, sp(4, 10))]),
        TfErrKind::InternalError,
        "Module statements are not allowed in the transform phase",
        sp(4, 10),
    );
}

#[test]
fn errors_of_sibling_statements_accumulate() {
    let first = (Stmt::Assign(num("1", 0, 1), ident("x", 4, 5), vec![]), sp(0, 5));
    let fine = expr_stmt(ident("ok", 6, 8));
    let second = (Stmt::Module, sp(9, 15));
    let third = (Stmt::Expr(ident("a", 23, 24), vec![AssignModifier::Global]), sp(16, 24));
    let errs = errors_of(vec![first, fine, second, third]);
    assert_eq!(errs.len(), 3);
    expect(
        &errs[0],
        TfErrKind::InvalidAssignTarget,
        "Assignment target is not allowed",
        sp(0, 1),
    );
    expect(
        &errs[1],
        TfErrKind::InternalError,
        "Module statements are not allowed in the transform phase",
        sp(9, 15),
    );
    expect(
        &errs[2],
        TfErrKind::InvalidModifier,
        "Modifiers are not allowed on expression statements",
        sp(16, 24),
    );
}

#[test]
fn an_error_inside_an_expression_stops_that_expression() {
    // both operands fail; only the first is reported
    let l = (Expr::Block(Box::new(inner_block(vec![], 1, 2))), sp(0, 3));
    let r = (Expr::Block(Box::new(inner_block(vec![], 7, 8))), sp(6, 9));
    let e = (Expr::Binary(BinaryOp::Add, Box::new(l), Box::new(r)), sp(0, 9));
    expect(
        &the_error(vec![expr_stmt(e)]),
        TfErrKind::MissingFinalExpr,
        "block-expression must have a final expression",
        sp(1, 2),
    );
}

#[test]
fn a_rule_refuses_a_node_of_another_kind() {
    let mut ctx = koatl_core::transform::context::TfCtx::new(SOURCE);
    let errs = koatl_core::transform::expr::transform_binary(&mut ctx, &num("1", 2, 3)).unwrap_err();
    assert_eq!(errs.0.len(), 1);
    expect(
        &errs.0[0],
        TfErrKind::InternalError,
        "Internal error: node of an unexpected kind",
        sp(2, 3),
    );
    let stmt = (Stmt::Break, sp(4, 9));
    let errs = koatl_core::transform::stmt::transform_for(&mut ctx, &stmt).unwrap_err();
    expect(
        &errs.0[0],
        TfErrKind::InternalError,
        "Internal error: node of an unexpected kind",
        sp(4, 9),
    );
}
