use koatl_core::ast::{
    ArgDefItem, AssignModifier, BinaryOp, Block, CallItem, ExceptHandler, ExceptTypes, Expr,
    FmtExpr, ImportList, ImportStmt, ListItem, Literal, MappingItem, SBlock, SCallItem, SExpr,
    SStmt, Span, Stmt, UnaryOp,
};
use koatl_core::py::ast::{
    PyAccessCtx, PyArgDefItem, PyBinaryOp, PyBlock, PyCallItem, PyDecorators, PyDictItem,
    PyExceptHandler, PyExpr, PyFstrPart, PyImportAlias, PyListItem, PyLiteral, PyMatchCase,
    PyStmt, PyUnaryOp, SPyExpr, SPyStmt,
};
use koatl_core::py::util::PyAstBuilder;
use koatl_core::transform::context::TfCtx;
use koatl_core::transform::literal::transform_except_types;
use koatl_core::transform::postfix::transform_postfix_expr;
use koatl_core::transform::expr::transform_with_access;
use koatl_core::transform::{transform_ast, TfErrKind, TransformOutput};

fn sp(start: usize, end: usize) -> Span {
    Span::new(start, end)
}

fn ident(name: &str, start: usize, end: usize) -> SExpr {
    (Expr::Ident((name.to_string(), sp(start, end))), sp(start, end))
}

fn num(text: &str, start: usize, end: usize) -> SExpr {
    (Expr::Literal((Literal::Num(text.to_string()), sp(start, end))), sp(start, end))
}

fn arg(e: SExpr) -> SCallItem {
    let span = e.1;
    (CallItem::Arg(e), span)
}

fn call(f: SExpr, args: Vec<SCallItem>, start: usize, end: usize) -> SExpr {
    (Expr::Call(Box::new(f), args), sp(start, end))
}

fn expr_stmt(e: SExpr) -> SStmt {
    let span = e.1;
    (Stmt::Expr(e, vec![]), span)
}

fn stmts(list: Vec<SStmt>, start: usize, end: usize) -> SBlock {
    (Block::Stmts(list), sp(start, end))
}

fn load(name: &str, span: Span) -> SPyExpr {
    PyAstBuilder::new(span).load_ident(name)
}

fn store(name: &str, span: Span) -> SPyExpr {
    PyAstBuilder::new(span).store_ident(name)
}

fn py_num(text: &str, span: Span) -> SPyExpr {
    PyAstBuilder::new(span).num(text.to_string())
}

fn py_stmt(value: PyStmt, span: Span) -> SPyStmt {
    SPyStmt::new(value, span)
}

const SOURCE: &str = "0123456789012345678901234567890123456789";

fn lower(list: Vec<SStmt>) -> TransformOutput {
    transform_ast(SOURCE, &stmts(list, 0, 40), false).unwrap()
}

/// `f()` with a block around it: an expression that needs a statement first.
fn lifted_call(start: usize) -> SExpr {
    // (f() ?? 0)
    (
        Expr::Binary(
            BinaryOp::Coalesce,
            Box::new(call(ident("f", start, start + 1), vec![], start, start + 3)),
            Box::new(num("0", start + 7, start + 8)),
        ),
        sp(start, start + 8),
    )
}

fn lifted_call_pre(start: usize) -> SPyStmt {
    let s = sp(start, start + 3);
    let a = PyAstBuilder::new(s);
    let name = format!("__tl_tmp_l1c{}", start + 1);
    a.assign(store(&name, s), a.call(load("f", sp(start, start + 1)), vec![]))
}

fn lifted_call_value(start: usize) -> SPyExpr {
    let s = sp(start, start + 3);
    let whole = sp(start, start + 8);
    let a = PyAstBuilder::new(whole);
    let name = format!("__tl_tmp_l1c{}", start + 1);
    a.if_expr(
        a.call1(load("__coalesces", whole), load(&name, s)),
        py_num("0", sp(start + 7, start + 8)),
        load(&name, s),
    )
}

#[test]
fn a_final_expression_is_kept_where_it_is_asked_for() {
    let b = stmts(vec![expr_stmt(num("1", 0, 1)), expr_stmt(num("2", 2, 3))], 0, 3);
    let kept = transform_ast(SOURCE, &b, true).unwrap();
    let dropped = transform_ast(SOURCE, &b, false).unwrap();
    let expected = PyBlock(vec![
        py_stmt(PyStmt::Expr(py_num("1", sp(0, 1))), sp(0, 1)),
        py_stmt(PyStmt::Expr(py_num("2", sp(2, 3))), sp(2, 3)),
    ]);
    assert_eq!(kept.py_block, expected);
    assert_eq!(dropped.py_block, expected);
    let single = (Block::Expr(num("7", 4, 5)), sp(4, 5));
    let out = transform_ast(SOURCE, &single, true).unwrap();
    assert_eq!(
        out.py_block,
        PyBlock(vec![py_stmt(PyStmt::Expr(py_num("7", sp(4, 5))), sp(4, 5))])
    );
    let out = transform_ast(SOURCE, &single, false).unwrap();
    assert_eq!(
        out.py_block,
        PyBlock(vec![py_stmt(PyStmt::Expr(py_num("7", sp(4, 5))), sp(4, 5))])
    );
}

#[test]
fn an_empty_block_lowers_to_nothing() {
    let out = lower(vec![]);
    assert!(out.py_block.0.is_empty());
    assert!(out.exports.is_empty());
    assert!(out.module_star_exports.is_empty());
}

#[test]
fn simple_statements() {
    let out = lower(vec![
        (Stmt::Break, sp(0, 5)),
        (Stmt::Continue, sp(6, 14)),
        (Stmt::Raise(ident("e", 21, 22)), sp(15, 22)),
        (Stmt::Assert(ident("c", 30, 31), None), sp(23, 31)),
        (Stmt::Assert(ident("c", 32, 33), Some(ident("m", 35, 36))), sp(32, 36)),
    ]);
    assert_eq!(
        out.py_block,
        PyBlock(vec![
            py_stmt(PyStmt::Break, sp(0, 5)),
            py_stmt(PyStmt::Continue, sp(6, 14)),
            py_stmt(PyStmt::Raise(load("e", sp(21, 22))), sp(15, 22)),
            py_stmt(PyStmt::Assert(load("c", sp(30, 31)), None), sp(23, 31)),
            py_stmt(
                PyStmt::Assert(load("c", sp(32, 33)), Some(load("m", sp(35, 36)))),
                sp(32, 36)
            ),
        ])
    );
}

#[test]
fn an_if_statement_keeps_the_statements_of_its_condition() {
    let e = (
        Expr::If(
            Box::new(lifted_call(3)),
            Box::new(stmts(vec![(Stmt::Break, sp(14, 19))], 14, 19)),
            None,
        ),
        sp(0, 19),
    );
    let out = lower(vec![expr_stmt(e)]);
    assert_eq!(
        out.py_block,
        PyBlock(vec![
            lifted_call_pre(3),
            py_stmt(
                PyStmt::If(
                    lifted_call_value(3),
                    PyBlock(vec![py_stmt(PyStmt::Break, sp(14, 19))]),
                    None
                ),
                sp(0, 19)
            ),
        ])
    );
}

#[test]
fn a_while_loop_with_a_plain_condition() {
    let stmt = (
        Stmt::While(ident("c", 6, 7), stmts(vec![(Stmt::Continue, sp(9, 17))], 9, 17)),
        sp(0, 17),
    );
    assert_eq!(
        lower(vec![stmt]).py_block,
        PyBlock(vec![py_stmt(
            PyStmt::While(
                load("c", sp(6, 7)),
                PyBlock(vec![py_stmt(PyStmt::Continue, sp(9, 17))])
            ),
            sp(0, 17)
        )])
    );
}

#[test]
fn a_while_condition_that_needs_statements_becomes_a_function() {
    let whole = sp(0, 25);
    let stmt = (
        Stmt::While(lifted_call(6), stmts(vec![(Stmt::Break, sp(17, 22))], 17, 22)),
        whole,
    );
    let a = PyAstBuilder::new(whole);
    let name = "__tl_fnexp_l1c1";
    assert_eq!(
        lower(vec![stmt]).py_block,
        PyBlock(vec![
            py_stmt(
                PyStmt::FnDef(
                    name.to_string(),
                    vec![],
                    PyBlock(vec![lifted_call_pre(6), a.return_(lifted_call_value(6))]),
                    PyDecorators(vec![]),
                ),
                whole
            ),
            py_stmt(
                PyStmt::While(
                    a.call(load(name, whole), vec![]),
                    PyBlock(vec![py_stmt(PyStmt::Break, sp(17, 22))])
                ),
                whole
            ),
        ])
    );
}

#[test]
fn a_for_loop_unpacks_its_target_in_the_body() {
    let target = (
        Expr::List(vec![ListItem::Item(ident("a", 5, 6)), ListItem::Item(ident("b", 8, 9))]),
        sp(4, 10),
    );
    let whole = sp(0, 30);
    let stmt = (
        Stmt::For(target, ident("xs", 14, 16), stmts(vec![(Stmt::Break, sp(18, 23))], 18, 23)),
        whole,
    );
    let t = sp(4, 10);
    let a = PyAstBuilder::new(t);
    let curs = "__tl_des_curs_l1c5";
    let list = "__tl_des_list_l1c5";
    let len = "__tl_des_len_l1c5";
    assert_eq!(
        lower(vec![stmt]).py_block,
        PyBlock(vec![py_stmt(
            PyStmt::For(
                store(curs, t),
                load("xs", sp(14, 16)),
                PyBlock(vec![
                    a.assign(store(list, t), a.call1(load("list", t), load(curs, t))),
                    a.assign(store(len, t), a.call1(load("len", t), load(list, t))),
                    a.assign(
                        store("a", sp(5, 6)),
                        a.subscript(load(list, t), py_num("0", t), PyAccessCtx::Load)
                    ),
                    a.assign(
                        store("b", sp(8, 9)),
                        a.subscript(load(list, t), py_num("1", t), PyAccessCtx::Load)
                    ),
                    py_stmt(PyStmt::Break, sp(18, 23)),
                ])
            ),
            whole
        )])
    );
}

#[test]
fn the_spread_of_a_list_pattern_takes_what_the_others_leave() {
    // [*r] = xs: one item, so the slice ends at len - -1
    let target = (Expr::List(vec![ListItem::Spread(ident("r", 2, 3))]), sp(0, 4));
    let stmt = (Stmt::Assign(target, ident("xs", 7, 9), vec![]), sp(0, 9));
    let out = lower(vec![stmt]);
    let t = sp(0, 4);
    let a = PyAstBuilder::new(t);
    assert_eq!(
        out.py_block.0[3],
        a.assign(
            store("r", sp(2, 3)),
            a.subscript(
                load("__tl_des_list_l1c1", t),
                a.slice(
                    Some(py_num("0", t)),
                    Some(a.binary(
                        PyBinaryOp::Sub,
                        load("__tl_des_len_l1c1", t),
                        py_num("-1", t)
                    )),
                    None
                ),
                PyAccessCtx::Load
            )
        )
    );
    // [a, *r, b, c] = xs
    let target = (
        Expr::List(vec![
            ListItem::Item(ident("a", 1, 2)),
            ListItem::Spread(ident("r", 5, 6)),
            ListItem::Item(ident("b", 8, 9)),
            ListItem::Item(ident("c", 11, 12)),
        ]),
        sp(0, 13),
    );
    let stmt = (Stmt::Assign(target, ident("xs", 16, 18), vec![]), sp(0, 18));
    let out = lower(vec![stmt]);
    let t = sp(0, 13);
    let a = PyAstBuilder::new(t);
    let list = "__tl_des_list_l1c1";
    assert_eq!(out.py_block.0.len(), 7);
    assert_eq!(
        out.py_block.0[5],
        a.assign(
            store("b", sp(8, 9)),
            a.subscript(load(list, t), py_num("-2", t), PyAccessCtx::Load)
        )
    );
    assert_eq!(
        out.py_block.0[6],
        a.assign(
            store("c", sp(11, 12)),
            a.subscript(load(list, t), py_num("-1", t), PyAccessCtx::Load)
        )
    );
}

#[test]
fn a_mapping_pattern_pops_its_keys() {
    // [k: a, **rest] = d
    let target = (
        Expr::Mapping(vec![
            MappingItem::Spread(ident("rest", 9, 13)),
            MappingItem::Item(ident("k", 1, 2), ident("a", 4, 5)),
        ]),
        sp(0, 14),
    );
    let stmt = (Stmt::Assign(target, ident("d", 17, 18), vec![]), sp(0, 18));
    let out = lower(vec![stmt]);
    let t = sp(0, 14);
    let a = PyAstBuilder::new(t);
    let curs = "__tl_des_curs_l1c1";
    let dict = "__tl_des_dict_l1c1";
    assert_eq!(
        out.py_block,
        PyBlock(vec![
            a.assign(store(curs, t), load("d", sp(17, 18))),
            a.assign(store(dict, t), a.call1(load("dict", t), load(curs, t))),
            a.assign(
                store("a", sp(4, 5)),
                a.call1(
                    a.attribute(load(dict, t), "pop", PyAccessCtx::Load),
                    load("k", sp(1, 2))
                )
            ),
            a.assign(store("rest", sp(9, 13)), load(dict, t)),
        ])
    );
}

#[test]
fn nested_patterns_unpack_after_their_parent() {
    // [[a], b] = xs
    let inner = (Expr::List(vec![ListItem::Item(ident("a", 2, 3))]), sp(1, 4));
    let target = (
        Expr::List(vec![ListItem::Item(inner), ListItem::Item(ident("b", 6, 7))]),
        sp(0, 8),
    );
    let stmt = (Stmt::Assign(target, ident("xs", 11, 13), vec![]), sp(0, 13));
    let out = lower(vec![stmt]);
    let names: Vec<String> = out
        .py_block
        .0
        .iter()
        .map(|s| match &s.value {
            PyStmt::Assign(SPyExpr { value: PyExpr::Ident(n, PyAccessCtx::Store), .. }, _) => {
                n.clone()
            }
            other => panic!("unexpected statement {:?}", other),
        })
        .collect();
    assert_eq!(
        names,
        vec![
            "__tl_des_curs_l1c1",
            "__tl_des_list_l1c1",
            "__tl_des_len_l1c1",
            "__tl_des_curs_l1c2",
            "b",
            "__tl_des_list_l1c2",
            "__tl_des_len_l1c2",
            "a",
        ]
    );
}

#[test]
fn attribute_and_subscript_targets_are_stored_to() {
    let attr = (
        Expr::Attribute(Box::new(ident("a", 0, 1)), ("b".to_string(), sp(2, 3))),
        sp(0, 3),
    );
    let sub = (
        Expr::Subscript(Box::new(ident("a", 8, 9)), vec![ListItem::Item(num("0", 10, 11))]),
        sp(8, 12),
    );
    let out = lower(vec![
        (Stmt::Assign(attr, num("1", 6, 7), vec![]), sp(0, 7)),
        (Stmt::Assign(sub, num("2", 15, 16), vec![]), sp(8, 16)),
    ]);
    assert_eq!(
        out.py_block,
        PyBlock(vec![
            py_stmt(
                PyStmt::Assign(
                    PyAstBuilder::new(sp(0, 3)).attribute(
                        load("a", sp(0, 1)),
                        "b",
                        PyAccessCtx::Store
                    ),
                    py_num("1", sp(6, 7))
                ),
                sp(0, 3)
            ),
            py_stmt(
                PyStmt::Assign(
                    PyAstBuilder::new(sp(8, 12)).subscript(
                        load("a", sp(8, 9)),
                        py_num("0", sp(10, 11)),
                        PyAccessCtx::Store
                    ),
                    py_num("2", sp(15, 16))
                ),
                sp(8, 12)
            ),
        ])
    );
}

#[test]
fn scope_modifiers_declare_or_export_the_names() {
    let target = (
        Expr::List(vec![ListItem::Item(ident("a", 8, 9)), ListItem::Item(ident("b", 11, 12))]),
        sp(7, 13),
    );
    let global = (
        Stmt::Assign(target, ident("xs", 16, 18), vec![AssignModifier::Global]),
        sp(0, 18),
    );
    let nonlocal = (
        Stmt::Assign(ident("c", 28, 29), num("1", 32, 33), vec![AssignModifier::Nonlocal]),
        sp(19, 33),
    );
    let export = (
        Stmt::Assign(ident("d", 34, 35), num("2", 38, 39), vec![AssignModifier::Export]),
        sp(34, 39),
    );
    let out = lower(vec![global, nonlocal, export]);
    assert_eq!(
        out.py_block.0[0],
        py_stmt(PyStmt::Global(vec!["a".to_string(), "b".to_string()]), sp(0, 18))
    );
    let n = out.py_block.0.len();
    assert_eq!(
        out.py_block.0[n - 3],
        py_stmt(PyStmt::Nonlocal(vec!["c".to_string()]), sp(19, 33))
    );
    assert_eq!(
        out.py_block.0[n - 2],
        py_stmt(PyStmt::Assign(store("c", sp(28, 29)), py_num("1", sp(32, 33))), sp(28, 29))
    );
    assert_eq!(
        out.py_block.0[n - 1],
        py_stmt(PyStmt::Assign(store("d", sp(34, 35)), py_num("2", sp(38, 39))), sp(34, 35))
    );
    assert_eq!(out.exports, vec!["d".to_string()]);
}

fn import(trunk: Vec<&str>, imports: ImportList, level: usize, reexport: bool) -> SStmt {
    let trunk = trunk.into_iter().map(|n| (n.to_string(), sp(0, 1))).collect();
    (Stmt::Import(ImportStmt { trunk, imports, level, reexport }), sp(0, 9))
}

fn leaf(name: &str, alias: Option<&str>) -> ((String, Span), Option<(String, Span)>) {
    ((name.to_string(), sp(0, 1)), alias.map(|a| (a.to_string(), sp(0, 1))))
}

fn alias(name: &str, as_name: Option<&str>) -> PyImportAlias {
    PyImportAlias { name: name.to_string(), as_name: as_name.map(|a| a.to_string()) }
}

#[test]
fn imports() {
    let out = lower(vec![
        import(vec![], ImportList::Leaves(vec![leaf("os", None)]), 0, false),
        import(vec!["a", "b", "c"], ImportList::Leaves(vec![leaf("d", None), leaf("e", Some("f"))]), 0, false),
        import(vec![], ImportList::Leaves(vec![leaf("sib", None)]), 2, false),
        import(vec!["pkg"], ImportList::Star, 1, false),
    ]);
    assert_eq!(
        out.py_block,
        PyBlock(vec![
            py_stmt(PyStmt::Import(vec![alias("os", None)]), sp(0, 9)),
            py_stmt(
                PyStmt::ImportFrom(
                    Some("a.b.c".to_string()),
                    vec![alias("d", None), alias("e", Some("f"))],
                    0
                ),
                sp(0, 9)
            ),
            py_stmt(PyStmt::ImportFrom(None, vec![alias("sib", None)], 2), sp(0, 9)),
            py_stmt(
                PyStmt::ImportFrom(Some("pkg".to_string()), vec![alias("*", None)], 1),
                sp(0, 9)
            ),
        ])
    );
    assert!(out.exports.is_empty());
    assert!(out.module_star_exports.is_empty());
}

#[test]
fn reexporting_imports_mark_what_they_bind() {
    let out = lower(vec![
        import(vec!["a"], ImportList::Leaves(vec![leaf("x", None), leaf("y", Some("z"))]), 0, true),
        import(vec!["pkg", "sub"], ImportList::Star, 2, true),
        import(vec![], ImportList::Leaves(vec![leaf("w", None)]), 0, true),
    ]);
    assert_eq!(out.exports, vec!["x".to_string(), "z".to_string(), "w".to_string()]);
    assert_eq!(out.module_star_exports, vec!["..pkg.sub".to_string()]);
}

#[test]
fn a_try_statement_catches_exception_by_default() {
    let handlers = vec![
        ExceptHandler {
            types: Some(ExceptTypes::Single(ident("E", 10, 11))),
            name: Some(("e".to_string(), sp(15, 16))),
            body: stmts(vec![(Stmt::Break, sp(18, 23))], 18, 23),
        },
        ExceptHandler {
            types: Some(ExceptTypes::Multiple(vec![ident("A", 24, 25), ident("B", 26, 27)])),
            name: None,
            body: stmts(vec![], 28, 28),
        },
        ExceptHandler { types: None, name: None, body: stmts(vec![], 29, 29) },
    ];
    let whole = sp(0, 40);
    let stmt = (
        Stmt::Try(
            stmts(vec![(Stmt::Continue, sp(5, 8))], 5, 8),
            handlers,
            Some(stmts(vec![expr_stmt(num("1", 38, 39))], 38, 39)),
        ),
        whole,
    );
    assert_eq!(
        lower(vec![stmt]).py_block,
        PyBlock(vec![py_stmt(
            PyStmt::Try(
                PyBlock(vec![py_stmt(PyStmt::Continue, sp(5, 8))]),
                vec![
                    PyExceptHandler {
                        typ: Some(load("E", sp(10, 11))),
                        name: Some("e".to_string()),
                        body: PyBlock(vec![py_stmt(PyStmt::Break, sp(18, 23))]),
                    },
                    PyExceptHandler {
                        typ: Some(SPyExpr::new(
                            PyExpr::Tuple(vec![
                                PyListItem::Item(load("A", sp(24, 25))),
                                PyListItem::Item(load("B", sp(26, 27))),
                            ]),
                            whole
                        )),
                        name: None,
                        body: PyBlock(vec![]),
                    },
                    PyExceptHandler {
                        typ: Some(load("Exception", whole)),
                        name: None,
                        body: PyBlock(vec![]),
                    },
                ],
                Some(PyBlock(vec![py_stmt(PyStmt::Expr(py_num("1", sp(38, 39))), sp(38, 39))])),
            ),
            whole
        )])
    );
}

#[test]
fn a_checked_expression_gives_the_value_or_the_exception() {
    let whole = sp(4, 20);
    let e = (Expr::Checked(Box::new(call(ident("f", 8, 9), vec![], 8, 11)), None), whole);
    let stmt = (Stmt::Assign(ident("r", 0, 1), e, vec![]), sp(0, 20));
    let a = PyAstBuilder::new(whole);
    let var = "__tl_chk_l1c5";
    assert_eq!(
        lower(vec![stmt]).py_block,
        PyBlock(vec![
            a.try_(
                PyBlock(vec![a.assign(
                    store(var, whole),
                    PyAstBuilder::new(sp(8, 11)).call(load("f", sp(8, 9)), vec![])
                )]),
                vec![PyExceptHandler {
                    typ: Some(load("Exception", whole)),
                    name: Some("__e".to_string()),
                    body: PyBlock(vec![a.assign(store(var, whole), load("__e", whole))]),
                }],
                None
            ),
            py_stmt(PyStmt::Assign(store("r", sp(0, 1)), load(var, whole)), sp(0, 1)),
        ])
    );
    let typed = (
        Expr::Checked(
            Box::new(ident("x", 8, 9)),
            Some(Box::new(ExceptTypes::Multiple(vec![ident("A", 12, 13), ident("B", 15, 16)]))),
        ),
        whole,
    );
    let out = lower(vec![expr_stmt(typed)]);
    match &out.py_block.0[0].value {
        PyStmt::Try(_, handlers, None) => {
            assert_eq!(
                handlers[0].typ,
                Some(SPyExpr::new(
                    PyExpr::Tuple(vec![
                        PyListItem::Item(load("A", sp(12, 13))),
                        PyListItem::Item(load("B", sp(15, 16))),
                    ]),
                    whole
                ))
            );
        }
        other => panic!("unexpected statement {:?}", other),
    }
}

#[test]
fn a_function_with_statements_becomes_a_named_definition() {
    // g = h = ... is not sugar: the function is an argument among two
    let body = stmts(
        vec![
            (Stmt::Assign(ident("y", 10, 11), num("1", 14, 15), vec![]), sp(10, 15)),
            expr_stmt(ident("y", 16, 17)),
        ],
        10,
        17,
    );
    let f = (
        Expr::Fn(
            vec![
                ArgDefItem::Arg(ident("x", 5, 6), Some(num("0", 7, 8))),
                ArgDefItem::ArgSpread(("rest".to_string(), sp(0, 1))),
                ArgDefItem::KwargSpread(("kw".to_string(), sp(0, 1))),
            ],
            Box::new(body),
        ),
        sp(4, 17),
    );
    let e = call(ident("apply", 0, 3), vec![arg(f), arg(num("2", 19, 20))], 0, 21);
    let out = lower(vec![expr_stmt(e)]);
    let fs = sp(4, 17);
    let name = "__tl_fnexp_l1c5";
    assert_eq!(
        out.py_block.0[0],
        py_stmt(
            PyStmt::FnDef(
                name.to_string(),
                vec![
                    PyArgDefItem::Arg("x".to_string(), Some(py_num("0", sp(7, 8)))),
                    PyArgDefItem::ArgSpread("rest".to_string()),
                    PyArgDefItem::KwargSpread("kw".to_string()),
                ],
                PyBlock(vec![
                    py_stmt(
                        PyStmt::Assign(store("y", sp(10, 11)), py_num("1", sp(14, 15))),
                        sp(10, 11)
                    ),
                    py_stmt(PyStmt::Return(load("y", sp(16, 17))), fs),
                ]),
                PyDecorators(vec![]),
            ),
            fs
        )
    );
    match &out.py_block.0[1].value {
        PyStmt::Expr(SPyExpr { value: PyExpr::Call(_, args), .. }) => {
            assert_eq!(args[0], PyCallItem::Arg(load(name, fs)));
        }
        other => panic!("unexpected statement {:?}", other),
    }
}

#[test]
fn a_pattern_parameter_is_unpacked_in_the_body() {
    // ([a, b]) => a
    let pattern = (
        Expr::List(vec![ListItem::Item(ident("a", 2, 3)), ListItem::Item(ident("b", 5, 6))]),
        sp(1, 7),
    );
    let body = (Block::Expr(ident("a", 12, 13)), sp(12, 13));
    let f = (Expr::Fn(vec![ArgDefItem::Arg(pattern, None)], Box::new(body)), sp(0, 13));
    let out = lower(vec![(Stmt::Assign(ident("f", 20, 21), f, vec![]), sp(0, 25))]);
    match &out.py_block.0[0].value {
        PyStmt::FnDef(name, args, body, _) => {
            assert_eq!(name, "f");
            assert_eq!(*args, vec![PyArgDefItem::Arg("__tl_des_curs_l1c2".to_string(), None)]);
            assert_eq!(body.0.len(), 5);
            assert!(matches!(body.0[4].value, PyStmt::Return(_)));
        }
        other => panic!("unexpected statement {:?}", other),
    }
}

#[test]
fn a_class_definition() {
    let c = (
        Expr::Class(
            vec![
                arg(ident("Base", 6, 10)),
                (
                    CallItem::Kwarg(("metaclass".to_string(), sp(12, 21)), ident("M", 22, 23)),
                    sp(12, 23),
                ),
            ],
            Box::new(stmts(
                vec![(Stmt::Assign(ident("x", 26, 27), num("1", 30, 31), vec![]), sp(26, 31))],
                26,
                31,
            )),
        ),
        sp(4, 31),
    );
    let whole = sp(0, 31);
    let out = lower(vec![(Stmt::Assign(ident("C", 0, 1), c, vec![]), whole)]);
    assert_eq!(
        out.py_block,
        PyBlock(vec![py_stmt(
            PyStmt::ClassDef(
                "C".to_string(),
                vec![
                    PyCallItem::Arg(load("Base", sp(6, 10))),
                    PyCallItem::Kwarg("metaclass".to_string(), load("M", sp(22, 23))),
                ],
                PyBlock(vec![py_stmt(
                    PyStmt::Assign(store("x", sp(26, 27)), py_num("1", sp(30, 31))),
                    sp(26, 27)
                )]),
                PyDecorators(vec![]),
            ),
            whole
        )])
    );
    // in expression position the class is defined under a temporary
    let c = (Expr::Class(vec![], Box::new(stmts(vec![], 10, 10))), sp(2, 10));
    let e = call(ident("f", 0, 1), vec![arg(c)], 0, 11);
    let out = lower(vec![expr_stmt(e)]);
    match &out.py_block.0[0].value {
        PyStmt::ClassDef(name, bases, body, _) => {
            assert_eq!(name, "__tl_clsexp_l1c3");
            assert!(bases.is_empty());
            assert!(body.0.is_empty());
        }
        other => panic!("unexpected statement {:?}", other),
    }
}

#[test]
fn a_match_statement() {
    let e = (
        Expr::Match(
            Box::new(ident("x", 0, 1)),
            vec![
                (Some(num("1", 9, 10)), stmts(vec![(Stmt::Break, sp(12, 17))], 12, 17)),
                (None, stmts(vec![(Stmt::Continue, sp(24, 32))], 24, 32)),
            ],
        ),
        sp(0, 32),
    );
    let whole = sp(0, 32);
    assert_eq!(
        lower(vec![expr_stmt(e)]).py_block,
        PyBlock(vec![py_stmt(
            PyStmt::Match(
                load("x", sp(0, 1)),
                vec![
                    PyMatchCase {
                        pattern: py_num("1", sp(9, 10)),
                        body: PyBlock(vec![py_stmt(PyStmt::Break, sp(12, 17))]),
                    },
                    PyMatchCase {
                        pattern: load("_", whole),
                        body: PyBlock(vec![py_stmt(PyStmt::Continue, sp(24, 32))]),
                    },
                ]
            ),
            whole
        )])
    );
}

#[test]
fn a_match_expression_assigns_in_every_case() {
    let whole = sp(4, 30);
    let e = (
        Expr::Match(
            Box::new(ident("x", 4, 5)),
            vec![
                (Some(num("1", 13, 14)), stmts(vec![expr_stmt(num("2", 16, 17))], 16, 17)),
                (None, stmts(vec![(Stmt::Raise(ident("e", 28, 29)), sp(22, 29))], 22, 29)),
            ],
        ),
        whole,
    );
    let out = lower(vec![(Stmt::Assign(ident("r", 0, 1), e, vec![]), sp(0, 30))]);
    let tmp = "__tl_matchexp_l1c5";
    assert_eq!(
        out.py_block,
        PyBlock(vec![
            py_stmt(
                PyStmt::Match(
                    load("x", sp(4, 5)),
                    vec![
                        PyMatchCase {
                            pattern: py_num("1", sp(13, 14)),
                            body: PyBlock(vec![py_stmt(
                                PyStmt::Assign(store(tmp, whole), py_num("2", sp(16, 17))),
                                sp(16, 17)
                            )]),
                        },
                        PyMatchCase {
                            pattern: load("_", whole),
                            body: PyBlock(vec![py_stmt(
                                PyStmt::Raise(load("e", sp(28, 29))),
                                sp(22, 29)
                            )]),
                        },
                    ]
                ),
                whole
            ),
            py_stmt(PyStmt::Assign(store("r", sp(0, 1)), load(tmp, whole)), sp(0, 1)),
        ])
    );
}

#[test]
fn literals_and_operators() {
    let lit = |l: Literal, s: usize| (Expr::Literal((l, sp(s, s + 1))), sp(s, s + 1));
    let un = |op: UnaryOp, s: usize| (Expr::Unary(op, Box::new(ident("x", s + 1, s + 2))), sp(s, s + 2));
    let bin = |op: BinaryOp, s: usize| {
        (
            Expr::Binary(op, Box::new(ident("a", s, s + 1)), Box::new(ident("b", s + 2, s + 3))),
            sp(s, s + 3),
        )
    };
    let out = lower(vec![
        expr_stmt(lit(Literal::Str("s".to_string()), 0)),
        expr_stmt(lit(Literal::Bool(true), 1)),
        expr_stmt(lit(Literal::Null, 2)),
        expr_stmt(un(UnaryOp::Neg, 3)),
        expr_stmt(un(UnaryOp::Pos, 3)),
        expr_stmt(un(UnaryOp::Inv, 3)),
        expr_stmt(un(UnaryOp::Yield, 3)),
        expr_stmt(un(UnaryOp::YieldFrom, 3)),
    ]);
    let value = |i: usize| match &out.py_block.0[i].value {
        PyStmt::Expr(e) => &e.value,
        other => panic!("unexpected statement {:?}", other),
    };
    let x = || Box::new(load("x", sp(4, 5)));
    assert_eq!(*value(0), PyExpr::Literal(PyLiteral::Str("s".to_string())));
    assert_eq!(*value(1), PyExpr::Literal(PyLiteral::Bool(true)));
    assert_eq!(*value(2), PyExpr::Literal(PyLiteral::Null));
    assert_eq!(*value(3), PyExpr::Unary(PyUnaryOp::Neg, x()));
    assert_eq!(*value(4), PyExpr::Unary(PyUnaryOp::Pos, x()));
    assert_eq!(*value(5), PyExpr::Unary(PyUnaryOp::Inv, x()));
    assert_eq!(*value(6), PyExpr::Yield(x()));
    assert_eq!(*value(7), PyExpr::YieldFrom(x()));

    let ops = vec![
        (BinaryOp::Add, PyBinaryOp::Add),
        (BinaryOp::Sub, PyBinaryOp::Sub),
        (BinaryOp::Mul, PyBinaryOp::Mult),
        (BinaryOp::Div, PyBinaryOp::Div),
        (BinaryOp::Mod, PyBinaryOp::Mod),
        (BinaryOp::Exp, PyBinaryOp::Pow),
        (BinaryOp::MatMul, PyBinaryOp::MatMult),
        (BinaryOp::Lt, PyBinaryOp::Lt),
        (BinaryOp::Gt, PyBinaryOp::Gt),
        (BinaryOp::Leq, PyBinaryOp::Leq),
        (BinaryOp::Geq, PyBinaryOp::Geq),
        (BinaryOp::Eq, PyBinaryOp::Eq),
        (BinaryOp::Neq, PyBinaryOp::Neq),
        (BinaryOp::Is, PyBinaryOp::Is),
        (BinaryOp::Nis, PyBinaryOp::Nis),
    ];
    for (op, py_op) in ops {
        let out = lower(vec![expr_stmt(bin(op, 0))]);
        assert_eq!(
            out.py_block,
            PyBlock(vec![py_stmt(
                PyStmt::Expr(PyAstBuilder::new(sp(0, 3)).binary(
                    py_op,
                    load("a", sp(0, 1)),
                    load("b", sp(2, 3))
                )),
                sp(0, 3)
            )])
        );
    }
}

#[test]
fn tuples_mappings_slices_and_formatted_strings() {
    let tuple = (
        Expr::Tuple(vec![ListItem::Item(num("1", 1, 2)), ListItem::Spread(ident("r", 5, 6))]),
        sp(0, 7),
    );
    let mapping = (
        Expr::Mapping(vec![
            MappingItem::Item(ident("k", 9, 10), num("1", 12, 13)),
            MappingItem::Spread(ident("m", 17, 18)),
        ]),
        sp(8, 19),
    );
    let slice = (
        Expr::Slice(Some(Box::new(num("1", 20, 21))), None, Some(Box::new(num("2", 25, 26)))),
        sp(20, 26),
    );
    let fstr = (
        Expr::Fstr(
            ("a".to_string(), sp(27, 30)),
            vec![(
                (
                    FmtExpr { block: (Block::Expr(ident("x", 30, 31)), sp(30, 31)), fmt: None },
                    sp(30, 31),
                ),
                ("b".to_string(), sp(31, 34)),
            )],
        ),
        sp(27, 34),
    );
    let out = lower(vec![
        expr_stmt(tuple),
        expr_stmt(mapping),
        expr_stmt(slice),
        expr_stmt(fstr),
    ]);
    let value = |i: usize| match &out.py_block.0[i].value {
        PyStmt::Expr(e) => &e.value,
        other => panic!("unexpected statement {:?}", other),
    };
    assert_eq!(
        *value(0),
        PyExpr::Tuple(vec![
            PyListItem::Item(py_num("1", sp(1, 2))),
            PyListItem::Spread(load("r", sp(5, 6))),
        ])
    );
    assert_eq!(
        *value(1),
        PyExpr::Dict(vec![
            PyDictItem::Item(load("k", sp(9, 10)), py_num("1", sp(12, 13))),
            PyDictItem::Spread(load("m", sp(17, 18))),
        ])
    );
    let s = sp(20, 26);
    assert_eq!(
        *value(2),
        PyExpr::Call(
            Box::new(load("slice", s)),
            vec![
                PyCallItem::Arg(py_num("1", sp(20, 21))),
                PyCallItem::Arg(PyAstBuilder::new(s).none()),
                PyCallItem::Arg(py_num("2", sp(25, 26))),
            ]
        )
    );
    assert_eq!(
        *value(3),
        PyExpr::Fstr(vec![
            PyFstrPart::Str("a".to_string()),
            PyFstrPart::Expr(load("x", sp(30, 31)), String::new()),
            PyFstrPart::Str("b".to_string()),
        ])
    );
}

#[test]
fn a_placeholder_element_curries_the_whole_literal() {
    // [$, 1]
    let list = (
        Expr::List(vec![
            ListItem::Item((Expr::Placeholder, sp(1, 2))),
            ListItem::Item(num("1", 4, 5)),
        ]),
        sp(0, 6),
    );
    let out = lower(vec![expr_stmt(list)]);
    let whole = sp(0, 6);
    let ph = "__tl_ph_l1c1";
    assert_eq!(
        out.py_block,
        PyBlock(vec![py_stmt(
            PyStmt::Expr(SPyExpr::new(
                PyExpr::Lambda(
                    vec![PyArgDefItem::Arg(ph.to_string(), None)],
                    Box::new(SPyExpr::new(
                        PyExpr::List(vec![
                            PyListItem::Item(load(ph, sp(1, 2))),
                            PyListItem::Item(py_num("1", sp(4, 5))),
                        ]),
                        whole
                    ))
                ),
                whole
            )),
            whole
        )])
    );
}

#[test]
fn a_curried_expression_with_statements_becomes_a_named_function() {
    // g($, f() ?? 0): the call is curried, and its second argument needs a statement
    let e = call(
        ident("g", 0, 1),
        vec![arg((Expr::Placeholder, sp(2, 3))), arg(lifted_call(5))],
        0,
        14,
    );
    let whole = sp(0, 14);
    let out = lower(vec![expr_stmt(e)]);
    let a = PyAstBuilder::new(whole);
    let ph = "__tl_ph_l1c1";
    let name = "__tl_fnexp_l1c1";
    assert_eq!(
        out.py_block,
        PyBlock(vec![
            py_stmt(
                PyStmt::FnDef(
                    name.to_string(),
                    vec![PyArgDefItem::Arg(ph.to_string(), None)],
                    PyBlock(vec![
                        lifted_call_pre(5),
                        a.return_(a.call(
                            load("g", sp(0, 1)),
                            vec![
                                PyCallItem::Arg(load(ph, sp(2, 3))),
                                PyCallItem::Arg(lifted_call_value(5)),
                            ]
                        )),
                    ]),
                    PyDecorators(vec![]),
                ),
                whole
            ),
            py_stmt(PyStmt::Expr(load(name, whole)), whole),
        ])
    );
}

#[test]
fn then_calls_its_right_side_on_its_receiver() {
    let e = (
        Expr::Then(Box::new(ident("x", 0, 1)), Box::new(ident("f", 3, 4))),
        sp(0, 5),
    );
    let mapped = (
        Expr::MappedThen(Box::new(ident("x", 6, 7)), Box::new(ident("f", 10, 11))),
        sp(6, 12),
    );
    let subscript = (
        Expr::MappedSubscript(
            Box::new(ident("x", 13, 14)),
            vec![ListItem::Item(num("0", 16, 17)), ListItem::Item(num("1", 19, 20))],
        ),
        sp(13, 21),
    );
    let out = lower(vec![expr_stmt(e), expr_stmt(mapped), expr_stmt(subscript)]);
    let value = |i: usize| match &out.py_block.0[i].value {
        PyStmt::Expr(e) => e,
        other => panic!("unexpected statement {:?}", other),
    };
    let a = PyAstBuilder::new(sp(0, 5));
    assert_eq!(*value(0), a.call1(load("f", sp(3, 4)), load("x", sp(0, 1))));
    let m = PyAstBuilder::new(sp(6, 12));
    assert_eq!(
        *value(1),
        m.if_expr(
            m.call1(load("__coalesces", sp(6, 12)), load("x", sp(6, 7))),
            load("x", sp(6, 7)),
            m.call1(load("f", sp(10, 11)), load("x", sp(6, 7)))
        )
    );
    let s = PyAstBuilder::new(sp(13, 21));
    assert_eq!(
        *value(2),
        s.if_expr(
            s.call1(load("__coalesces", sp(13, 21)), load("x", sp(13, 14))),
            load("x", sp(13, 14)),
            s.subscript(
                load("x", sp(13, 14)),
                SPyExpr::new(
                    PyExpr::Tuple(vec![
                        PyListItem::Item(py_num("0", sp(16, 17))),
                        PyListItem::Item(py_num("1", sp(19, 20))),
                    ]),
                    sp(13, 21)
                ),
                PyAccessCtx::Load
            )
        )
    );
}

#[test]
fn a_mapped_form_is_refused_in_store_context() {
    let mut ctx = TfCtx::new(SOURCE);
    let mapped = (
        Expr::MappedAttribute(Box::new(ident("a", 0, 1)), ("b".to_string(), sp(3, 4))),
        sp(0, 4),
    );
    let errs = transform_postfix_expr(&mut ctx, &mapped, PyAccessCtx::Store).unwrap_err();
    assert_eq!(errs.0.len(), 1);
    assert_eq!(errs.0[0].kind, TfErrKind::InvalidPostfix);
    assert_eq!(errs.0[0].span, Some(sp(0, 4)));
    let stored_call = call(ident("f", 0, 1), vec![arg(ident("x", 2, 3))], 0, 4);
    let errs = transform_postfix_expr(&mut ctx, &stored_call, PyAccessCtx::Store).unwrap_err();
    assert_eq!(errs.0.len(), 1);
    assert_eq!(errs.0[0].kind, TfErrKind::InvalidPostfix);
    assert_eq!(
        errs.0[0].message,
        "Internal error: Only attributes and subscripts can be stored to"
    );
    assert_eq!(errs.0[0].span, Some(sp(0, 4)));
    assert!(transform_postfix_expr(&mut ctx, &stored_call, PyAccessCtx::Load).is_ok());
    let errs = transform_postfix_expr(&mut ctx, &num("1", 5, 6), PyAccessCtx::Load).unwrap_err();
    assert_eq!(errs.0[0].kind, TfErrKind::InvalidPostfix);
    assert_eq!(errs.0[0].span, Some(sp(5, 6)));
    let errs = transform_with_access(&mut ctx, &num("1", 5, 6), PyAccessCtx::Store).unwrap_err();
    assert_eq!(errs.0[0].kind, TfErrKind::InvalidAssignTarget);
    assert_eq!(errs.0[0].message, "Expression context must be Load for this expression");
}

#[test]
fn an_except_type_may_need_no_statements() {
    let mut ctx = TfCtx::new(SOURCE);
    let types = ExceptTypes::Single(lifted_call(0));
    let errs = transform_except_types(&mut ctx, &types, &sp(0, 8)).unwrap_err();
    assert_eq!(errs.0.len(), 1);
    assert_eq!(errs.0[0].kind, TfErrKind::InternalError);
    assert_eq!(
        errs.0[0].message,
        "Internal error: Type in except clause cannot have pre-statements"
    );
    assert_eq!(errs.0[0].span, Some(sp(0, 8)));
}
