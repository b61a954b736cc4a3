use koatl_core::ast::{
    ArgDefItem, BinaryOp, Block, CallItem, Expr, ImportList, ImportStmt, ListItem, Literal, SBlock,
    SCallItem, SExpr, SStmt, Span, Stmt,
};
use koatl_core::py::ast::{
    PyAccessCtx, PyArgDefItem, PyBinaryOp, PyBlock, PyCallItem, PyDecorators, PyExpr,
    PyImportAlias, PyListItem, PyLiteral, PyStmt, SPyExpr, SPyStmt,
};
use koatl_core::py::util::PyAstBuilder;
use koatl_core::transform::transform_ast;

fn sp(start: usize, end: usize) -> Span {
    Span::new(start, end)
}

fn ident(name: &str, start: usize, end: usize) -> SExpr {
    (Expr::Ident((name.to_string(), sp(start, end))), sp(start, end))
}

fn num(text: &str, start: usize, end: usize) -> SExpr {
    (Expr::Literal((Literal::Num(text.to_string()), sp(start, end))), sp(start, end))
}

fn placeholder(start: usize) -> SExpr {
    (Expr::Placeholder, sp(start, start + 1))
}

fn arg(e: SExpr) -> SCallItem {
    let span = e.1;
    (CallItem::Arg(e), span)
}

fn call(f: SExpr, args: Vec<SCallItem>, start: usize, end: usize) -> SExpr {
    (Expr::Call(Box::new(f), args), sp(start, end))
}

fn binary(op: BinaryOp, l: SExpr, r: SExpr) -> SExpr {
    let span = sp(l.1.start, r.1.end);
    (Expr::Binary(op, Box::new(l), Box::new(r)), span)
}

fn expr_stmt(e: SExpr) -> SStmt {
    let span = e.1;
    (Stmt::Expr(e, vec![]), span)
}

fn block(stmts: Vec<SStmt>, end: usize) -> SBlock {
    (Block::Stmts(stmts), sp(0, end))
}

fn load(name: &str, span: Span) -> SPyExpr {
    PyAstBuilder::new(span).load_ident(name)
}

fn store(name: &str, span: Span) -> SPyExpr {
    PyAstBuilder::new(span).store_ident(name)
}

fn py_num(text: &str, span: Span) -> SPyExpr {
    PyAstBuilder::new(span).num(text.to_string())
}

fn identity_fn(start: usize) -> SExpr {
    // `x => x` at `start`
    let x = ident("x", start, start + 1);
    let body = ident("x", start + 5, start + 6);
    let body_span = body.1;
    (
        Expr::Fn(vec![ArgDefItem::Arg(x, None)], Box::new((Block::Expr(body), body_span))),
        sp(start, start + 6),
    )
}

#[test]
fn placeholder_currying() {
    let source = "map([1,2,3], $ + 1)";
    let list = (
        Expr::List(vec![
            ListItem::Item(num("1", 5, 6)),
            ListItem::Item(num("2", 7, 8)),
            ListItem::Item(num("3", 9, 10)),
        ]),
        sp(4, 11),
    );
    let curried = binary(BinaryOp::Add, placeholder(13), num("1", 17, 18));
    let e = call(ident("map", 0, 3), vec![arg(list), arg(curried)], 0, 19);
    let out = transform_ast(source, &block(vec![expr_stmt(e)], 19), false).unwrap();

    assert_eq!(out.py_block.0.len(), 1);
    let args = match &out.py_block.0[0].value {
        PyStmt::Expr(SPyExpr { value: PyExpr::Call(f, args), .. }) => {
            assert_eq!(**f, load("map", sp(0, 3)));
            args
        }
        other => panic!("unexpected statement {:?}", other),
    };
    assert_eq!(args.len(), 2);
    let a = PyAstBuilder::new(sp(13, 18));
    let expected = SPyExpr::new(
        PyExpr::Lambda(
            vec![PyArgDefItem::Arg("__tl_ph_l1c14".to_string(), None)],
            Box::new(a.binary(
                PyBinaryOp::Add,
                load("__tl_ph_l1c14", sp(13, 14)),
                py_num("1", sp(17, 18)),
            )),
        ),
        sp(13, 18),
    );
    assert_eq!(args[1], PyCallItem::Arg(expected));
}

#[test]
fn placeholder_currying_in_assignment() {
    let source = "x = map([1,2,3], $ + 1)";
    let list = (
        Expr::List(vec![
            ListItem::Item(num("1", 9, 10)),
            ListItem::Item(num("2", 11, 12)),
            ListItem::Item(num("3", 13, 14)),
        ]),
        sp(8, 15),
    );
    let curried = binary(BinaryOp::Add, placeholder(17), num("1", 21, 22));
    let e = call(ident("map", 4, 7), vec![arg(list), arg(curried)], 4, 23);
    let stmt = (Stmt::Assign(ident("x", 0, 1), e, vec![]), sp(0, 23));
    let out = transform_ast(source, &block(vec![stmt], 23), false).unwrap();

    assert_eq!(out.py_block.0.len(), 1);
    let args = match &out.py_block.0[0].value {
        PyStmt::Assign(target, SPyExpr { value: PyExpr::Call(_, args), .. }) => {
            assert_eq!(*target, store("x", sp(0, 1)));
            args
        }
        other => panic!("unexpected statement {:?}", other),
    };
    match &args[1] {
        PyCallItem::Arg(SPyExpr { value: PyExpr::Lambda(params, _), .. }) => {
            assert_eq!(*params, vec![PyArgDefItem::Arg("__tl_ph_l1c18".to_string(), None)]);
        }
        other => panic!("unexpected argument {:?}", other),
    }
}

#[test]
fn mapped_call_with_non_ident_receiver() {
    let source = "compute()?(x)";
    let receiver = call(ident("compute", 0, 7), vec![], 0, 9);
    let e = (
        Expr::MappedCall(Box::new(receiver), vec![arg(ident("x", 11, 12))]),
        sp(0, 13),
    );
    let out = transform_ast(source, &block(vec![expr_stmt(e)], 13), false).unwrap();

    let whole = sp(0, 13);
    let recv = sp(0, 9);
    let a = PyAstBuilder::new(whole);
    let r = PyAstBuilder::new(recv);
    let tmp = "__tl_tmp_l1c1";
    let lift = r.assign(store(tmp, recv), r.call(load("compute", sp(0, 7)), vec![]));
    let value = a.if_expr(
        a.call1(load("__coalesces", whole), load(tmp, recv)),
        load(tmp, recv),
        a.call(load(tmp, recv), vec![PyCallItem::Arg(load("x", sp(11, 12)))]),
    );
    assert_eq!(
        out.py_block,
        PyBlock(vec![lift, SPyStmt::new(PyStmt::Expr(value), whole)])
    );
}

#[test]
fn destructuring_with_spread() {
    let source = "[a, *b, c] = xs";
    let target = (
        Expr::List(vec![
            ListItem::Item(ident("a", 1, 2)),
            ListItem::Spread(ident("b", 5, 6)),
            ListItem::Item(ident("c", 8, 9)),
        ]),
        sp(0, 10),
    );
    let stmt = (Stmt::Assign(target, ident("xs", 13, 15), vec![]), sp(0, 15));
    let out = transform_ast(source, &block(vec![stmt], 15), false).unwrap();

    let t = sp(0, 10);
    let a = PyAstBuilder::new(t);
    let curs = "__tl_des_curs_l1c1";
    let list = "__tl_des_list_l1c1";
    let len = "__tl_des_len_l1c1";
    let expected = PyBlock(vec![
        a.assign(store(curs, t), load("xs", sp(13, 15))),
        a.assign(store(list, t), a.call1(load("list", t), load(curs, t))),
        a.assign(store(len, t), a.call1(load("len", t), load(list, t))),
        a.assign(
            store("a", sp(1, 2)),
            a.subscript(load(list, t), py_num("0", t), PyAccessCtx::Load),
        ),
        a.assign(
            store("b", sp(5, 6)),
            a.subscript(
                load(list, t),
                a.slice(
                    Some(py_num("1", t)),
                    Some(a.binary(PyBinaryOp::Sub, load(len, t), py_num("1", t))),
                    None,
                ),
                PyAccessCtx::Load,
            ),
        ),
        a.assign(
            store("c", sp(8, 9)),
            a.subscript(load(list, t), py_num("-1", t), PyAccessCtx::Load),
        ),
    ]);
    assert_eq!(out.py_block, expected);
}

fn decorators_of(out_block: &PyBlock) -> (String, Vec<SPyExpr>) {
    assert_eq!(out_block.0.len(), 1);
    match &out_block.0[0].value {
        PyStmt::FnDef(name, _, _, PyDecorators(ds)) => {
            (name.clone(), ds.iter().map(|d| SPyExpr::new(clone_ident(d), d.tl_span)).collect())
        }
        other => panic!("unexpected statement {:?}", other),
    }
}

fn clone_ident(e: &SPyExpr) -> PyExpr {
    match &e.value {
        PyExpr::Ident(name, ctx) => PyExpr::Ident(name.clone(), *ctx),
        other => panic!("not a name: {:?}", other),
    }
}

#[test]
fn decorator_sugar_chain() {
    // f = (x => x) | memoize | cache
    let source = "f = (x => x) | memoize | cache";
    let inner = binary(BinaryOp::Pipe, identity_fn(5), ident("memoize", 15, 22));
    let rhs = binary(BinaryOp::Pipe, inner, ident("cache", 25, 30));
    let stmt = (Stmt::Assign(ident("f", 0, 1), rhs, vec![]), sp(0, 30));
    let out = transform_ast(source, &block(vec![stmt], 30), false).unwrap();
    let (name, ds) = decorators_of(&out.py_block);
    assert_eq!(name, "f");
    assert_eq!(ds, vec![load("cache", sp(25, 30)), load("memoize", sp(15, 22))]);
}

#[test]
fn decorator_sugar_nested_calls() {
    // f = cache(memoize(x => x))
    let source = "f = cache(memoize(x => x))";
    let inner = call(ident("memoize", 10, 17), vec![arg(identity_fn(18))], 10, 25);
    let rhs = call(ident("cache", 4, 9), vec![arg(inner)], 4, 26);
    let stmt = (Stmt::Assign(ident("f", 0, 1), rhs, vec![]), sp(0, 26));
    let out = transform_ast(source, &block(vec![stmt], 26), false).unwrap();
    let (name, ds) = decorators_of(&out.py_block);
    assert_eq!(name, "f");
    assert_eq!(ds, vec![load("cache", sp(4, 9)), load("memoize", sp(10, 17))]);
}

#[test]
fn decorator_sugar_single_call() {
    // f = g(x => x): the definition of `f` carries `g` as its decorator.
    let source = "f = g(x => x)";
    let rhs = call(ident("g", 4, 5), vec![arg(identity_fn(6))], 4, 13);
    let stmt = (Stmt::Assign(ident("f", 0, 1), rhs, vec![]), sp(0, 13));
    let out = transform_ast(source, &block(vec![stmt], 13), false).unwrap();
    let whole = sp(0, 13);
    let expected = PyBlock(vec![SPyStmt::new(
        PyStmt::FnDef(
            "f".to_string(),
            vec![PyArgDefItem::Arg("x".to_string(), None)],
            PyBlock(vec![SPyStmt::new(PyStmt::Return(load("x", sp(11, 12))), whole)]),
            PyDecorators(vec![load("g", sp(4, 5))]),
        ),
        whole,
    )]);
    assert_eq!(out.py_block, expected);

    // The same definition without the decorator.
    let plain = (Stmt::Assign(ident("f", 0, 1), identity_fn(6), vec![]), sp(0, 13));
    let out = transform_ast(source, &block(vec![plain], 13), false).unwrap();
    let expected = PyBlock(vec![SPyStmt::new(
        PyStmt::FnDef(
            "f".to_string(),
            vec![PyArgDefItem::Arg("x".to_string(), None)],
            PyBlock(vec![SPyStmt::new(PyStmt::Return(load("x", sp(11, 12))), whole)]),
            PyDecorators(vec![]),
        ),
        whole,
    )]);
    assert_eq!(out.py_block, expected);
}

#[test]
fn if_as_expression_in_return() {
    let source = "return if c: 1 else: 2";
    let one = num("1", 13, 14);
    let two = num("2", 21, 22);
    let cond = ident("c", 10, 11);
    let if_span = sp(7, 22);
    let if_expr = (
        Expr::If(
            Box::new(cond),
            Box::new((Block::Stmts(vec![expr_stmt(one)]), sp(13, 14))),
            Some(Box::new((Block::Stmts(vec![expr_stmt(two)]), sp(21, 22)))),
        ),
        if_span,
    );
    let stmt = (Stmt::Return(if_expr), sp(0, 22));
    let out = transform_ast(source, &block(vec![stmt], 22), false).unwrap();

    let tmp = "__tl_ifexp_l1c8";
    let a = PyAstBuilder::new(if_span);
    let expected = PyBlock(vec![
        SPyStmt::new(
            PyStmt::If(
                load("c", sp(10, 11)),
                PyBlock(vec![a.assign(store(tmp, if_span), py_num("1", sp(13, 14)))]),
                Some(PyBlock(vec![a.assign(store(tmp, if_span), py_num("2", sp(21, 22)))])),
            ),
            if_span,
        ),
        SPyStmt::new(PyStmt::Return(load(tmp, if_span)), sp(0, 22)),
    ]);
    assert_eq!(out.py_block, expected);
}

#[test]
fn export_reexport_on_selective_import() {
    let source = "export import foo.bar(baz as qux)";
    let imp = ImportStmt {
        trunk: vec![("foo".to_string(), sp(14, 17)), ("bar".to_string(), sp(18, 21))],
        imports: ImportList::Leaves(vec![(
            ("baz".to_string(), sp(22, 25)),
            Some(("qux".to_string(), sp(29, 32))),
        )]),
        level: 0,
        reexport: true,
    };
    let whole = sp(0, 33);
    let out = transform_ast(source, &block(vec![(Stmt::Import(imp), whole)], 33), false).unwrap();
    let expected = PyBlock(vec![SPyStmt::new(
        PyStmt::ImportFrom(
            Some("foo.bar".to_string()),
            vec![PyImportAlias { name: "baz".to_string(), as_name: Some("qux".to_string()) }],
            0,
        ),
        whole,
    )]);
    assert_eq!(out.py_block, expected);
    assert_eq!(out.exports, vec!["qux".to_string()]);
    assert!(out.module_star_exports.is_empty());
}

#[test]
fn literal_list_items_keep_their_order() {
    let source = "[1, 2]";
    let list = (
        Expr::List(vec![ListItem::Item(num("1", 1, 2)), ListItem::Spread(num("2", 4, 5))]),
        sp(0, 6),
    );
    let out = transform_ast(source, &block(vec![expr_stmt(list)], 6), false).unwrap();
    let expected = SPyExpr::new(
        PyExpr::List(vec![
            PyListItem::Item(py_num("1", sp(1, 2))),
            PyListItem::Spread(SPyExpr::new(
                PyExpr::Literal(PyLiteral::Num("2".to_string())),
                sp(4, 5),
            )),
        ]),
        sp(0, 6),
    );
    assert_eq!(
        out.py_block,
        PyBlock(vec![SPyStmt::new(PyStmt::Expr(expected), sp(0, 6))])
    );
}
