use rhs_first_assign::ident::{push_decimal, temp_ident};
use rhs_first_assign::rewrite::{replace_compound, rewrite_stmt, rewrite_stmts, visit_expr};
use rhs_first_assign::rhs_first_assign;
use rhs_first_assign::syntax::{Block, CompoundOp, Expr, ItemFn, OpToken, Stmt};

fn leaf(origin: usize) -> Expr {
    Expr::Node { origin, exprs: vec![], stmts: vec![] }
}

fn op(kind: CompoundOp, line: usize, column: usize) -> OpToken {
    OpToken { kind, line, column }
}

fn compound(left: usize, o: OpToken, right: usize) -> Expr {
    Expr::CompoundAssign {
        attrs: vec![],
        left: Box::new(leaf(left)),
        op: o,
        right: Box::new(leaf(right)),
    }
}

fn semi(expr: Expr) -> Stmt {
    Stmt::Expr { expr, semi: true }
}

fn func(stmts: Vec<Stmt>) -> ItemFn {
    ItemFn { header: 100, name: "main".to_string(), body: Block { brace: 200, stmts } }
}

/// `{ let t = <right>; <left> op= t; }` with `t` named after the position of `op`.
fn expected_block(attrs: Vec<String>, left: usize, o: OpToken, right: usize) -> Expr {
    let name = format!("__rhs_first_assign_rhs_l{}_c{}", o.line, o.column);
    Expr::Block {
        attrs,
        stmts: vec![
            Stmt::Let { name: name.clone(), init: leaf(right) },
            semi(Expr::CompoundAssign {
                attrs: vec![],
                left: Box::new(leaf(left)),
                op: o,
                right: Box::new(Expr::Var { name }),
            }),
        ],
    }
}

// let mut xs = vec![W(1), W(2)];
fn let_xs() -> Stmt {
    Stmt::Node { origin: 1, exprs: vec![leaf(2)], stmts: vec![] }
}

// xs[1] = xs[0] + xs[1];
fn plain_assign() -> Stmt {
    semi(Expr::Node {
        origin: 3,
        exprs: vec![
            leaf(4),
            Expr::Node { origin: 5, exprs: vec![leaf(6), leaf(7)], stmts: vec![] },
        ],
        stmts: vec![],
    })
}

#[test]
fn compound_assignment_is_split_into_block() {
    let add = op(CompoundOp::Add, 11, 10);
    let f = func(vec![let_xs(), plain_assign(), semi(compound(8, add, 9))]);
    let r = rhs_first_assign(f);
    assert_eq!(r.body.stmts.len(), 3);
    assert_eq!(r.body.stmts[0], let_xs());
    assert_eq!(r.body.stmts[1], plain_assign());
    assert_eq!(r.body.stmts[2], semi(expected_block(vec![], 8, add, 9)));
    match &r.body.stmts[2] {
        Stmt::Expr { expr: Expr::Block { stmts, .. }, .. } => match &stmts[0] {
            Stmt::Let { name, .. } => assert_eq!(name, "__rhs_first_assign_rhs_l11_c10"),
            other => panic!("unexpected statement {:?}", other),
        },
        other => panic!("unexpected statement {:?}", other),
    }
}

#[test]
fn plain_assignment_is_left_unchanged() {
    // y = y + 1;
    let y = || {
        semi(Expr::Node {
            origin: 10,
            exprs: vec![
                leaf(11),
                Expr::Node { origin: 12, exprs: vec![leaf(13), leaf(14)], stmts: vec![] },
            ],
            stmts: vec![],
        })
    };
    assert_eq!(rewrite_stmt(y()), y());
    assert_eq!(rhs_first_assign(func(vec![y()])), func(vec![y()]));
}

#[test]
fn compound_assignment_in_loop_body_is_rewritten() {
    let sub = op(CompoundOp::Sub, 3, 8);
    // loop { x -= y; }
    let looped = |s: Stmt| Stmt::Expr {
        expr: Expr::Node { origin: 20, exprs: vec![], stmts: vec![s] },
        semi: false,
    };
    let r = rhs_first_assign(func(vec![looped(semi(compound(21, sub, 22)))]));
    let top = rhs_first_assign(func(vec![semi(compound(21, sub, 22))]));
    assert_eq!(r, func(vec![looped(semi(expected_block(vec![], 21, sub, 22)))]));
    assert_eq!(top.body.stmts[0], semi(expected_block(vec![], 21, sub, 22)));
}

#[test]
fn compound_assignment_in_closure_argument_is_rewritten() {
    let mul = op(CompoundOp::Mul, 5, 12);
    // f(|| { x *= 2; });
    let call = |s: Stmt| {
        semi(Expr::Node {
            origin: 30,
            exprs: vec![
                leaf(31),
                Expr::Node {
                    origin: 32,
                    exprs: vec![Expr::Node { origin: 33, exprs: vec![], stmts: vec![s] }],
                    stmts: vec![],
                },
            ],
            stmts: vec![],
        })
    };
    let r = rhs_first_assign(func(vec![call(semi(compound(34, mul, 35)))]));
    assert_eq!(r, func(vec![call(semi(expected_block(vec![], 34, mul, 35)))]));
}

#[test]
fn function_without_compound_assignment_is_unchanged() {
    let f = || {
        func(vec![
            let_xs(),
            plain_assign(),
            Stmt::Expr { expr: Expr::Node { origin: 40, exprs: vec![leaf(41)], stmts: vec![plain_assign()] }, semi: false },
        ])
    };
    assert_eq!(rhs_first_assign(f()), f());
    assert_eq!(rhs_first_assign(func(vec![])), func(vec![]));
}

#[test]
fn header_name_and_braces_are_kept() {
    let f = ItemFn {
        header: 7,
        name: "update".to_string(),
        body: Block { brace: 9, stmts: vec![semi(compound(1, op(CompoundOp::BitOr, 2, 4), 3))] },
    };
    let r = rhs_first_assign(f);
    assert_eq!(r.header, 7);
    assert_eq!(r.name, "update");
    assert_eq!(r.body.brace, 9);
    assert_eq!(r.body.stmts.len(), 1);
}

#[test]
fn attributes_move_to_the_replacement_block() {
    let shl = op(CompoundOp::Shl, 8, 4);
    let attrs = vec!["#[allow(unused)]".to_string(), "#[rustfmt::skip]".to_string()];
    let s = semi(Expr::CompoundAssign {
        attrs: attrs.clone(),
        left: Box::new(leaf(50)),
        op: shl,
        right: Box::new(leaf(51)),
    });
    let r = rewrite_stmt(s);
    assert_eq!(r, semi(expected_block(attrs, 50, shl, 51)));
}

#[test]
fn terminator_of_the_statement_is_kept() {
    let rem = op(CompoundOp::Rem, 4, 1);
    let s = Stmt::Expr { expr: compound(60, rem, 61), semi: false };
    let r = rewrite_stmt(s);
    assert_eq!(r, Stmt::Expr { expr: expected_block(vec![], 60, rem, 61), semi: false });
}

#[test]
fn distinct_positions_give_distinct_temporaries() {
    let a = op(CompoundOp::Add, 2, 10);
    let b = op(CompoundOp::Add, 21, 0);
    let c = op(CompoundOp::Add, 2, 100);
    let r = rhs_first_assign(func(vec![
        semi(compound(1, a, 2)),
        semi(compound(3, b, 4)),
        semi(compound(5, c, 6)),
    ]));
    let names: Vec<String> = r
        .body
        .stmts
        .iter()
        .map(|s| match s {
            Stmt::Expr { expr: Expr::Block { stmts, .. }, .. } => match &stmts[0] {
                Stmt::Let { name, .. } => name.clone(),
                other => panic!("unexpected statement {:?}", other),
            },
            other => panic!("unexpected statement {:?}", other),
        })
        .collect();
    assert_eq!(names[0], "__rhs_first_assign_rhs_l2_c10");
    assert_eq!(names[1], "__rhs_first_assign_rhs_l21_c0");
    assert_eq!(names[2], "__rhs_first_assign_rhs_l2_c100");
    assert_ne!(names[0], names[1]);
    assert_ne!(names[0], names[2]);
    assert_ne!(names[1], names[2]);
}

#[test]
fn compound_assignment_in_branch_and_nested_block_is_rewritten() {
    let xor = op(CompoundOp::BitXor, 6, 14);
    let and = op(CompoundOp::BitAnd, 7, 18);
    // if c { a ^= b; } else { { d &= e; } }
    let build = |s1: Stmt, s2: Stmt| {
        Stmt::Expr {
            expr: Expr::Node {
                origin: 70,
                exprs: vec![
                    leaf(71),
                    Expr::Node {
                        origin: 72,
                        exprs: vec![],
                        stmts: vec![Stmt::Expr {
                            expr: Expr::Node { origin: 73, exprs: vec![], stmts: vec![s2] },
                            semi: false,
                        }],
                    },
                ],
                stmts: vec![s1],
            },
            semi: false,
        }
    };
    let r = rewrite_stmt(build(semi(compound(74, xor, 75)), semi(compound(76, and, 77))));
    assert_eq!(
        r,
        build(semi(expected_block(vec![], 74, xor, 75)), semi(expected_block(vec![], 76, and, 77)))
    );
}

#[test]
fn nested_statement_in_item_is_rewritten() {
    let div = op(CompoundOp::Div, 9, 9);
    // fn inner() { z /= 2; }
    let item = |s: Stmt| Stmt::Node { origin: 80, exprs: vec![], stmts: vec![s] };
    let r = rewrite_stmts(vec![item(semi(compound(81, div, 82)))]);
    assert_eq!(r, vec![item(semi(expected_block(vec![], 81, div, 82)))]);
}

#[test]
fn right_hand_side_is_not_rescanned() {
    let add = op(CompoundOp::Add, 1, 6);
    let inner = op(CompoundOp::Add, 1, 16);
    // a += { b += 1; b };
    let rhs = || Expr::Block { attrs: vec![], stmts: vec![semi(compound(91, inner, 92)), Stmt::Expr { expr: leaf(93), semi: false }] };
    let s = semi(Expr::CompoundAssign { attrs: vec![], left: Box::new(leaf(90)), op: add, right: Box::new(rhs()) });
    let name = "__rhs_first_assign_rhs_l1_c6".to_string();
    let expected = semi(Expr::Block {
        attrs: vec![],
        stmts: vec![
            Stmt::Let { name: name.clone(), init: rhs() },
            semi(Expr::CompoundAssign {
                attrs: vec![],
                left: Box::new(leaf(90)),
                op: add,
                right: Box::new(Expr::Var { name }),
            }),
        ],
    });
    assert_eq!(rewrite_stmt(s), expected);
}

#[test]
fn compound_assignment_as_subexpression_is_walked_not_split() {
    let add = op(CompoundOp::Add, 2, 3);
    let shr = op(CompoundOp::Shr, 2, 20);
    // f(a += 1, { b >>= 2; })
    let call = |s: Stmt| Expr::Node {
        origin: 95,
        exprs: vec![compound(96, add, 97), Expr::Block { attrs: vec![], stmts: vec![s] }],
        stmts: vec![],
    };
    let r = visit_expr(call(semi(compound(98, shr, 99))));
    assert_eq!(r, call(semi(expected_block(vec![], 98, shr, 99))));
}

#[test]
fn replacement_block_has_two_statements() {
    let o = op(CompoundOp::Sub, 12, 34);
    let r = replace_compound(vec!["#[a]".to_string()], leaf(1), o, leaf(2));
    assert_eq!(r, expected_block(vec!["#[a]".to_string()], 1, o, 2));
}

#[test]
fn temporary_name_encodes_position() {
    assert_eq!(temp_ident(11, 10), "__rhs_first_assign_rhs_l11_c10");
    assert_eq!(temp_ident(0, 0), "__rhs_first_assign_rhs_l0_c0");
    assert_eq!(temp_ident(1, 2), "__rhs_first_assign_rhs_l1_c2");
    assert_eq!(
        temp_ident(usize::MAX, 7),
        format!("__rhs_first_assign_rhs_l{}_c7", usize::MAX)
    );
}

#[test]
fn decimal_is_appended() {
    let mut s = "n=".to_string();
    push_decimal(&mut s, 1024);
    assert_eq!(s, "n=1024");
    let mut t = String::new();
    push_decimal(&mut t, 9);
    assert_eq!(t, "9");
}
