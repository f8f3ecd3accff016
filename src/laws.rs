//! Properties of the rewrite that relate its parts.
use vstd::prelude::*;

use crate::ident::{lemma_temp_name_unique, temp_name};
use crate::rewrite::{
    replacement, rewritten_fn, rewritten_stmt, rewritten_stmts, visited_expr, visited_exprs,
};
use crate::syntax::{ExprModel, ItemFnModel, StmtModel};

verus! {

/// Whether no compound assignment occurs anywhere in the expression.
pub open spec fn expr_free_of_compound(e: ExprModel) -> bool
    decreases e,
{
    match e {
        ExprModel::CompoundAssign { .. } => false,
        ExprModel::Block { attrs, stmts } => forall|i: int|
            0 <= i < stmts.len() ==> stmt_free_of_compound(#[trigger] stmts[i]),
        ExprModel::Var { .. } => true,
        ExprModel::Node { origin, exprs, stmts } => (forall|i: int|
            0 <= i < exprs.len() ==> expr_free_of_compound(#[trigger] exprs[i])) && (forall|
            i: int,
        |
            0 <= i < stmts.len() ==> stmt_free_of_compound(#[trigger] stmts[i])),
    }
}

/// Whether no compound assignment occurs anywhere in the statement.
pub open spec fn stmt_free_of_compound(s: StmtModel) -> bool
    decreases s,
{
    match s {
        StmtModel::Expr { expr, semi } => expr_free_of_compound(expr),
        StmtModel::Let { name, init } => expr_free_of_compound(init),
        StmtModel::Node { origin, exprs, stmts } => (forall|i: int|
            0 <= i < exprs.len() ==> expr_free_of_compound(#[trigger] exprs[i])) && (forall|
            i: int,
        |
            0 <= i < stmts.len() ==> stmt_free_of_compound(#[trigger] stmts[i])),
    }
}

/// Whether the statement is an expression statement whose expression is a
/// compound assignment.
pub open spec fn is_compound_stmt(s: StmtModel) -> bool {
    s matches StmtModel::Expr { expr: ExprModel::CompoundAssign { .. }, .. }
}

/// What the rewrite rule makes of a compound-assignment statement.
pub open spec fn replaced_stmt(s: StmtModel) -> StmtModel
    recommends
        is_compound_stmt(s),
{
    match s {
        StmtModel::Expr { expr: ExprModel::CompoundAssign { attrs, left, op, right }, semi } =>
            StmtModel::Expr { expr: replacement(attrs, *left, op, *right), semi },
        _ => s,
    }
}

proof fn lemma_expr_unchanged(e: ExprModel)
    requires
        expr_free_of_compound(e),
    ensures
        visited_expr(e) == e,
    decreases e,
{
    match e {
        ExprModel::Block { attrs, stmts } => {
            lemma_stmts_unchanged(stmts);
        },
        ExprModel::Node { origin, exprs, stmts } => {
            lemma_exprs_unchanged(exprs);
            lemma_stmts_unchanged(stmts);
        },
        _ => {},
    }
}

proof fn lemma_stmt_unchanged(s: StmtModel)
    requires
        stmt_free_of_compound(s),
    ensures
        rewritten_stmt(s) == s,
    decreases s,
{
    match s {
        StmtModel::Expr { expr, semi } => {
            lemma_expr_unchanged(expr);
        },
        StmtModel::Let { name, init } => {
            lemma_expr_unchanged(init);
        },
        StmtModel::Node { origin, exprs, stmts } => {
            lemma_exprs_unchanged(exprs);
            lemma_stmts_unchanged(stmts);
        },
    }
}

proof fn lemma_exprs_unchanged(es: Seq<ExprModel>)
    requires
        forall|i: int| 0 <= i < es.len() ==> expr_free_of_compound(#[trigger] es[i]),
    ensures
        visited_exprs(es) == es,
    decreases es,
{
    assert forall|i: int| 0 <= i < es.len() implies visited_exprs(es)[i] == es[i] by {
        lemma_expr_unchanged(es[i]);
    }
    assert(visited_exprs(es) =~= es);
}

proof fn lemma_stmts_unchanged(ss: Seq<StmtModel>)
    requires
        forall|i: int| 0 <= i < ss.len() ==> stmt_free_of_compound(#[trigger] ss[i]),
    ensures
        rewritten_stmts(ss) == ss,
    decreases ss,
{
    assert forall|i: int| 0 <= i < ss.len() implies rewritten_stmts(ss)[i] == ss[i] by {
        lemma_stmt_unchanged(ss[i]);
    }
    assert(rewritten_stmts(ss) =~= ss);
}

/// A function in which no compound assignment occurs comes out of the
/// rewrite exactly as it went in.
pub proof fn lemma_no_compound_unchanged(f: ItemFnModel)
    requires
        forall|i: int|
            0 <= i < f.body.stmts.len() ==> stmt_free_of_compound(#[trigger] f.body.stmts[i]),
    ensures
        rewritten_fn(f) == f,
{
    lemma_stmts_unchanged(f.body.stmts);
}

/// The rewritten function has the same header (attributes, visibility,
/// parameters, return type), the same name and the same braces as the
/// input function.
pub proof fn lemma_shape_preserved(f: ItemFnModel)
    ensures
        rewritten_fn(f).header == f.header,
        rewritten_fn(f).name == f.name,
        rewritten_fn(f).body.brace == f.body.brace,
        rewritten_fn(f).body.stmts.len() == f.body.stmts.len(),
{
}

/// Each top-level compound-assignment statement `left op= right` becomes one
/// expression statement, with the same terminator, whose expression is a
/// block of exactly two statements: `let t = right;` and `left op= t;`.
pub proof fn lemma_top_level_replaced(f: ItemFnModel, i: int)
    requires
        0 <= i < f.body.stmts.len(),
        is_compound_stmt(f.body.stmts[i]),
    ensures
        rewritten_fn(f).body.stmts.len() == f.body.stmts.len(),
        rewritten_fn(f).body.stmts[i] == replaced_stmt(f.body.stmts[i]),
        ({
            let orig = f.body.stmts[i];
            let ca = orig->expr;
            let r = rewritten_fn(f).body.stmts[i];
            let inner = r->expr->Block_stmts;
            let name = temp_name(ca->op.line as nat, ca->op.column as nat);
            &&& r is Expr
            &&& r->expr is Block
            &&& r->semi == orig->semi
            &&& inner.len() == 2
            &&& inner[0] == (StmtModel::Let { name, init: *ca->right })
            &&& inner[1] == (StmtModel::Expr {
                expr: ExprModel::CompoundAssign {
                    attrs: Seq::empty(),
                    left: ca->left,
                    op: ca->op,
                    right: Box::new(ExprModel::Var { name }),
                },
                semi: true,
            })
        }),
{
}

/// The attributes written on a top-level compound assignment end up on the
/// replacement block, and the two statements inside it carry none.
pub proof fn lemma_attrs_relocated(f: ItemFnModel, i: int)
    requires
        0 <= i < f.body.stmts.len(),
        is_compound_stmt(f.body.stmts[i]),
    ensures
        ({
            let r = rewritten_fn(f).body.stmts[i];
            let inner = r->expr->Block_stmts;
            &&& r->expr is Block
            &&& r->expr->Block_attrs == f.body.stmts[i]->expr->CompoundAssign_attrs
            &&& inner.len() == 2
            &&& inner[0] is Let
            &&& inner[1]->expr->CompoundAssign_attrs.len() == 0
        }),
{
}

/// Two top-level compound assignments whose operators stand at different
/// positions bind temporaries of different names.
pub proof fn lemma_temporaries_distinct(f: ItemFnModel, i: int, j: int)
    requires
        0 <= i < f.body.stmts.len(),
        0 <= j < f.body.stmts.len(),
        is_compound_stmt(f.body.stmts[i]),
        is_compound_stmt(f.body.stmts[j]),
        f.body.stmts[i]->expr->op.line != f.body.stmts[j]->expr->op.line
            || f.body.stmts[i]->expr->op.column != f.body.stmts[j]->expr->op.column,
    ensures
        rewritten_fn(f).body.stmts[i]->expr->Block_stmts[0]->Let_name
            != rewritten_fn(f).body.stmts[j]->expr->Block_stmts[0]->Let_name,
{
    let oi = f.body.stmts[i]->expr->op;
    let oj = f.body.stmts[j]->expr->op;
    lemma_temp_name_unique(oi.line as nat, oi.column as nat, oj.line as nat, oj.column as nat);
}

/// A compound-assignment statement among the statements of a nested block,
/// loop body, branch or closure body is rewritten as one at the top level
/// is, in place.
pub proof fn lemma_nested_in_expr(e: ExprModel, i: int)
    requires
        e is Block || e is Node,
        0 <= i < nested_stmts(e).len(),
        is_compound_stmt(nested_stmts(e)[i]),
    ensures
        nested_stmts(visited_expr(e)).len() == nested_stmts(e).len(),
        nested_stmts(visited_expr(e))[i] == replaced_stmt(nested_stmts(e)[i]),
{
    match e {
        ExprModel::Block { attrs, stmts } => {
            assert(visited_expr(e) == (ExprModel::Block { attrs, stmts: rewritten_stmts(stmts) }));
        },
        ExprModel::Node { origin, exprs, stmts } => {
            assert(visited_expr(e) == (ExprModel::Node {
                origin,
                exprs: visited_exprs(exprs),
                stmts: rewritten_stmts(stmts),
            }));
        },
        _ => {},
    }
}

/// A statement that is not a compound-assignment statement keeps its kind:
/// its sub-expressions are walked and its sub-statements go through the
/// rewrite rule, so compound assignments below it are still found.
pub proof fn lemma_walk_into_stmt(s: StmtModel)
    requires
        !is_compound_stmt(s),
    ensures
        s matches StmtModel::Expr { expr, semi } ==> rewritten_stmt(s) == (StmtModel::Expr {
            expr: visited_expr(expr),
            semi,
        }),
        s matches StmtModel::Node { origin, exprs, stmts } ==> rewritten_stmt(s)
            == (StmtModel::Node {
            origin,
            exprs: visited_exprs(exprs),
            stmts: rewritten_stmts(stmts),
        }),
{
}

/// The statements held directly by a block or other expression node.
pub open spec fn nested_stmts(e: ExprModel) -> Seq<StmtModel> {
    match e {
        ExprModel::Block { stmts, .. } => stmts,
        ExprModel::Node { stmts, .. } => stmts,
        _ => Seq::empty(),
    }
}

} // verus!
