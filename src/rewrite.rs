//! The rewrite rule, the structural walk that offers it every statement,
//! and the rebuilding of the function around the rewritten body.
use vstd::prelude::*;

use crate::ident::{temp_ident, temp_name};
use crate::syntax::{
    exprs_model, stmts_model, strings_model, Block, BlockModel, Expr, ExprModel, ItemFn,
    ItemFnModel, OpToken, Stmt, StmtModel,
};

verus! {

/// The block that replaces `attrs left op= right`:
/// `attrs { let t = right; left op= t; }`, where `t` is the temporary
/// named after the position of `op`.
pub open spec fn replacement(
    attrs: Seq<Seq<char>>,
    left: ExprModel,
    op: OpToken,
    right: ExprModel,
) -> ExprModel {
    let name = temp_name(op.line as nat, op.column as nat);
    ExprModel::Block {
        attrs,
        stmts: seq![
            StmtModel::Let { name, init: right },
            StmtModel::Expr {
                expr: ExprModel::CompoundAssign {
                    attrs: Seq::empty(),
                    left: Box::new(left),
                    op,
                    right: Box::new(ExprModel::Var { name }),
                },
                semi: true,
            },
        ],
    }
}

/// The rewrite rule applied to a statement: an expression statement whose
/// expression is a compound assignment is replaced; any other statement
/// keeps its kind and has its children walked.
pub open spec fn rewritten_stmt(s: StmtModel) -> StmtModel
    decreases s,
{
    match s {
        StmtModel::Expr { expr, semi } => match expr {
            ExprModel::CompoundAssign { attrs, left, op, right } => StmtModel::Expr {
                expr: replacement(attrs, *left, op, *right),
                semi,
            },
            _ => StmtModel::Expr { expr: visited_expr(expr), semi },
        },
        StmtModel::Let { name, init } => StmtModel::Let { name, init: visited_expr(init) },
        StmtModel::Node { origin, exprs, stmts } => StmtModel::Node {
            origin,
            exprs: visited_exprs(exprs),
            stmts: rewritten_stmts(stmts),
        },
    }
}

/// The structural walk of an expression: every statement it contains, at
/// any depth, goes through the rewrite rule; nothing else changes.
pub open spec fn visited_expr(e: ExprModel) -> ExprModel
    decreases e,
{
    match e {
        ExprModel::CompoundAssign { attrs, left, op, right } => ExprModel::CompoundAssign {
            attrs,
            left: Box::new(visited_expr(*left)),
            op,
            right: Box::new(visited_expr(*right)),
        },
        ExprModel::Block { attrs, stmts } => ExprModel::Block {
            attrs,
            stmts: rewritten_stmts(stmts),
        },
        ExprModel::Var { name } => ExprModel::Var { name },
        ExprModel::Node { origin, exprs, stmts } => ExprModel::Node {
            origin,
            exprs: visited_exprs(exprs),
            stmts: rewritten_stmts(stmts),
        },
    }
}

/// The rewrite rule applied to each statement of a sequence, in order.
pub open spec fn rewritten_stmts(ss: Seq<StmtModel>) -> Seq<StmtModel>
    decreases ss,
{
    Seq::new(
        ss.len(),
        |i: int|
            if 0 <= i < ss.len() {
                rewritten_stmt(ss[i])
            } else {
                StmtModel::Let { name: Seq::empty(), init: ExprModel::Var { name: Seq::empty() } }
            },
    )
}

/// The structural walk of each expression of a sequence, in order.
pub open spec fn visited_exprs(es: Seq<ExprModel>) -> Seq<ExprModel>
    decreases es,
{
    Seq::new(
        es.len(),
        |i: int|
            if 0 <= i < es.len() {
                visited_expr(es[i])
            } else {
                ExprModel::Var { name: Seq::empty() }
            },
    )
}

/// The function with its body's statements rewritten and all else kept.
pub open spec fn rewritten_fn(f: ItemFnModel) -> ItemFnModel {
    ItemFnModel {
        header: f.header,
        name: f.name,
        body: BlockModel { brace: f.body.brace, stmts: rewritten_stmts(f.body.stmts) },
    }
}

/// Builds the block that replaces the compound assignment
/// `attrs left op= right`.
pub fn replace_compound(attrs: Vec<String>, left: Expr, op: OpToken, right: Expr) -> (r: Expr)
    ensures
        r@ == replacement(strings_model(attrs@), left@, op, right@),
{
    let name = temp_ident(op.line, op.column);
    let var = Expr::Var { name: name.clone() };
    let no_attrs: Vec<String> = Vec::new();
    assert(strings_model(no_attrs@) =~= Seq::empty());
    let assign = Expr::CompoundAssign {
        attrs: no_attrs,
        left: Box::new(left),
        op,
        right: Box::new(var),
    };
    let mut stmts: Vec<Stmt> = Vec::new();
    stmts.push(Stmt::Let { name, init: right });
    stmts.push(Stmt::Expr { expr: assign, semi: true });
    proof {
        let goal = replacement(strings_model(attrs@), left@, op, right@);
        let name_s = temp_name(op.line as nat, op.column as nat);
        assert(stmts@[0]@ == StmtModel::Let { name: name_s, init: right@ });
        assert(var@ == ExprModel::Var { name: name_s });
        assert(strings_model(no_attrs@) == Seq::<Seq<char>>::empty());
        assert(assign@ == (ExprModel::CompoundAssign {
            attrs: Seq::empty(),
            left: Box::new(left@),
            op,
            right: Box::new(ExprModel::Var { name: name_s }),
        }));
        assert(stmts@[1]@ == StmtModel::Expr { expr: assign@, semi: true });
        assert(stmts_model(stmts@) =~= goal->Block_stmts);
    }
    Expr::Block { attrs, stmts }
}

/// The rewrite rule: replaces a statement-level compound assignment, and
/// walks the children of any other statement.
pub fn rewrite_stmt(s: Stmt) -> (r: Stmt)
    ensures
        r@ == rewritten_stmt(s@),
    decreases s,
{
    match s {
        Stmt::Expr { expr, semi } => match expr {
            Expr::CompoundAssign { attrs, left, op, right } => Stmt::Expr {
                expr: replace_compound(attrs, *left, op, *right),
                semi,
            },
            other => Stmt::Expr { expr: visit_expr(other), semi },
        },
        Stmt::Let { name, init } => Stmt::Let { name, init: visit_expr(init) },
        Stmt::Node { origin, exprs, stmts } => Stmt::Node {
            origin,
            exprs: visit_exprs(exprs),
            stmts: rewrite_stmts(stmts),
        },
    }
}

/// Walks an expression, offering every statement inside it to the rewrite
/// rule.
pub fn visit_expr(e: Expr) -> (r: Expr)
    ensures
        r@ == visited_expr(e@),
    decreases e,
{
    match e {
        Expr::CompoundAssign { attrs, left, op, right } => Expr::CompoundAssign {
            attrs,
            left: Box::new(visit_expr(*left)),
            op,
            right: Box::new(visit_expr(*right)),
        },
        Expr::Block { attrs, stmts } => Expr::Block { attrs, stmts: rewrite_stmts(stmts) },
        Expr::Var { name } => Expr::Var { name },
        Expr::Node { origin, exprs, stmts } => Expr::Node {
            origin,
            exprs: visit_exprs(exprs),
            stmts: rewrite_stmts(stmts),
        },
    }
}

/// Applies the rewrite rule to each statement of a sequence, keeping their
/// order.
pub fn rewrite_stmts(v: Vec<Stmt>) -> (r: Vec<Stmt>)
    ensures
        stmts_model(r@) == rewritten_stmts(stmts_model(v@)),
    decreases v,
{
    let ghost orig = v@;
    let n = v.len();
    let mut rest = v;
    let mut out: Vec<Stmt> = Vec::new();
    while rest.len() > 0
        invariant
            n == orig.len(),
            orig == v@,
            out.len() + rest.len() == n,
            rest@ == orig.subrange(out.len() as int, n as int),
            forall|j: int| 0 <= j < out.len() ==> (#[trigger] out@[j])@ == rewritten_stmt(orig[j]@),
        decreases rest.len(),
    {
        let ghost k = out.len() as int;
        let item = rest.remove(0);
        proof {
            assert(item == orig[k]);
            assert(decreases_to!(v => v@));
            assert(0 <= k < v@.len());
            assert(decreases_to!(v@ => v@[k]));
        }
        out.push(rewrite_stmt(item));
    }
    assert(stmts_model(out@) =~= rewritten_stmts(stmts_model(orig)));
    out
}

/// Walks each expression of a sequence, keeping their order.
pub fn visit_exprs(v: Vec<Expr>) -> (r: Vec<Expr>)
    ensures
        exprs_model(r@) == visited_exprs(exprs_model(v@)),
    decreases v,
{
    let ghost orig = v@;
    let n = v.len();
    let mut rest = v;
    let mut out: Vec<Expr> = Vec::new();
    while rest.len() > 0
        invariant
            n == orig.len(),
            orig == v@,
            out.len() + rest.len() == n,
            rest@ == orig.subrange(out.len() as int, n as int),
            forall|j: int| 0 <= j < out.len() ==> (#[trigger] out@[j])@ == visited_expr(orig[j]@),
        decreases rest.len(),
    {
        let ghost k = out.len() as int;
        let item = rest.remove(0);
        proof {
            assert(item == orig[k]);
            assert(decreases_to!(v => v@));
            assert(0 <= k < v@.len());
            assert(decreases_to!(v@ => v@[k]));
        }
        out.push(visit_expr(item));
    }
    assert(exprs_model(out@) =~= visited_exprs(exprs_model(orig)));
    out
}

/// Rewrites every statement of the function's body, and rebuilds the
/// function around the new statements with its header, name and braces
/// unchanged.
pub fn rhs_first_assign(f: ItemFn) -> (r: ItemFn)
    ensures
        r@ == rewritten_fn(f@),
        r.header == f.header,
        r.name@ == f.name@,
        r.body.brace == f.body.brace,
{
    let ItemFn { header, name, body } = f;
    let Block { brace, stmts } = body;
    let stmts = rewrite_stmts(stmts);
    ItemFn { header, name, body: Block { brace, stmts } }
}

} // verus!
