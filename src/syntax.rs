//! The syntax tree that the rewrite reads and builds, and its mathematical model.
//!
//! Nodes that the rewrite does not interpret are kept as opaque `Node`s: an
//! `origin` handle, by which the host finds the parsed syntax again, and
//! the sub-expressions and sub-statements that the node contains, in the
//! order in which a structural walk meets them.
use vstd::prelude::*;

verus! {

/// The operator of a compound assignment.
#[derive(Clone, Copy, Debug, PartialEq, Eq, Structural)]
pub enum CompoundOp {
    Add,
    Sub,
    Mul,
    Div,
    Rem,
    BitXor,
    BitAnd,
    BitOr,
    Shl,
    Shr,
}

/// A compound operator token with the source position where it starts.
#[derive(Clone, Copy, Debug, PartialEq, Eq, Structural)]
pub struct OpToken {
    pub kind: CompoundOp,
    pub line: usize,
    pub column: usize,
}

/// An expression.
#[derive(Debug, PartialEq, Eq)]
pub enum Expr {
    /// `left op= right`, with the attributes written on it.
    CompoundAssign { attrs: Vec<String>, left: Box<Expr>, op: OpToken, right: Box<Expr> },
    /// A block expression `{ stmts }` with the attributes written on it.
    Block { attrs: Vec<String>, stmts: Vec<Stmt> },
    /// A path made of a single identifier.
    Var { name: String },
    /// Any other expression.
    Node { origin: usize, exprs: Vec<Expr>, stmts: Vec<Stmt> },
}

/// A statement.
#[derive(Debug, PartialEq, Eq)]
pub enum Stmt {
    /// An expression statement; `semi` tells whether it ends with `;`.
    Expr { expr: Expr, semi: bool },
    /// `let name = init;`
    Let { name: String, init: Expr },
    /// Any other statement.
    Node { origin: usize, exprs: Vec<Expr>, stmts: Vec<Stmt> },
}

/// A function body: its statements, and a handle to its source braces.
#[derive(Debug, PartialEq, Eq)]
pub struct Block {
    pub brace: usize,
    pub stmts: Vec<Stmt>,
}

/// A function: a handle to everything outside the body (attributes,
/// visibility, signature), its name, and its body.
#[derive(Debug, PartialEq, Eq)]
pub struct ItemFn {
    pub header: usize,
    pub name: String,
    pub body: Block,
}

/// Model of an [`Expr`].
pub ghost enum ExprModel {
    CompoundAssign {
        attrs: Seq<Seq<char>>,
        left: Box<ExprModel>,
        op: OpToken,
        right: Box<ExprModel>,
    },
    Block { attrs: Seq<Seq<char>>, stmts: Seq<StmtModel> },
    Var { name: Seq<char> },
    Node { origin: usize, exprs: Seq<ExprModel>, stmts: Seq<StmtModel> },
}

/// Model of a [`Stmt`].
pub ghost enum StmtModel {
    Expr { expr: ExprModel, semi: bool },
    Let { name: Seq<char>, init: ExprModel },
    Node { origin: usize, exprs: Seq<ExprModel>, stmts: Seq<StmtModel> },
}

/// Model of a [`Block`].
pub ghost struct BlockModel {
    pub brace: usize,
    pub stmts: Seq<StmtModel>,
}

/// Model of an [`ItemFn`].
pub ghost struct ItemFnModel {
    pub header: usize,
    pub name: Seq<char>,
    pub body: BlockModel,
}

/// Model of a sequence of strings.
pub open spec fn strings_model(v: Seq<String>) -> Seq<Seq<char>> {
    Seq::new(v.len(), |i: int| v[i]@)
}

/// Model of an expression: every string as its characters, every vector
/// as the sequence of its elements' models.
pub open spec fn expr_model(e: Expr) -> ExprModel
    decreases e,
{
    match e {
        Expr::CompoundAssign { attrs, left, op, right } => ExprModel::CompoundAssign {
            attrs: strings_model(attrs@),
            left: Box::new(expr_model(*left)),
            op,
            right: Box::new(expr_model(*right)),
        },
        Expr::Block { attrs, stmts } => ExprModel::Block {
            attrs: strings_model(attrs@),
            stmts: stmts_model(stmts@),
        },
        Expr::Var { name } => ExprModel::Var { name: name@ },
        Expr::Node { origin, exprs, stmts } => ExprModel::Node {
            origin,
            exprs: exprs_model(exprs@),
            stmts: stmts_model(stmts@),
        },
    }
}

/// Models of a sequence of expressions, element by element.
pub open spec fn exprs_model(v: Seq<Expr>) -> Seq<ExprModel>
    decreases v,
{
    Seq::new(
        v.len(),
        |i: int|
            if 0 <= i < v.len() {
                expr_model(v[i])
            } else {
                ExprModel::Var { name: Seq::empty() }
            },
    )
}

/// Model of a statement.
pub open spec fn stmt_model(s: Stmt) -> StmtModel
    decreases s,
{
    match s {
        Stmt::Expr { expr, semi } => StmtModel::Expr { expr: expr_model(expr), semi },
        Stmt::Let { name, init } => StmtModel::Let { name: name@, init: expr_model(init) },
        Stmt::Node { origin, exprs, stmts } => StmtModel::Node {
            origin,
            exprs: exprs_model(exprs@),
            stmts: stmts_model(stmts@),
        },
    }
}

/// Models of a sequence of statements, element by element.
pub open spec fn stmts_model(v: Seq<Stmt>) -> Seq<StmtModel>
    decreases v,
{
    Seq::new(
        v.len(),
        |i: int|
            if 0 <= i < v.len() {
                stmt_model(v[i])
            } else {
                StmtModel::Let { name: Seq::empty(), init: ExprModel::Var { name: Seq::empty() } }
            },
    )
}

impl View for Expr {
    type V = ExprModel;

    open spec fn view(&self) -> ExprModel {
        expr_model(*self)
    }
}

impl View for Stmt {
    type V = StmtModel;

    open spec fn view(&self) -> StmtModel {
        stmt_model(*self)
    }
}

impl View for Block {
    type V = BlockModel;

    open spec fn view(&self) -> BlockModel {
        BlockModel { brace: self.brace, stmts: stmts_model(self.stmts@) }
    }
}

impl View for ItemFn {
    type V = ItemFnModel;

    open spec fn view(&self) -> ItemFnModel {
        ItemFnModel { header: self.header, name: self.name@, body: self.body@ }
    }
}

} // verus!
