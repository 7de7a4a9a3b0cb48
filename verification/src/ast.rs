//! The shader's syntax tree, and how it is read off a concrete parse tree.
//!
//! A `ParseNode` is the parse tree that the grammar produces: each node names
//! the grammar rule it matched, the source text it covers and its children.
//! `parse_program` walks that tree and keeps the statements inside `main()`.
use vstd::prelude::*;

use crate::text::str_eq;

verus! {

/// Every kind of value-producing thing in the shader.
#[derive(Debug)]
pub enum Expr {
    /// A number literal, held as its decimal text (`0.5`, `-1.0`).
    Float(String),
    Ident(String),
    Swizzle { name: String, field: String },
    BinOp { op: char, left: Box<Expr>, right: Box<Expr> },
    Call { name: String, args: Vec<Expr> },
}

/// A single line inside `main()`.
#[derive(Debug)]
pub enum Stmt {
    Assign { name: String, expr: Expr },
    Decl { ty: String, name: String, expr: Expr },
    /// `color.g += expr`
    SwizzleAssign { name: String, field: String, expr: Expr },
}

/// A declaration outside `main()`.
#[derive(Debug)]
pub enum TopDecl {
    Precision { qual: String, ty: String },
    Uniform { ty: String, name: String },
    Varying { ty: String, name: String },
}

/// The whole program: its top-level declarations and the statements inside `main()`.
#[derive(Debug)]
pub struct Program {
    pub decls: Vec<TopDecl>,
    pub stmts: Vec<Stmt>,
}

/// The mathematical value of an `Expr`.
pub enum ExprModel {
    Float(Seq<char>),
    Ident(Seq<char>),
    Swizzle { name: Seq<char>, field: Seq<char> },
    BinOp { op: char, left: Box<ExprModel>, right: Box<ExprModel> },
    Call { name: Seq<char>, args: Seq<ExprModel> },
}

/// The mathematical value of a `Stmt`.
pub enum StmtModel {
    Assign { name: Seq<char>, expr: ExprModel },
    Decl { ty: Seq<char>, name: Seq<char>, expr: ExprModel },
    SwizzleAssign { name: Seq<char>, field: Seq<char>, expr: ExprModel },
}

/// The mathematical value of a `TopDecl`.
pub enum TopDeclModel {
    Precision { qual: Seq<char>, ty: Seq<char> },
    Uniform { ty: Seq<char>, name: Seq<char> },
    Varying { ty: Seq<char>, name: Seq<char> },
}

/// The mathematical value of a `Program`.
pub struct ProgramModel {
    pub decls: Seq<TopDeclModel>,
    pub stmts: Seq<StmtModel>,
}

pub open spec fn expr_model(e: Expr) -> ExprModel
    decreases e,
{
    match e {
        Expr::Float(t) => ExprModel::Float(t@),
        Expr::Ident(n) => ExprModel::Ident(n@),
        Expr::Swizzle { name, field } => ExprModel::Swizzle { name: name@, field: field@ },
        Expr::BinOp { op, left, right } => ExprModel::BinOp {
            op,
            left: Box::new(expr_model(*left)),
            right: Box::new(expr_model(*right)),
        },
        Expr::Call { name, args } => ExprModel::Call {
            name: name@,
            args: Seq::new(
                args@.len(),
                |i: int|
                    if 0 <= i < args@.len() {
                        expr_model(args@[i])
                    } else {
                        ExprModel::Ident(Seq::empty())
                    },
            ),
        },
    }
}

impl View for Expr {
    type V = ExprModel;

    open spec fn view(&self) -> ExprModel {
        expr_model(*self)
    }
}

impl View for Stmt {
    type V = StmtModel;

    open spec fn view(&self) -> StmtModel {
        match self {
            Stmt::Assign { name, expr } => StmtModel::Assign { name: name@, expr: expr@ },
            Stmt::Decl { ty, name, expr } => StmtModel::Decl { ty: ty@, name: name@, expr: expr@ },
            Stmt::SwizzleAssign { name, field, expr } => StmtModel::SwizzleAssign {
                name: name@,
                field: field@,
                expr: expr@,
            },
        }
    }
}

impl View for TopDecl {
    type V = TopDeclModel;

    open spec fn view(&self) -> TopDeclModel {
        match self {
            TopDecl::Precision { qual, ty } => TopDeclModel::Precision { qual: qual@, ty: ty@ },
            TopDecl::Uniform { ty, name } => TopDeclModel::Uniform { ty: ty@, name: name@ },
            TopDecl::Varying { ty, name } => TopDeclModel::Varying { ty: ty@, name: name@ },
        }
    }
}

impl View for Program {
    type V = ProgramModel;

    open spec fn view(&self) -> ProgramModel {
        ProgramModel {
            decls: self.decls@.map_values(|d: TopDecl| d@),
            stmts: self.stmts@.map_values(|s: Stmt| s@),
        }
    }
}

/// The grammar rules that the tree walk tells apart; every other rule is `Other`.
#[derive(Debug, Clone, Copy, PartialEq, Eq, Structural)]
pub enum NodeKind {
    Program,
    MainFn,
    Stmt,
    AssignStmt,
    DeclStmt,
    CompoundAssignStmt,
    Expr,
    AddExpr,
    MulExpr,
    Unary,
    Primary,
    CallExpr,
    SwizzleExpr,
    FloatLit,
    Ident,
    AddOp,
    MulOp,
    Other,
}

/// A node of the concrete parse tree: the rule it matched, the source text
/// it spans, and its child nodes in source order.
#[derive(Debug)]
pub struct ParseNode {
    pub kind: NodeKind,
    pub text: String,
    pub children: Vec<ParseNode>,
}

/// The `i`-th child of `n`.
pub open spec fn child(n: ParseNode, i: int) -> ParseNode {
    n.children@[i]
}

/// The number of children of `n`.
pub open spec fn arity(n: ParseNode) -> int {
    n.children@.len() as int
}

/// Whether `n` is an expression node of the shape the grammar gives it, so
/// that the walk can read an expression off it.
pub open spec fn expr_shape_ok(n: ParseNode) -> bool
    decreases n, arity(n) + 1,
{
    match n.kind {
        NodeKind::Expr | NodeKind::Primary => arity(n) >= 1 && expr_shape_ok(child(n, 0)),
        NodeKind::AddExpr | NodeKind::MulExpr => arity(n) >= 1 && expr_shape_ok(child(n, 0))
            && chain_shape_ok(n, 1),
        NodeKind::Unary => arity(n) >= 1 && if child(n, 0).text@ == "-"@ {
            arity(n) >= 2 && expr_shape_ok(child(n, 1))
        } else {
            expr_shape_ok(child(n, 0))
        },
        NodeKind::CallExpr => arity(n) >= 1 && args_shape_ok(n, 1),
        NodeKind::SwizzleExpr => arity(n) >= 2,
        NodeKind::FloatLit | NodeKind::Ident => true,
        _ => false,
    }
}

/// From child `i` on, the children of an operator chain pair up as
/// operator, operand; each operator is a non-empty token and each operand an
/// expression. A last child without a partner is left unread.
pub open spec fn chain_shape_ok(n: ParseNode, i: int) -> bool
    decreases n, arity(n) - i,
{
    if 1 <= i && i + 1 < arity(n) {
        child(n, i).text@.len() >= 1 && expr_shape_ok(child(n, i + 1)) && chain_shape_ok(n, i + 2)
    } else {
        true
    }
}

/// From child `i` on, every child of a call is an expression.
pub open spec fn args_shape_ok(n: ParseNode, i: int) -> bool
    decreases n, arity(n) - i,
{
    if 1 <= i && i < arity(n) {
        expr_shape_ok(child(n, i)) && args_shape_ok(n, i + 1)
    } else {
        true
    }
}

/// The expression that node `n` stands for. The grammar's layers (`expr`,
/// `add_expr`, `mul_expr`, `unary`, `primary`) fix precedence, so each
/// layer collapses into its operand; operator chains associate to the left;
/// a leading `-` multiplies by `-1.0`.
pub open spec fn expr_of(n: ParseNode) -> ExprModel
    decreases n, arity(n) + 1,
{
    match n.kind {
        NodeKind::Expr | NodeKind::Primary => if arity(n) >= 1 {
            expr_of(child(n, 0))
        } else {
            ExprModel::Ident(Seq::empty())
        },
        NodeKind::AddExpr | NodeKind::MulExpr => if arity(n) >= 1 {
            chain_of(n, 1, expr_of(child(n, 0)))
        } else {
            ExprModel::Ident(Seq::empty())
        },
        NodeKind::Unary => if arity(n) >= 1 {
            if child(n, 0).text@ == "-"@ {
                if arity(n) >= 2 {
                    ExprModel::BinOp {
                        op: '*',
                        left: Box::new(ExprModel::Float("-1.0"@)),
                        right: Box::new(expr_of(child(n, 1))),
                    }
                } else {
                    ExprModel::Ident(Seq::empty())
                }
            } else {
                expr_of(child(n, 0))
            }
        } else {
            ExprModel::Ident(Seq::empty())
        },
        NodeKind::CallExpr => if arity(n) >= 1 {
            ExprModel::Call { name: child(n, 0).text@, args: args_of(n, 1) }
        } else {
            ExprModel::Ident(Seq::empty())
        },
        NodeKind::SwizzleExpr => if arity(n) >= 2 {
            ExprModel::Swizzle { name: child(n, 0).text@, field: child(n, 1).text@ }
        } else {
            ExprModel::Ident(Seq::empty())
        },
        NodeKind::FloatLit => ExprModel::Float(n.text@),
        NodeKind::Ident => ExprModel::Ident(n.text@),
        _ => ExprModel::Ident(Seq::empty()),
    }
}

/// Folds the operator chain of `n` from child `i` on onto `acc`, to the left:
/// `acc op_i e_(i+1) op_(i+2) e_(i+3) ...` is `((acc op_i e_(i+1)) op_(i+2) e_(i+3)) ...`.
/// The operator is the first character of its token.
pub open spec fn chain_of(n: ParseNode, i: int, acc: ExprModel) -> ExprModel
    decreases n, arity(n) - i,
{
    if 1 <= i && i + 1 < arity(n) {
        chain_of(
            n,
            i + 2,
            ExprModel::BinOp {
                op: child(n, i).text@[0],
                left: Box::new(acc),
                right: Box::new(expr_of(child(n, i + 1))),
            },
        )
    } else {
        acc
    }
}

/// The operation that operator child `i` of `n` and the operand after it
/// make with `acc` as their left operand.
pub open spec fn chain_link(n: ParseNode, i: int, acc: ExprModel) -> ExprModel {
    ExprModel::BinOp {
        op: child(n, i).text@[0],
        left: Box::new(acc),
        right: Box::new(expr_of(child(n, i + 1))),
    }
}

/// One step of an operator chain: while an operator and an operand remain,
/// they are folded onto the accumulated expression as its right operand;
/// with fewer than two children left, the chain is the accumulated expression.
pub proof fn lemma_chain_step(n: ParseNode, i: int, acc: ExprModel)
    requires
        1 <= i,
    ensures
        i + 1 < arity(n) ==> chain_of(n, i, acc) == chain_of(n, i + 2, chain_link(n, i, acc)),
        i + 1 >= arity(n) ==> chain_of(n, i, acc) == acc,
{
}

/// A chain of two operands `e0 op e1` reads as that single operation, and a
/// chain of three, `e0 op1 e1 op2 e2`, as `(e0 op1 e1) op2 e2`.
pub proof fn lemma_chain_left_assoc(n: ParseNode)
    requires
        n.kind == NodeKind::AddExpr || n.kind == NodeKind::MulExpr,
    ensures
        arity(n) == 3 ==> expr_of(n) == chain_link(n, 1, expr_of(child(n, 0))),
        arity(n) == 5 ==> expr_of(n) == chain_link(n, 3, chain_link(n, 1, expr_of(child(n, 0)))),
{
    if arity(n) == 3 || arity(n) == 5 {
        let e0 = expr_of(child(n, 0));
        lemma_chain_step(n, 1, e0);
        let e1 = chain_link(n, 1, e0);
        lemma_chain_step(n, 3, e1);
        if arity(n) == 5 {
            lemma_chain_step(n, 5, chain_link(n, 3, e1));
        }
    }
}

/// The arguments of a call node, from child `i` on.
pub open spec fn args_of(n: ParseNode, i: int) -> Seq<ExprModel>
    decreases n, arity(n) - i,
{
    if 1 <= i && i < arity(n) {
        seq![expr_of(child(n, i))] + args_of(n, i + 1)
    } else {
        Seq::empty()
    }
}

/// Whether a `stmt` node has the shape the grammar gives it: a single
/// assignment, declaration or compound assignment inside.
pub open spec fn stmt_shape_ok(n: ParseNode) -> bool {
    arity(n) >= 1 && {
        let inner = child(n, 0);
        match inner.kind {
            NodeKind::AssignStmt => arity(inner) >= 2 && expr_shape_ok(child(inner, 1)),
            NodeKind::DeclStmt | NodeKind::CompoundAssignStmt => arity(inner) >= 3
                && expr_shape_ok(child(inner, 2)),
            _ => false,
        }
    }
}

/// The statement that a `stmt` node stands for: `name = e`, `type name = e`
/// or `name.field += e`.
pub open spec fn stmt_of(n: ParseNode) -> StmtModel {
    let inner = child(n, 0);
    match inner.kind {
        NodeKind::AssignStmt => StmtModel::Assign {
            name: child(inner, 0).text@,
            expr: expr_of(child(inner, 1)),
        },
        NodeKind::DeclStmt => StmtModel::Decl {
            ty: child(inner, 0).text@,
            name: child(inner, 1).text@,
            expr: expr_of(child(inner, 2)),
        },
        _ => StmtModel::SwizzleAssign {
            name: child(inner, 0).text@,
            field: child(inner, 1).text@,
            expr: expr_of(child(inner, 2)),
        },
    }
}

/// Whether every `stmt` node among `nodes` has its grammar shape.
pub open spec fn stmts_shape_ok(nodes: Seq<ParseNode>) -> bool {
    forall|i: int| 0 <= i < nodes.len() && nodes[i].kind == NodeKind::Stmt ==> stmt_shape_ok(
        #[trigger] nodes[i],
    )
}

/// The statements that the `stmt` nodes among `nodes` stand for, in order;
/// other nodes are skipped.
pub open spec fn stmts_of(nodes: Seq<ParseNode>) -> Seq<StmtModel>
    decreases nodes.len(),
{
    if nodes.len() == 0 {
        Seq::empty()
    } else if nodes.last().kind == NodeKind::Stmt {
        stmts_of(nodes.drop_last()).push(stmt_of(nodes.last()))
    } else {
        stmts_of(nodes.drop_last())
    }
}

/// Whether the statements of every `main_fn` node among `nodes` have their shape.
pub open spec fn program_shape_ok(nodes: Seq<ParseNode>) -> bool {
    forall|i: int|
        0 <= i < nodes.len() && nodes[i].kind == NodeKind::MainFn ==> stmts_shape_ok(
            #[trigger] nodes[i].children@,
        )
}

/// The statements of all `main_fn` nodes among `nodes`, in order;
/// everything outside `main()` is discarded.
pub open spec fn main_stmts_of(nodes: Seq<ParseNode>) -> Seq<StmtModel>
    decreases nodes.len(),
{
    if nodes.len() == 0 {
        Seq::empty()
    } else if nodes.last().kind == NodeKind::MainFn {
        main_stmts_of(nodes.drop_last()) + stmts_of(nodes.last().children@)
    } else {
        main_stmts_of(nodes.drop_last())
    }
}

/// Reads the expression off an expression node.
pub fn parse_expr(node: &ParseNode) -> (e: Expr)
    requires
        expr_shape_ok(*node),
    ensures
        e@ == expr_of(*node),
    decreases *node, arity(*node) + 1,
{
    match node.kind {
        NodeKind::Expr | NodeKind::Primary => {
            parse_expr(&node.children[0])
        },
        NodeKind::AddExpr | NodeKind::MulExpr => {
            let first = parse_expr(&node.children[0]);
            parse_chain(node, 1, first)
        },
        NodeKind::Unary => {
            let first = &node.children[0];
            if str_eq(first.text.as_str(), "-") {
                let operand = parse_expr(&node.children[1]);
                let minus_one = String::from_str("-1.0");
                let lit = Expr::Float(minus_one);
                assert(lit@ == ExprModel::Float("-1.0"@));
                let e = Expr::BinOp {
                    op: '*',
                    left: Box::new(lit),
                    right: Box::new(operand),
                };
                assert(e@ == ExprModel::BinOp {
                    op: '*',
                    left: Box::new(ExprModel::Float("-1.0"@)),
                    right: Box::new(operand@),
                });
                e
            } else {
                parse_expr(first)
            }
        },
        NodeKind::CallExpr => {
            let name = String::from_str(node.children[0].text.as_str());
            let args = parse_args(node, 1);
            let e = Expr::Call { name, args };
            proof {
                let ghost m = Seq::new(
                    args@.len(),
                    |i: int|
                        if 0 <= i < args@.len() {
                            expr_model(args@[i])
                        } else {
                            ExprModel::Ident(Seq::empty())
                        },
                );
                assert(e@->args =~= args@.map_values(|a: Expr| a@));
            }
            e
        },
        NodeKind::SwizzleExpr => {
            let name = String::from_str(node.children[0].text.as_str());
            let field = String::from_str(node.children[1].text.as_str());
            Expr::Swizzle { name, field }
        },
        NodeKind::FloatLit => Expr::Float(String::from_str(node.text.as_str())),
        _ => Expr::Ident(String::from_str(node.text.as_str())),
    }
}

/// Folds the operator chain of `node` from child `i` on onto `acc`.
fn parse_chain(node: &ParseNode, i: usize, acc: Expr) -> (e: Expr)
    requires
        1 <= i,
        chain_shape_ok(*node, i as int),
    ensures
        e@ == chain_of(*node, i as int, acc@),
    decreases *node, arity(*node) - i,
{
    if i < node.children.len() && node.children.len() - i >= 2 {
        let op = node.children[i].text.as_str().get_char(0);
        let right = parse_expr(&node.children[i + 1]);
        let next = Expr::BinOp { op, left: Box::new(acc), right: Box::new(right) };
        parse_chain(node, i + 2, next)
    } else {
        acc
    }
}

/// The arguments of a call node, from child `i` on.
fn parse_args(node: &ParseNode, i: usize) -> (args: Vec<Expr>)
    requires
        1 <= i,
        args_shape_ok(*node, i as int),
    ensures
        args@.map_values(|a: Expr| a@) == args_of(*node, i as int),
    decreases *node, arity(*node) - i,
{
    if i < node.children.len() {
        let first = parse_expr(&node.children[i]);
        let rest = parse_args(node, i + 1);
        let mut args: Vec<Expr> = Vec::new();
        args.push(first);
        let ghost first_model = args@[0]@;
        let mut rest = rest;
        args.append(&mut rest);
        assert(args@.map_values(|a: Expr| a@) =~= seq![first_model] + args_of(*node, i + 1));
        args
    } else {
        Vec::new()
    }
}


/// Reads the statement off a `stmt` node.
fn parse_stmt(node: &ParseNode) -> (s: Stmt)
    requires
        stmt_shape_ok(*node),
    ensures
        s@ == stmt_of(*node),
{
    let inner = &node.children[0];
    match inner.kind {
        NodeKind::AssignStmt => {
            let name = String::from_str(inner.children[0].text.as_str());
            let expr = parse_expr(&inner.children[1]);
            Stmt::Assign { name, expr }
        },
        NodeKind::DeclStmt => {
            let ty = String::from_str(inner.children[0].text.as_str());
            let name = String::from_str(inner.children[1].text.as_str());
            let expr = parse_expr(&inner.children[2]);
            Stmt::Decl { ty, name, expr }
        },
        _ => {
            let name = String::from_str(inner.children[0].text.as_str());
            let field = String::from_str(inner.children[1].text.as_str());
            let expr = parse_expr(&inner.children[2]);
            Stmt::SwizzleAssign { name, field, expr }
        },
    }
}

/// Appends to `stmts` the statements of the `stmt` nodes among `nodes`.
fn collect_stmts(nodes: &Vec<ParseNode>, stmts: &mut Vec<Stmt>)
    requires
        stmts_shape_ok(nodes@),
    ensures
        final(stmts)@.map_values(|s: Stmt| s@) == old(stmts)@.map_values(|s: Stmt| s@)
            + stmts_of(nodes@),
{
    let ghost start = stmts@.map_values(|s: Stmt| s@);
    let mut i: usize = 0;
    assert(nodes@.take(0) =~= Seq::<ParseNode>::empty());
    assert(start + stmts_of(Seq::<ParseNode>::empty()) =~= start);
    while i < nodes.len()
        invariant
            i <= nodes@.len(),
            stmts_shape_ok(nodes@),
            stmts@.map_values(|s: Stmt| s@) == start + stmts_of(nodes@.take(i as int)),
        decreases nodes@.len() - i,
    {
        let ghost before = stmts@;
        assert(nodes@.take(i + 1).drop_last() =~= nodes@.take(i as int));
        if nodes[i].kind == NodeKind::Stmt {
            let s = parse_stmt(&nodes[i]);
            stmts.push(s);
            assert(stmts@.map_values(|s: Stmt| s@) =~= before.map_values(|s: Stmt| s@).push(
                s@,
            ));
        }
        i = i + 1;
    }
    assert(nodes@.take(i as int) =~= nodes@);
}

/// Walks the parse tree and keeps the statements inside `main()`. `pairs`
/// holds the top-level `program` node first; of its children only the
/// `main_fn` nodes are read, and of theirs only the `stmt` nodes.
pub fn parse_program(pairs: &Vec<ParseNode>) -> (p: Program)
    requires
        pairs@.len() >= 1,
        program_shape_ok(pairs@[0].children@),
    ensures
        p@.decls == Seq::<TopDeclModel>::empty(),
        p@.stmts == main_stmts_of(pairs@[0].children@),
{
    let program = &pairs[0];
    let mut stmts: Vec<Stmt> = Vec::new();
    let mut i: usize = 0;
    let ghost nodes = program.children@;
    assert(nodes.take(0) =~= Seq::<ParseNode>::empty());
    assert(stmts@.map_values(|s: Stmt| s@) =~= Seq::<StmtModel>::empty());
    while i < program.children.len()
        invariant
            nodes == program.children@,
            i <= nodes.len(),
            program_shape_ok(nodes),
            stmts@.map_values(|s: Stmt| s@) == main_stmts_of(nodes.take(i as int)),
        decreases nodes.len() - i,
    {
        assert(nodes.take(i + 1).drop_last() =~= nodes.take(i as int));
        let pair = &program.children[i];
        if pair.kind == NodeKind::MainFn {
            assert(stmts_shape_ok(nodes[i as int].children@));
            collect_stmts(&pair.children, &mut stmts);
        }
        i = i + 1;
    }
    assert(nodes.take(i as int) =~= nodes);
    let decls: Vec<TopDecl> = Vec::new();
    let p = Program { decls, stmts };
    assert(p@.decls =~= Seq::<TopDeclModel>::empty());
    p
}

/// Whether `node` is an expression node of the grammar's shape.
fn expr_shape_valid(node: &ParseNode) -> (r: bool)
    ensures
        r == expr_shape_ok(*node),
    decreases *node, arity(*node) + 1,
{
    let n = node.children.len();
    match node.kind {
        NodeKind::Expr | NodeKind::Primary => n >= 1 && expr_shape_valid(&node.children[0]),
        NodeKind::AddExpr | NodeKind::MulExpr => n >= 1 && expr_shape_valid(&node.children[0])
            && chain_shape_valid(node, 1),
        NodeKind::Unary => {
            if n < 1 {
                false
            } else if str_eq(node.children[0].text.as_str(), "-") {
                n >= 2 && expr_shape_valid(&node.children[1])
            } else {
                expr_shape_valid(&node.children[0])
            }
        },
        NodeKind::CallExpr => n >= 1 && args_shape_valid(node, 1),
        NodeKind::SwizzleExpr => n >= 2,
        NodeKind::FloatLit | NodeKind::Ident => true,
        _ => false,
    }
}

fn chain_shape_valid(node: &ParseNode, i: usize) -> (r: bool)
    requires
        1 <= i,
    ensures
        r == chain_shape_ok(*node, i as int),
    decreases *node, arity(*node) - i,
{
    if i < node.children.len() && node.children.len() - i >= 2 {
        node.children[i].text.as_str().unicode_len() >= 1 && expr_shape_valid(
            &node.children[i + 1],
        ) && chain_shape_valid(node, i + 2)
    } else {
        true
    }
}

fn args_shape_valid(node: &ParseNode, i: usize) -> (r: bool)
    requires
        1 <= i,
    ensures
        r == args_shape_ok(*node, i as int),
    decreases *node, arity(*node) - i,
{
    if i < node.children.len() {
        expr_shape_valid(&node.children[i]) && args_shape_valid(node, i + 1)
    } else {
        true
    }
}

fn stmt_shape_valid(node: &ParseNode) -> (r: bool)
    ensures
        r == stmt_shape_ok(*node),
{
    if node.children.len() < 1 {
        return false;
    }
    let inner = &node.children[0];
    match inner.kind {
        NodeKind::AssignStmt => inner.children.len() >= 2 && expr_shape_valid(&inner.children[1]),
        NodeKind::DeclStmt | NodeKind::CompoundAssignStmt => inner.children.len() >= 3
            && expr_shape_valid(&inner.children[2]),
        _ => false,
    }
}

fn stmts_shape_valid(nodes: &Vec<ParseNode>) -> (r: bool)
    ensures
        r == stmts_shape_ok(nodes@),
{
    let mut i: usize = 0;
    while i < nodes.len()
        invariant
            i <= nodes@.len(),
            forall|j: int|
                0 <= j < i && nodes@[j].kind == NodeKind::Stmt ==> stmt_shape_ok(
                    #[trigger] nodes@[j],
                ),
        decreases nodes@.len() - i,
    {
        if nodes[i].kind == NodeKind::Stmt && !stmt_shape_valid(&nodes[i]) {
            return false;
        }
        i = i + 1;
    }
    true
}

/// Whether `parse_program` can read `pairs`: there is a top-level node, and
/// every statement inside its `main_fn` nodes has the grammar's shape.
pub fn program_shape_valid(pairs: &Vec<ParseNode>) -> (r: bool)
    ensures
        r == (pairs@.len() >= 1 && program_shape_ok(pairs@[0].children@)),
{
    if pairs.len() < 1 {
        return false;
    }
    let nodes = &pairs[0].children;
    let mut i: usize = 0;
    while i < nodes.len()
        invariant
            nodes@ == pairs@[0].children@,
            i <= nodes@.len(),
            forall|j: int|
                0 <= j < i && nodes@[j].kind == NodeKind::MainFn ==> stmts_shape_ok(
                    #[trigger] nodes@[j].children@,
                ),
        decreases nodes@.len() - i,
    {
        if nodes[i].kind == NodeKind::MainFn && !stmts_shape_valid(&nodes[i].children) {
            return false;
        }
        i = i + 1;
    }
    true
}

} // verus!
