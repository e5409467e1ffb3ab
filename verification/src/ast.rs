//! The abstract syntax of the C subset the compiler accepts: functions,
//! global declarations and include directives at the top level; blocks of
//! declarations and statements; expressions with the usual operators.

use vstd::prelude::*;

verus! {

/// A complete translation unit.
#[derive(Debug, PartialEq)]
pub struct Program {
    pub items: Vec<TopLevelItem>,
}

/// Top-level items in a program.
#[derive(Debug, PartialEq)]
pub enum TopLevelItem {
    Include(String),
    Function(Function),
    GlobalDeclaration(Declaration),
}

/// A function definition.
#[derive(Debug, PartialEq)]
pub struct Function {
    pub return_type: Type,
    pub name: String,
    pub parameters: Vec<Parameter>,
    pub body: Block,
}

/// A function parameter.
#[derive(Debug, PartialEq)]
pub struct Parameter {
    pub ty: Type,
    pub name: String,
}

/// Type specifiers.
#[derive(Debug, PartialEq)]
pub enum Type {
    Void,
    Int,
    Uint16,
    Short { unsigned: bool },
    Char,
    Pointer(Box<Type>),
}

/// A block of declarations and statements.
#[derive(Debug, PartialEq)]
pub struct Block {
    pub items: Vec<BlockItem>,
}

/// Items that can appear in a block.
#[derive(Debug, PartialEq)]
pub enum BlockItem {
    Declaration(Declaration),
    Statement(Statement),
}

/// A variable declaration: one type, one or more declarators.
#[derive(Debug, PartialEq)]
pub struct Declaration {
    pub ty: Type,
    pub declarators: Vec<Declarator>,
}

/// A single declarator with an optional initializer.
#[derive(Debug, PartialEq)]
pub struct Declarator {
    pub name: String,
    pub initializer: Option<Initializer>,
}

/// An initializer: a string literal or an expression.
#[derive(Debug, PartialEq)]
pub enum Initializer {
    Expression(Expression),
    String(String),
}

/// Statements.
#[derive(Debug, PartialEq)]
pub enum Statement {
    Compound(Block),
    Expression(Expression),
    If { condition: Expression, then_branch: Box<Statement>, else_branch: Option<Box<Statement>> },
    While { condition: Expression, body: Box<Statement> },
    For {
        init: Option<ForInit>,
        condition: Option<Expression>,
        update: Option<Expression>,
        body: Box<Statement>,
    },
    Return(Option<Expression>),
    Empty,
}

/// What may stand in the first slot of a `for` header.
#[derive(Debug, PartialEq)]
pub enum ForInit {
    Declaration(Declaration),
    Expression(Expression),
}

/// Expressions.
#[derive(Debug, PartialEq)]
pub enum Expression {
    IntLiteral(i32),
    CharLiteral(char),
    StringLiteral(String),
    Identifier(String),
    Binary { op: BinaryOp, left: Box<Expression>, right: Box<Expression> },
    Unary { op: UnaryOp, operand: Box<Expression> },
    Assignment { op: AssignOp, target: String, value: Box<Expression> },
    Call { function: String, arguments: Vec<Expression> },
    Subscript { array: Box<Expression>, index: Box<Expression> },
    PostIncrement(String),
    PostDecrement(String),
    PreIncrement(String),
    PreDecrement(String),
}

/// Binary operators.
#[derive(Debug, Clone, Copy, PartialEq, Eq, Structural)]
pub enum BinaryOp {
    Add,
    Sub,
    Mul,
    Div,
    Mod,
    BitAnd,
    BitOr,
    BitXor,
    ShiftLeft,
    ShiftRight,
    Equal,
    NotEqual,
    Less,
    LessEqual,
    Greater,
    GreaterEqual,
    LogicalAnd,
    LogicalOr,
}

/// Unary operators.
#[derive(Debug, Clone, Copy, PartialEq, Eq, Structural)]
pub enum UnaryOp {
    Negate,
    BitNot,
    LogicalNot,
    Deref,
    AddressOf,
}

/// Assignment operators.
#[derive(Debug, Clone, Copy, PartialEq, Eq, Structural)]
pub enum AssignOp {
    Assign,
    AddAssign,
    SubAssign,
    AndAssign,
    OrAssign,
    XorAssign,
}

} // verus!
