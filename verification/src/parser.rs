//! The nodes of the syntax tree that a parser builds from tokens.

use vstd::prelude::*;
use crate::token::Token;

verus! {

/// A node of the abstract syntax tree.
pub enum AbstractSyntaxTreeNode {
    /// An operator applied to two operands.
    BinaryOperation {
        operator: Token,
        left_child: Box<AbstractSyntaxTreeNode>,
        right_child: Box<AbstractSyntaxTreeNode>,
    },
    /// An operator applied to one operand.
    UnaryOperation { operator: Token, operand: Box<Token> },
    /// A literal value.
    Literal { value: Token },
}

} // verus!
