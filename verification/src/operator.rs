//! The operators the surrounding virtual machine applies to dynamic values.
use vstd::prelude::*;

verus! {

/// The available operators that can be used with Yarn values.
#[derive(Debug, Clone, Copy, PartialEq, Eq, Structural)]
pub enum Operator {
    /// A unary operator that returns its input.
    NoOperation,
    /// A binary operator that represents equality.
    EqualTo,
    /// A binary operator that represents a value being greater than another.
    GreaterThan,
    /// A binary operator that represents a value being greater than or equal
    /// to another.
    GreaterThanOrEqualTo,
    /// A binary operator that represents a value being less than another.
    LessThan,
    /// A binary operator that represents a value being less than or equal to
    /// another.
    LessThanOrEqualTo,
    /// A binary operator that represents inequality.
    NotEqualTo,
    /// A binary operator that represents a logical or.
    Or,
    /// A binary operator that represents a logical and.
    And,
    /// A binary operator that represents a logical exclusive or.
    Xor,
    /// A binary operator that represents a logical not.
    Not,
    /// A unary operator that represents negation.
    UnarySubtract,
    /// A binary operator that represents addition.
    Add,
    /// A binary operator that represents subtraction.
    Subtract,
    /// A binary operator that represents multiplication.
    Multiply,
    /// A binary operator that represents division.
    Divide,
    /// A binary operator that represents the remainder operation.
    Modulo,
}

impl Operator {
    /// The display name of this operator, under which the surrounding
    /// machinery registers the operator's implementation.
    pub open spec fn spec_name(&self) -> Seq<char> {
        match self {
            Operator::NoOperation => "NoOperation"@,
            Operator::EqualTo => "EqualTo"@,
            Operator::GreaterThan => "GreaterThan"@,
            Operator::GreaterThanOrEqualTo => "GreaterThanOrEqualTo"@,
            Operator::LessThan => "LessThan"@,
            Operator::LessThanOrEqualTo => "LessThanOrEqualTo"@,
            Operator::NotEqualTo => "NotEqualTo"@,
            Operator::Or => "Or"@,
            Operator::And => "And"@,
            Operator::Xor => "Xor"@,
            Operator::Not => "Not"@,
            Operator::UnarySubtract => "UnarySubtract"@,
            Operator::Add => "Add"@,
            Operator::Subtract => "Subtract"@,
            Operator::Multiply => "Multiply"@,
            Operator::Divide => "Divide"@,
            Operator::Modulo => "Modulo"@,
        }
    }

    /// Yields the operator's display name as an owned string.
    pub fn name(&self) -> (r: String)
        ensures
            r@ == self.spec_name(),
    {
        match self {
            Operator::NoOperation => "NoOperation".to_owned(),
            Operator::EqualTo => "EqualTo".to_owned(),
            Operator::GreaterThan => "GreaterThan".to_owned(),
            Operator::GreaterThanOrEqualTo => "GreaterThanOrEqualTo".to_owned(),
            Operator::LessThan => "LessThan".to_owned(),
            Operator::LessThanOrEqualTo => "LessThanOrEqualTo".to_owned(),
            Operator::NotEqualTo => "NotEqualTo".to_owned(),
            Operator::Or => "Or".to_owned(),
            Operator::And => "And".to_owned(),
            Operator::Xor => "Xor".to_owned(),
            Operator::Not => "Not".to_owned(),
            Operator::UnarySubtract => "UnarySubtract".to_owned(),
            Operator::Add => "Add".to_owned(),
            Operator::Subtract => "Subtract".to_owned(),
            Operator::Multiply => "Multiply".to_owned(),
            Operator::Divide => "Divide".to_owned(),
            Operator::Modulo => "Modulo".to_owned(),
        }
    }
}

} // verus!
