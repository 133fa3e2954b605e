//! The operator tokens of the RestQ expression grammar.

use vstd::prelude::*;

verus! {

/// A binary operator of the filter grammar.
#[derive(Debug, PartialEq, Eq, Structural, Clone, Copy)]
pub enum Operator {
    Plus,
    Minus,
    Multiply,
    Divide,
    Modulus,
    Eq,
    Neq,
    Lt,
    Lte,
    Gt,
    Gte,
    And,
    Or,
    Like,
    In,
    NotIn,
    Is,
    IsNot,
    Ilike,
    Starts,
}

impl DeepView for Operator {
    type V = Operator;

    open spec fn deep_view(&self) -> Operator {
        *self
    }
}

impl Operator {
    /// Whether the canonical `column=op.value` form spells this operator with
    /// the separating dot; connectors and arithmetic tokens stand bare.
    pub open spec fn spec_needs_separator(self) -> bool {
        match self {
            Operator::And
            | Operator::Or
            | Operator::Plus
            | Operator::Minus
            | Operator::Multiply
            | Operator::Divide
            | Operator::Modulus => false,
            _ => true,
        }
    }

    /// Says whether rendering this operator takes the `=op.` form.
    pub fn needs_separator(&self) -> (r: bool)
        ensures
            r == self.spec_needs_separator(),
    {
        match self {
            Operator::And
            | Operator::Or
            | Operator::Plus
            | Operator::Minus
            | Operator::Multiply
            | Operator::Divide
            | Operator::Modulus => false,

            Operator::Eq
            | Operator::Neq
            | Operator::Lt
            | Operator::Lte
            | Operator::Gt
            | Operator::Gte
            | Operator::Like
            | Operator::In
            | Operator::NotIn
            | Operator::Is
            | Operator::IsNot
            | Operator::Ilike
            | Operator::Starts => true,
        }
    }

    /// The canonical token for this operator in the RestQ surface syntax.
    pub open spec fn token(self) -> Seq<char> {
        match self {
            Operator::Plus => "+"@,
            Operator::Minus => "-"@,
            Operator::Multiply => "*"@,
            Operator::Divide => "/"@,
            Operator::Modulus => "%"@,
            Operator::Eq => "eq"@,
            Operator::Neq => "neq"@,
            Operator::Lt => "lt"@,
            Operator::Lte => "lte"@,
            Operator::Gt => "gt"@,
            Operator::Gte => "gte"@,
            Operator::And => "&"@,
            Operator::Or => "|"@,
            Operator::Like => "like"@,
            Operator::In => "in"@,
            Operator::NotIn => "not_in"@,
            Operator::Is => "is"@,
            Operator::IsNot => "is_not"@,
            Operator::Ilike => "ilike"@,
            Operator::Starts => "starts"@,
        }
    }

    /// Returns the canonical token of this operator.
    pub fn display(&self) -> (r: &'static str)
        ensures
            r@ == self.token(),
    {
        match self {
            Operator::Plus => "+",
            Operator::Minus => "-",
            Operator::Multiply => "*",
            Operator::Divide => "/",
            Operator::Modulus => "%",
            Operator::Eq => "eq",
            Operator::Neq => "neq",
            Operator::Lt => "lt",
            Operator::Lte => "lte",
            Operator::Gt => "gt",
            Operator::Gte => "gte",
            Operator::And => "&",
            Operator::Or => "|",
            Operator::Like => "like",
            Operator::In => "in",
            Operator::NotIn => "not_in",
            Operator::Is => "is",
            Operator::IsNot => "is_not",
            Operator::Ilike => "ilike",
            Operator::Starts => "starts",
        }
    }
}

} // verus!
