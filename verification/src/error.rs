//! The errors that operations on breadths report.

use vstd::prelude::*;

verus! {

/// Why arithmetic on two breadths was refused.
#[derive(Debug, Eq, PartialEq, Clone, Copy)]
pub enum BreadthArithmeticError {
    /// One operand is in pixels and the other in percent.
    NonIdenticalVariants,
}

/// Why a length of the layout engine has no breadth.
#[derive(Debug, Eq, PartialEq, Clone, Copy)]
pub enum BreadthConversionError {
    /// The length is automatic or undefined, so it carries no number.
    NonEvaluateable,
}

impl BreadthArithmeticError {
    /// The text of this error.
    pub open spec fn message_spec(self) -> Seq<char> {
        match self {
            BreadthArithmeticError::NonIdenticalVariants => {
                "the variants of the Breadths don't match"@
            },
        }
    }

    /// Describes the error in words.
    pub fn message(&self) -> (text: String)
        ensures
            text@ == self.message_spec(),
    {
        match self {
            BreadthArithmeticError::NonIdenticalVariants => {
                "the variants of the Breadths don't match".to_owned()
            },
        }
    }
}

impl BreadthConversionError {
    /// The text of this error.
    pub open spec fn message_spec(self) -> Seq<char> {
        match self {
            BreadthConversionError::NonEvaluateable => {
                "Cannot convert from non-evaluatable variants (non-numeric)"@
            },
        }
    }

    /// Describes the error in words.
    pub fn message(&self) -> (text: String)
        ensures
            text@ == self.message_spec(),
    {
        match self {
            BreadthConversionError::NonEvaluateable => {
                "Cannot convert from non-evaluatable variants (non-numeric)".to_owned()
            },
        }
    }
}

} // verus!
