//! The failures of parsing and evaluation.

use vstd::prelude::*;
use serde_json::Value;

verus! {

/// How many positional arguments an operator or a function accepts.
#[derive(Clone, Copy, Debug, PartialEq, Eq, Structural)]
pub enum NumParams {
    /// One argument.
    Unary,
    /// This many arguments.
    Exactly(usize),
    /// This many arguments or more.
    AtLeast(usize),
    /// At least the first number of arguments and at most the second.
    Range(usize, usize),
    /// Any number of arguments.
    Variadic,
}

impl NumParams {
    /// Whether a call with `count` arguments is within this arity.
    pub open spec fn admits(self, count: nat) -> bool {
        match self {
            NumParams::Unary => count == 1,
            NumParams::Exactly(n) => count == n,
            NumParams::AtLeast(n) => count >= n,
            NumParams::Range(low, high) => low <= count && count <= high,
            NumParams::Variadic => true,
        }
    }

    /// Decides whether a call with `count` arguments is within this arity.
    pub fn accepts(&self, count: usize) -> (ok: bool)
        ensures
            ok == self.admits(count as nat),
    {
        match *self {
            NumParams::Unary => count == 1,
            NumParams::Exactly(n) => count == n,
            NumParams::AtLeast(n) => count >= n,
            NumParams::Range(low, high) => low <= count && count <= high,
            NumParams::Variadic => true,
        }
    }
}

/// Every way in which parsing or evaluating a rule fails.
#[derive(Debug)]
#[non_exhaustive]
pub enum Error {
    /// Data of the wrong shape.
    InvalidData { value: Value, reason: String },
    /// A name that is no identifier.
    InvalidIdentifier(String),
    /// An operator used in a way it does not allow.
    InvalidOperation { key: String, reason: String },
    /// A variable that cannot be read.
    InvalidVariable { value: Value, reason: String },
    /// A variable key of the wrong shape.
    InvalidVariableKey { value: Value, reason: String },
    /// An argument that the operation does not take.
    InvalidArgument { value: Value, operation: &'static str, reason: String },
    /// A data context that is no object where one is needed.
    InvalidVarMap(Value),
    /// A binary operation whose result no JSON number can hold: the
    /// operation and its two operands as text.
    OverflowBinaryOp(&'static str, String, String),
    /// A broken internal invariant.
    UnexpectedError(String),
    /// A call with a number of arguments outside the operator's arity.
    WrongArgumentCount { expected: NumParams, actual: usize },
}

impl NumParams {
    /// Checks the number of arguments of a call against this arity: the
    /// call passes where the arity admits it, and fails with the arity and
    /// the count where it does not.
    pub fn check(&self, actual: usize) -> (r: Result<(), Error>)
        ensures
            self.admits(actual as nat) ==> r is Ok,
            !self.admits(actual as nat) ==> r == Err::<(), Error>(
                Error::WrongArgumentCount { expected: *self, actual },
            ),
    {
        if self.accepts(actual) {
            Ok(())
        } else {
            Err(Error::wrong_argument_count(*self, actual))
        }
    }
}

impl Error {
    /// The failure `InvalidArgument` for `value`, handed to `operation`.
    pub fn invalid_argument(value: Value, operation: &'static str, reason: String) -> (e: Error)
        ensures
            e == (Error::InvalidArgument { value, operation, reason }),
    {
        Error::InvalidArgument { value, operation, reason }
    }

    /// The failure `WrongArgumentCount`.
    pub fn wrong_argument_count(expected: NumParams, actual: usize) -> (e: Error)
        ensures
            e == (Error::WrongArgumentCount { expected, actual }),
    {
        Error::WrongArgumentCount { expected, actual }
    }
}

} // verus!
