//! The three kinds of identity that a token can stand for.

use vstd::prelude::*;

verus! {

/// The variant of a token, told by the first character of its subject.
#[derive(Debug, PartialEq, Eq, Clone, Copy, Structural)]
pub enum TokenType {
    Actor,
    Account,
    Operator,
}

} // verus!
