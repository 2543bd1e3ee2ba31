//! Assembly-source types and the assembler that turns tokenized
//! assembly lines into bytecode.

pub mod assembler;

use vstd::prelude::*;

verus! {

/// A piece of assembly source text.
pub struct Source {
    pub body: String,
}

impl Source {
    /// Wraps a string of assembly source text.
    pub fn from(body: String) -> (r: Self)
        ensures
            r.body@ == body@,
    {
        Self { body }
    }
}

/// Tokenized assembly: one vector of tokens per source line, the
/// mnemonic first, then one token per operand with its `$` or `#`
/// prefix already stripped.
pub type Parsed<'a> = Vec<Vec<&'a str>>;

} // verus!
