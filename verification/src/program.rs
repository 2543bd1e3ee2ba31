//! The program byte stream executed by the virtual machine.

use vstd::prelude::*;

verus! {

/// A byte offset into a [`Program`].
pub type ProgramIndex = usize;

/// An immutable, ordered sequence of bytecode bytes.
///
/// The machine only ever reads a program; nothing here mutates one
/// during a run. Its mathematical model is the sequence of its bytes.
#[derive(Debug, PartialEq)]
pub struct Program {
    bytes: Vec<u8>,
}

impl View for Program {
    type V = Seq<u8>;

    closed spec fn view(&self) -> Seq<u8> {
        self.bytes@
    }
}

impl Program {
    /// Creates an empty program.
    pub fn new() -> (r: Self)
        ensures
            r@ == Seq::<u8>::empty(),
    {
        Program { bytes: Vec::new() }
    }

    /// Wraps a byte vector as a program.
    pub fn from(bytes: Vec<u8>) -> (r: Self)
        ensures
            r@ == bytes@,
    {
        Program { bytes }
    }

    /// The number of bytes in the program.
    pub fn len(&self) -> (r: usize)
        ensures
            r == self@.len(),
    {
        self.bytes.len()
    }

    /// Reads the byte at `index`.
    pub fn read(&self, index: ProgramIndex) -> (r: u8)
        requires
            index < self@.len(),
        ensures
            r == self@[index as int],
    {
        self.bytes[index]
    }

    /// Appends the bytes of `other` to this program.
    pub fn extend(&mut self, other: Program)
        ensures
            final(self)@ == old(self)@ + other@,
    {
        let mut rest = other.bytes;
        self.bytes.append(&mut rest);
    }
}

} // verus!
