//! Core structure for an interactive read-eval-print driver.
//!
//! The structure only holds the machine and the command history; the
//! input loop itself, with its prompting and printing, belongs to the
//! embedding application.

use vstd::prelude::*;

use crate::vm::Kaylee;

verus! {

/// Core structure for the interactive driver: the machine it drives
/// and the commands it has been given so far.
pub struct Repl {
    pub command_buffer: Vec<String>,
    pub vm: Kaylee,
}

impl Repl {
    /// Creates a new driver around a fresh machine with an empty
    /// command history.
    pub fn new() -> (r: Repl)
        ensures
            r.command_buffer@.len() == 0,
            r.vm@.wf(),
            r.vm@.program_counter == 0,
            !r.vm@.halted,
    {
        Repl { vm: Kaylee::new(), command_buffer: Vec::new() }
    }

    /// Records one entered command in the history.
    pub fn record_command(&mut self, command: String)
        ensures
            final(self).command_buffer@ == old(self).command_buffer@.push(command),
            final(self).vm == old(self).vm,
    {
        self.command_buffer.push(command);
    }
}

} // verus!
