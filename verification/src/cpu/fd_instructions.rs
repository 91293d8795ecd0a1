//! The `FD` prefix.

use vstd::prelude::*;
use crate::cpu::{outcome, Cpu, Index};
use crate::io::IoController;
use crate::memory::Memory;
use crate::tape::Tape;

verus! {

impl Cpu {
    /// Executes what follows an `FD` prefix.
    pub fn execute_fd_instruction(
        &mut self,
        memory: &mut Memory,
        io: &mut IoController,
        tape: &Option<Tape>,
    ) -> (cycles: u8)
        requires
            old(memory)@.wf(),
            old(io).wf(),
        ensures
            final(memory)@.wf(),
            *final(io) == *old(io),
            outcome(*final(self), final(memory)@, cycles) == old(self).prefixed_spec(
                old(memory)@,
                Index::IY,
                *old(io),
                *tape,
            ),
            4 <= cycles <= 23,
    {
        self.execute_prefixed(Index::IY, memory, io, tape)
    }
}

} // verus!
