//! The processor's registers, call stack and timers.

use vstd::prelude::*;

verus! {

/// Where execution starts, and where the program image is loaded.
pub const ENTRY: u16 = 0x200;

/// How many return addresses the call stack can hold.
pub const STACK_DEPTH: usize = 16;

/// The register file.
#[derive(Default, Debug)]
pub struct Register {
    /// The general registers V0 to VF; VF doubles as the flag register.
    pub v: Vec<u8>,
    /// The address register. Only its low 12 bits reach memory.
    pub i: u16,
    /// The program counter.
    pub pc: u16,
    /// The return addresses of the calls in progress, innermost last.
    pub stack: Vec<u16>,
    /// The sound timer.
    pub sound: u8,
    /// The delay timer.
    pub delay: u8,
}

impl Register {
    /// Sixteen general registers and a call stack within its depth.
    pub open spec fn wf(&self) -> bool {
        self.v@.len() == 16 && self.stack@.len() <= STACK_DEPTH
    }

    /// The registers at power-on: everything zero, the stack empty and the
    /// program counter at `ENTRY`.
    pub fn new() -> (register: Register)
        ensures
            register.wf(),
            register.v@ == Seq::new(16, |r: int| 0u8),
            register.i == 0,
            register.pc == ENTRY,
            register.stack@ == Seq::<u16>::empty(),
            register.sound == 0,
            register.delay == 0,
    {
        let v: Vec<u8> = vec![0x0; 0x10];
        assert(v@ =~= Seq::new(16, |r: int| 0u8));
        Register { v, i: 0, pc: ENTRY, stack: Vec::new(), sound: 0, delay: 0 }
    }
}

} // verus!
