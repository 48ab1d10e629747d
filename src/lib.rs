//! The central processing unit of a Game Boy–class machine (an SM83 core):
//! register file, memory bus and an instruction executor whose every step is
//! specified against a mathematical model of the machine.
pub mod util;
pub mod reg;
pub mod mem;
pub mod alu;
pub mod isa;
pub mod cpu;
pub mod laws;

use vstd::prelude::*;
use crate::cpu::{Cpu, CpuError, reset_cpu};
use crate::isa::step_spec;
use crate::mem::Memory;

verus! {

/// The machine: the bus and the processor that drives it.
#[derive(Debug)]
pub struct Gameboy {
    pub mem: Memory,
    pub cpu: Cpu,
}

impl Gameboy {
    /// A reset processor over zeroed memory.
    pub fn new() -> (r: Gameboy)
        ensures
            r.cpu == reset_cpu(),
            r.mem@.wf(),
            forall|a: u16| #[trigger] r.mem@.read(a) == 0,
    {
        Gameboy { mem: Memory::new(), cpu: Cpu::new() }
    }

    /// Runs one instruction of the processor against the bus.
    pub fn step(&mut self) -> (r: Result<i8, CpuError>)
        ensures
            (final(self).cpu, final(self).mem@, r) == step_spec(old(self).cpu, old(self).mem@),
    {
        self.cpu.step(&mut self.mem)
    }
}

} // verus!
