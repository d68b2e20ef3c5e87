use vstd::prelude::*;

use crate::EmuError;
use crate::command::Command;
use crate::cpu::{Cpu, CpuV, cpu_wf, spec_step, spec_update_ime};

verus! {

/// The stepping driver a debugger front end talks to: it owns the core and
/// remembers the last command so an empty line can repeat it.  Reading
/// lines is the front end's concern.
pub struct Debugger {
    pub cpu: Cpu,
    pub last_command: Option<Command>,
}

#[verifier::ext_equal]
pub struct DebuggerV {
    pub cpu: CpuV,
    pub last_command: Option<Command>,
}

impl View for Debugger {
    type V = DebuggerV;

    open spec fn view(&self) -> DebuggerV {
        DebuggerV { cpu: self.cpu@, last_command: self.last_command }
    }
}

/// The machine after `n` driver iterations, each advancing the delayed
/// interrupt-enable state and then running one instruction; the first
/// fatal fault ends the run.
pub open spec fn spec_drive(c: CpuV, n: nat) -> Result<CpuV, EmuError>
    decreases n,
{
    if n == 0 {
        Ok(c)
    } else {
        match spec_step(spec_update_ime(c)) {
            Err(e) => Err(e),
            Ok(c2) => spec_drive(c2, (n - 1) as nat),
        }
    }
}

impl Debugger {
    pub fn new(cpu: Cpu) -> (r: Debugger)
        ensures
            r@ == (DebuggerV { cpu: cpu@, last_command: None }),
    {
        Debugger { cpu, last_command: None }
    }

    /// Runs `count` driver iterations, stopping at the first fatal fault.
    pub fn step(&mut self, count: usize) -> (r: Result<(), EmuError>)
        requires
            cpu_wf(old(self)@.cpu),
        ensures
            (match spec_drive(old(self)@.cpu, count as nat) {
                Ok(c2) => r is Ok && final(self)@.cpu == c2,
                Err(e) => r == Err::<(), EmuError>(e),
            }),
            final(self)@.last_command == old(self)@.last_command,
            cpu_wf(final(self)@.cpu),
    {
        let mut i: usize = 0;
        while i < count
            invariant
                i <= count,
                cpu_wf(self@.cpu),
                self@.last_command == old(self)@.last_command,
                spec_drive(old(self)@.cpu, count as nat) == spec_drive(
                    self@.cpu,
                    (count - i) as nat,
                ),
            decreases count - i,
        {
            self.cpu.update_ime();
            match self.cpu.run_next_instruction() {
                Err(e) => {
                    return Err(e);
                },
                Ok(_) => {},
            }
            i = i + 1;
        }
        Ok(())
    }
}

} // verus!
