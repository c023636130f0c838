//! Fetch, decode and dispatch: the opcode is read from memory at the program
//! counter, decoded into a closed set of instruction variants, and executed
//! through the verified instruction methods.
//!
//! Program-counter convention: `cycle` advances the counter by 2 after every
//! executed instruction except `Jump` and `Call`, which set it to their target
//! themselves. `Call` pushes the counter as it stood at call time, before that
//! advance, and `Return` does not add 2 itself: the advance that follows the
//! `Return` cycle is what resumes execution at the instruction after the call.
//! A skip instruction adds its own extra 2, producing a net 4-byte skip. An
//! opcode outside the implemented set is surfaced as a distinct error and
//! leaves everything but the fetched opcode untouched.

use vstd::prelude::*;

use crate::instructions::cond_equal_vx_byte;
use crate::instructions::cond_equal_vx_vy;
use crate::instructions::cond_not_equal_vx_byte;
use crate::instructions::cond_not_equal_vx_vy;
use crate::instructions::step_add_vx_byte;
use crate::instructions::step_add_vx_vy;
use crate::instructions::step_and_vx_vy;
use crate::instructions::step_call;
use crate::instructions::step_jump;
use crate::instructions::step_load_vx_byte;
use crate::instructions::step_load_vx_vy;
use crate::instructions::step_or_vx_vy;
use crate::instructions::step_ret;
use crate::instructions::step_shl_vx;
use crate::instructions::step_shr_vx;
use crate::instructions::step_skip;
use crate::instructions::step_sub_vx_vy;
use crate::instructions::step_subn_vx_vy;
use crate::instructions::step_xor_vx_vy;
use crate::machine::step_clear_display;
use crate::machine::Chip8;
use crate::machine::MachineView;
use crate::machine::MEMORY_SIZE;

verus! {

/// The closed set of implemented instruction families. Operand fields stay in
/// the fetched opcode and each executor extracts its own; an opcode that
/// matches no family decodes to `Unknown`.
#[derive(Clone, Copy, Debug, PartialEq, Eq, Structural)]
pub enum Instruction {
    ClearDisplay,
    Ret,
    Jump,
    Call,
    SkipEqualVxByte,
    SkipNotEqualVxByte,
    SkipEqualVxVy,
    LoadVxByte,
    LoadVxVy,
    AddVxByte,
    OrVxVy,
    AndVxVy,
    XorVxVy,
    AddVxVy,
    SubVxVy,
    ShrVx,
    SubnVxVy,
    ShlVx,
    SkipNotEqualVxVy,
    Unknown,
}

/// Failure of a dispatch.
#[derive(Debug, Clone, Copy, PartialEq, Eq, Structural)]
pub enum ExecuteError {
    /// The fetched opcode matches no implemented instruction family.
    UnknownOpcode,
}

impl ExecuteError {
    /// A short description of the failure.
    pub fn message(&self) -> (r: &'static str)
        ensures
            r@ == "unknown opcode"@,
    {
        match self {
            ExecuteError::UnknownOpcode => "unknown opcode",
        }
    }
}

/// The instruction family an opcode decodes to.
pub open spec fn spec_decode(op: u16) -> Instruction {
    if op == 0x00E0 {
        Instruction::ClearDisplay
    } else if op == 0x00EE {
        Instruction::Ret
    } else if op >> 12 == 0x1 {
        Instruction::Jump
    } else if op >> 12 == 0x2 {
        Instruction::Call
    } else if op >> 12 == 0x3 {
        Instruction::SkipEqualVxByte
    } else if op >> 12 == 0x4 {
        Instruction::SkipNotEqualVxByte
    } else if op >> 12 == 0x5 && op & 0x000F == 0x0 {
        Instruction::SkipEqualVxVy
    } else if op >> 12 == 0x6 {
        Instruction::LoadVxByte
    } else if op >> 12 == 0x7 {
        Instruction::AddVxByte
    } else if op >> 12 == 0x8 && op & 0x000F == 0x0 {
        Instruction::LoadVxVy
    } else if op >> 12 == 0x8 && op & 0x000F == 0x1 {
        Instruction::OrVxVy
    } else if op >> 12 == 0x8 && op & 0x000F == 0x2 {
        Instruction::AndVxVy
    } else if op >> 12 == 0x8 && op & 0x000F == 0x3 {
        Instruction::XorVxVy
    } else if op >> 12 == 0x8 && op & 0x000F == 0x4 {
        Instruction::AddVxVy
    } else if op >> 12 == 0x8 && op & 0x000F == 0x5 {
        Instruction::SubVxVy
    } else if op >> 12 == 0x8 && op & 0x000F == 0x6 {
        Instruction::ShrVx
    } else if op >> 12 == 0x8 && op & 0x000F == 0x7 {
        Instruction::SubnVxVy
    } else if op >> 12 == 0x8 && op & 0x000F == 0xE {
        Instruction::ShlVx
    } else if op >> 12 == 0x9 && op & 0x000F == 0x0 {
        Instruction::SkipNotEqualVxVy
    } else {
        Instruction::Unknown
    }
}

/// Decode an opcode into its instruction family.
pub fn decode(op: u16) -> (r: Instruction)
    ensures
        r == spec_decode(op),
{
    if op == 0x00E0 {
        Instruction::ClearDisplay
    } else if op == 0x00EE {
        Instruction::Ret
    } else if op >> 12 == 0x1 {
        Instruction::Jump
    } else if op >> 12 == 0x2 {
        Instruction::Call
    } else if op >> 12 == 0x3 {
        Instruction::SkipEqualVxByte
    } else if op >> 12 == 0x4 {
        Instruction::SkipNotEqualVxByte
    } else if op >> 12 == 0x5 && op & 0x000F == 0x0 {
        Instruction::SkipEqualVxVy
    } else if op >> 12 == 0x6 {
        Instruction::LoadVxByte
    } else if op >> 12 == 0x7 {
        Instruction::AddVxByte
    } else if op >> 12 == 0x8 && op & 0x000F == 0x0 {
        Instruction::LoadVxVy
    } else if op >> 12 == 0x8 && op & 0x000F == 0x1 {
        Instruction::OrVxVy
    } else if op >> 12 == 0x8 && op & 0x000F == 0x2 {
        Instruction::AndVxVy
    } else if op >> 12 == 0x8 && op & 0x000F == 0x3 {
        Instruction::XorVxVy
    } else if op >> 12 == 0x8 && op & 0x000F == 0x4 {
        Instruction::AddVxVy
    } else if op >> 12 == 0x8 && op & 0x000F == 0x5 {
        Instruction::SubVxVy
    } else if op >> 12 == 0x8 && op & 0x000F == 0x6 {
        Instruction::ShrVx
    } else if op >> 12 == 0x8 && op & 0x000F == 0x7 {
        Instruction::SubnVxVy
    } else if op >> 12 == 0x8 && op & 0x000F == 0xE {
        Instruction::ShlVx
    } else if op >> 12 == 0x9 && op & 0x000F == 0x0 {
        Instruction::SkipNotEqualVxVy
    } else {
        Instruction::Unknown
    }
}

/// The model of the machine after a fetch: the two memory bytes at the
/// program counter form the opcode, high byte first.
pub open spec fn step_fetch(m: MachineView) -> MachineView
    recommends
        m.pc + 1 < m.memory.len(),
{
    MachineView { opcode: (m.memory[m.pc as int] * 256 + m.memory[m.pc + 1]) as u16, ..m }
}

/// What `execute` asks of the state: the stack has room for a call and an
/// entry for a return, and a skip about to be taken leaves the counter
/// addable. Instructions outside these families ask nothing.
pub open spec fn can_execute(m: MachineView) -> bool {
    &&& spec_decode(m.opcode) is Ret ==> 1 <= m.sp <= 16
    &&& spec_decode(m.opcode) is Call ==> m.sp < 16
    &&& spec_decode(m.opcode) is SkipEqualVxByte && cond_equal_vx_byte(m) ==> m.pc + 2
        <= u16::MAX
    &&& spec_decode(m.opcode) is SkipNotEqualVxByte && cond_not_equal_vx_byte(m) ==> m.pc + 2
        <= u16::MAX
    &&& spec_decode(m.opcode) is SkipEqualVxVy && cond_equal_vx_vy(m) ==> m.pc + 2 <= u16::MAX
    &&& spec_decode(m.opcode) is SkipNotEqualVxVy && cond_not_equal_vx_vy(m) ==> m.pc + 2
        <= u16::MAX
}

/// The semantic effect of the current opcode on the machine: the step
/// function of its family, or the state unchanged when no family matches.
pub open spec fn step_execute(m: MachineView) -> MachineView {
    match spec_decode(m.opcode) {
        Instruction::ClearDisplay => step_clear_display(m),
        Instruction::Ret => step_ret(m),
        Instruction::Jump => step_jump(m),
        Instruction::Call => step_call(m),
        Instruction::SkipEqualVxByte => step_skip(m, cond_equal_vx_byte(m)),
        Instruction::SkipNotEqualVxByte => step_skip(m, cond_not_equal_vx_byte(m)),
        Instruction::SkipEqualVxVy => step_skip(m, cond_equal_vx_vy(m)),
        Instruction::LoadVxByte => step_load_vx_byte(m),
        Instruction::LoadVxVy => step_load_vx_vy(m),
        Instruction::AddVxByte => step_add_vx_byte(m),
        Instruction::OrVxVy => step_or_vx_vy(m),
        Instruction::AndVxVy => step_and_vx_vy(m),
        Instruction::XorVxVy => step_xor_vx_vy(m),
        Instruction::AddVxVy => step_add_vx_vy(m),
        Instruction::SubVxVy => step_sub_vx_vy(m),
        Instruction::ShrVx => step_shr_vx(m),
        Instruction::SubnVxVy => step_subn_vx_vy(m),
        Instruction::ShlVx => step_shl_vx(m),
        Instruction::SkipNotEqualVxVy => step_skip(m, cond_not_equal_vx_vy(m)),
        Instruction::Unknown => m,
    }
}

/// Whether an instruction sets the program counter to a target of its own,
/// suppressing the cycle's default advance.
pub open spec fn redirects(i: Instruction) -> bool {
    i is Jump || i is Call
}

/// What a whole cycle asks of the state: the fetch stays in memory, the
/// fetched instruction can execute, and a popped return address leaves the
/// counter addable for the advance that follows the return.
pub open spec fn can_cycle(m: MachineView) -> bool {
    &&& m.pc + 1 < MEMORY_SIZE
    &&& can_execute(step_fetch(m))
    &&& spec_decode(step_fetch(m).opcode) is Ret ==> m.stack[m.sp - 1] + 2 <= u16::MAX
}

/// The model of one fetch-decode-execute cycle, including the default
/// advance of the program counter.
pub open spec fn step_cycle(m: MachineView) -> MachineView {
    let fetched = step_fetch(m);
    let decoded = spec_decode(fetched.opcode);
    if decoded is Unknown {
        fetched
    } else if redirects(decoded) {
        step_execute(fetched)
    } else {
        let executed = step_execute(fetched);
        MachineView { pc: (executed.pc + 2) as u16, ..executed }
    }
}

impl Chip8 {
    /// Fetch the two-byte instruction at the program counter into the opcode
    /// field, high byte first.
    pub fn fetch(&mut self)
        requires
            old(self).pc + 1 < 4096,
        ensures
            final(self)@ == step_fetch(old(self)@),
    {
        let hi = self.memory[self.pc as usize];
        let lo = self.memory[self.pc as usize + 1];
        self.opcode = (hi as u16) * 256 + (lo as u16);
    }

    /// Decode and apply the already fetched opcode. Succeeds exactly when the
    /// opcode belongs to an implemented family; an unknown opcode is reported
    /// and changes nothing.
    pub fn execute(&mut self) -> (result: Result<(), ExecuteError>)
        requires
            can_execute(old(self)@),
        ensures
            final(self)@ == step_execute(old(self)@),
            result is Ok <==> !(spec_decode(old(self).opcode) is Unknown),
            result is Err ==> result == Err::<(), ExecuteError>(ExecuteError::UnknownOpcode),
    {
        match decode(self.opcode) {
            Instruction::ClearDisplay => {
                self.clear_display();
                Ok(())
            },
            Instruction::Ret => {
                self.ret();
                Ok(())
            },
            Instruction::Jump => {
                self.jump();
                Ok(())
            },
            Instruction::Call => {
                self.call();
                Ok(())
            },
            Instruction::SkipEqualVxByte => {
                self.skip_equal_vx_byte();
                Ok(())
            },
            Instruction::SkipNotEqualVxByte => {
                self.skip_not_equal_vx_byte();
                Ok(())
            },
            Instruction::SkipEqualVxVy => {
                self.skip_equal_vx_vy();
                Ok(())
            },
            Instruction::LoadVxByte => {
                self.load_vx_byte();
                Ok(())
            },
            Instruction::LoadVxVy => {
                self.load_vx_vy();
                Ok(())
            },
            Instruction::AddVxByte => {
                self.add_vx_byte();
                Ok(())
            },
            Instruction::OrVxVy => {
                self.or_vx_vy();
                Ok(())
            },
            Instruction::AndVxVy => {
                self.and_vx_vy();
                Ok(())
            },
            Instruction::XorVxVy => {
                self.xor_vx_vy();
                Ok(())
            },
            Instruction::AddVxVy => {
                self.add_vx_vy();
                Ok(())
            },
            Instruction::SubVxVy => {
                self.sub_vx_vy();
                Ok(())
            },
            Instruction::ShrVx => {
                self.shr_vx();
                Ok(())
            },
            Instruction::SubnVxVy => {
                self.subn_vx_vy();
                Ok(())
            },
            Instruction::ShlVx => {
                self.shl_vx();
                Ok(())
            },
            Instruction::SkipNotEqualVxVy => {
                self.skip_not_equal_vx_vy();
                Ok(())
            },
            Instruction::Unknown => Err(ExecuteError::UnknownOpcode),
        }
    }

    /// One fetch-decode-execute cycle: fetch the opcode at the program
    /// counter, apply its effect, then advance the counter by 2 unless the
    /// instruction set it to a target of its own or was unknown.
    pub fn cycle(&mut self) -> (result: Result<(), ExecuteError>)
        requires
            can_cycle(old(self)@),
        ensures
            final(self)@ == step_cycle(old(self)@),
            result is Ok <==> !(spec_decode(step_fetch(old(self)@).opcode) is Unknown),
            result is Err ==> result == Err::<(), ExecuteError>(ExecuteError::UnknownOpcode),
    {
        self.fetch();
        let instruction = decode(self.opcode);
        match self.execute() {
            Ok(()) => {
                let redirect = match instruction {
                    Instruction::Jump => true,
                    Instruction::Call => true,
                    _ => false,
                };
                if !redirect {
                    self.pc += 2;
                }
                Ok(())
            },
            Err(e) => Err(e),
        }
    }
}

} // verus!
