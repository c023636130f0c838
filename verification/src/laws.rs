//! General properties of the instruction semantics, stated over the spec
//! step functions and proved once for all inputs.

use vstd::prelude::*;

use crate::dispatch::spec_decode;
use crate::dispatch::step_cycle;
use crate::dispatch::step_fetch;
use crate::dispatch::Instruction;
use crate::instructions::cond_equal_vx_byte;
use crate::instructions::cond_equal_vx_vy;
use crate::instructions::cond_not_equal_vx_byte;
use crate::instructions::cond_not_equal_vx_vy;
use crate::instructions::lemma_operand_bounds;
use crate::instructions::op_byte;
use crate::instructions::op_x;
use crate::instructions::op_y;
use crate::instructions::step_add_vx_byte;
use crate::instructions::step_add_vx_vy;
use crate::instructions::step_call;
use crate::instructions::step_ret;
use crate::instructions::step_shr_vx;
use crate::instructions::step_sub_vx_vy;
use crate::machine::MachineView;
use crate::machine::MEMORY_SIZE;

verus! {

/// Add immediate stores `(Vx + kk) mod 256` and has no flag side effect: no
/// register other than `Vx` moves, whichever register `x` names, and nothing
/// outside the register file moves either.
pub proof fn lemma_add_immediate(m: MachineView)
    requires
        m.wf(),
    ensures
        ({
            let x = op_x(m.opcode);
            let m2 = step_add_vx_byte(m);
            &&& m2.registers[x] == ((m.registers[x] + op_byte(m.opcode)) % 256) as u8
            &&& forall|j: int| 0 <= j < 16 && j != x ==> m2.registers[j] == m.registers[j]
            &&& m2 == (MachineView { registers: m2.registers, ..m })
        }),
{
    lemma_operand_bounds(m.opcode);
}

/// Add registers sets the flag register to 1 exactly when the unsigned sum
/// exceeds 255 and to 0 otherwise; the stored result equals the sum mod 256
/// whenever `Vx` is not the flag register itself, where the flag, written
/// last, wins.
pub proof fn lemma_add_registers(m: MachineView)
    requires
        m.wf(),
    ensures
        ({
            let x = op_x(m.opcode);
            let vx = m.registers[x];
            let vy = m.registers[op_y(m.opcode)];
            let m2 = step_add_vx_vy(m);
            &&& m2.registers[0xF] == (if vx + vy > 255 {
                1u8
            } else {
                0u8
            })
            &&& x != 0xF ==> m2.registers[x] == ((vx + vy) % 256) as u8
            &&& forall|j: int|
                0 <= j < 16 && j != x && j != 0xF ==> m2.registers[j] == m.registers[j]
            &&& m2 == (MachineView { registers: m2.registers, ..m })
        }),
{
    lemma_operand_bounds(m.opcode);
}

/// Subtract sets the flag register to 1 exactly when no borrow occurs, that
/// is when `Vx >= Vy` before the operation; the stored result equals
/// `(Vx - Vy) mod 256` whenever `Vx` is not the flag register itself.
pub proof fn lemma_subtract(m: MachineView)
    requires
        m.wf(),
    ensures
        ({
            let x = op_x(m.opcode);
            let vx = m.registers[x];
            let vy = m.registers[op_y(m.opcode)];
            let m2 = step_sub_vx_vy(m);
            &&& m2.registers[0xF] == (if vx >= vy {
                1u8
            } else {
                0u8
            })
            &&& x != 0xF ==> m2.registers[x] == ((vx - vy) % 256) as u8
            &&& forall|j: int|
                0 <= j < 16 && j != x && j != 0xF ==> m2.registers[j] == m.registers[j]
            &&& m2 == (MachineView { registers: m2.registers, ..m })
        }),
{
    lemma_operand_bounds(m.opcode);
}

/// Shift right always sets the flag register to the pre-shift least
/// significant bit of `Vx`, for every 8-bit value of `Vx`; the stored result
/// is the halved value whenever `Vx` is not the flag register itself.
pub proof fn lemma_shift_right(m: MachineView)
    requires
        m.wf(),
    ensures
        ({
            let x = op_x(m.opcode);
            let vx = m.registers[x];
            let m2 = step_shr_vx(m);
            &&& m2.registers[0xF] == (vx % 2) as u8
            &&& x != 0xF ==> m2.registers[x] == (vx / 2) as u8
            &&& forall|j: int|
                0 <= j < 16 && j != x && j != 0xF ==> m2.registers[j] == m.registers[j]
            &&& m2 == (MachineView { registers: m2.registers, ..m })
        }),
{
    lemma_operand_bounds(m.opcode);
}

/// A call followed immediately by a return restores both the program counter
/// and the stack pointer to their pre-call values, for any valid non-full
/// stack.
pub proof fn lemma_call_ret_round_trip(m: MachineView)
    requires
        m.wf(),
        m.sp < 16,
    ensures
        step_ret(step_call(m)).pc == m.pc,
        step_ret(step_call(m)).sp == m.sp,
{
}

/// Whether an instruction is one of the four conditional skips.
pub open spec fn is_skip(i: Instruction) -> bool {
    ||| i is SkipEqualVxByte
    ||| i is SkipNotEqualVxByte
    ||| i is SkipEqualVxVy
    ||| i is SkipNotEqualVxVy
}

/// The stated condition of a skip instruction, on the machine about to
/// execute it.
pub open spec fn skip_condition(m: MachineView) -> bool
    recommends
        is_skip(spec_decode(m.opcode)),
{
    match spec_decode(m.opcode) {
        Instruction::SkipEqualVxByte => cond_equal_vx_byte(m),
        Instruction::SkipNotEqualVxByte => cond_not_equal_vx_byte(m),
        Instruction::SkipEqualVxVy => cond_equal_vx_vy(m),
        Instruction::SkipNotEqualVxVy => cond_not_equal_vx_vy(m),
        _ => false,
    }
}

/// Dispatching a skip instruction moves the program counter by exactly one
/// of two amounts: a net 4 when the stated condition holds, a net 2 when it
/// does not — determined solely by that condition.
pub proof fn lemma_skip_net_advance(m: MachineView)
    requires
        m.wf(),
        m.pc + 1 < MEMORY_SIZE,
        is_skip(spec_decode(step_fetch(m).opcode)),
    ensures
        skip_condition(step_fetch(m)) ==> step_cycle(m).pc == m.pc + 4,
        !skip_condition(step_fetch(m)) ==> step_cycle(m).pc == m.pc + 2,
{
}

} // verus!
