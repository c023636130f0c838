//! The instruction engine: decoding of the fetched opcode and the semantic
//! effect of each instruction on the machine state.
//!
//! Every instruction has a spec-level step function giving its meaning as a
//! transformation of `MachineView`; the executable method is proved to apply
//! exactly that transformation. None of the instructions fetches: they consume
//! the already fetched `opcode` field, and the caller's default two-byte
//! advance of the program counter is outside their scope.

use vstd::prelude::*;

use crate::machine::Chip8;
use crate::machine::MachineView;

verus! {

/// Register index `x` from bits 8-11 of the opcode.
pub open spec fn op_x(op: u16) -> int {
    ((op & 0x0F00) >> 8) as int
}

/// Register index `y` from bits 4-7 of the opcode.
pub open spec fn op_y(op: u16) -> int {
    ((op & 0x00F0) >> 4) as int
}

/// Immediate `kk` from the low 8 bits of the opcode.
pub open spec fn op_byte(op: u16) -> u8 {
    (op & 0x00FF) as u8
}

/// Address `nnn` from the low 12 bits of the opcode.
pub open spec fn op_addr(op: u16) -> u16 {
    op & 0x0FFF
}

/// Ranges of the decoded operand fields.
pub proof fn lemma_operand_bounds(op: u16)
    by (bit_vector)
    ensures
        (op & 0x0F00) >> 8 < 16,
        (op & 0x00F0) >> 4 < 16,
        op & 0x00FF < 256,
        op & 0x0FFF < 4096,
{
}

/// Register index `x` of an opcode.
fn decode_x(op: u16) -> (r: usize)
    ensures
        r == op_x(op),
        r < 16,
{
    proof {
        lemma_operand_bounds(op);
    }
    ((op & 0x0F00) >> 8) as usize
}

/// Register index `y` of an opcode.
fn decode_y(op: u16) -> (r: usize)
    ensures
        r == op_y(op),
        r < 16,
{
    proof {
        lemma_operand_bounds(op);
    }
    ((op & 0x00F0) >> 4) as usize
}

/// Immediate `kk` of an opcode.
fn decode_byte(op: u16) -> (r: u8)
    ensures
        r == op_byte(op),
{
    proof {
        lemma_operand_bounds(op);
    }
    (op & 0x00FF) as u8
}

/// Address `nnn` of an opcode.
fn decode_addr(op: u16) -> (r: u16)
    ensures
        r == op_addr(op),
        r < 4096,
{
    proof {
        lemma_operand_bounds(op);
    }
    op & 0x0FFF
}

/// Registers after an arithmetic instruction: result for `Vx` and flag for
/// `VF`, both computed from the original operand values, the flag written
/// last. When `x` is `0xF` itself the flag therefore wins.
pub open spec fn regs_result_then_flag(regs: Seq<u8>, x: int, result: u8, flag: u8) -> Seq<u8> {
    regs.update(x, result).update(0xF, flag)
}

/// Registers after a shift left: here the flag is written first and the
/// result last, so the result wins when `x` is `0xF` itself.
pub open spec fn regs_flag_then_result(regs: Seq<u8>, x: int, result: u8, flag: u8) -> Seq<u8> {
    regs.update(0xF, flag).update(x, result)
}

/// `00EE`: pop the return address pushed by the matching call.
pub open spec fn step_ret(m: MachineView) -> MachineView
    recommends
        1 <= m.sp <= m.stack.len(),
{
    MachineView { sp: (m.sp - 1) as u8, pc: m.stack[m.sp - 1], ..m }
}

/// `1nnn`: jump to `nnn`.
pub open spec fn step_jump(m: MachineView) -> MachineView {
    MachineView { pc: op_addr(m.opcode), ..m }
}

/// `2nnn`: push the pre-jump program counter, then jump to `nnn`.
pub open spec fn step_call(m: MachineView) -> MachineView
    recommends
        m.sp < m.stack.len(),
{
    MachineView {
        stack: m.stack.update(m.sp as int, m.pc),
        sp: (m.sp + 1) as u8,
        pc: op_addr(m.opcode),
        ..m
    }
}

/// The extra two-byte advance of a skip instruction whose condition holds; a
/// skip whose condition fails leaves the machine untouched. Together with the
/// caller's default advance this makes the net effect 4 or 2 bytes.
pub open spec fn step_skip(m: MachineView, cond: bool) -> MachineView {
    if cond {
        MachineView { pc: (m.pc + 2) as u16, ..m }
    } else {
        m
    }
}

/// Condition of `3xkk`: `Vx` equals `kk`.
pub open spec fn cond_equal_vx_byte(m: MachineView) -> bool {
    m.registers[op_x(m.opcode)] == op_byte(m.opcode)
}

/// Condition of `4xkk`: `Vx` differs from `kk`.
pub open spec fn cond_not_equal_vx_byte(m: MachineView) -> bool {
    m.registers[op_x(m.opcode)] != op_byte(m.opcode)
}

/// Condition of `5xy0`: `Vx` equals `Vy`.
pub open spec fn cond_equal_vx_vy(m: MachineView) -> bool {
    m.registers[op_x(m.opcode)] == m.registers[op_y(m.opcode)]
}

/// Condition of `9xy0`: `Vx` differs from `Vy`.
pub open spec fn cond_not_equal_vx_vy(m: MachineView) -> bool {
    m.registers[op_x(m.opcode)] != m.registers[op_y(m.opcode)]
}

/// `6xkk`: `Vx <- kk`.
pub open spec fn step_load_vx_byte(m: MachineView) -> MachineView {
    MachineView { registers: m.registers.update(op_x(m.opcode), op_byte(m.opcode)), ..m }
}

/// `8xy0`: `Vx <- Vy`.
pub open spec fn step_load_vx_vy(m: MachineView) -> MachineView {
    MachineView {
        registers: m.registers.update(op_x(m.opcode), m.registers[op_y(m.opcode)]),
        ..m
    }
}

/// `7xkk`: `Vx <- (Vx + kk) mod 256`, with no flag effect.
pub open spec fn step_add_vx_byte(m: MachineView) -> MachineView {
    let x = op_x(m.opcode);
    MachineView {
        registers: m.registers.update(x, ((m.registers[x] + op_byte(m.opcode)) % 256) as u8),
        ..m
    }
}

/// `8xy1`: `Vx <- Vx | Vy`.
pub open spec fn step_or_vx_vy(m: MachineView) -> MachineView {
    let x = op_x(m.opcode);
    MachineView {
        registers: m.registers.update(x, m.registers[x] | m.registers[op_y(m.opcode)]),
        ..m
    }
}

/// `8xy2`: `Vx <- Vx & Vy`.
pub open spec fn step_and_vx_vy(m: MachineView) -> MachineView {
    let x = op_x(m.opcode);
    MachineView {
        registers: m.registers.update(x, m.registers[x] & m.registers[op_y(m.opcode)]),
        ..m
    }
}

/// `8xy3`: `Vx <- Vx ^ Vy`.
pub open spec fn step_xor_vx_vy(m: MachineView) -> MachineView {
    let x = op_x(m.opcode);
    MachineView {
        registers: m.registers.update(x, m.registers[x] ^ m.registers[op_y(m.opcode)]),
        ..m
    }
}

/// `8xy4`: `Vx <- (Vx + Vy) mod 256`; `VF <- 1` exactly when the unsigned sum
/// exceeds 255, else 0.
pub open spec fn step_add_vx_vy(m: MachineView) -> MachineView {
    let vx = m.registers[op_x(m.opcode)];
    let vy = m.registers[op_y(m.opcode)];
    MachineView {
        registers: regs_result_then_flag(
            m.registers,
            op_x(m.opcode),
            ((vx + vy) % 256) as u8,
            if vx + vy > 255 {
                1u8
            } else {
                0u8
            },
        ),
        ..m
    }
}

/// `8xy5`: `Vx <- (Vx - Vy) mod 256`; `VF <- 1` exactly when no borrow
/// occurred, that is when `Vx >= Vy` before the operation.
pub open spec fn step_sub_vx_vy(m: MachineView) -> MachineView {
    let vx = m.registers[op_x(m.opcode)];
    let vy = m.registers[op_y(m.opcode)];
    MachineView {
        registers: regs_result_then_flag(
            m.registers,
            op_x(m.opcode),
            ((vx - vy) % 256) as u8,
            if vx >= vy {
                1u8
            } else {
                0u8
            },
        ),
        ..m
    }
}

/// `8xy6`: `VF <- ` the pre-shift least significant bit of `Vx`;
/// `Vx <- Vx >> 1`. Both are computed from the original value and the flag is
/// written last.
pub open spec fn step_shr_vx(m: MachineView) -> MachineView {
    let vx = m.registers[op_x(m.opcode)];
    MachineView {
        registers: regs_result_then_flag(
            m.registers,
            op_x(m.opcode),
            (vx / 2) as u8,
            (vx % 2) as u8,
        ),
        ..m
    }
}

/// `8xy7`: `Vx <- (Vy - Vx) mod 256`; `VF <- 1` exactly when no borrow
/// occurred, that is when `Vy >= Vx` before the operation.
pub open spec fn step_subn_vx_vy(m: MachineView) -> MachineView {
    let vx = m.registers[op_x(m.opcode)];
    let vy = m.registers[op_y(m.opcode)];
    MachineView {
        registers: regs_result_then_flag(
            m.registers,
            op_x(m.opcode),
            ((vy - vx) % 256) as u8,
            if vy >= vx {
                1u8
            } else {
                0u8
            },
        ),
        ..m
    }
}

/// `8xyE`: `Vx <- (2 * Vx) mod 256`; `VF <- 1` exactly when the doubling
/// overflows 8 bits. The flag is written first and the result last.
pub open spec fn step_shl_vx(m: MachineView) -> MachineView {
    let vx = m.registers[op_x(m.opcode)];
    MachineView {
        registers: regs_flag_then_result(
            m.registers,
            op_x(m.opcode),
            ((2 * vx) % 256) as u8,
            if 2 * vx > 255 {
                1u8
            } else {
                0u8
            },
        ),
        ..m
    }
}

impl Chip8 {
    /// `00EE`: return from a subroutine.
    pub fn ret(&mut self)
        requires
            1 <= old(self).sp <= 16,
        ensures
            final(self)@ == step_ret(old(self)@),
    {
        self.sp = self.sp - 1;
        self.pc = self.stack[self.sp as usize];
    }

    /// `1nnn`: jump.
    pub fn jump(&mut self)
        ensures
            final(self)@ == step_jump(old(self)@),
    {
        self.pc = decode_addr(self.opcode);
    }

    /// `2nnn`: call a subroutine.
    pub fn call(&mut self)
        requires
            old(self).sp < 16,
        ensures
            final(self)@ == step_call(old(self)@),
    {
        self.stack[self.sp as usize] = self.pc;
        self.sp = self.sp + 1;
        self.pc = decode_addr(self.opcode);
    }

    /// `3xkk`: skip the next instruction if `Vx` equals `kk`.
    pub fn skip_equal_vx_byte(&mut self)
        requires
            cond_equal_vx_byte(old(self)@) ==> old(self).pc + 2 <= u16::MAX,
        ensures
            final(self)@ == step_skip(old(self)@, cond_equal_vx_byte(old(self)@)),
    {
        let x = decode_x(self.opcode);
        let byte = decode_byte(self.opcode);
        if self.registers[x] == byte {
            self.pc += 2;
        }
    }

    /// `4xkk`: skip the next instruction if `Vx` differs from `kk`.
    pub fn skip_not_equal_vx_byte(&mut self)
        requires
            cond_not_equal_vx_byte(old(self)@) ==> old(self).pc + 2 <= u16::MAX,
        ensures
            final(self)@ == step_skip(old(self)@, cond_not_equal_vx_byte(old(self)@)),
    {
        let x = decode_x(self.opcode);
        let byte = decode_byte(self.opcode);
        if self.registers[x] != byte {
            self.pc += 2;
        }
    }

    /// `5xy0`: skip the next instruction if `Vx` equals `Vy`.
    pub fn skip_equal_vx_vy(&mut self)
        requires
            cond_equal_vx_vy(old(self)@) ==> old(self).pc + 2 <= u16::MAX,
        ensures
            final(self)@ == step_skip(old(self)@, cond_equal_vx_vy(old(self)@)),
    {
        let x = decode_x(self.opcode);
        let y = decode_y(self.opcode);
        if self.registers[x] == self.registers[y] {
            self.pc += 2;
        }
    }

    /// `9xy0`: skip the next instruction if `Vx` differs from `Vy`.
    pub fn skip_not_equal_vx_vy(&mut self)
        requires
            cond_not_equal_vx_vy(old(self)@) ==> old(self).pc + 2 <= u16::MAX,
        ensures
            final(self)@ == step_skip(old(self)@, cond_not_equal_vx_vy(old(self)@)),
    {
        let x = decode_x(self.opcode);
        let y = decode_y(self.opcode);
        if self.registers[x] != self.registers[y] {
            self.pc += 2;
        }
    }

    /// `6xkk`: load an immediate into `Vx`.
    pub fn load_vx_byte(&mut self)
        ensures
            final(self)@ == step_load_vx_byte(old(self)@),
    {
        let x = decode_x(self.opcode);
        let byte = decode_byte(self.opcode);
        self.registers[x] = byte;
    }

    /// `8xy0`: copy `Vy` into `Vx`.
    pub fn load_vx_vy(&mut self)
        ensures
            final(self)@ == step_load_vx_vy(old(self)@),
    {
        let x = decode_x(self.opcode);
        let y = decode_y(self.opcode);
        self.registers[x] = self.registers[y];
    }

    /// `7xkk`: add an immediate to `Vx` with 8-bit wraparound; no flag effect.
    pub fn add_vx_byte(&mut self)
        ensures
            final(self)@ == step_add_vx_byte(old(self)@),
    {
        let x = decode_x(self.opcode);
        let byte = decode_byte(self.opcode);
        self.registers[x] = self.registers[x].wrapping_add(byte);
    }

    /// `8xy1`: bitwise OR of `Vx` and `Vy` into `Vx`.
    pub fn or_vx_vy(&mut self)
        ensures
            final(self)@ == step_or_vx_vy(old(self)@),
    {
        let x = decode_x(self.opcode);
        let y = decode_y(self.opcode);
        self.registers[x] = self.registers[x] | self.registers[y];
    }

    /// `8xy2`: bitwise AND of `Vx` and `Vy` into `Vx`.
    pub fn and_vx_vy(&mut self)
        ensures
            final(self)@ == step_and_vx_vy(old(self)@),
    {
        let x = decode_x(self.opcode);
        let y = decode_y(self.opcode);
        self.registers[x] = self.registers[x] & self.registers[y];
    }

    /// `8xy3`: bitwise XOR of `Vx` and `Vy` into `Vx`.
    pub fn xor_vx_vy(&mut self)
        ensures
            final(self)@ == step_xor_vx_vy(old(self)@),
    {
        let x = decode_x(self.opcode);
        let y = decode_y(self.opcode);
        self.registers[x] = self.registers[x] ^ self.registers[y];
    }

    /// `8xy4`: add `Vy` to `Vx` with 8-bit wraparound, recording overflow in
    /// the flag register.
    pub fn add_vx_vy(&mut self)
        ensures
            final(self)@ == step_add_vx_vy(old(self)@),
    {
        let x = decode_x(self.opcode);
        let y = decode_y(self.opcode);
        let vx = self.registers[x];
        let vy = self.registers[y];
        let result = vx.wrapping_add(vy);
        let flag: u8 = if (vx as u16) + (vy as u16) > 255 {
            1
        } else {
            0
        };
        self.registers[x] = result;
        self.registers[0xF] = flag;
    }

    /// `8xy5`: subtract `Vy` from `Vx` with 8-bit wraparound, recording the
    /// absence of a borrow in the flag register.
    pub fn sub_vx_vy(&mut self)
        ensures
            final(self)@ == step_sub_vx_vy(old(self)@),
    {
        let x = decode_x(self.opcode);
        let y = decode_y(self.opcode);
        let vx = self.registers[x];
        let vy = self.registers[y];
        let result = vx.wrapping_sub(vy);
        let flag: u8 = if vx >= vy {
            1
        } else {
            0
        };
        self.registers[x] = result;
        self.registers[0xF] = flag;
    }

    /// `8xy6`: shift `Vx` right by one, recording the pre-shift least
    /// significant bit in the flag register.
    pub fn shr_vx(&mut self)
        ensures
            final(self)@ == step_shr_vx(old(self)@),
    {
        let x = decode_x(self.opcode);
        let vx = self.registers[x];
        let result = vx >> 1;
        let lsb = vx & 1;
        proof {
            assert(vx >> 1 == vx / 2) by (bit_vector);
            assert(vx & 1 == vx % 2) by (bit_vector);
        }
        self.registers[x] = result;
        self.registers[0xF] = lsb;
    }

    /// `8xy7`: store `Vy - Vx` (8-bit wraparound) in `Vx`, recording the
    /// absence of a borrow in the flag register.
    pub fn subn_vx_vy(&mut self)
        ensures
            final(self)@ == step_subn_vx_vy(old(self)@),
    {
        let x = decode_x(self.opcode);
        let y = decode_y(self.opcode);
        let vx = self.registers[x];
        let vy = self.registers[y];
        let result = vy.wrapping_sub(vx);
        let flag: u8 = if vy >= vx {
            1
        } else {
            0
        };
        self.registers[x] = result;
        self.registers[0xF] = flag;
    }

    /// `8xyE`: shift `Vx` left by one (8-bit wraparound), recording the
    /// shifted-out bit in the flag register. Flag first, result last.
    pub fn shl_vx(&mut self)
        ensures
            final(self)@ == step_shl_vx(old(self)@),
    {
        let x = decode_x(self.opcode);
        let vx = self.registers[x];
        let doubled = (vx as u16) * 2;
        let result = (doubled % 256) as u8;
        let flag: u8 = if doubled > 255 {
            1
        } else {
            0
        };
        self.registers[0xF] = flag;
        self.registers[x] = result;
    }
}

} // verus!
