//! The machine state: memory, registers, program counter, call stack, keypad,
//! framebuffer, timers and the currently fetched opcode.

use vstd::prelude::*;

use crate::font::font;
use crate::font::font_table;
use crate::font::FONT_SIZE;
use crate::font::FONT_START;

verus! {

/// Number of addressable memory cells.
pub const MEMORY_SIZE: usize = 4096;

/// Number of general-purpose registers.
pub const NUM_REGISTERS: usize = 16;

/// Number of call-stack entries.
pub const STACK_SIZE: usize = 16;

/// Number of keypad keys.
pub const NUM_KEYS: usize = 16;

/// Number of framebuffer cells (64 columns by 32 rows, row-major).
pub const VIDEO_SIZE: usize = 64 * 32;

/// Address where a program image is placed and where execution starts.
pub const PC_START: u16 = 0x200;

/// The canonical CHIP-8 machine state.
pub struct Chip8 {
    pub registers: [u8; NUM_REGISTERS],
    pub memory: [u8; MEMORY_SIZE],
    pub index: u16,
    pub pc: u16,
    pub stack: [u16; STACK_SIZE],
    pub sp: u8,
    pub keypad: [bool; NUM_KEYS],
    pub video: [bool; VIDEO_SIZE],
    pub opcode: u16,
    pub delay_timer: u8,
    pub sound_timer: u8,
}

/// Mathematical model of the machine state: the fixed-size arrays as sequences.
#[verifier::ext_equal]
pub ghost struct MachineView {
    pub registers: Seq<u8>,
    pub memory: Seq<u8>,
    pub index: u16,
    pub pc: u16,
    pub stack: Seq<u16>,
    pub sp: u8,
    pub keypad: Seq<bool>,
    pub video: Seq<bool>,
    pub opcode: u16,
    pub delay_timer: u8,
    pub sound_timer: u8,
}

impl View for Chip8 {
    type V = MachineView;

    open spec fn view(&self) -> MachineView {
        MachineView {
            registers: self.registers@,
            memory: self.memory@,
            index: self.index,
            pc: self.pc,
            stack: self.stack@,
            sp: self.sp,
            keypad: self.keypad@,
            video: self.video@,
            opcode: self.opcode,
            delay_timer: self.delay_timer,
            sound_timer: self.sound_timer,
        }
    }
}

impl MachineView {
    /// The sequence lengths that every real machine state has.
    pub open spec fn wf(self) -> bool {
        &&& self.registers.len() == NUM_REGISTERS
        &&& self.memory.len() == MEMORY_SIZE
        &&& self.stack.len() == STACK_SIZE
        &&& self.keypad.len() == NUM_KEYS
        &&& self.video.len() == VIDEO_SIZE
    }
}

/// Memory of a fresh machine: all zero except the font table at its fixed offset.
pub open spec fn fresh_memory() -> Seq<u8> {
    Seq::new(
        MEMORY_SIZE as nat,
        |i: int|
            if FONT_START <= i < FONT_START + FONT_SIZE {
                font()[i - FONT_START]
            } else {
                0u8
            },
    )
}

/// The model of a fresh machine: zeroed state, font in memory, program counter
/// at the start of the program area.
pub open spec fn fresh_machine() -> MachineView {
    MachineView {
        registers: Seq::new(NUM_REGISTERS as nat, |i: int| 0u8),
        memory: fresh_memory(),
        index: 0,
        pc: PC_START,
        stack: Seq::new(STACK_SIZE as nat, |i: int| 0u16),
        sp: 0,
        keypad: Seq::new(NUM_KEYS as nat, |i: int| false),
        video: Seq::new(VIDEO_SIZE as nat, |i: int| false),
        opcode: 0,
        delay_timer: 0,
        sound_timer: 0,
    }
}

impl Default for Chip8 {
    /// A fresh machine as `fresh_machine()` describes it.
    fn default() -> (r: Chip8)
        ensures
            r@ == fresh_machine(),
    {
        let table = font_table();
        let mut memory: [u8; MEMORY_SIZE] = [0; MEMORY_SIZE];
        let mut i: usize = 0;
        while i < FONT_SIZE
            invariant
                i <= FONT_SIZE,
                table@ == font(),
                forall|j: int| 0 <= j < i ==> memory@[FONT_START + j] == font()[j],
                forall|j: int|
                    0 <= j < MEMORY_SIZE && !(FONT_START <= j < FONT_START + i) ==> memory@[j]
                        == 0u8,
            decreases FONT_SIZE - i,
        {
            memory[FONT_START + i] = table[i];
            i += 1;
        }
        Chip8 {
            registers: [0; NUM_REGISTERS],
            memory,
            index: 0,
            pc: PC_START,
            stack: [0; STACK_SIZE],
            sp: 0,
            keypad: [false; NUM_KEYS],
            video: [false; VIDEO_SIZE],
            opcode: 0,
            delay_timer: 0,
            sound_timer: 0,
        }
    }
}

/// Failure of a program load.
#[derive(Debug, Clone, Copy, PartialEq, Eq, Structural)]
pub enum LoadError {
    /// The program image does not fit in memory at and above the program counter.
    FileTooLarge,
}

impl LoadError {
    /// A short description of the failure.
    pub fn message(&self) -> (r: &'static str)
        ensures
            r@ == "ROM too large"@,
    {
        match self {
            LoadError::FileTooLarge => "ROM too large",
        }
    }
}

/// How many image bytes fit in memory at and above program counter `pc`.
pub open spec fn load_capacity(pc: u16) -> int {
    if pc >= MEMORY_SIZE {
        0
    } else {
        MEMORY_SIZE - pc
    }
}

/// `mem` with the first `count` bytes of `image` written at `start` onward.
pub open spec fn memory_with_image(mem: Seq<u8>, start: int, image: Seq<u8>, count: int) -> Seq<
    u8,
> {
    Seq::new(mem.len(), |i: int| if start <= i < start + count { image[i - start] } else { mem[i] })
}

impl Chip8 {
    /// Copy a program image into memory starting at the current program
    /// counter. Succeeds exactly when the whole image fits below the end of
    /// memory; on failure the bytes that fit are already in place and stay.
    pub fn load_rom(&mut self, rom: &[u8]) -> (result: Result<(), LoadError>)
        ensures
            ({
                let cap = load_capacity(old(self).pc);
                let n = if rom@.len() <= cap {
                    rom@.len() as int
                } else {
                    cap
                };
                &&& final(self)@ == (MachineView {
                    memory: memory_with_image(old(self)@.memory, old(self).pc as int, rom@, n),
                    ..old(self)@
                })
                &&& result is Ok <==> rom@.len() <= cap
                &&& result is Err ==> result == Err::<(), LoadError>(LoadError::FileTooLarge)
            }),
    {
        let start = self.pc as usize;
        let mut i: usize = 0;
        while i < rom.len()
            invariant
                i <= rom@.len(),
                i <= load_capacity(old(self).pc),
                start == old(self).pc,
                self@ == (MachineView {
                    memory: memory_with_image(old(self)@.memory, start as int, rom@, i as int),
                    ..old(self)@
                }),
            decreases rom@.len() - i,
        {
            if start >= MEMORY_SIZE || i >= MEMORY_SIZE - start {
                return Err(LoadError::FileTooLarge);
            }
            self.memory[start + i] = rom[i];
            i += 1;
        }
        Ok(())
    }
}

/// The model of a machine after the framebuffer is cleared: every cell false,
/// everything else untouched.
pub open spec fn step_clear_display(m: MachineView) -> MachineView {
    MachineView { video: Seq::new(VIDEO_SIZE as nat, |i: int| false), ..m }
}

/// The model of a machine after one timer tick: each countdown timer loses
/// exactly 1, floored at 0; nothing else moves.
pub open spec fn step_tick_timers(m: MachineView) -> MachineView {
    MachineView {
        delay_timer: if m.delay_timer > 0 { (m.delay_timer - 1) as u8 } else { 0u8 },
        sound_timer: if m.sound_timer > 0 { (m.sound_timer - 1) as u8 } else { 0u8 },
        ..m
    }
}

impl Chip8 {
    /// `00E0`: reset every framebuffer cell to false; all other state untouched.
    pub fn clear_display(&mut self)
        ensures
            final(self)@ == step_clear_display(old(self)@),
    {
        self.video = [false; VIDEO_SIZE];
    }

    /// One tick of the fixed-rate timer clock, independent of instruction
    /// throughput: the delay and sound timers each count down by 1 and stop
    /// at 0. A non-zero sound timer is the signal that audio should play.
    pub fn tick_timers(&mut self)
        ensures
            final(self)@ == step_tick_timers(old(self)@),
    {
        if self.delay_timer > 0 {
            self.delay_timer = self.delay_timer - 1;
        }
        if self.sound_timer > 0 {
            self.sound_timer = self.sound_timer - 1;
        }
    }
}

} // verus!
