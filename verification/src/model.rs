//! The mathematical model of the machine: its state as sequences and
//! numbers, and the effect of one instruction on it.
//!
//! Every contract of the executable code is stated over this model.

use crate::instruction::Instruction;
use vstd::prelude::*;

verus! {

/// Address at which programs are loaded and execution starts.
pub const PROGRAM_START: u16 = 0x200;

/// The built-in hexadecimal font: sixteen glyphs of five bytes each, the
/// glyph for digit `d` starting at offset `5 * d`.
pub const FONT_SET: [u8; 80] = [
    0xF0, 0x90, 0x90, 0x90, 0xF0,
    0x20, 0x60, 0x20, 0x20, 0x70,
    0xF0, 0x10, 0xF0, 0x80, 0xF0,
    0xF0, 0x10, 0xF0, 0x10, 0xF0,
    0x90, 0x90, 0xF0, 0x10, 0x10,
    0xF0, 0x80, 0xF0, 0x10, 0xF0,
    0xF0, 0x80, 0xF0, 0x90, 0xF0,
    0xF0, 0x10, 0x20, 0x40, 0x40,
    0xF0, 0x90, 0xF0, 0x90, 0xF0,
    0xF0, 0x90, 0xF0, 0x10, 0xF0,
    0xF0, 0x90, 0xF0, 0x90, 0x90,
    0xE0, 0x90, 0xE0, 0x90, 0xE0,
    0xF0, 0x80, 0x80, 0x80, 0xF0,
    0xE0, 0x90, 0x90, 0x90, 0xE0,
    0xF0, 0x80, 0xF0, 0x80, 0xF0,
    0xF0, 0x80, 0xF0, 0x80, 0x80,
];

/// The state of the machine, without its checkpoint slot.
#[verifier::ext_equal]
pub struct Machine {
    /// 4096 bytes of memory.
    pub memory: Seq<u8>,
    /// The sixteen registers `V0..VF`.
    pub v: Seq<u8>,
    /// The index register.
    pub i: u16,
    /// The program counter.
    pub pc: u16,
    /// The sixteen slots of the call stack.
    pub stack: Seq<u16>,
    /// The next free slot of the call stack.
    pub sp: u8,
    pub delay_timer: u8,
    pub sound_timer: u8,
    /// The sixteen keys, `true` while pressed.
    pub keypad: Seq<bool>,
    /// 64 x 32 pixels, row by row.
    pub display: Seq<bool>,
    pub paused: bool,
    /// The register that a blocked key wait will fill.
    pub waiting_for_key: Option<u8>,
    /// 64 x 32 afterglow intensities, row by row.
    pub ghost_display: Seq<u8>,
}

/// Why an instruction cannot be carried out.
#[derive(Clone, Copy, Debug, PartialEq, Eq, Structural)]
pub enum Fault {
    /// A call with all sixteen stack slots in use, or a stack pointer
    /// beyond the stack.
    StackOverflow,
    /// A return with an empty stack.
    StackUnderflow,
    /// A key instruction whose register holds no key number.
    KeyOutOfRange,
    /// A memory access beyond the last byte of memory.
    AddressOutOfRange,
    /// A program counter that would leave the 16-bit range.
    CounterOutOfRange,
}

/// The lowest pressed key at or above `from`.
pub open spec fn lowest_pressed(keypad: Seq<bool>, from: int) -> Option<u8>
    decreases keypad.len() - from,
{
    if from < 0 || from >= keypad.len() {
        None
    } else if keypad[from] {
        Some(from as u8)
    } else {
        lowest_pressed(keypad, from + 1)
    }
}

/// Pixel `col` of a sprite row, counted from the left.
pub open spec fn sprite_bit(row: u8, col: u8) -> bool {
    (row >> (7 - col) as u8) & 1 == 1
}

/// Whether a sprite of `n` rows, read from `memory` at `i` and drawn with
/// its top left corner at column `left` and row `top`, has a set bit on
/// display pixel `p`. The sprite is clipped at the right and bottom edges:
/// it never wraps.
pub open spec fn sprite_covers(memory: Seq<u8>, i: int, left: int, top: int, n: int, p: int) -> bool {
    let col = p % 64 - left;
    let row = p / 64 - top;
    &&& 0 <= p < 2048
    &&& 0 <= col < 8
    &&& 0 <= row < n
    &&& sprite_bit(memory[i + row], col as u8)
}

impl Machine {
    /// All sequences have the machine's fixed sizes.
    pub open spec fn well_formed(self) -> bool {
        &&& self.memory.len() == 4096
        &&& self.v.len() == 16
        &&& self.stack.len() == 16
        &&& self.keypad.len() == 16
        &&& self.display.len() == 2048
        &&& self.ghost_display.len() == 2048
    }

    /// The machine as it is switched on: font at address 0, everything else
    /// zero, execution about to start at `PROGRAM_START`.
    pub open spec fn initial() -> Machine {
        Machine {
            memory: Seq::new(4096, |a: int| if a < 80 { FONT_SET[a] } else { 0u8 }),
            v: Seq::new(16, |r: int| 0u8),
            i: 0,
            pc: PROGRAM_START,
            stack: Seq::new(16, |s: int| 0u16),
            sp: 0,
            delay_timer: 0,
            sound_timer: 0,
            keypad: Seq::new(16, |k: int| false),
            display: Seq::new(2048, |p: int| false),
            paused: false,
            waiting_for_key: None,
            ghost_display: Seq::new(2048, |p: int| 0u8),
        }
    }

    /// The number of program bytes that fit: at most the 0xE00 bytes from
    /// `PROGRAM_START` to the end of memory.
    pub open spec fn loaded_len(data: Seq<u8>) -> int {
        if data.len() < 0xE00 {
            data.len() as int
        } else {
            0xE00
        }
    }

    /// This machine with `data` copied to `PROGRAM_START`, cut off at the
    /// end of memory.
    pub open spec fn with_program(self, data: Seq<u8>) -> Machine {
        Machine {
            memory: Seq::new(
                4096,
                |a: int|
                    if 0x200 <= a < 0x200 + Self::loaded_len(data) {
                        data[a - 0x200]
                    } else {
                        self.memory[a]
                    },
            ),
            ..self
        }
    }

    /// The initial machine, but with the bytes from `PROGRAM_START` onward
    /// as they are in this one.
    pub open spec fn restarted(self) -> Machine {
        Machine {
            memory: Seq::new(
                4096,
                |a: int| if a < 0x200 { Self::initial().memory[a] } else { self.memory[a] },
            ),
            ..Self::initial()
        }
    }

    /// The word at `addr`, high byte first.
    pub open spec fn word_at(self, addr: int) -> u16 {
        (self.memory[addr] as int * 0x100 + self.memory[addr + 1] as int) as u16
    }

    /// The word at the program counter.
    pub open spec fn fetched(self) -> u16 {
        self.word_at(self.pc as int)
    }

    /// Both timers one tick later: each falls by one until it is zero.
    pub open spec fn ticked(self) -> Machine {
        Machine {
            delay_timer: if self.delay_timer > 0 {
                (self.delay_timer - 1) as u8
            } else {
                0
            },
            sound_timer: if self.sound_timer > 0 {
                (self.sound_timer - 1) as u8
            } else {
                0
            },
            ..self
        }
    }

    /// The afterglow one frame later: full where a pixel is lit, elsewhere
    /// 25 lower, not below zero.
    pub open spec fn faded(self) -> Machine {
        Machine {
            ghost_display: Seq::new(
                2048,
                |p: int|
                    if self.display[p] {
                        255u8
                    } else if self.ghost_display[p] >= 25 {
                        (self.ghost_display[p] - 25) as u8
                    } else {
                        0u8
                    },
            ),
            ..self
        }
    }

    /// Register `Vx`.
    pub open spec fn reg(self, x: u8) -> u8 {
        self.v[x as int]
    }

    /// This machine with `Vx` set to `value`.
    pub open spec fn with_reg(self, x: u8, value: u8) -> Machine {
        Machine { v: self.v.update(x as int, value), ..self }
    }

    /// This machine with `VF` set to `flag`.
    pub open spec fn with_flag(self, flag: u8) -> Machine {
        self.with_reg(0xF, flag)
    }

    /// The column at which a sprite drawn at `Vx` starts.
    pub open spec fn sprite_left(self, x: u8) -> int {
        self.reg(x) as int % 64
    }

    /// The row at which a sprite drawn at `Vy` starts.
    pub open spec fn sprite_top(self, y: u8) -> int {
        self.reg(y) as int % 32
    }

    /// The number of sprite rows that a draw of height `n` at `Vy` reads
    /// and draws: rows that would fall below the last display row are
    /// dropped.
    pub open spec fn sprite_rows(self, y: u8, n: u8) -> int {
        if self.sprite_top(y) + n <= 32 {
            n as int
        } else {
            32 - self.sprite_top(y)
        }
    }

    /// Whether `Dxyn` turns a lit pixel off.
    pub open spec fn sprite_collides(self, x: u8, y: u8, n: u8) -> bool {
        exists|p: int|
            #[trigger] sprite_covers(
                self.memory,
                self.i as int,
                self.sprite_left(x),
                self.sprite_top(y),
                n as int,
                p,
            ) && self.display[p]
    }

    /// The machine after `Dxyn`, but for the program counter: every pixel
    /// under a set sprite bit is flipped, and `VF` tells whether one of them
    /// was lit.
    pub open spec fn drawn(self, x: u8, y: u8, n: u8) -> Machine {
        Machine {
            display: Seq::new(
                2048,
                |p: int|
                    self.display[p] != sprite_covers(
                        self.memory,
                        self.i as int,
                        self.sprite_left(x),
                        self.sprite_top(y),
                        n as int,
                        p,
                    ),
            ),
            ..self.with_flag(
                if self.sprite_collides(x, y, n) {
                    1
                } else {
                    0
                },
            )
        }
    }

    /// Whether `ins` is a skip whose condition holds.
    pub open spec fn skips(self, ins: Instruction) -> bool {
        match ins {
            Instruction::SeByte { x, nn } => self.reg(x) == nn,
            Instruction::SneByte { x, nn } => self.reg(x) != nn,
            Instruction::SeReg { x, y } => self.reg(x) == self.reg(y),
            Instruction::SneReg { x, y } => self.reg(x) != self.reg(y),
            Instruction::Skp { x } => self.keypad[self.reg(x) as int],
            Instruction::Sknp { x } => !self.keypad[self.reg(x) as int],
            _ => false,
        }
    }

    /// The program counter after `ins`, as an unbounded number.
    pub open spec fn next_pc(self, ins: Instruction) -> int {
        match ins {
            Instruction::Jp { nnn } => nnn as int,
            Instruction::Call { nnn } => nnn as int,
            Instruction::JpV0 { nnn } => nnn + self.reg(0),
            Instruction::Ret => self.stack[self.sp - 1] + 2,
            Instruction::LdVxK { .. } => if lowest_pressed(self.keypad, 0) is Some {
                self.pc + 2
            } else {
                self.pc as int
            },
            _ => if self.skips(ins) {
                self.pc + 4
            } else {
                self.pc + 2
            },
        }
    }

    /// What `ins` does to everything but the program counter. `random` is
    /// the byte that `Rnd` draws.
    pub open spec fn effect(self, ins: Instruction, random: u8) -> Machine {
        match ins {
            Instruction::Cls => Machine { display: Seq::new(2048, |p: int| false), ..self },
            Instruction::Ret => Machine { sp: (self.sp - 1) as u8, ..self },
            Instruction::Call { .. } => Machine {
                stack: self.stack.update(self.sp as int, self.pc),
                sp: (self.sp + 1) as u8,
                ..self
            },
            Instruction::LdByte { x, nn } => self.with_reg(x, nn),
            Instruction::AddByte { x, nn } => self.with_reg(
                x,
                ((self.reg(x) + nn) % 0x100) as u8,
            ),
            Instruction::LdReg { x, y } => self.with_reg(x, self.reg(y)),
            Instruction::Or { x, y } => self.with_reg(x, self.reg(x) | self.reg(y)),
            Instruction::And { x, y } => self.with_reg(x, self.reg(x) & self.reg(y)),
            Instruction::Xor { x, y } => self.with_reg(x, self.reg(x) ^ self.reg(y)),
            Instruction::AddReg { x, y } => {
                let sum = self.reg(x) + self.reg(y);
                self.with_reg(x, (sum % 0x100) as u8).with_flag(
                    if sum > 0xFF {
                        1
                    } else {
                        0
                    },
                )
            },
            Instruction::Sub { x, y } => {
                let difference = self.reg(x) - self.reg(y);
                self.with_reg(x, (difference % 0x100) as u8).with_flag(
                    if difference >= 0 {
                        1
                    } else {
                        0
                    },
                )
            },
            Instruction::Subn { x, y } => {
                let difference = self.reg(y) - self.reg(x);
                self.with_reg(x, (difference % 0x100) as u8).with_flag(
                    if difference >= 0 {
                        1
                    } else {
                        0
                    },
                )
            },
            Instruction::Shr { x } => {
                let flagged = self.with_flag(self.reg(x) & 1);
                flagged.with_reg(x, flagged.reg(x) >> 1)
            },
            Instruction::Shl { x } => {
                let flagged = self.with_flag((self.reg(x) & 0x80) >> 7);
                flagged.with_reg(x, flagged.reg(x) << 1)
            },
            Instruction::LdI { nnn } => Machine { i: nnn, ..self },
            Instruction::Rnd { x, nn } => self.with_reg(x, random & nn),
            Instruction::Drw { x, y, n } => self.drawn(x, y, n),
            Instruction::LdVxDt { x } => self.with_reg(x, self.delay_timer),
            Instruction::LdVxK { x } => match lowest_pressed(self.keypad, 0) {
                Some(key) => Machine { waiting_for_key: None, ..self.with_reg(x, key) },
                None => Machine { waiting_for_key: Some(x), ..self },
            },
            Instruction::LdDtVx { x } => Machine { delay_timer: self.reg(x), ..self },
            Instruction::LdStVx { x } => Machine { sound_timer: self.reg(x), ..self },
            Instruction::AddI { x } => Machine {
                i: ((self.i + self.reg(x)) % 0x10000) as u16,
                ..self
            },
            Instruction::LdF { x } => Machine { i: ((self.reg(x) % 16) * 5) as u16, ..self },
            Instruction::LdB { x } => Machine {
                memory: self.memory.update(self.i as int, self.reg(x) / 100).update(
                    self.i + 1,
                    (self.reg(x) / 10) % 10,
                ).update(self.i + 2, self.reg(x) % 10),
                ..self
            },
            Instruction::LdIVx { x } => Machine {
                memory: Seq::new(
                    4096,
                    |a: int|
                        if self.i <= a <= self.i + x {
                            self.v[a - self.i]
                        } else {
                            self.memory[a]
                        },
                ),
                ..self
            },
            Instruction::LdVxI { x } => Machine {
                v: Seq::new(
                    16,
                    |r: int|
                        if r <= x {
                            self.memory[self.i + r]
                        } else {
                            self.v[r]
                        },
                ),
                ..self
            },
            _ => self,
        }
    }

    /// The machine after `ins`, where `ins` can be carried out.
    pub open spec fn step(self, ins: Instruction, random: u8) -> Machine {
        Machine { pc: self.next_pc(ins) as u16, ..self.effect(ins, random) }
    }

    /// The machine after `ins` is executed: after its step, or unchanged
    /// where `ins` cannot be carried out.
    pub open spec fn executed(self, ins: Instruction, random: u8) -> Machine {
        if self.fault(ins) is Some {
            self
        } else {
            self.step(ins, random)
        }
    }

    /// The stack, key or memory access of `ins` that is out of range in
    /// this state, if one is.
    pub open spec fn access_fault(self, ins: Instruction) -> Option<Fault> {
        match ins {
            Instruction::Ret => if self.sp == 0 {
                Some(Fault::StackUnderflow)
            } else if self.sp > 16 {
                Some(Fault::StackOverflow)
            } else {
                None
            },
            Instruction::Call { .. } => if self.sp >= 16 {
                Some(Fault::StackOverflow)
            } else {
                None
            },
            Instruction::Skp { x } | Instruction::Sknp { x } => if self.reg(x) >= 16 {
                Some(Fault::KeyOutOfRange)
            } else {
                None
            },
            Instruction::Drw { y, n, .. } => if self.sprite_rows(y, n) > 0 && self.i
                + self.sprite_rows(y, n) > 4096 {
                Some(Fault::AddressOutOfRange)
            } else {
                None
            },
            Instruction::LdB { .. } => if self.i + 2 >= 4096 {
                Some(Fault::AddressOutOfRange)
            } else {
                None
            },
            Instruction::LdIVx { x } | Instruction::LdVxI { x } => if self.i + x >= 4096 {
                Some(Fault::AddressOutOfRange)
            } else {
                None
            },
            _ => None,
        }
    }

    /// Why `ins` cannot be carried out in this state, if it cannot: the
    /// stack, key or memory access that is out of range, else a program
    /// counter that would not fit in sixteen bits.
    pub open spec fn fault(self, ins: Instruction) -> Option<Fault> {
        if self.access_fault(ins) is Some {
            self.access_fault(ins)
        } else if self.next_pc(ins) > 0xFFFF {
            Some(Fault::CounterOutOfRange)
        } else {
            None
        }
    }

    /// Why the next cycle cannot be carried out, if it cannot: the program
    /// counter leaves no room for a word, or the fetched instruction faults.
    /// A machine that waits for a key does nothing and never faults.
    pub open spec fn cycle_fault(self) -> Option<Fault> {
        if self.waiting_for_key is Some {
            None
        } else if self.pc >= 4095 {
            Some(Fault::AddressOutOfRange)
        } else {
            self.fault(crate::instruction::decoded(self.fetched()))
        }
    }

    /// The machine after one cycle: unchanged while it waits for a key and
    /// where the cycle cannot be carried out, else after the instruction at
    /// the program counter.
    pub open spec fn cycled(self, random: u8) -> Machine {
        if self.waiting_for_key is Some || self.cycle_fault() is Some {
            self
        } else {
            self.step(crate::instruction::decoded(self.fetched()), random)
        }
    }
}

} // verus!
