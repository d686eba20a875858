//! The instruction executor: applies one instruction to the machine.

use crate::emulator::Emulator;
use crate::instruction::{decode, decoded, Instruction};
use crate::model::{lowest_pressed, sprite_bit, sprite_covers, Fault};
use rand::Rng;
use vstd::prelude::*;

verus! {

/// A byte from `rand::thread_rng().gen()`, the thread-local generator that
/// the operating system seeds. Nothing is claimed of the byte, so callers
/// are verified for every value of it. (The generator panics where the
/// operating system fails it: if it gives no entropy when the thread first
/// asks or when the generator reseeds itself, which it does after every
/// 64 KiB of output and after a fork, or if it refuses the handler by
/// which the generator learns of a fork.)
#[verifier::external_body]
fn random_byte() -> (byte: u8) {
    rand::thread_rng().gen()
}

/// Pixel `col` of a sprite row, counted from the left.
fn sprite_pixel(row: u8, col: u8) -> (set: bool)
    requires
        col < 8,
    ensures
        set == sprite_bit(row, col),
{
    (row >> (7 - col)) & 1 == 1
}

/// The lowest pressed key, if any is pressed.
fn pressed_key(keypad: &[bool; 16]) -> (key: Option<u8>)
    ensures
        key == lowest_pressed(keypad@, 0),
{
    let mut k: u8 = 0;
    while k < 16
        invariant
            k <= 16,
            lowest_pressed(keypad@, 0) == lowest_pressed(keypad@, k as int),
        decreases 16 - k,
    {
        if keypad[k as usize] {
            return Some(k);
        }
        k += 1;
    }
    None
}

/// Copies `V0..=Vx` to memory from `i`.
fn store_registers(memory: &mut [u8; 4096], v: &[u8; 16], i: u16, x: u8)
    requires
        x < 16,
        i + x < 4096,
    ensures
        forall|a: int|
            0 <= a < 4096 ==> final(memory)@[a] == if i <= a <= i + x {
                v@[a - i]
            } else {
                old(memory)@[a]
            },
{
    let mut r: usize = 0;
    while r <= x as usize
        invariant
            r <= x + 1,
            x < 16,
            i + x < 4096,
            forall|a: int|
                0 <= a < 4096 ==> memory@[a] == if i <= a < i + r {
                    v@[a - i]
                } else {
                    old(memory)@[a]
                },
        decreases x + 1 - r,
    {
        memory[i as usize + r] = v[r];
        r += 1;
    }
}

/// Copies memory from `i` to `V0..=Vx`.
fn load_registers(v: &mut [u8; 16], memory: &[u8; 4096], i: u16, x: u8)
    requires
        x < 16,
        i + x < 4096,
    ensures
        forall|r: int|
            0 <= r < 16 ==> final(v)@[r] == if r <= x {
                memory@[i + r]
            } else {
                old(v)@[r]
            },
{
    let mut r: usize = 0;
    while r <= x as usize
        invariant
            r <= x + 1,
            x < 16,
            i + x < 4096,
            forall|q: int|
                0 <= q < 16 ==> v@[q] == if q < r {
                    memory@[i + q]
                } else {
                    old(v)@[q]
                },
        decreases x + 1 - r,
    {
        v[r] = memory[i as usize + r];
        r += 1;
    }
}

/// Whether pixel `p` comes before column `col` of sprite row `row` in the
/// order in which a sprite at (`left`, `top`) is drawn.
spec fn drawn_before(left: int, top: int, row: int, col: int, p: int) -> bool {
    let r = p / 64 - top;
    let c = p % 64 - left;
    r < row || (r == row && c < col)
}

/// Draws a sprite of `n` rows, read from `memory` at `i`, with its top left
/// corner at (`left`, `top`): flips every pixel under a set sprite bit and
/// tells whether one of them was lit. Rows below the display and columns
/// right of it are dropped.
fn draw_sprite(
    display: &mut [bool; 2048],
    memory: &[u8; 4096],
    i: u16,
    left: usize,
    top: usize,
    n: u8,
) -> (collision: bool)
    requires
        left < 64,
        top < 32,
        n < 16,
        0 < n && top + n <= 32 ==> i + n <= 4096,
        top + n > 32 ==> i + (32 - top) <= 4096,
    ensures
        forall|p: int|
            0 <= p < 2048 ==> final(display)@[p] == (old(display)@[p] != sprite_covers(
                memory@,
                i as int,
                left as int,
                top as int,
                n as int,
                p,
            )),
        collision <==> exists|p: int|
            #[trigger] sprite_covers(memory@, i as int, left as int, top as int, n as int, p)
                && old(display)@[p],
{
    let mut collision = false;
    let ghost mut witness: int = 0;
    let mut row: usize = 0;
    while row < n as usize && top + row < 32
        invariant
            row <= n,
            left < 64,
            top < 32,
            n < 16,
            0 < n && top + n <= 32 ==> i + n <= 4096,
            top + n > 32 ==> i + (32 - top) <= 4096,
            forall|p: int|
                0 <= p < 2048 ==> display@[p] == (old(display)@[p] != (sprite_covers(
                    memory@,
                    i as int,
                    left as int,
                    top as int,
                    n as int,
                    p,
                ) && drawn_before(left as int, top as int, row as int, 0, p))),
            collision ==> sprite_covers(
                memory@,
                i as int,
                left as int,
                top as int,
                n as int,
                witness,
            ) && old(display)@[witness],
            !collision ==> forall|p: int|
                #[trigger] sprite_covers(memory@, i as int, left as int, top as int, n as int, p)
                    && drawn_before(left as int, top as int, row as int, 0, p) ==> !old(
                    display,
                )@[p],
        decreases n - row,
    {
        let sprite_byte = memory[i as usize + row];
        let mut col: usize = 0;
        while col < 8 && left + col < 64
            invariant
                col <= 8,
                row < n,
                top + row < 32,
                left < 64,
                top < 32,
                n < 16,
                i + row < 4096,
                sprite_byte == memory@[i + row],
                forall|p: int|
                    0 <= p < 2048 ==> display@[p] == (old(display)@[p] != (sprite_covers(
                        memory@,
                        i as int,
                        left as int,
                        top as int,
                        n as int,
                        p,
                    ) && drawn_before(left as int, top as int, row as int, col as int, p))),
                collision ==> sprite_covers(
                    memory@,
                    i as int,
                    left as int,
                    top as int,
                    n as int,
                    witness,
                ) && old(display)@[witness],
                !collision ==> forall|p: int|
                    #[trigger] sprite_covers(
                        memory@,
                        i as int,
                        left as int,
                        top as int,
                        n as int,
                        p,
                    ) && drawn_before(left as int, top as int, row as int, col as int, p) ==> !old(
                        display,
                    )@[p],
            decreases 8 - col,
        {
            let lit = sprite_pixel(sprite_byte, col as u8);
            let idx: usize = (top + row) * 64 + (left + col);
            proof {
                assert(idx as int / 64 == top + row && idx as int % 64 == left + col);
                assert forall|p: int|
                    #![trigger sprite_covers(memory@, i as int, left as int, top as int, n as int, p)]
                    (sprite_covers(memory@, i as int, left as int, top as int, n as int, p)
                        && drawn_before(left as int, top as int, row as int, col + 1, p)) <==> ((
                    sprite_covers(memory@, i as int, left as int, top as int, n as int, p)
                        && drawn_before(left as int, top as int, row as int, col as int, p)) || (p
                        == idx && lit)) by {
                    if p / 64 - top == row && p % 64 - left == col && 0 <= p {
                        assert(p == idx);
                    }
                }
            }
            if lit {
                if display[idx] {
                    collision = true;
                    proof {
                        witness = idx as int;
                    }
                }
                display[idx] = !display[idx];
            }
            col += 1;
        }
        row += 1;
    }
    collision
}

/// Sets `Vx`.
fn set_reg(emu: &mut Emulator, x: u8, value: u8)
    requires
        x < 16,
    ensures
        final(emu)@ == old(emu)@.with_reg(x, value),
        final(emu).checkpoint == old(emu).checkpoint,
{
    emu.v[x as usize] = value;
}

/// The sum of two bytes, wrapped to a byte, and its carry.
fn add_carry(a: u8, b: u8) -> (r: (u8, u8))
    ensures
        r.0 == ((a + b) % 0x100) as u8,
        r.1 == if a + b > 0xFF {
            1u8
        } else {
            0u8
        },
{
    let carry: u8 = if a as u16 + b as u16 > 0xFF {
        1
    } else {
        0
    };
    (a.wrapping_add(b), carry)
}

/// The difference of two bytes, wrapped to a byte, and 1 if nothing was
/// borrowed.
fn sub_borrow(a: u8, b: u8) -> (r: (u8, u8))
    ensures
        r.0 == ((a - b) % 0x100) as u8,
        r.1 == if a - b >= 0 {
            1u8
        } else {
            0u8
        },
{
    let no_borrow: u8 = if a >= b {
        1
    } else {
        0
    };
    (a.wrapping_sub(b), no_borrow)
}

/// Applies an instruction that only moves the program counter, the stack
/// or the whole display.
fn apply_control(emu: &mut Emulator, ins: Instruction)
    requires
        ins.well_formed(),
        old(emu)@.fault(ins) is None,
        ins is Cls || ins is Ret || ins is Sys || ins is Data || ins is Jp || ins is Call
            || ins is JpV0,
    ensures
        forall|random: u8| final(emu)@ == old(emu)@.step(ins, random),
        final(emu).checkpoint == old(emu).checkpoint,
{
    match ins {
        Instruction::Cls => {
            emu.display = [false;2048];
            emu.pc += 2;
        },
        Instruction::Ret => {
            emu.sp -= 1;
            emu.pc = emu.stack[emu.sp as usize];
            emu.pc += 2;
        },
        Instruction::Jp { nnn } => {
            emu.pc = nnn;
        },
        Instruction::Call { nnn } => {
            emu.stack[emu.sp as usize] = emu.pc;
            emu.sp += 1;
            emu.pc = nnn;
        },
        Instruction::JpV0 { nnn } => {
            emu.pc = nnn + emu.v[0] as u16;
        },
        _ => {
            emu.pc += 2;
        },
    }
}

/// Applies a skip: the program counter moves on by four if the condition
/// holds, else by two.
fn apply_skip(emu: &mut Emulator, ins: Instruction)
    requires
        ins.well_formed(),
        old(emu)@.fault(ins) is None,
        ins is SeByte || ins is SneByte || ins is SeReg || ins is SneReg || ins is Skp
            || ins is Sknp,
    ensures
        forall|random: u8| final(emu)@ == old(emu)@.step(ins, random),
        final(emu).checkpoint == old(emu).checkpoint,
{
    let skip: bool = match ins {
        Instruction::SeByte { x, nn } => emu.v[x as usize] == nn,
        Instruction::SneByte { x, nn } => emu.v[x as usize] != nn,
        Instruction::SeReg { x, y } => emu.v[x as usize] == emu.v[y as usize],
        Instruction::SneReg { x, y } => emu.v[x as usize] != emu.v[y as usize],
        Instruction::Skp { x } => emu.keypad[emu.v[x as usize] as usize],
        Instruction::Sknp { x } => !emu.keypad[emu.v[x as usize] as usize],
        _ => false,
    };
    if skip {
        emu.pc += 4;
    } else {
        emu.pc += 2;
    }
}

/// Applies an instruction that sets one register from registers, an
/// operand or the random byte, and leaves the flag alone.
fn apply_plain(emu: &mut Emulator, ins: Instruction, random: u8)
    requires
        ins.well_formed(),
        old(emu)@.fault(ins) is None,
        ins is LdByte || ins is AddByte || ins is LdReg || ins is Or || ins is And || ins is Xor
            || ins is Rnd,
    ensures
        final(emu)@ == old(emu)@.step(ins, random),
        final(emu).checkpoint == old(emu).checkpoint,
{
    match ins {
        Instruction::LdByte { x, nn } => {
            set_reg(emu, x, nn);
        },
        Instruction::AddByte { x, nn } => {
            let sum = add_carry(emu.v[x as usize], nn);
            set_reg(emu, x, sum.0);
        },
        Instruction::LdReg { x, y } => {
            set_reg(emu, x, emu.v[y as usize]);
        },
        Instruction::Or { x, y } => {
            set_reg(emu, x, emu.v[x as usize] | emu.v[y as usize]);
        },
        Instruction::And { x, y } => {
            set_reg(emu, x, emu.v[x as usize] & emu.v[y as usize]);
        },
        Instruction::Xor { x, y } => {
            set_reg(emu, x, emu.v[x as usize] ^ emu.v[y as usize]);
        },
        Instruction::Rnd { x, nn } => {
            set_reg(emu, x, random & nn);
        },
        _ => {},
    }
    emu.pc += 2;
}

/// Applies an addition or subtraction of two registers: the result wraps,
/// and the flag, written last, tells of the carry or of the absence of a
/// borrow.
fn apply_carrying(emu: &mut Emulator, ins: Instruction)
    requires
        ins.well_formed(),
        old(emu)@.fault(ins) is None,
        ins is AddReg || ins is Sub || ins is Subn,
    ensures
        forall|random: u8| final(emu)@ == old(emu)@.step(ins, random),
        final(emu).checkpoint == old(emu).checkpoint,
{
    match ins {
        Instruction::AddReg { x, y } => {
            let sum = add_carry(emu.v[x as usize], emu.v[y as usize]);
            set_reg(emu, x, sum.0);
            set_reg(emu, 0xF, sum.1);
        },
        Instruction::Sub { x, y } => {
            let difference = sub_borrow(emu.v[x as usize], emu.v[y as usize]);
            set_reg(emu, x, difference.0);
            set_reg(emu, 0xF, difference.1);
        },
        Instruction::Subn { x, y } => {
            let difference = sub_borrow(emu.v[y as usize], emu.v[x as usize]);
            set_reg(emu, x, difference.0);
            set_reg(emu, 0xF, difference.1);
        },
        _ => {},
    }
    emu.pc += 2;
}

/// Applies a shift: the flag takes the bit that is about to leave the
/// register, then the register is shifted.
fn apply_shift(emu: &mut Emulator, ins: Instruction)
    requires
        ins.well_formed(),
        old(emu)@.fault(ins) is None,
        ins is Shr || ins is Shl,
    ensures
        forall|random: u8| final(emu)@ == old(emu)@.step(ins, random),
        final(emu).checkpoint == old(emu).checkpoint,
{
    match ins {
        Instruction::Shr { x } => {
            set_reg(emu, 0xF, emu.v[x as usize] & 0x1);
            set_reg(emu, x, emu.v[x as usize] >> 1);
        },
        Instruction::Shl { x } => {
            set_reg(emu, 0xF, (emu.v[x as usize] & 0x80) >> 7);
            set_reg(emu, x, emu.v[x as usize] << 1);
        },
        _ => {},
    }
    emu.pc += 2;
}

/// Applies an instruction that moves a value between a register and the
/// index register, a timer or the keypad.
fn apply_transfer(emu: &mut Emulator, ins: Instruction)
    requires
        ins.well_formed(),
        old(emu)@.fault(ins) is None,
        ins is LdI || ins is LdVxDt || ins is LdVxK || ins is LdDtVx || ins is LdStVx
            || ins is AddI || ins is LdF,
    ensures
        forall|random: u8| final(emu)@ == old(emu)@.step(ins, random),
        final(emu).checkpoint == old(emu).checkpoint,
{
    match ins {
        Instruction::LdI { nnn } => {
            emu.i = nnn;
            emu.pc += 2;
        },
        Instruction::LdVxDt { x } => {
            set_reg(emu, x, emu.delay_timer);
            emu.pc += 2;
        },
        Instruction::LdVxK { x } => {
            match pressed_key(&emu.keypad) {
                Some(key) => {
                    set_reg(emu, x, key);
                    emu.waiting_for_key = None;
                    emu.pc += 2;
                },
                None => {
                    emu.waiting_for_key = Some(x);
                },
            }
        },
        Instruction::LdDtVx { x } => {
            emu.delay_timer = emu.v[x as usize];
            emu.pc += 2;
        },
        Instruction::LdStVx { x } => {
            emu.sound_timer = emu.v[x as usize];
            emu.pc += 2;
        },
        Instruction::AddI { x } => {
            emu.i = emu.i.wrapping_add(emu.v[x as usize] as u16);
            emu.pc += 2;
        },
        Instruction::LdF { x } => {
            let vx: u8 = emu.v[x as usize];
            assert(vx & 0x0F == vx % 16) by (bit_vector);
            emu.i = (vx & 0x0F) as u16 * 5;
            emu.pc += 2;
        },
        _ => {},
    }
}

/// Applies an instruction that reads or writes memory at the index
/// register: the sprite draw, the decimal digits and the block transfers.
fn apply_memory(emu: &mut Emulator, ins: Instruction)
    requires
        ins.well_formed(),
        old(emu)@.fault(ins) is None,
        ins is Drw || ins is LdB || ins is LdIVx || ins is LdVxI,
    ensures
        forall|random: u8| final(emu)@ == old(emu)@.step(ins, random),
        final(emu).checkpoint == old(emu).checkpoint,
{
    match ins {
        Instruction::Drw { x, y, n } => {
            let left: usize = emu.v[x as usize] as usize % 64;
            let top: usize = emu.v[y as usize] as usize % 32;
            let collision = draw_sprite(&mut emu.display, &emu.memory, emu.i, left, top, n);
            set_reg(
                emu,
                0xF,
                if collision {
                    1
                } else {
                    0
                },
            );
        },
        Instruction::LdB { x } => {
            let value: u8 = emu.v[x as usize];
            let at: usize = emu.i as usize;
            emu.memory[at] = value / 100;
            emu.memory[at + 1] = (value / 10) % 10;
            emu.memory[at + 2] = value % 10;
        },
        Instruction::LdIVx { x } => {
            store_registers(&mut emu.memory, &emu.v, emu.i, x);
        },
        Instruction::LdVxI { x } => {
            load_registers(&mut emu.v, &emu.memory, emu.i, x);
        },
        _ => {},
    }
    emu.pc += 2;
}

/// Applies a decoded instruction. `random` is the byte that `Rnd` uses.
fn apply(emu: &mut Emulator, ins: Instruction, random: u8)
    requires
        ins.well_formed(),
        old(emu)@.fault(ins) is None,
    ensures
        final(emu)@ == old(emu)@.step(ins, random),
        final(emu).checkpoint == old(emu).checkpoint,
{
    match ins {
        Instruction::Cls
        | Instruction::Ret
        | Instruction::Sys { .. }
        | Instruction::Data { .. }
        | Instruction::Jp { .. }
        | Instruction::Call { .. }
        | Instruction::JpV0 { .. } => apply_control(emu, ins),
        Instruction::SeByte { .. }
        | Instruction::SneByte { .. }
        | Instruction::SeReg { .. }
        | Instruction::SneReg { .. }
        | Instruction::Skp { .. }
        | Instruction::Sknp { .. } => apply_skip(emu, ins),
        Instruction::LdByte { .. }
        | Instruction::AddByte { .. }
        | Instruction::LdReg { .. }
        | Instruction::Or { .. }
        | Instruction::And { .. }
        | Instruction::Xor { .. }
        | Instruction::Rnd { .. } => apply_plain(emu, ins, random),
        Instruction::AddReg { .. }
        | Instruction::Sub { .. }
        | Instruction::Subn { .. } => apply_carrying(emu, ins),
        Instruction::Shr { .. } | Instruction::Shl { .. } => apply_shift(emu, ins),
        Instruction::LdI { .. }
        | Instruction::LdVxDt { .. }
        | Instruction::LdVxK { .. }
        | Instruction::LdDtVx { .. }
        | Instruction::LdStVx { .. }
        | Instruction::AddI { .. }
        | Instruction::LdF { .. } => apply_transfer(emu, ins),
        Instruction::Drw { .. }
        | Instruction::LdB { .. }
        | Instruction::LdIVx { .. }
        | Instruction::LdVxI { .. } => apply_memory(emu, ins),
    }
}

/// The stack, key or memory access of `ins` that is out of range, if one
/// is.
fn access_fault(emu: &Emulator, ins: Instruction) -> (fault: Option<Fault>)
    requires
        ins.well_formed(),
    ensures
        fault == emu@.access_fault(ins),
{
    let i: u32 = emu.i as u32;
    match ins {
        Instruction::Ret => {
            if emu.sp == 0 {
                Some(Fault::StackUnderflow)
            } else if emu.sp > 16 {
                Some(Fault::StackOverflow)
            } else {
                None
            }
        },
        Instruction::Call { .. } => {
            if emu.sp >= 16 {
                Some(Fault::StackOverflow)
            } else {
                None
            }
        },
        Instruction::Skp { x } | Instruction::Sknp { x } => {
            if emu.v[x as usize] >= 16 {
                Some(Fault::KeyOutOfRange)
            } else {
                None
            }
        },
        Instruction::Drw { y, n, .. } => {
            let top: u32 = emu.v[y as usize] as u32 % 32;
            let rows: u32 = if top + n as u32 <= 32 {
                n as u32
            } else {
                32 - top
            };
            if rows > 0 && i + rows > 4096 {
                Some(Fault::AddressOutOfRange)
            } else {
                None
            }
        },
        Instruction::LdB { .. } => {
            if i + 2 >= 4096 {
                Some(Fault::AddressOutOfRange)
            } else {
                None
            }
        },
        Instruction::LdIVx { x } | Instruction::LdVxI { x } => {
            if i + x as u32 >= 4096 {
                Some(Fault::AddressOutOfRange)
            } else {
                None
            }
        },
        _ => None,
    }
}

/// The program counter after `ins`, as a number that may exceed sixteen
/// bits.
fn next_pc(emu: &Emulator, ins: Instruction) -> (next: u32)
    requires
        ins.well_formed(),
        emu@.access_fault(ins) is None,
    ensures
        next == emu@.next_pc(ins),
{
    let pc: u32 = emu.pc as u32;
    let skips: bool = match ins {
        Instruction::Jp { nnn } | Instruction::Call { nnn } => {
            return nnn as u32;
        },
        Instruction::JpV0 { nnn } => {
            return nnn as u32 + emu.v[0] as u32;
        },
        Instruction::Ret => {
            return emu.stack[(emu.sp - 1) as usize] as u32 + 2;
        },
        Instruction::LdVxK { .. } => {
            if pressed_key(&emu.keypad).is_none() {
                return pc;
            }
            false
        },
        Instruction::SeByte { x, nn } => emu.v[x as usize] == nn,
        Instruction::SneByte { x, nn } => emu.v[x as usize] != nn,
        Instruction::SeReg { x, y } => emu.v[x as usize] == emu.v[y as usize],
        Instruction::SneReg { x, y } => emu.v[x as usize] != emu.v[y as usize],
        Instruction::Skp { x } => emu.keypad[emu.v[x as usize] as usize],
        Instruction::Sknp { x } => !emu.keypad[emu.v[x as usize] as usize],
        _ => false,
    };
    if skips {
        pc + 4
    } else {
        pc + 2
    }
}

/// Why `ins` cannot be carried out in this state, if it cannot.
fn fault_of(emu: &Emulator, ins: Instruction) -> (fault: Option<Fault>)
    requires
        ins.well_formed(),
    ensures
        fault == emu@.fault(ins),
{
    match access_fault(emu, ins) {
        Some(fault) => Some(fault),
        None => if next_pc(emu, ins) > 0xFFFF {
            Some(Fault::CounterOutOfRange)
        } else {
            None
        },
    }
}

/// Carries out an instruction, drawing the byte for `Rnd` from the thread's
/// random number generator.
fn run(emu: &mut Emulator, ins: Instruction)
    requires
        ins.well_formed(),
        old(emu)@.fault(ins) is None,
    ensures
        exists|random: u8| final(emu)@ == #[trigger] old(emu)@.step(ins, random),
        !(ins is Rnd) ==> final(emu)@ == old(emu)@.step(ins, 0),
        final(emu).checkpoint == old(emu).checkpoint,
{
    let random: u8 = match ins {
        Instruction::Rnd { .. } => random_byte(),
        _ => 0,
    };
    apply(emu, ins, random);
}

/// Why `opcode` cannot be executed in this state, if it cannot.
pub fn check(emu: &Emulator, opcode: u16) -> (fault: Option<Fault>)
    ensures
        fault == emu@.fault(decoded(opcode)),
{
    fault_of(emu, decode(opcode))
}

/// Executes one instruction word, with `random` as the byte that `Cxnn`
/// draws. A word that is no instruction only moves the program counter on
/// by two. An instruction that cannot be carried out leaves the machine as
/// it is.
pub fn execute_with(emu: &mut Emulator, opcode: u16, random: u8)
    ensures
        final(emu)@ == old(emu)@.executed(decoded(opcode), random),
        final(emu).checkpoint == old(emu).checkpoint,
        old(emu)@.fault(decoded(opcode)) is Some ==> *final(emu) == *old(emu),
{
    let ins = decode(opcode);
    if fault_of(emu, ins).is_none() {
        apply(emu, ins, random);
    }
}

/// Executes one instruction word. For `Cxnn` the byte is drawn from the
/// thread's random number generator, so the new state is the one for some
/// byte; every other instruction does not look at the byte. An instruction
/// that cannot be carried out leaves the machine as it is.
pub fn execute(emu: &mut Emulator, opcode: u16)
    ensures
        exists|random: u8| final(emu)@ == #[trigger] old(emu)@.executed(decoded(opcode), random),
        !(decoded(opcode) is Rnd) ==> final(emu)@ == old(emu)@.executed(decoded(opcode), 0),
        final(emu).checkpoint == old(emu).checkpoint,
        old(emu)@.fault(decoded(opcode)) is Some ==> *final(emu) == *old(emu),
{
    let ins = decode(opcode);
    if fault_of(emu, ins).is_none() {
        run(emu, ins);
        proof {
            let random = choose|random: u8| emu@ == #[trigger] old(emu)@.step(ins, random);
            assert(emu@ == old(emu)@.executed(ins, random));
        }
    } else {
        assert(emu@ == old(emu)@.executed(ins, 0));
    }
}

/// Executes one instruction word as `execute` does, and reports the fault
/// of an instruction that cannot be carried out.
pub fn try_execute(emu: &mut Emulator, opcode: u16) -> (done: Result<(), Fault>)
    ensures
        match old(emu)@.fault(decoded(opcode)) {
            Some(fault) => done == Err::<(), Fault>(fault) && *final(emu) == *old(emu),
            None => done is Ok && exists|random: u8|
                final(emu)@ == #[trigger] old(emu)@.step(decoded(opcode), random),
        },
        !(decoded(opcode) is Rnd) && done is Ok ==> final(emu)@ == old(emu)@.step(
            decoded(opcode),
            0,
        ),
        final(emu).checkpoint == old(emu).checkpoint,
{
    let ins = decode(opcode);
    match fault_of(emu, ins) {
        Some(fault) => Err(fault),
        None => {
            run(emu, ins);
            Ok(())
        },
    }
}

} // verus!
