//! Laws of the machine, proved from the model.

use crate::disassembler::{data_text, mnemonic};
use crate::emulator::Checkpointed;
use crate::instruction::{decoded, Instruction};
use crate::model::{lowest_pressed, sprite_bit, sprite_covers, Machine, FONT_SET};
use vstd::prelude::*;

verus! {

/// A word disassembles to the `DATA` text exactly if the executor passes
/// over it, that is, if it decodes to `Sys` or to no instruction; and such
/// a word executes as a two-byte no-op: the program counter moves on by two
/// and nothing else changes.
pub proof fn data_text_marks_no_operation(word: u16, m: Machine, random: u8)
    ensures
        mnemonic(decoded(word)) == data_text(word) <==> decoded(word) is Data || decoded(word)
            is Sys,
        decoded(word) is Data || decoded(word) is Sys ==> m.step(decoded(word), random) == (
        Machine { pc: (m.pc + 2) as u16, ..m }),
{
    reveal_strlit("DATA ");
    reveal_strlit("CLS");
    reveal_strlit("RET");
    reveal_strlit("JP   ");
    reveal_strlit("CALL ");
    reveal_strlit("SE   V");
    reveal_strlit("SNE  V");
    reveal_strlit("LD   V");
    reveal_strlit("ADD  V");
    reveal_strlit("OR   V");
    reveal_strlit("AND  V");
    reveal_strlit("XOR  V");
    reveal_strlit("SUB  V");
    reveal_strlit("SHR  V");
    reveal_strlit("SUBN V");
    reveal_strlit("SHL  V");
    reveal_strlit("LD   I, ");
    reveal_strlit("JP   V0, ");
    reveal_strlit("RND  V");
    reveal_strlit("DRW  V");
    reveal_strlit("SKP  V");
    reveal_strlit("SKNP V");
    reveal_strlit("LD   DT, V");
    reveal_strlit("LD   ST, V");
    reveal_strlit("ADD  I, V");
    reveal_strlit("LD   F, V");
    reveal_strlit("LD   B, V");
    reveal_strlit("LD   [I], V");
    let text = mnemonic(decoded(word));
    let data = data_text(word);
    assert(data[0] == 'D' && data[1] == 'A');
    if !(decoded(word) is Data || decoded(word) is Sys) {
        assert(text[0] != 'D' || text[1] != 'A');
    }
}

/// Executing an instruction is its step where it can be carried out, and
/// changes nothing where it cannot. A cycle changes nothing while the
/// machine waits for a key or the program counter leaves no room for a
/// word, and else executes the word at the program counter.
pub proof fn execution_steps_or_stays(m: Machine, ins: Instruction, random: u8)
    ensures
        m.fault(ins) is None ==> m.executed(ins, random) == m.step(ins, random),
        m.fault(ins) is Some ==> m.executed(ins, random) == m,
        m.waiting_for_key is Some || m.pc >= 4095 ==> m.cycled(random) == m,
        m.waiting_for_key is None && m.pc < 4095 ==> m.cycled(random) == m.executed(
            decoded(m.fetched()),
            random,
        ),
{
}

/// An instruction changes only what it is about. None touches the keypad,
/// the pause flag or the afterglow; only the clear and the draw change the
/// display; only the two timer loads change a timer; only the decimal and
/// the register store write memory; only a call writes the stack, and only
/// a call and a return move the stack pointer; only the three index
/// instructions change the index register; and only the key wait changes
/// the wait register.
pub proof fn instructions_change_only_their_own_state(m: Machine, ins: Instruction, random: u8)
    ensures
        ({
            let after = m.step(ins, random);
            &&& after.keypad == m.keypad
            &&& after.paused == m.paused
            &&& after.ghost_display == m.ghost_display
            &&& !(ins is Cls || ins is Drw) ==> after.display == m.display
            &&& !(ins is LdDtVx) ==> after.delay_timer == m.delay_timer
            &&& !(ins is LdStVx) ==> after.sound_timer == m.sound_timer
            &&& !(ins is LdB || ins is LdIVx) ==> after.memory == m.memory
            &&& !(ins is Call) ==> after.stack == m.stack
            &&& !(ins is Call || ins is Ret) ==> after.sp == m.sp
            &&& !(ins is LdI || ins is AddI || ins is LdF) ==> after.i == m.i
            &&& !(ins is LdVxK) ==> after.waiting_for_key == m.waiting_for_key
        }),
{
}

/// No instruction reads the pause flag or the afterglow: with other values
/// of the two, it faults or not as before and does the same to the rest.
pub proof fn instructions_ignore_presentation_state(
    m: Machine,
    ins: Instruction,
    random: u8,
    paused: bool,
    ghost_display: Seq<u8>,
)
    ensures
        ({
            let other = Machine { paused, ghost_display, ..m };
            &&& other.fault(ins) == m.fault(ins)
            &&& other.step(ins, random) == (Machine {
                paused,
                ghost_display,
                ..m.step(ins, random)
            })
        }),
{
}

/// The font stays where it is unless a program writes over it: an
/// instruction changes none of the first 80 bytes of memory, except the
/// decimal and the register store with the index register below 80.
pub proof fn font_stays_unless_overwritten(m: Machine, ins: Instruction, random: u8)
    requires
        m.well_formed(),
        m.fault(ins) is None,
        !((ins is LdB || ins is LdIVx) && m.i < 80),
    ensures
        forall|a: int| 0 <= a < 80 ==> m.step(ins, random).memory[a] == m.memory[a],
{
}

/// After any instruction but a jump, a call, a return and a key wait that
/// blocks, the program counter is four higher if the instruction is a skip
/// whose condition holds, and two higher otherwise.
pub proof fn program_counter_advances(m: Machine, ins: Instruction, random: u8)
    requires
        m.fault(ins) is None,
        !(ins is Jp || ins is JpV0 || ins is Call || ins is Ret),
        !(ins is LdVxK && lowest_pressed(m.keypad, 0) is None),
    ensures
        m.skips(ins) ==> m.step(ins, random).pc == m.pc + 4,
        !m.skips(ins) ==> m.step(ins, random).pc == m.pc + 2,
        m.skips(ins) ==> ins is SeByte || ins is SneByte || ins is SeReg || ins is SneReg
            || ins is Skp || ins is Sknp,
{
}

/// A key wait that finds no key pressed leaves the program counter where
/// it is and records the register to fill; one that finds a key stores the
/// lowest pressed one and ends the wait.
pub proof fn key_wait_blocks_or_stores(m: Machine, x: u8, random: u8)
    requires
        m.well_formed(),
        x < 16,
    ensures
        ({
            let after = m.step(Instruction::LdVxK { x }, random);
            match lowest_pressed(m.keypad, 0) {
                None => after == (Machine { waiting_for_key: Some(x), ..m }),
                Some(key) => m.pc + 2 <= 0xFFFF ==> after.reg(x) == key
                    && after.waiting_for_key is None && after.pc == m.pc + 2,
            }
        }),
{
}

/// `lowest_pressed` from 0 is the lowest index of a pressed key, and
/// `None` exactly if no key is pressed.
pub proof fn lowest_pressed_is_lowest(keypad: Seq<bool>)
    requires
        keypad.len() == 16,
    ensures
        match lowest_pressed(keypad, 0) {
            Some(key) => key < 16 && keypad[key as int] && forall|j: int|
                0 <= j < key ==> !keypad[j],
            None => forall|j: int| 0 <= j < 16 ==> !keypad[j],
        },
{
    lowest_pressed_from(keypad, 0);
}

/// `lowest_pressed` from `from` is the lowest index of a pressed key at or
/// above `from`.
proof fn lowest_pressed_from(keypad: Seq<bool>, from: int)
    requires
        keypad.len() == 16,
        0 <= from <= 16,
    ensures
        match lowest_pressed(keypad, from) {
            Some(key) => from <= key < 16 && keypad[key as int] && forall|j: int|
                from <= j < key ==> !keypad[j],
            None => forall|j: int| from <= j < 16 ==> !keypad[j],
        },
    decreases 16 - from,
{
    if from < 16 && !keypad[from] {
        lowest_pressed_from(keypad, from + 1);
    }
}

/// A call followed at once by a return ends at the instruction after the
/// call, with the stack pointer as it was before the call.
pub proof fn call_then_return(m: Machine, nnn: u16, random: u8)
    requires
        m.well_formed(),
        m.fault(Instruction::Call { nnn }) is None,
        m.pc + 2 <= 0xFFFF,
    ensures
        ({
            let called = m.step(Instruction::Call { nnn }, random);
            let returned = called.step(Instruction::Ret, random);
            &&& called.pc == nnn
            &&& called.fault(Instruction::Ret) is None
            &&& returned.pc == m.pc + 2
            &&& returned.sp == m.sp
        }),
{
}

/// `8xy4` leaves the wrapped sum in `Vx` and sets `VF` to 1 if the sum of
/// the two registers as they were exceeds 255, else to 0. The flag is
/// written last, so it wins where `x` is 15.
pub proof fn add_sets_carry(m: Machine, x: u8, y: u8, random: u8)
    requires
        m.well_formed(),
        x < 16,
        y < 16,
    ensures
        ({
            let after = m.step(Instruction::AddReg { x, y }, random);
            &&& after.reg(0xF) == 1 <==> m.reg(x) + m.reg(y) > 255
            &&& after.reg(0xF) == 0 <==> m.reg(x) + m.reg(y) <= 255
            &&& x != 0xF ==> after.reg(x) == (m.reg(x) + m.reg(y)) % 256
        }),
{
}

/// `8xy5` leaves the wrapped difference `Vx - Vy` in `Vx` and sets `VF` to
/// 1 if `Vx >= Vy` held before, else to 0.
pub proof fn sub_sets_no_borrow(m: Machine, x: u8, y: u8, random: u8)
    requires
        m.well_formed(),
        x < 16,
        y < 16,
    ensures
        ({
            let after = m.step(Instruction::Sub { x, y }, random);
            &&& after.reg(0xF) == 1 <==> m.reg(x) >= m.reg(y)
            &&& after.reg(0xF) == 0 <==> m.reg(x) < m.reg(y)
            &&& x != 0xF ==> after.reg(x) == (m.reg(x) - m.reg(y)) % 256
        }),
{
}

/// `8xy7` leaves the wrapped difference `Vy - Vx` in `Vx` and sets `VF` to
/// 1 if `Vy >= Vx` held before, else to 0.
pub proof fn subn_sets_no_borrow(m: Machine, x: u8, y: u8, random: u8)
    requires
        m.well_formed(),
        x < 16,
        y < 16,
    ensures
        ({
            let after = m.step(Instruction::Subn { x, y }, random);
            &&& after.reg(0xF) == 1 <==> m.reg(y) >= m.reg(x)
            &&& after.reg(0xF) == 0 <==> m.reg(y) < m.reg(x)
            &&& x != 0xF ==> after.reg(x) == (m.reg(y) - m.reg(x)) % 256
        }),
{
}

/// For a register other than `VF`, `8xy6` sets `VF` to the lowest bit that
/// `Vx` had and halves `Vx`. (Shifting `VF` itself shifts the flag that was
/// just written.)
pub proof fn shr_sets_low_bit(m: Machine, x: u8, random: u8)
    requires
        m.well_formed(),
        x < 15,
    ensures
        ({
            let after = m.step(Instruction::Shr { x }, random);
            &&& after.reg(0xF) == m.reg(x) % 2
            &&& after.reg(x) == m.reg(x) / 2
        }),
{
    let a = m.reg(x);
    assert(a & 1 == a % 2) by (bit_vector);
    assert(a >> 1 == a / 2) by (bit_vector);
}

/// For a register other than `VF`, `8xyE` sets `VF` to the highest bit that
/// `Vx` had and doubles `Vx`, dropping that bit. (Shifting `VF` itself
/// shifts the flag that was just written.)
pub proof fn shl_sets_high_bit(m: Machine, x: u8, random: u8)
    requires
        m.well_formed(),
        x < 15,
    ensures
        ({
            let after = m.step(Instruction::Shl { x }, random);
            &&& after.reg(0xF) == m.reg(x) / 128
            &&& after.reg(x) == (m.reg(x) * 2) % 256
        }),
{
    let a = m.reg(x);
    assert((a & 0x80) >> 7 == a / 128) by (bit_vector);
    assert(a << 1 == (a * 2) % 256) by (bit_vector);
}

/// Whether the sprite of `Dxyn` has a set bit at its own row `row` and
/// column `col` that lands on display pixel `p` without wrapping.
pub open spec fn sprite_bit_lands(m: Machine, x: u8, y: u8, n: u8, row: int, col: int, p: int) -> bool {
    &&& 0 <= row < n
    &&& 0 <= col < 8
    &&& m.sprite_top(y) + row < 32
    &&& m.sprite_left(x) + col < 64
    &&& p == (m.sprite_top(y) + row) * 64 + m.sprite_left(x) + col
    &&& sprite_bit(m.memory[m.i + row], col as u8)
}

/// A sprite bit that lands on a pixel covers it.
proof fn landing_covers(m: Machine, x: u8, y: u8, n: u8, row: int, col: int, p: int)
    requires
        sprite_bit_lands(m, x, y, n, row, col, p),
    ensures
        0 <= p < 2048,
        sprite_covers(m.memory, m.i as int, m.sprite_left(x), m.sprite_top(y), n as int, p),
{
    let left = m.sprite_left(x);
    let top = m.sprite_top(y);
    assert(p / 64 == top + row && p % 64 == left + col);
}

/// A covered pixel is one on which a sprite bit lands.
proof fn cover_lands(m: Machine, x: u8, y: u8, n: u8, p: int)
    requires
        sprite_covers(m.memory, m.i as int, m.sprite_left(x), m.sprite_top(y), n as int, p),
    ensures
        sprite_bit_lands(m, x, y, n, p / 64 - m.sprite_top(y), p % 64 - m.sprite_left(x), p),
{
}

/// After a draw, a pixel has changed exactly if a set sprite bit lands on
/// it inside the display, and `VF` is 1 exactly if such a pixel was lit
/// before, else 0. Sprite bits that would fall right of column 63 or below
/// row 31 change nothing and count for nothing.
pub proof fn draw_flips_and_flags(m: Machine, x: u8, y: u8, n: u8, random: u8)
    requires
        m.well_formed(),
        x < 16,
        y < 16,
    ensures
        ({
            let after = m.step(Instruction::Drw { x, y, n }, random);
            &&& forall|p: int|
                0 <= p < 2048 ==> (after.display[p] != m.display[p] <==> exists|
                    row: int,
                    col: int,
                | #[trigger] sprite_bit_lands(m, x, y, n, row, col, p))
            &&& after.reg(0xF) == 1 <==> exists|row: int, col: int, p: int|
                #[trigger] sprite_bit_lands(m, x, y, n, row, col, p) && m.display[p]
            &&& after.reg(0xF) == 0 || after.reg(0xF) == 1
            &&& after.memory == m.memory
        }),
{
    let left = m.sprite_left(x);
    let top = m.sprite_top(y);
    let after = m.drawn(x, y, n);
    assert(m.step(Instruction::Drw { x, y, n }, random) == (Machine {
        pc: m.next_pc(Instruction::Drw { x, y, n }) as u16,
        ..after
    }));
    assert forall|p: int| 0 <= p < 2048 implies (after.display[p] != m.display[p] <==> exists|
        row: int,
        col: int,
    | #[trigger] sprite_bit_lands(m, x, y, n, row, col, p)) by {
        if sprite_covers(m.memory, m.i as int, left, top, n as int, p) {
            cover_lands(m, x, y, n, p);
        }
        if exists|row: int, col: int| #[trigger] sprite_bit_lands(m, x, y, n, row, col, p) {
            let (row, col) = choose|row: int, col: int| #[trigger]
                sprite_bit_lands(m, x, y, n, row, col, p);
            landing_covers(m, x, y, n, row, col, p);
        }
    }
    if m.sprite_collides(x, y, n) {
        let p = choose|p: int|
            #[trigger] sprite_covers(m.memory, m.i as int, left, top, n as int, p) && m.display[p];
        cover_lands(m, x, y, n, p);
    }
    if exists|row: int, col: int, p: int|
        #[trigger] sprite_bit_lands(m, x, y, n, row, col, p) && m.display[p] {
        let (row, col, p) = choose|row: int, col: int, p: int|
            #[trigger] sprite_bit_lands(m, x, y, n, row, col, p) && m.display[p];
        landing_covers(m, x, y, n, row, col, p);
    }
}

/// A save followed at once by a restore leaves the live state as it was,
/// with that state in the checkpoint slot; and the checkpoint is still
/// there to be restored again, whatever happens to the live state.
pub proof fn save_then_restore(c: Checkpointed, later: Machine)
    ensures
        c.save().restore().live == c.live,
        c.save().restore().saved == Some(c.live),
        c.save().restore().restore() == c.save().restore(),
        (Checkpointed { live: later, ..c.save().restore() }).restore().live == c.live,
{
}

/// After a reset the program counter is at 0x200; registers, index, stack,
/// timers, keypad, display and afterglow are zero; nothing waits or is
/// paused; the font is at address 0; and every byte from 0x200 onward is
/// what it was just before the reset.
pub proof fn reset_keeps_program(m: Machine)
    requires
        m.well_formed(),
    ensures
        ({
            let after = m.restarted();
            &&& after.well_formed()
            &&& after.pc == 0x200
            &&& after.i == 0
            &&& after.sp == 0
            &&& after.delay_timer == 0
            &&& after.sound_timer == 0
            &&& !after.paused
            &&& after.waiting_for_key is None
            &&& forall|r: int| 0 <= r < 16 ==> after.v[r] == 0 && after.stack[r] == 0 && !after.keypad[r]
            &&& forall|p: int| 0 <= p < 2048 ==> !after.display[p] && after.ghost_display[p] == 0
            &&& forall|a: int| 0 <= a < 80 ==> after.memory[a] == FONT_SET[a]
            &&& forall|a: int| 80 <= a < 0x200 ==> after.memory[a] == 0
            &&& forall|a: int| 0x200 <= a < 4096 ==> after.memory[a] == m.memory[a]
        }),
{
}

} // verus!
