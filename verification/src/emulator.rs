//! The machine state and its lifecycle: construction, program loading,
//! fetch, the cycle entry point, timers, afterglow, checkpoints and reset.

use crate::instruction::decoded;
use crate::model::{Fault, Machine, FONT_SET, PROGRAM_START};
use crate::opcodes::{execute, try_execute};
use vstd::prelude::*;

verus! {

/// A value copy of the whole machine state. It holds no checkpoint of its
/// own, so checkpoints never chain.
#[derive(Clone, Copy)]
pub struct Snapshot {
    pub memory: [u8; 4096],
    pub v: [u8; 16],
    pub i: u16,
    pub pc: u16,
    pub stack: [u16; 16],
    pub sp: u8,
    pub delay_timer: u8,
    pub sound_timer: u8,
    pub keypad: [bool; 16],
    pub display: [bool; 2048],
    pub paused: bool,
    pub waiting_for_key: Option<u8>,
    pub ghost_display: [u8; 2048],
}

/// The machine: its state and one checkpoint slot.
#[derive(Clone)]
pub struct Emulator {
    pub memory: [u8; 4096],
    pub v: [u8; 16],
    pub i: u16,
    pub pc: u16,
    pub stack: [u16; 16],
    pub sp: u8,
    pub delay_timer: u8,
    pub sound_timer: u8,
    pub keypad: [bool; 16],
    pub display: [bool; 2048],
    pub paused: bool,
    pub waiting_for_key: Option<u8>,
    pub checkpoint: Option<Box<Snapshot>>,
    pub ghost_display: [u8; 2048],
}

impl View for Snapshot {
    type V = Machine;

    open spec fn view(&self) -> Machine {
        Machine {
            memory: self.memory@,
            v: self.v@,
            i: self.i,
            pc: self.pc,
            stack: self.stack@,
            sp: self.sp,
            delay_timer: self.delay_timer,
            sound_timer: self.sound_timer,
            keypad: self.keypad@,
            display: self.display@,
            paused: self.paused,
            waiting_for_key: self.waiting_for_key,
            ghost_display: self.ghost_display@,
        }
    }
}

impl View for Emulator {
    type V = Machine;

    /// The live state, without the checkpoint slot.
    open spec fn view(&self) -> Machine {
        Machine {
            memory: self.memory@,
            v: self.v@,
            i: self.i,
            pc: self.pc,
            stack: self.stack@,
            sp: self.sp,
            delay_timer: self.delay_timer,
            sound_timer: self.sound_timer,
            keypad: self.keypad@,
            display: self.display@,
            paused: self.paused,
            waiting_for_key: self.waiting_for_key,
            ghost_display: self.ghost_display@,
        }
    }
}

/// A live state together with what the checkpoint slot holds.
#[verifier::ext_equal]
pub struct Checkpointed {
    pub live: Machine,
    pub saved: Option<Machine>,
}

impl Checkpointed {
    /// After a save: the slot holds the live state, whatever it held before.
    pub open spec fn save(self) -> Checkpointed {
        Checkpointed { live: self.live, saved: Some(self.live) }
    }

    /// After a restore: the live state is the saved one, which stays in the
    /// slot. With an empty slot nothing changes.
    pub open spec fn restore(self) -> Checkpointed {
        match self.saved {
            Some(saved) => Checkpointed { live: saved, saved: Some(saved) },
            None => self,
        }
    }
}

impl Emulator {
    /// The state in the checkpoint slot, if there is one.
    pub open spec fn saved(&self) -> Option<Machine> {
        match self.checkpoint {
            Some(snapshot) => Some((*snapshot)@),
            None => None,
        }
    }

    /// The live state and the checkpoint slot together.
    pub open spec fn checkpointed(&self) -> Checkpointed {
        Checkpointed { live: self@, saved: self.saved() }
    }

    /// The live state of a machine always has the machine's fixed sizes.
    pub proof fn view_is_well_formed(&self)
        ensures
            self@.well_formed(),
    {
    }

    /// A machine with the font at address 0, everything else zero, an empty
    /// checkpoint slot, and the program counter at `PROGRAM_START`.
    pub fn new() -> (emulator: Self)
        ensures
            emulator@ == Machine::initial(),
            emulator.checkpoint is None,
    {
        Self {
            memory: font_memory(),
            v: [0;16],
            i: 0,
            pc: PROGRAM_START,
            stack: [0;16],
            sp: 0,
            delay_timer: 0,
            sound_timer: 0,
            keypad: [false;16],
            display: [false;2048],
            paused: false,
            waiting_for_key: None,
            checkpoint: None,
            ghost_display: [0;2048],
        }
    }

    /// Copies a program to `PROGRAM_START`. What does not fit in the 0xE00
    /// bytes up to the end of memory is dropped.
    pub fn load_rom(&mut self, data: &[u8])
        ensures
            final(self)@ == old(self)@.with_program(data@),
            final(self).checkpoint == old(self).checkpoint,
    {
        copy_program(&mut self.memory, data);
    }

    /// The word at the program counter, high byte first.
    pub fn fetch(&self) -> (word: u16)
        requires
            self.pc < 4095,
        ensures
            word == self@.fetched(),
    {
        self.word_at(self.pc)
    }

    /// The word at `addr`, high byte first.
    pub fn word_at(&self, addr: u16) -> (word: u16)
        requires
            addr < 4095,
        ensures
            word == self@.word_at(addr as int),
    {
        let at: usize = addr as usize;
        let high: u16 = self.memory[at] as u16;
        let low: u16 = self.memory[at + 1] as u16;
        assert(high << 8 | low == high * 0x100 + low) by (bit_vector)
            requires
                high < 0x100,
                low < 0x100,
        ;
        high << 8 | low
    }

    /// Runs one cycle: fetches the word at the program counter and executes
    /// it. While the machine waits for a key, a cycle does nothing at all:
    /// nothing is fetched, and the wait lasts until `waiting_for_key` is
    /// cleared from outside. A cycle that cannot be carried out, because the
    /// program counter leaves no room for a word or the instruction faults,
    /// leaves the machine as it is.
    pub fn cycle(&mut self)
        ensures
            exists|random: u8| final(self)@ == #[trigger] old(self)@.cycled(random),
            old(self)@.waiting_for_key is Some || !(decoded(old(self)@.fetched()) is Rnd)
                ==> final(self)@ == old(self)@.cycled(0),
            final(self).checkpoint == old(self).checkpoint,
            old(self)@.cycle_fault() is Some ==> *final(self) == *old(self),
    {
        if self.waiting_for_key.is_some() || self.pc >= 4095 {
            assert(self@ == self@.cycled(0));
            return;
        }
        let opcode = self.fetch();
        execute(self, opcode);
        proof {
            let random = choose|random: u8|
                self@ == #[trigger] old(self)@.executed(decoded(opcode), random);
            assert(self@ == old(self)@.cycled(random));
        }
    }

    /// Runs one cycle as `cycle` does, and reports the fault of a cycle that
    /// cannot be carried out.
    pub fn try_cycle(&mut self) -> (done: Result<(), Fault>)
        ensures
            match old(self)@.cycle_fault() {
                Some(fault) => done == Err::<(), Fault>(fault) && *final(self) == *old(self),
                None => done is Ok,
            },
            exists|random: u8| final(self)@ == #[trigger] old(self)@.cycled(random),
            old(self)@.waiting_for_key is Some || !(decoded(old(self)@.fetched()) is Rnd)
                ==> final(self)@ == old(self)@.cycled(0),
            final(self).checkpoint == old(self).checkpoint,
    {
        if self.waiting_for_key.is_some() {
            assert(self@ == self@.cycled(0));
            return Ok(());
        }
        if self.pc >= 4095 {
            assert(self@ == self@.cycled(0));
            return Err(Fault::AddressOutOfRange);
        }
        let opcode = self.fetch();
        let done = try_execute(self, opcode);
        proof {
            if done is Ok {
                let random = choose|random: u8|
                    self@ == #[trigger] old(self)@.step(decoded(opcode), random);
                assert(self@ == old(self)@.cycled(random));
            } else {
                assert(self@ == old(self)@.cycled(0));
            }
        }
        done
    }

    /// One tick of the 60 Hz clock: each timer falls by one until it is
    /// zero.
    pub fn update_timers(&mut self)
        ensures
            final(self)@ == old(self)@.ticked(),
            final(self).checkpoint == old(self).checkpoint,
    {
        if self.delay_timer > 0 {
            self.delay_timer -= 1;
        }
        if self.sound_timer > 0 {
            self.sound_timer -= 1;
        }
    }

    /// One frame of afterglow: full where a pixel is lit, elsewhere 25
    /// lower, not below zero.
    pub fn update_ghost(&mut self)
        ensures
            final(self)@ == old(self)@.faded(),
            final(self).checkpoint == old(self).checkpoint,
    {
        fade(&mut self.ghost_display, &self.display);
    }

    /// A value copy of the live state.
    pub fn snapshot(&self) -> (snapshot: Snapshot)
        ensures
            snapshot@ == self@,
    {
        Snapshot {
            memory: self.memory,
            v: self.v,
            i: self.i,
            pc: self.pc,
            stack: self.stack,
            sp: self.sp,
            delay_timer: self.delay_timer,
            sound_timer: self.sound_timer,
            keypad: self.keypad,
            display: self.display,
            paused: self.paused,
            waiting_for_key: self.waiting_for_key,
            ghost_display: self.ghost_display,
        }
    }

    /// Stores a copy of the live state in the checkpoint slot, in place of
    /// what the slot held.
    pub fn save_checkpoint(&mut self)
        ensures
            final(self).checkpointed() == old(self).checkpointed().save(),
    {
        let snapshot = self.snapshot();
        self.checkpoint = Some(Box::new(snapshot));
    }

    /// Replaces the live state by a copy of the checkpoint, which stays in
    /// its slot. With an empty slot nothing changes.
    pub fn load_checkpoint(&mut self)
        ensures
            final(self).checkpointed() == old(self).checkpointed().restore(),
            final(self).checkpoint == old(self).checkpoint,
    {
        if let Some(saved) = &self.checkpoint {
            let snapshot: Snapshot = **saved;
            self.memory = snapshot.memory;
            self.v = snapshot.v;
            self.i = snapshot.i;
            self.pc = snapshot.pc;
            self.stack = snapshot.stack;
            self.sp = snapshot.sp;
            self.delay_timer = snapshot.delay_timer;
            self.sound_timer = snapshot.sound_timer;
            self.keypad = snapshot.keypad;
            self.display = snapshot.display;
            self.paused = snapshot.paused;
            self.waiting_for_key = snapshot.waiting_for_key;
            self.ghost_display = snapshot.ghost_display;
        }
    }

    /// Starts over: the initial machine with an empty checkpoint slot, but
    /// with the bytes from `PROGRAM_START` onward as they are now, whatever
    /// the program has written there.
    pub fn reset(&mut self)
        ensures
            final(self)@ == old(self)@.restarted(),
            final(self).checkpoint is None,
    {
        let memory = self.memory;
        *self = Self::new();
        keep_program(&mut self.memory, &memory);
    }
}

/// Memory with the font at address 0 and zeros elsewhere.
fn font_memory() -> (memory: [u8; 4096])
    ensures
        memory@ == Machine::initial().memory,
{
    let mut memory: [u8; 4096] = [0;4096];
    let mut a: usize = 0;
    while a < 80
        invariant
            a <= 80,
            forall|b: int| 0 <= b < a ==> memory@[b] == FONT_SET[b],
            forall|b: int| a <= b < 4096 ==> memory@[b] == 0,
        decreases 80 - a,
    {
        memory[a] = FONT_SET[a];
        a += 1;
    }
    memory
}

/// Copies as much of `data` to `PROGRAM_START` as fits.
fn copy_program(memory: &mut [u8; 4096], data: &[u8])
    ensures
        forall|a: int|
            0 <= a < 4096 ==> final(memory)@[a] == if 0x200 <= a < 0x200 + Machine::loaded_len(
                data@,
            ) {
                data@[a - 0x200]
            } else {
                old(memory)@[a]
            },
{
    let len: usize = if data.len() < 0xE00 {
        data.len()
    } else {
        0xE00
    };
    let mut k: usize = 0;
    while k < len
        invariant
            k <= len <= 0xE00,
            len == Machine::loaded_len(data@),
            forall|a: int|
                0 <= a < 4096 ==> memory@[a] == if 0x200 <= a < 0x200 + k {
                    data@[a - 0x200]
                } else {
                    old(memory)@[a]
                },
        decreases len - k,
    {
        memory[0x200 + k] = data[k];
        k += 1;
    }
}

/// Copies the bytes from `PROGRAM_START` onward from `from`.
fn keep_program(memory: &mut [u8; 4096], from: &[u8; 4096])
    ensures
        forall|a: int|
            0 <= a < 4096 ==> final(memory)@[a] == if a < 0x200 {
                old(memory)@[a]
            } else {
                from@[a]
            },
{
    let mut a: usize = 0x200;
    while a < 4096
        invariant
            0x200 <= a <= 4096,
            forall|b: int|
                0 <= b < 4096 ==> memory@[b] == if 0x200 <= b < a {
                    from@[b]
                } else {
                    old(memory)@[b]
                },
        decreases 4096 - a,
    {
        memory[a] = from[a];
        a += 1;
    }
}

/// Lets the afterglow fade by one frame under `display`.
fn fade(ghost: &mut [u8; 2048], display: &[bool; 2048])
    ensures
        forall|p: int|
            0 <= p < 2048 ==> final(ghost)@[p] == if display@[p] {
                255u8
            } else if old(ghost)@[p] >= 25 {
                (old(ghost)@[p] - 25) as u8
            } else {
                0u8
            },
{
    let mut p: usize = 0;
    while p < 2048
        invariant
            p <= 2048,
            forall|q: int|
                0 <= q < 2048 ==> ghost@[q] == if q >= p {
                    old(ghost)@[q]
                } else if display@[q] {
                    255u8
                } else if old(ghost)@[q] >= 25 {
                    (old(ghost)@[q] - 25) as u8
                } else {
                    0u8
                },
        decreases 2048 - p,
    {
        if display[p] {
            ghost[p] = 255;
        } else if ghost[p] > 0 {
            ghost[p] = ghost[p].saturating_sub(25);
        }
        p += 1;
    }
}

} // verus!
