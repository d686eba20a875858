//! What the front end decides and computes, apart from drawing and
//! reading the terminal: the meaning of a key, the work of one frame, and
//! the text of the display, disassembly and stack views.

use crate::disassembler::{disassemble, mnemonic};
use crate::emulator::{Checkpointed, Emulator};
use crate::instruction::decoded;
use crate::model::{Fault, Machine};
use vstd::prelude::*;
use vstd::string::*;

verus! {

/// A key of the keyboard, as far as the front end tells keys apart.
#[derive(Clone, Copy, Debug, PartialEq, Eq, Structural)]
pub enum Key {
    Esc,
    Char(char),
    Other,
}

/// What the front end shows: the running game, or the paused machine with
/// its registers, stack and disassembly.
#[derive(Clone, Copy, Debug, PartialEq, Eq, Structural)]
pub enum UiMode {
    Playing,
    Inspector,
}

/// What a key asks for.
#[derive(Clone, Copy, Debug, PartialEq, Eq, Structural)]
pub enum Command {
    /// Leave the program.
    Quit,
    /// Switch between the game and the inspector.
    ToggleInspector,
    /// Pause or resume.
    TogglePause,
    /// Run one cycle.
    Step,
    /// Resume.
    Continue,
    /// Reset the machine.
    Reset,
    SaveCheckpoint,
    LoadCheckpoint,
    /// Press the key of the machine's keypad with this number.
    Press(usize),
    /// Nothing.
    Ignore,
}

/// The keypad key that a character stands for. The keypad's four rows
/// `123C`, `456D`, `789E`, `A0BF` lie on the keyboard's `1234`, `qwer`,
/// `asdf`, `zxcv`.
pub open spec fn keypad_key(c: char) -> Option<usize> {
    if c == '1' {
        Some(0x1)
    } else if c == '2' {
        Some(0x2)
    } else if c == '3' {
        Some(0x3)
    } else if c == '4' {
        Some(0xC)
    } else if c == 'q' {
        Some(0x4)
    } else if c == 'w' {
        Some(0x5)
    } else if c == 'e' {
        Some(0x6)
    } else if c == 'r' {
        Some(0xD)
    } else if c == 'a' {
        Some(0x7)
    } else if c == 's' {
        Some(0x8)
    } else if c == 'd' {
        Some(0x9)
    } else if c == 'f' {
        Some(0xE)
    } else if c == 'z' {
        Some(0xA)
    } else if c == 'x' {
        Some(0x0)
    } else if c == 'c' {
        Some(0xB)
    } else if c == 'v' {
        Some(0xF)
    } else {
        None
    }
}

/// What a key asks for in a mode. `Esc`, `i` and `p` mean the same in both
/// modes; `s`, `c`, `r`, `k` and `l` are inspector commands in the inspector
/// and keypad keys, or nothing, in the game. Letters that are commands are
/// taken in either case, keypad keys in lower case only.
pub open spec fn command_of(key: Key, mode: UiMode) -> Command {
    match key {
        Key::Esc => Command::Quit,
        Key::Other => Command::Ignore,
        Key::Char(c) => if c == 'i' || c == 'I' {
            Command::ToggleInspector
        } else if c == 'p' || c == 'P' {
            Command::TogglePause
        } else if mode is Inspector && (c == 's' || c == 'S') {
            Command::Step
        } else if mode is Inspector && (c == 'c' || c == 'C') {
            Command::Continue
        } else if mode is Inspector && (c == 'r' || c == 'R') {
            Command::Reset
        } else if mode is Inspector && (c == 'k' || c == 'K') {
            Command::SaveCheckpoint
        } else if mode is Inspector && (c == 'l' || c == 'L') {
            Command::LoadCheckpoint
        } else {
            match keypad_key(c) {
                Some(k) => Command::Press(k),
                None => Command::Ignore,
            }
        },
    }
}

/// The machine with its checkpoint, the mode of the front end and the
/// keypad keys pressed so far in this frame.
#[verifier::ext_equal]
pub struct Session {
    pub machine: Checkpointed,
    pub mode: UiMode,
    pub keys: Seq<usize>,
}

impl Session {
    /// Why a command cannot be carried out, if it cannot: only a step can
    /// fail, as the cycle it runs.
    pub open spec fn fault(self, command: Command) -> Option<Fault> {
        if command is Step {
            self.machine.live.cycle_fault()
        } else {
            None
        }
    }

    /// This session with the live state replaced.
    pub open spec fn with_live(self, live: Machine) -> Session {
        Session { machine: Checkpointed { live, ..self.machine }, ..self }
    }

    /// The session after a command. `random` is the byte for the cycle of
    /// a step.
    pub open spec fn after(self, command: Command, random: u8) -> Session {
        let live = self.machine.live;
        match command {
            Command::Quit | Command::Ignore => self,
            Command::ToggleInspector => match self.mode {
                UiMode::Playing => Session {
                    mode: UiMode::Inspector,
                    ..self.with_live(Machine { paused: true, ..live })
                },
                UiMode::Inspector => Session {
                    mode: UiMode::Playing,
                    ..self.with_live(Machine { paused: false, ..live })
                },
            },
            Command::TogglePause => self.with_live(Machine { paused: !live.paused, ..live }),
            Command::Step => self.with_live(live.cycled(random)),
            Command::Continue => self.with_live(Machine { paused: false, ..live }),
            Command::Reset => Session {
                machine: Checkpointed { live: live.restarted(), saved: None },
                ..self
            },
            Command::SaveCheckpoint => Session { machine: self.machine.save(), ..self },
            Command::LoadCheckpoint => Session { machine: self.machine.restore(), ..self },
            Command::Press(k) => if self.keys.contains(k) {
                self
            } else {
                Session { keys: self.keys.push(k), ..self }
            },
        }
    }
}

/// The keypad key that a character stands for.
fn keypad_key_for(c: char) -> (key: Option<usize>)
    ensures
        key == keypad_key(c),
        key matches Some(k) ==> k < 16,
{
    match c {
        '1' => Some(0x1),
        '2' => Some(0x2),
        '3' => Some(0x3),
        '4' => Some(0xC),
        'q' => Some(0x4),
        'w' => Some(0x5),
        'e' => Some(0x6),
        'r' => Some(0xD),
        'a' => Some(0x7),
        's' => Some(0x8),
        'd' => Some(0x9),
        'f' => Some(0xE),
        'z' => Some(0xA),
        'x' => Some(0x0),
        'c' => Some(0xB),
        'v' => Some(0xF),
        _ => None,
    }
}

/// What a key asks for in a mode.
pub fn command_for(key: Key, mode: UiMode) -> (command: Command)
    ensures
        command == command_of(key, mode),
        command matches Command::Press(k) ==> k < 16,
{
    match key {
        Key::Esc => Command::Quit,
        Key::Other => Command::Ignore,
        Key::Char(c) => {
            let inspecting = match mode {
                UiMode::Inspector => true,
                UiMode::Playing => false,
            };
            if c == 'i' || c == 'I' {
                Command::ToggleInspector
            } else if c == 'p' || c == 'P' {
                Command::TogglePause
            } else if inspecting && (c == 's' || c == 'S') {
                Command::Step
            } else if inspecting && (c == 'c' || c == 'C') {
                Command::Continue
            } else if inspecting && (c == 'r' || c == 'R') {
                Command::Reset
            } else if inspecting && (c == 'k' || c == 'K') {
                Command::SaveCheckpoint
            } else if inspecting && (c == 'l' || c == 'L') {
                Command::LoadCheckpoint
            } else {
                match keypad_key_for(c) {
                    Some(k) => Command::Press(k),
                    None => Command::Ignore,
                }
            }
        },
    }
}

/// Whether `key` is among `keys`.
fn holds_key(keys: &Vec<usize>, key: usize) -> (held: bool)
    ensures
        held == keys@.contains(key),
{
    let mut k: usize = 0;
    while k < keys.len()
        invariant
            k <= keys.len(),
            forall|j: int| 0 <= j < k ==> keys@[j] != key,
        decreases keys.len() - k,
    {
        if keys[k] == key {
            return true;
        }
        k += 1;
    }
    false
}

/// Carries out what a key asks for, and tells whether to leave the
/// program. A step that cannot be run is reported as its fault, and nothing
/// changes.
pub fn handle_input(
    emulator: &mut Emulator,
    key: Key,
    mode: &mut UiMode,
    keys_pressed: &mut Vec<usize>,
) -> (quit: Result<bool, Fault>)
    ensures
        ({
            let command = command_of(key, *old(mode));
            let before = Session {
                machine: old(emulator).checkpointed(),
                mode: *old(mode),
                keys: old(keys_pressed)@,
            };
            let after = Session {
                machine: final(emulator).checkpointed(),
                mode: *final(mode),
                keys: final(keys_pressed)@,
            };
            match before.fault(command) {
                Some(fault) => quit == Err::<bool, Fault>(fault) && after == before,
                None => quit == Ok::<bool, Fault>(command is Quit) && exists|random: u8|
                    after == #[trigger] before.after(command, random),
            }
        }),
        (forall|j: int| 0 <= j < old(keys_pressed)@.len() ==> old(keys_pressed)@[j] < 16) ==> (
        forall|j: int| 0 <= j < final(keys_pressed)@.len() ==> final(keys_pressed)@[j] < 16),
{
    let ghost before = Session {
        machine: emulator.checkpointed(),
        mode: *mode,
        keys: keys_pressed@,
    };
    let command = command_for(key, *mode);
    match command {
        Command::Quit => {
            assert(before == before.after(command, 0));
            Ok(true)
        },
        Command::Ignore => {
            assert(before == before.after(command, 0));
            Ok(false)
        },
        Command::ToggleInspector => {
            match *mode {
                UiMode::Playing => {
                    emulator.paused = true;
                    *mode = UiMode::Inspector;
                },
                UiMode::Inspector => {
                    emulator.paused = false;
                    *mode = UiMode::Playing;
                },
            }
            assert(Session {
                machine: emulator.checkpointed(),
                mode: *mode,
                keys: keys_pressed@,
            } == before.after(command, 0));
            Ok(false)
        },
        Command::TogglePause => {
            emulator.paused = !emulator.paused;
            assert(Session {
                machine: emulator.checkpointed(),
                mode: *mode,
                keys: keys_pressed@,
            } == before.after(command, 0));
            Ok(false)
        },
        Command::Step => {
            match emulator.try_cycle() {
                Err(fault) => Err(fault),
                Ok(()) => {
                    proof {
                        let random = choose|random: u8|
                            emulator@ == #[trigger] before.machine.live.cycled(random);
                        assert(Session {
                            machine: emulator.checkpointed(),
                            mode: *mode,
                            keys: keys_pressed@,
                        } == before.after(command, random));
                    }
                    Ok(false)
                },
            }
        },
        Command::Continue => {
            emulator.paused = false;
            assert(Session {
                machine: emulator.checkpointed(),
                mode: *mode,
                keys: keys_pressed@,
            } == before.after(command, 0));
            Ok(false)
        },
        Command::Reset => {
            emulator.reset();
            assert(Session {
                machine: emulator.checkpointed(),
                mode: *mode,
                keys: keys_pressed@,
            } == before.after(command, 0));
            Ok(false)
        },
        Command::SaveCheckpoint => {
            emulator.save_checkpoint();
            assert(Session {
                machine: emulator.checkpointed(),
                mode: *mode,
                keys: keys_pressed@,
            } == before.after(command, 0));
            Ok(false)
        },
        Command::LoadCheckpoint => {
            emulator.load_checkpoint();
            assert(Session {
                machine: emulator.checkpointed(),
                mode: *mode,
                keys: keys_pressed@,
            } == before.after(command, 0));
            Ok(false)
        },
        Command::Press(k) => {
            if !holds_key(keys_pressed, k) {
                keys_pressed.push(k);
            }
            assert(Session {
                machine: emulator.checkpointed(),
                mode: *mode,
                keys: keys_pressed@,
            } == before.after(command, 0));
            Ok(false)
        },
    }
}

/// The machine with the keys of `keys` pressed, besides those that are.
pub open spec fn latched(m: Machine, keys: Seq<usize>) -> Machine {
    Machine { keypad: Seq::new(16, |k: int| m.keypad[k] || keys.contains(k as usize)), ..m }
}

/// The machine after one cycle for each byte of `randoms`, in their order,
/// or, if one of the cycles cannot be run, the machine before the first
/// such cycle and its fault.
pub open spec fn ran(m: Machine, randoms: Seq<u8>) -> (Machine, Option<Fault>)
    decreases randoms.len(),
{
    if randoms.len() == 0 {
        (m, None)
    } else {
        let (before, fault) = ran(m, randoms.drop_last());
        if fault is Some {
            (before, fault)
        } else {
            match before.cycle_fault() {
                Some(fault) => (before, Some(fault)),
                None => (before.cycled(randoms.last()), None),
            }
        }
    }
}

/// The machine after one frame: the pressed keys are latched; the timers
/// tick if a tick is due; and unless the machine is paused, it runs one
/// cycle for each byte of `randoms` and its afterglow fades by one step. A
/// cycle that cannot be run ends the frame with its fault, before the
/// afterglow.
pub open spec fn frame(m: Machine, keys: Seq<usize>, timer_due: bool, randoms: Seq<u8>) -> (
    Machine,
    Option<Fault>,
) {
    let ready = if timer_due {
        latched(m, keys).ticked()
    } else {
        latched(m, keys)
    };
    if ready.paused {
        (ready, None)
    } else if ran(ready, randoms).1 is Some {
        ran(ready, randoms)
    } else {
        (ran(ready, randoms).0.faded(), None)
    }
}

/// Once a cycle has faulted, further bytes change nothing.
proof fn ran_stays_faulted(m: Machine, randoms: Seq<u8>, more: Seq<u8>)
    requires
        ran(m, randoms).1 is Some,
    ensures
        ran(m, randoms + more) == ran(m, randoms),
    decreases more.len(),
{
    if more.len() == 0 {
        assert(randoms + more =~= randoms);
    } else {
        ran_stays_faulted(m, randoms, more.drop_last());
        assert((randoms + more).drop_last() =~= randoms + more.drop_last());
    }
}

/// Presses the keys of `keys`.
fn latch(keypad: &mut [bool; 16], keys: &Vec<usize>)
    requires
        forall|j: int| 0 <= j < keys@.len() ==> keys@[j] < 16,
    ensures
        forall|k: int|
            0 <= k < 16 ==> final(keypad)@[k] == (old(keypad)@[k] || keys@.contains(k as usize)),
{
    let mut j: usize = 0;
    while j < keys.len()
        invariant
            j <= keys.len(),
            forall|j: int| 0 <= j < keys@.len() ==> keys@[j] < 16,
            forall|k: int|
                0 <= k < 16 ==> keypad@[k] == (old(keypad)@[k] || keys@.subrange(
                    0,
                    j as int,
                ).contains(k as usize)),
        decreases keys.len() - j,
    {
        let key = keys[j];
        keypad[key] = true;
        proof {
            let earlier = keys@.subrange(0, j as int);
            let now = keys@.subrange(0, j + 1);
            assert(now =~= earlier.push(key));
            assert forall|q: usize| #[trigger] now.contains(q) <==> (earlier.contains(q) || q
                == key) by {
                if earlier.contains(q) {
                    let at = choose|at: int| 0 <= at < earlier.len() && earlier[at] == q;
                    assert(now[at] == q);
                }
                if q == key {
                    assert(now[j as int] == key);
                }
            }
        }
        j += 1;
    }
    assert(keys@.subrange(0, keys@.len() as int) =~= keys@);
}

/// Runs `count` cycles, or as many as can be run.
fn run_cycles(emulator: &mut Emulator, count: u32) -> (done: Result<(), Fault>)
    ensures
        exists|randoms: Seq<u8>|
            randoms.len() == count && #[trigger] ran(old(emulator)@, randoms) == (
                final(emulator)@,
                match done {
                    Ok(_) => None::<Fault>,
                    Err(fault) => Some(fault),
                },
            ),
        final(emulator).checkpoint == old(emulator).checkpoint,
{
    let ghost mut randoms: Seq<u8> = Seq::empty();
    let mut k: u32 = 0;
    while k < count
        invariant
            k <= count,
            randoms.len() == k,
            ran(old(emulator)@, randoms) == (emulator@, None::<Fault>),
            emulator.checkpoint == old(emulator).checkpoint,
        decreases count - k,
    {
        let ghost before = emulator@;
        match emulator.try_cycle() {
            Err(fault) => {
                proof {
                    let stopped = randoms.push(0u8);
                    let more = Seq::new((count - k - 1) as nat, |j: int| 0u8);
                    assert(stopped.drop_last() =~= randoms);
                    assert(ran(old(emulator)@, stopped) == (before, Some(fault)));
                    ran_stays_faulted(old(emulator)@, stopped, more);
                    assert((stopped + more).len() == count);
                    assert(ran(old(emulator)@, stopped + more) == (emulator@, Some(fault)));
                }
                return Err(fault);
            },
            Ok(()) => {
                proof {
                    let random = choose|random: u8| emulator@ == #[trigger] before.cycled(random);
                    assert(randoms.push(random).drop_last() =~= randoms);
                    randoms = randoms.push(random);
                }
            },
        }
        k += 1;
    }
    Ok(())
}

/// Does the work of one frame: latches the keys pressed in this frame,
/// ticks the timers if `timer_due`, and, unless the machine is paused, runs
/// `cycles_per_frame` cycles and fades the afterglow. The caller clears the
/// keypad at the start of the frame and decides when a tick is due.
pub fn run_frame(
    emulator: &mut Emulator,
    keys_pressed: &Vec<usize>,
    timer_due: bool,
    cycles_per_frame: u32,
) -> (done: Result<(), Fault>)
    requires
        forall|j: int| 0 <= j < keys_pressed@.len() ==> keys_pressed@[j] < 16,
    ensures
        exists|randoms: Seq<u8>|
            randoms.len() == cycles_per_frame && #[trigger] frame(
                old(emulator)@,
                keys_pressed@,
                timer_due,
                randoms,
            ) == (
                final(emulator)@,
                match done {
                    Ok(_) => None::<Fault>,
                    Err(fault) => Some(fault),
                },
            ),
        final(emulator).checkpoint == old(emulator).checkpoint,
{
    latch(&mut emulator.keypad, keys_pressed);
    assert(emulator@ == latched(old(emulator)@, keys_pressed@));
    if timer_due {
        emulator.update_timers();
    }
    let ghost ready = emulator@;
    if emulator.paused {
        proof {
            let randoms = Seq::new(cycles_per_frame as nat, |j: int| 0u8);
            assert(frame(old(emulator)@, keys_pressed@, timer_due, randoms) == (
                emulator@,
                None::<Fault>,
            ));
        }
        return Ok(());
    }
    let done = run_cycles(emulator, cycles_per_frame);
    let ghost randoms = choose|randoms: Seq<u8>|
        randoms.len() == cycles_per_frame && #[trigger] ran(ready, randoms) == (
            emulator@,
            match done {
                Ok(_) => None::<Fault>,
                Err(fault) => Some(fault),
            },
        );
    if done.is_ok() {
        emulator.update_ghost();
    }
    assert(frame(old(emulator)@, keys_pressed@, timer_due, randoms) == (
        emulator@,
        match done {
            Ok(_) => None::<Fault>,
            Err(fault) => Some(fault),
        },
    ));
    done
}

/// The two characters that stand for pixel `p`: a full block for a lit
/// pixel of an even row, a dark shade for one of an odd row, a light shade
/// for an unlit pixel whose afterglow is above 50, and else a blank.
pub open spec fn crt_cell(display: Seq<bool>, ghost: Seq<u8>, p: int) -> char {
    if display[p] {
        if (p / 64) % 2 == 0 {
            '\u{2588}'
        } else {
            '\u{2593}'
        }
    } else if ghost[p] > 50 {
        '\u{2591}'
    } else {
        ' '
    }
}

/// The display as text: 32 lines, each of 64 cells of two characters and
/// a line feed.
pub open spec fn crt_text(display: Seq<bool>, ghost: Seq<u8>) -> Seq<char> {
    Seq::new(
        32 * 129,
        |k: int|
            if k % 129 == 128 {
                '\n'
            } else {
                crt_cell(display, ghost, (k / 129) * 64 + (k % 129) / 2)
            },
    )
}

/// The two characters that stand for pixel `p`.
fn cell_text(display: &[bool; 2048], ghost: &[u8; 2048], p: usize) -> (cell: &'static str)
    requires
        p < 2048,
    ensures
        cell@ == seq![crt_cell(display@, ghost@, p as int), crt_cell(display@, ghost@, p as int)],
{
    proof {
        reveal_strlit("\u{2588}\u{2588}");
        reveal_strlit("\u{2593}\u{2593}");
        reveal_strlit("\u{2591}\u{2591}");
        reveal_strlit("  ");
    }
    let cell = if display[p] {
        if (p / 64) % 2 == 0 {
            "\u{2588}\u{2588}"
        } else {
            "\u{2593}\u{2593}"
        }
    } else if ghost[p] > 50 {
        "\u{2591}\u{2591}"
    } else {
        "  "
    };
    assert(cell@ =~= seq![crt_cell(display@, ghost@, p as int), crt_cell(display@, ghost@, p as int)]);
    cell
}

/// Renders the display, with its afterglow, as text.
pub fn render_display_crt(display: &[bool; 2048], ghost: &[u8; 2048]) -> (output: String)
    ensures
        output@ == crt_text(display@, ghost@),
{
    let mut output = String::new();
    let mut y: usize = 0;
    while y < 32
        invariant
            y <= 32,
            output@ == crt_text(display@, ghost@).subrange(0, y * 129),
        decreases 32 - y,
    {
        let mut x: usize = 0;
        while x < 64
            invariant
                x <= 64,
                y < 32,
                output@ == crt_text(display@, ghost@).subrange(0, y * 129 + 2 * x),
            decreases 64 - x,
        {
            let cell = cell_text(display, ghost, y * 64 + x);
            proof {
                let at = y * 129 + 2 * x;
                assert(at / 129 == y && at % 129 == 2 * x);
                assert((at + 1) / 129 == y && (at + 1) % 129 == 2 * x + 1);
                assert(crt_text(display@, ghost@).subrange(0, at + 2) =~= crt_text(
                    display@,
                    ghost@,
                ).subrange(0, at) + cell@);
            }
            output.append(cell);
            x += 1;
        }
        proof {
            reveal_strlit("\n");
            let at = y * 129 + 128;
            assert(at / 129 == y && at % 129 == 128);
            assert(crt_text(display@, ghost@).subrange(0, at + 1) =~= crt_text(
                display@,
                ghost@,
            ).subrange(0, at) + "\n"@);
        }
        output.append("\n");
        y += 1;
    }
    assert(crt_text(display@, ghost@).subrange(0, 4128) =~= crt_text(display@, ghost@));
    output
}

/// One line of the disassembly view.
pub struct DisassemblyLine {
    /// The address of the word.
    pub addr: u16,
    /// The word.
    pub opcode: u16,
    /// Its mnemonic text.
    pub text: String,
    /// Whether the program counter is at this word.
    pub current: bool,
}

/// The number of lines of the disassembly view: twelve words from the
/// program counter, as far as they start below address 4094.
pub open spec fn window_len(pc: int) -> int {
    if pc >= 4094 {
        0
    } else if pc + 22 < 4094 {
        12
    } else {
        (4094 - pc + 1) / 2
    }
}

/// The disassembly view: the word at the program counter and the eleven
/// words after it, each with its address and mnemonic, as far as they start
/// below address 4094.
pub fn disassembly_window(emulator: &Emulator) -> (lines: Vec<DisassemblyLine>)
    ensures
        lines@.len() == window_len(emulator.pc as int),
        forall|k: int|
            0 <= k < lines@.len() ==> {
                let line = #[trigger] lines@[k];
                &&& line.addr == emulator.pc + 2 * k
                &&& line.opcode == emulator@.word_at(emulator.pc + 2 * k)
                &&& line.text@ == mnemonic(decoded(line.opcode))
                &&& line.current == (k == 0)
            },
{
    let mut lines: Vec<DisassemblyLine> = Vec::new();
    let mut k: u16 = 0;
    while k < 12
        invariant
            k <= 12,
            lines@.len() == k,
            k > 0 ==> emulator.pc + 2 * (k - 1) < 4094,
            forall|j: int|
                0 <= j < lines@.len() ==> {
                    let line = #[trigger] lines@[j];
                    &&& line.addr == emulator.pc + 2 * j
                    &&& line.opcode == emulator@.word_at(emulator.pc + 2 * j)
                    &&& line.text@ == mnemonic(decoded(line.opcode))
                    &&& line.current == (j == 0)
                },
        decreases 12 - k,
    {
        let addr: u16 = emulator.pc + k * 2;
        if addr >= 4094 {
            return lines;
        }
        let opcode = emulator.word_at(addr);
        lines.push(DisassemblyLine { addr, opcode, text: disassemble(opcode), current: k == 0 });
        k += 1;
    }
    lines
}

/// One line of the stack view.
pub struct StackLine {
    /// The stack slot.
    pub slot: u8,
    /// The return address in it.
    pub addr: u16,
    /// Whether this is the slot that the next return pops.
    pub top: bool,
}

/// The number of lines of the stack view: the used slots among the first
/// eight.
pub open spec fn stack_len(sp: u8) -> int {
    if sp < 8 {
        sp as int
    } else {
        8
    }
}

/// The stack view: the used slots among the first eight, the highest
/// first.
pub fn stack_window(emulator: &Emulator) -> (lines: Vec<StackLine>)
    ensures
        lines@.len() == stack_len(emulator.sp),
        forall|k: int|
            0 <= k < lines@.len() ==> {
                let line = #[trigger] lines@[k];
                &&& line.slot == stack_len(emulator.sp) - 1 - k
                &&& line.addr == emulator.stack@[line.slot as int]
                &&& line.top == (line.slot == emulator.sp - 1)
            },
{
    let shown: u8 = if emulator.sp < 8 {
        emulator.sp
    } else {
        8
    };
    let mut lines: Vec<StackLine> = Vec::new();
    let mut slot: u8 = shown;
    while slot > 0
        invariant
            slot <= shown <= 8,
            shown == stack_len(emulator.sp),
            lines@.len() == shown - slot,
            forall|k: int|
                0 <= k < lines@.len() ==> {
                    let line = #[trigger] lines@[k];
                    &&& line.slot == shown - 1 - k
                    &&& line.addr == emulator.stack@[line.slot as int]
                    &&& line.top == (line.slot == emulator.sp - 1)
                },
        decreases slot,
    {
        slot -= 1;
        lines.push(
            StackLine {
                slot,
                addr: emulator.stack[slot as usize],
                top: slot == emulator.sp - 1,
            },
        );
    }
    lines
}

} // verus!
