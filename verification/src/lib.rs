//! The core of a CHIP-8 virtual machine: the machine state and its
//! lifecycle, the instruction executor, single-slot checkpoints and the
//! disassembler, together with what a front end decides and computes from
//! them.
//!
//! Every contract is stated over the model in [`model`]: the state as
//! sequences and numbers, and the effect of one instruction on it.
//!
//! # Choices
//!
//! The architecture leaves some behaviour open. This library fixes it as
//! follows.
//!
//! * An instruction that would reach beyond the call stack, the keypad, the
//!   memory or the 16-bit program counter is a [`model::Fault`]: it cannot
//!   be carried out, and executing it leaves the machine as it is, program
//!   counter included. So does a cycle whose program counter leaves no room
//!   for a word. [`opcodes::execute`] and [`emulator::Emulator::cycle`] do
//!   so silently; [`opcodes::try_execute`] and
//!   [`emulator::Emulator::try_cycle`] report the fault as well. Nothing in
//!   the library panics, and a program that stays within bounds never meets
//!   a fault.
//! * A key wait that finds no key pressed blocks the machine: every later
//!   cycle does nothing, without fetching, until the owner of the machine
//!   clears `waiting_for_key`. The instruction is then fetched again and
//!   looks at the keypad anew.
//! * The skips `5xy_` and `9xy_` and the shifts `8x_6` and `8x_E` are chosen
//!   by their first nibble, or first and last, alone: the remaining nibble
//!   is not looked at.
//! * `0nnn` other than `00E0` and `00EE`, the historical machine-code
//!   call, does nothing but move the program counter on, like a word that
//!   is no instruction, and is disassembled like one, as data.

pub mod disassembler;
pub mod emulator;
pub mod instruction;
pub mod laws;
pub mod model;
pub mod opcodes;
pub mod ui;
