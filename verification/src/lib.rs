//! An assembler and an emulator for a machine with 16-bit words and instructions of three
//! words each.
//!
//! The assembler turns source text into a program image: `text` splits lines into tokens,
//! `parser` resolves labels and types the operands, `emitter` packs every instruction into
//! its slot, and `toolchain` runs the three in a row. `decoder` reads slots back.
//!
//! The emulator executes images: `machine` holds the state, `step` fetches, decodes and
//! dispatches, and the families of instructions have a module each. `console` runs the
//! machine beside a display and a source of input.
//!
//! `assembly_laws` and `machine_laws` state what holds of the two in general.

pub mod alu;
pub mod assembler;
pub mod assembly_laws;
pub mod blocks;
pub mod console;
pub mod control;
pub mod decoder;
pub mod emitter;
pub mod flags;
pub mod isa;
pub mod labels;
pub mod lexeme;
pub mod machine;
pub mod machine_laws;
pub mod memory;
pub mod moves;
pub mod parser;
pub mod stack;
pub mod step;
pub mod storage;
pub mod text;
pub mod toolchain;
pub mod video;
