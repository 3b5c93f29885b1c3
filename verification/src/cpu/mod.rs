//! The CPU: register file, flags, instruction model, decoder and encoder.

pub mod alu;
pub mod arith;
pub mod control;
pub mod decoder;
pub mod decoder_spec;
pub mod encoder;
pub mod execute;
pub mod flag;
pub mod format;
pub mod fuzzer;
pub mod instruction;
pub mod interpreter;
pub mod misc;
pub mod op;
pub mod parameter;
pub mod register;
pub mod roundtrip;
pub mod segment;
pub mod semantics;
pub mod shift;
pub mod stack;
pub mod strings;
pub mod transfer;

pub use self::flag::Flags;
