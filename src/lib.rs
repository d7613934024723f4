//! Class- and function-level bytecode lowering.
//!
//! - `instr`: the instruction vocabulary, labels, locals and positions.
//! - `emitter`: the per-unit state: label and iterator counters, mode flags,
//!   and the symbol references collected.
//! - `hint`: type hints and their mathematical model.
//! - `reified`: which hints need a run-time generic witness, erasure of
//!   type parameters, and the unwrapping of async result types.
//! - `synth`: the methods that the compiler generates for a class: property
//!   initializers, the constant dispatch, the reified-generics bootstrap.
//! - `hhas_constant`: class constants.
//! - `class`: lowering of a class declaration to a class record.
//! - `memo_wrapper`: the caching wrapper around a memoized function.
//! - `typing_param`, `typing_defs`: parameter typing rules and the
//!   declarations the type checker keeps.

pub mod class;
pub mod emitter;
pub mod error;
pub mod hhas_constant;
pub mod hint;
pub mod instr;
pub mod memo_wrapper;
pub mod records;
pub mod reified;
pub mod string_utils;
pub mod synth;
pub mod typing_defs;
pub mod typing_param;
