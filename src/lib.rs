//! An instruction-level emulator for a subset of MIPS64, built as a
//! pseudo-single-cycle datapath with five stages, together with a direct
//! interpreter that applies the same architectural effects in one step.
//!
//! The register file, memory and floating-point coprocessor are the
//! datapath's collaborators; the ALU, the decoder and the control-signal
//! derivation are pure functions that both execution strategies share.

pub mod alu;
pub mod constants;
pub mod control_signals;
pub mod coprocessor;
pub mod datapath;
pub mod error;
pub mod instruction;
pub mod interface;
pub mod memory;
pub mod registers;
pub mod stage;
pub mod theorems;
pub mod traditional_core;

pub use alu::alu_operation;
pub use control_signals::{control_signals_for, AluControl, ControlSignals, RegWidth};
pub use coprocessor::{DataWrite, MipsFpCoprocessor};
pub use datapath::{CoreSelect, DatapathState, MipsDatapath};
pub use error::DatapathError;
pub use instruction::{FpuRType, IType, Instruction, JType, RType};
pub use interface::Datapath;
pub use memory::{Memory, MemoryError};
pub use registers::{GpRegisterType, GpRegisters};
pub use stage::Stage;
pub use traditional_core::TradCore;
