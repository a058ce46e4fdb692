//! The fatal failure of the datapath: an encoding that it cannot execute.

use vstd::prelude::*;

verus! {

/// An instruction encoding with no defined meaning in this emulator.
///
/// The staged datapath treats each of these as fatal: the instruction does
/// not run and the driving caller decides how to report the failure.
#[derive(Clone, Copy, Debug, PartialEq, Eq, Structural)]
pub enum DatapathError {
    /// The opcode has no decoding, or no control-signal mapping.
    UnsupportedOpcode { opcode: u8 },
    /// The function code is not defined for the given opcode.
    UnsupportedFunct { opcode: u8, funct: u8 },
    /// A Release 6 special-operation function code whose sub-function,
    /// carried in the shift-amount field, is not defined.
    UnsupportedEncoding { funct: u8, shamt: u8 },
}

} // verus!
