//! The bits of the processor status register.
//!
//! ```text
//! 7  bit  0
//! NV1B DIZC
//! ```

use vstd::prelude::*;

verus! {

/// Carry.
pub const CARRY: u8 = 0x01;

/// Zero.
pub const ZERO: u8 = 0x02;

/// Interrupt disable.
pub const IRQ_DISABLE: u8 = 0x04;

/// Decimal mode; stored but without effect on arithmetic.
pub const DECIMAL: u8 = 0x08;

/// Break; only ever set in the copy of the status that is pushed.
pub const BREAK: u8 = 0x10;

/// The bit that always reads as one.
pub const UNUSED: u8 = 0x20;

/// Overflow.
pub const OVERFLOW: u8 = 0x40;

/// Negative.
pub const NEGATIVE: u8 = 0x80;

} // verus!
