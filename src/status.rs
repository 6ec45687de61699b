//! The processor status byte and the flag arithmetic shared by every instruction.
//!
//! ```text
//!  7 6 5 4 3 2 1 0
//!  N V _ B D I Z C
//! ```
use vstd::prelude::*;

verus! {

pub const STATUS_CARRY: u8 = 0b0000_0001;
pub const STATUS_ZERO: u8 = 0b0000_0010;
pub const STATUS_INTERRUPT_DISABLE: u8 = 0b0000_0100;
pub const STATUS_DECIMAL_MODE: u8 = 0b0000_1000;
pub const STATUS_BREAK: u8 = 0b0001_0000;
pub const STATUS_BREAK2: u8 = 0b0010_0000;
pub const STATUS_OVERFLOW: u8 = 0b0100_0000;
pub const STATUS_NEGATIVE: u8 = 0b1000_0000;

/// Every bit of the status byte but Zero and Negative.
pub const STATUS_KEEP_ON_ZN: u8 = 0b0111_1101;

/// Whether any bit of `flag` is set in `status`.
pub open spec fn flag_on(status: u8, flag: u8) -> bool {
    status & flag != 0
}

/// `status` with the bits of `flag` set when `on` holds and cleared otherwise.
pub open spec fn set_flag(status: u8, flag: u8, on: bool) -> u8 {
    if on {
        status | flag
    } else {
        status & !flag
    }
}

/// The status byte after the Zero/Negative update for `value`: Zero is set iff the
/// value is zero, Negative is a copy of bit 7 of the value, all other bits are kept.
pub open spec fn zn_status(status: u8, value: u8) -> u8 {
    (status & STATUS_KEEP_ON_ZN) | (if value == 0 { STATUS_ZERO } else { 0u8 }) | (value
        & STATUS_NEGATIVE)
}

/// The Zero/Negative update, for every byte `value` and whatever flags were set
/// before: Zero ends up set exactly when `value` is zero, Negative exactly when bit 7
/// of `value` is one, and no other bit of the status changes.
pub proof fn lemma_zero_negative_update(status: u8, value: u8)
    ensures
        flag_on(zn_status(status, value), STATUS_ZERO) == (value == 0),
        flag_on(zn_status(status, value), STATUS_NEGATIVE) == (value >= 0x80),
        zn_status(status, value) & STATUS_KEEP_ON_ZN == status & STATUS_KEEP_ON_ZN,
{
    assert(((status & 0x7d) | (if value == 0 { 2u8 } else { 0u8 }) | (value & 0x80)) & 2 != 0
        <==> value == 0) by (bit_vector);
    assert(((status & 0x7d) | (if value == 0 { 2u8 } else { 0u8 }) | (value & 0x80)) & 0x80 != 0
        <==> value >= 0x80) by (bit_vector);
    assert(((status & 0x7d) | (if value == 0 { 2u8 } else { 0u8 }) | (value & 0x80)) & 0x7d
        == status & 0x7d) by (bit_vector);
}

} // verus!
