//! Where the tag keeps its control words.
//!
//! The addresses are fixed by the tag and shared by every operation. All of
//! them lie in the user bank, but for the factory calibration, which the
//! tag keeps read-only in the TID bank.

use vstd::prelude::*;

use crate::link::{ControlWord, MemoryBank};

verus! {

/// First of the three control words of the temperature sensor.
pub const TEMP_SENSOR_CONTROL_WORD_1: u16 = 0xEC;

/// Second control word of the temperature sensor.
pub const TEMP_SENSOR_CONTROL_WORD_2: u16 = 0xED;

/// Third control word of the temperature sensor.
pub const TEMP_SENSOR_CONTROL_WORD_3: u16 = 0xEE;

/// The calibration word that the sensor works with.
pub const CALIBRATION_ACTIVE_WORD: u16 = 0xEF;

/// The I/O control word.
pub const IO_CONTROL_WORD: u16 = 0xF0;

/// First battery management word.
pub const BATTERY_MANAGEMENT_WORD_1: u16 = 0xF1;

/// Second battery management word.
pub const BATTERY_MANAGEMENT_WORD_2: u16 = 0xF2;

/// The TOTAL word.
pub const TOTAL_WORD: u16 = 0xF3;

/// Most significant word of the sensor data; the least significant
/// follows it.
pub const SENSOR_DATA_MSW: u16 = 0x100;

/// The word that arms and disarms battery assistance.
pub const BAP_MODE_WORD: u16 = 0x10D;

/// The calibration word written at the factory, in the TID bank.
pub const CALIBRATION_FACTORY_WORD: u16 = 0x0D;

/// The word at `address` of the user bank.
pub open spec fn user_word(address: u16) -> ControlWord {
    ControlWord { bank: MemoryBank::User, address }
}

/// The factory calibration word.
pub open spec fn factory_calibration_word() -> ControlWord {
    ControlWord { bank: MemoryBank::Tid, address: CALIBRATION_FACTORY_WORD }
}

/// The word at `address` of the user bank.
pub fn user(address: u16) -> (word: ControlWord)
    ensures
        word == user_word(address),
{
    ControlWord { bank: MemoryBank::User, address }
}

/// The factory calibration word.
pub fn factory_calibration() -> (word: ControlWord)
    ensures
        word == factory_calibration_word(),
{
    ControlWord { bank: MemoryBank::Tid, address: CALIBRATION_FACTORY_WORD }
}

} // verus!
