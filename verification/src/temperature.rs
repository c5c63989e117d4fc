//! The temperature sensor's fixed-point code.
//!
//! The sensor reports a nine-bit two's-complement code that counts quarters
//! of a degree Celsius. A temperature is kept here as that count, which is
//! exact; a caller that wants degrees divides by four.

use vstd::pervasive::unreached;
use vstd::prelude::*;

use crate::layout::{user, user_word, SENSOR_DATA_MSW};
use crate::link::{payload, receive, reception, word_at, word_in, Command, Reply, Step};

verus! {

/// Hundredths of a degree Celsius in one step of the code.
pub const HUNDREDTHS_PER_STEP: i32 = 25;

/// A temperature, counted in quarters of a degree Celsius.
#[derive(Clone, Copy, Debug, PartialEq, Eq, Structural)]
pub struct Temperature {
    pub quarters: i16,
}

/// The number of quarter degrees that `code` stands for: its low nine bits,
/// read as a two's-complement number.
pub open spec fn code_value(code: u16) -> int {
    let field = code as int % 512;
    if field >= 256 {
        field - 512
    } else {
        field
    }
}

/// Decodes a raw sensor code. Bits above the ninth are ignored.
pub fn decode(code: u16) -> (t: Temperature)
    ensures
        t.quarters == code_value(code),
        -256 <= t.quarters <= 255,
{
    let field: u16 = code & 0x01FF;
    assert(code & 0x01FF == code % 512) by (bit_vector);
    if field >= 256 {
        Temperature { quarters: (field as i32 - 512) as i16 }
    } else {
        Temperature { quarters: field as i16 }
    }
}

impl Temperature {
    /// Whether the temperature lies below zero.
    pub fn is_negative(&self) -> (b: bool)
        ensures
            b == (self.quarters < 0),
    {
        self.quarters < 0
    }

    /// The temperature in hundredths of a degree Celsius.
    pub fn hundredths(&self) -> (h: i32)
        ensures
            h == self.quarters * HUNDREDTHS_PER_STEP,
    {
        self.quarters as i32 * HUNDREDTHS_PER_STEP
    }
}

/// The read of both sensor data words.
pub open spec fn sensor_read() -> Command {
    user_word(SENSOR_DATA_MSW).reading(2)
}

/// Reading the temperature off the sensor data.
#[derive(Clone, Copy, Debug, PartialEq, Eq, Structural)]
pub struct ReadTemperature {}

impl ReadTemperature {
    /// What the reading does on `reply`: it ends, with the reader's failure
    /// or with the temperature that the most significant word encodes.
    pub open spec fn next(self, reply: Reply) -> Step<ReadTemperature, Temperature> {
        match reception(sensor_read(), reply) {
            Err(e) => Step::Finish(Err(e)),
            Ok(_) => Step::Finish(
                Ok(Temperature { quarters: code_value(word_in(payload(reply), 0)) as i16 }),
            ),
        }
    }

    /// Starts the reading: the read of the sensor data goes out.
    pub fn begin() -> (start: (ReadTemperature, Command))
        ensures
            start.1 == sensor_read(),
    {
        (ReadTemperature {  }, user(SENSOR_DATA_MSW).read(2))
    }

    /// Takes the reply to the read.
    pub fn advance(self, reply: &Reply) -> (step: Step<ReadTemperature, Temperature>)
        ensures
            step == self.next(*reply),
    {
        match receive(user(SENSOR_DATA_MSW).read(2), reply) {
            Err(e) => Step::Finish(Err(e)),
            Ok(_) => match reply {
                Reply::Data(bytes) => Step::Finish(Ok(decode(word_at(bytes, 0)))),
                _ => unreached(),
            },
        }
    }
}

} // verus!
