//! The accelerometer behind the tag: whether it answers, how it is set up,
//! and how measuring is switched on and off.

use vstd::pervasive::unreached;
use vstd::prelude::*;

use crate::link::{payload, receive, reception, Command, Reply, Step};
use crate::registers::{
    read_register, register_read, register_values, register_write, write_register, Register,
};

verus! {

/// What the first identification register holds: the maker.
pub const DEVICE_ID_AD: u8 = 0xAD;

/// What the second identification register holds: the family.
pub const DEVICE_ID_MST: u8 = 0x1D;

/// What the third identification register holds: the part.
pub const PART_ID: u8 = 0xF3;

/// Filter control: range of 2 g, halved bandwidth, 12.5 samples a second.
pub const FILTER_SETTING: u8 = 0x10;

/// Buffer control: stream mode, no temperature entries.
pub const FIFO_SETTING: u8 = 0x02;

/// Power control: measuring.
pub const MEASURE_ON: u8 = 0x02;

/// Power control: standing by.
pub const MEASURE_OFF: u8 = 0x00;

/// Setting the accelerometer up: the filter control, which holds the range
/// and the rate, then the buffer control.
pub open spec fn setup_sequence() -> Seq<Command> {
    seq![
        register_write(Register::FilterCtl, FILTER_SETTING),
        register_write(Register::FifoControl, FIFO_SETTING),
    ]
}

/// Lists the writes that set the accelerometer up.
pub fn setup() -> (plan: Vec<Command>)
    ensures
        plan@ == setup_sequence(),
{
    let mut plan: Vec<Command> = Vec::new();
    plan.push(write_register(Register::FilterCtl, FILTER_SETTING));
    plan.push(write_register(Register::FifoControl, FIFO_SETTING));
    assert(plan@ =~= setup_sequence());
    plan
}

/// The write that switches measurement on. It resets the sample buffer.
pub fn turn_on() -> (command: Command)
    ensures
        command == register_write(Register::PowerCtl, MEASURE_ON),
{
    write_register(Register::PowerCtl, MEASURE_ON)
}

/// The write that switches measurement off.
pub fn turn_off() -> (command: Command)
    ensures
        command == register_write(Register::PowerCtl, MEASURE_OFF),
{
    write_register(Register::PowerCtl, MEASURE_OFF)
}

/// Whether `bytes`, as returned by a read of the three identification
/// registers, name the accelerometer.
pub open spec fn identifies(bytes: Seq<u8>) -> bool {
    register_values(bytes) == seq![DEVICE_ID_AD, DEVICE_ID_MST, PART_ID]
}

/// The check that the accelerometer answers: its three identification
/// registers are read and held against what they must be.
#[derive(Clone, Copy, Debug, PartialEq, Eq, Structural)]
pub struct TestConnection {}

impl TestConnection {
    /// What the check does on `reply`: it ends, with the reader's failure,
    /// or with whether the three registers hold exactly what identifies the
    /// accelerometer.
    pub open spec fn next(self, reply: Reply) -> Step<TestConnection, bool> {
        match reception(register_read(Register::DevIdAd, 3), reply) {
            Err(e) => Step::Finish(Err(e)),
            Ok(_) => Step::Finish(Ok(identifies(payload(reply)))),
        }
    }

    /// Starts the check: the read of the identification registers goes out.
    pub fn begin() -> (start: (TestConnection, Command))
        ensures
            start.1 == register_read(Register::DevIdAd, 3),
    {
        (TestConnection {  }, read_register(Register::DevIdAd, 3))
    }

    /// Takes the reply to the read.
    pub fn advance(self, reply: &Reply) -> (step: Step<TestConnection, bool>)
        ensures
            step == self.next(*reply),
    {
        match receive(read_register(Register::DevIdAd, 3), reply) {
            Err(e) => Step::Finish(Err(e)),
            Ok(_) => match reply {
                Reply::Data(bytes) => {
                    let same = bytes[1] == DEVICE_ID_AD && bytes[3] == DEVICE_ID_MST && bytes[5]
                        == PART_ID;
                    proof {
                        let values = register_values(bytes@);
                        let wanted = seq![DEVICE_ID_AD, DEVICE_ID_MST, PART_ID];
                        assert(values.len() == 3);
                        assert(values[0] == bytes@[1] && values[1] == bytes@[3] && values[2]
                            == bytes@[5]);
                        if same {
                            assert(values =~= wanted);
                        } else {
                            assert(wanted[0] == DEVICE_ID_AD && wanted[1] == DEVICE_ID_MST
                                && wanted[2] == PART_ID);
                        }
                    }
                    Step::Finish(Ok(same))
                },
                _ => unreached(),
            },
        }
    }
}

} // verus!
