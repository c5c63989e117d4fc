//! Pseudo-BAP measurements.
//!
//! A tag on battery assistance measures without the field, but a charged
//! capacitor biases the reading that follows. So the capacitor is drained
//! first; then the tag is recharged just long enough, battery assistance is
//! armed around a single conversion, and the result is read back. Every
//! pause on the way is one that the hardware needs.

use vstd::pervasive::unreached;
use vstd::prelude::*;

use crate::layout::{user, BAP_MODE_WORD, SENSOR_DATA_MSW};
use crate::link::{payload, receive, reception, word_at, word_in, Command, Reply, Step};
use crate::power::{user_write, write_user, BAP_ARMED, BAP_DISARMED};
use crate::script::Script;
use crate::temperature::sensor_read;

verus! {

/// How long the tag is left alone after battery assistance is switched,
/// so that it cycles its power.
pub const POWER_CYCLE_SETTLE_MS: u32 = 500;

/// How long the field is held on a drained tag to charge its capacitor.
pub const RECHARGE_WINDOW_MS: u32 = 200;

/// How long the effects of the field going off are left to die down
/// before a conversion is read.
pub const FIELD_OFF_SETTLE_MS: u32 = 2500;

/// The write that arms battery assistance.
pub open spec fn arm_command() -> Command {
    user_write(BAP_MODE_WORD, BAP_ARMED)
}

/// The write that disarms battery assistance.
pub open spec fn disarm_command() -> Command {
    user_write(BAP_MODE_WORD, BAP_DISARMED)
}

/// Draining the capacitor: arm battery assistance, let the tag cycle its
/// power, run one inventory cycle, then wait `discharge_ms` milliseconds.
pub open spec fn discharge_sequence(discharge_ms: u32) -> Seq<Command> {
    seq![
        arm_command(),
        Command::Settle { millis: POWER_CYCLE_SETTLE_MS },
        Command::Refresh,
        Command::Settle { millis: discharge_ms },
    ]
}

/// Lists the commands that drain the tag's capacitor. A charged capacitor
/// would bias the passive reading that follows.
pub fn pseudo_bap_discharge(discharge_ms: u32) -> (plan: Vec<Command>)
    ensures
        plan@ == discharge_sequence(discharge_ms),
{
    let mut plan: Vec<Command> = Vec::new();
    plan.push(write_user(BAP_MODE_WORD, BAP_ARMED));
    plan.push(Command::Settle { millis: POWER_CYCLE_SETTLE_MS });
    plan.push(Command::Refresh);
    plan.push(Command::Settle { millis: discharge_ms });
    assert(plan@ =~= discharge_sequence(discharge_ms));
    plan
}

/// From a recharged tag to a finished conversion: let the tag cycle its
/// power, arm battery assistance, let it cycle again, clear the sensor data
/// word, which starts a conversion, and wait for the field-off effects to
/// pass.
pub open spec fn measuring_sequence() -> Seq<Command> {
    seq![
        Command::Settle { millis: POWER_CYCLE_SETTLE_MS },
        Command::Refresh,
        arm_command(),
        Command::Settle { millis: POWER_CYCLE_SETTLE_MS },
        Command::Refresh,
        user_write(SENSOR_DATA_MSW, 0x0000),
        Command::Settle { millis: FIELD_OFF_SETTLE_MS },
    ]
}

/// Ending a measurement: disarm battery assistance, let the tag cycle its
/// power and hold the field on it for one recharge window.
pub open spec fn stop_sequence() -> Seq<Command> {
    seq![
        disarm_command(),
        Command::Settle { millis: POWER_CYCLE_SETTLE_MS },
        Command::SampleWindow { millis: RECHARGE_WINDOW_MS },
    ]
}

/// Lists the commands that end a pseudo-BAP measurement.
pub fn pseudo_bap_stop() -> (plan: Vec<Command>)
    ensures
        plan@ == stop_sequence(),
{
    let mut plan: Vec<Command> = Vec::new();
    plan.push(write_user(BAP_MODE_WORD, BAP_DISARMED));
    plan.push(Command::Settle { millis: POWER_CYCLE_SETTLE_MS });
    plan.push(Command::SampleWindow { millis: RECHARGE_WINDOW_MS });
    assert(plan@ =~= stop_sequence());
    plan
}

fn measuring_plan() -> (plan: Vec<Command>)
    ensures
        plan@ == measuring_sequence(),
{
    let mut plan: Vec<Command> = Vec::new();
    plan.push(Command::Settle { millis: POWER_CYCLE_SETTLE_MS });
    plan.push(Command::Refresh);
    plan.push(write_user(BAP_MODE_WORD, BAP_ARMED));
    plan.push(Command::Settle { millis: POWER_CYCLE_SETTLE_MS });
    plan.push(Command::Refresh);
    plan.push(write_user(SENSOR_DATA_MSW, 0x0000));
    plan.push(Command::Settle { millis: FIELD_OFF_SETTLE_MS });
    assert(plan@ =~= measuring_sequence());
    plan
}

/// A pseudo-BAP measurement on a drained tag, from recharging it to
/// reading the raw sensor code.
pub enum PseudoBapChargeAndSample {
    /// The write that disarms battery assistance is out. A drained tag may
    /// not answer, so the write is repeated until it is taken.
    Disarming,
    /// The recharge window is out.
    Recharging,
    /// The measuring sequence is under way.
    Measuring(Script),
    /// The read of the sensor data is out.
    Reading,
}

impl PseudoBapChargeAndSample {
    /// Whether `step` is what the measurement in state `self` does on
    /// `reply`.
    ///
    /// While disarming, any failure repeats the write: this is the one place
    /// where a failure of the reader is not passed on. How the recharge
    /// window went is of no account. After that the first failure ends the
    /// measurement, and the read of the sensor data ends it with the most
    /// significant word that came back.
    pub open spec fn leads_to(self, reply: Reply, step: Step<PseudoBapChargeAndSample, u16>) -> bool {
        match self {
            PseudoBapChargeAndSample::Disarming => match reception(disarm_command(), reply) {
                Ok(_) => step == Step::<PseudoBapChargeAndSample, u16>::Issue(
                    PseudoBapChargeAndSample::Recharging,
                    Command::SampleWindow { millis: RECHARGE_WINDOW_MS },
                ),
                Err(_) => step == Step::<PseudoBapChargeAndSample, u16>::Issue(
                    PseudoBapChargeAndSample::Disarming,
                    disarm_command(),
                ),
            },
            PseudoBapChargeAndSample::Recharging => match step {
                Step::Issue(PseudoBapChargeAndSample::Measuring(script), command) => {
                    &&& script.steps() == measuring_sequence()
                    &&& script.cursor() == 0
                    &&& command == measuring_sequence()[0]
                },
                _ => false,
            },
            PseudoBapChargeAndSample::Measuring(script) => match reception(script.awaited(), reply) {
                Err(e) => step == Step::<PseudoBapChargeAndSample, u16>::Finish(Err(e)),
                Ok(_) => if script.cursor() + 1 == script.steps().len() {
                    step == Step::<PseudoBapChargeAndSample, u16>::Issue(
                        PseudoBapChargeAndSample::Reading,
                        sensor_read(),
                    )
                } else {
                    match step {
                        Step::Issue(PseudoBapChargeAndSample::Measuring(next), command) => {
                            &&& next.steps() == script.steps()
                            &&& next.cursor() == script.cursor() + 1
                            &&& command == script.steps()[script.cursor() + 1]
                        },
                        _ => false,
                    }
                },
            },
            PseudoBapChargeAndSample::Reading => match reception(sensor_read(), reply) {
                Err(e) => step == Step::<PseudoBapChargeAndSample, u16>::Finish(Err(e)),
                Ok(_) => step == Step::<PseudoBapChargeAndSample, u16>::Finish(
                    Ok(word_in(payload(reply), 0)),
                ),
            },
        }
    }

    /// Starts the measurement: the write that disarms battery assistance
    /// goes out.
    pub fn begin() -> (start: (PseudoBapChargeAndSample, Command))
        ensures
            start.0 == PseudoBapChargeAndSample::Disarming,
            start.1 == disarm_command(),
    {
        (PseudoBapChargeAndSample::Disarming, write_user(BAP_MODE_WORD, BAP_DISARMED))
    }

    /// Takes the reply to the command that is out.
    pub fn advance(self, reply: &Reply) -> (step: Step<PseudoBapChargeAndSample, u16>)
        ensures
            self.leads_to(*reply, step),
    {
        match self {
            PseudoBapChargeAndSample::Disarming => {
                let disarm = write_user(BAP_MODE_WORD, BAP_DISARMED);
                match receive(disarm, reply) {
                    Ok(_) => Step::Issue(
                        PseudoBapChargeAndSample::Recharging,
                        Command::SampleWindow { millis: RECHARGE_WINDOW_MS },
                    ),
                    Err(_) => Step::Issue(PseudoBapChargeAndSample::Disarming, disarm),
                }
            },
            PseudoBapChargeAndSample::Recharging => {
                match Script::begin(measuring_plan()) {
                    Step::Issue(script, command) => Step::Issue(
                        PseudoBapChargeAndSample::Measuring(script),
                        command,
                    ),
                    Step::Finish(_) => unreached(),
                }
            },
            PseudoBapChargeAndSample::Measuring(script) => {
                match script.advance(reply) {
                    Step::Issue(next, command) => Step::Issue(
                        PseudoBapChargeAndSample::Measuring(next),
                        command,
                    ),
                    Step::Finish(Ok(_)) => Step::Issue(
                        PseudoBapChargeAndSample::Reading,
                        user(SENSOR_DATA_MSW).read(2),
                    ),
                    Step::Finish(Err(e)) => Step::Finish(Err(e)),
                }
            },
            PseudoBapChargeAndSample::Reading => {
                match receive(user(SENSOR_DATA_MSW).read(2), reply) {
                    Err(e) => Step::Finish(Err(e)),
                    Ok(_) => match reply {
                        Reply::Data(bytes) => Step::Finish(Ok(word_at(bytes, 0))),
                        _ => unreached(),
                    },
                }
            },
        }
    }
}

} // verus!
