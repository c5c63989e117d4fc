//! The tag's power modes.
//!
//! A tag runs passive, on the reader's field alone; battery assisted, on its
//! own supply; or in between, on a capacitor that the field charges. The
//! mode is set by writing a fixed list of control words, and the order of
//! the list matters: the word that arms battery assistance goes last, so
//! that the tag never reports it armed while the words it depends on are
//! still being rewritten.

use vstd::prelude::*;

use crate::layout::{
    user, user_word, BAP_MODE_WORD, BATTERY_MANAGEMENT_WORD_1, BATTERY_MANAGEMENT_WORD_2,
    IO_CONTROL_WORD, TEMP_SENSOR_CONTROL_WORD_1, TEMP_SENSOR_CONTROL_WORD_2,
    TEMP_SENSOR_CONTROL_WORD_3, TOTAL_WORD,
};
use crate::link::{Command, MemoryBank, ProtocolError};

verus! {

/// How the tag is powered.
#[derive(Clone, Copy, Debug, PartialEq, Eq, Structural)]
pub enum PowerMode {
    /// Powered by the reader's field alone.
    Passive,
    /// A capacitor, charged by repeated exposure to the field, carries the
    /// sensor between reads.
    SemiBap,
    /// Battery assisted.
    Bap,
    /// Battery assistance armed on command around a single measurement.
    PseudoBap,
}

/// Value of the word that arms battery assistance.
pub const BAP_ARMED: u16 = 0x0001;

/// Value of the word that disarms battery assistance.
pub const BAP_DISARMED: u16 = 0x0000;

/// A write of `word` at `address` of the user bank.
pub open spec fn user_write(address: u16, word: u16) -> Command {
    user_word(address).writing(word)
}

/// The read of `words` words of the user bank from `address` on.
pub open spec fn user_read(address: u16, words: u16) -> Command {
    user_word(address).reading(words)
}

/// What the I/O control word holds in `mode`.
pub open spec fn io_control_value(mode: PowerMode) -> u16 {
    match mode {
        PowerMode::Passive => 0xE600,
        PowerMode::Bap => 0xE000,
        PowerMode::SemiBap | PowerMode::PseudoBap => 0x0600,
    }
}

/// What the first battery management word holds in `mode`.
pub open spec fn battery_management_1_value(mode: PowerMode) -> u16 {
    match mode {
        PowerMode::Bap => 0x2001,
        _ => 0x0000,
    }
}

/// What the second battery management word is first set to in `mode`. It
/// lets battery assistance be armed by the mode word that follows.
pub open spec fn battery_management_2_value(mode: PowerMode) -> u16 {
    match mode {
        PowerMode::Bap => 0x0001,
        _ => 0x0100,
    }
}

/// What the mode word holds once `mode` is configured.
pub open spec fn bap_mode_value(mode: PowerMode) -> u16 {
    match mode {
        PowerMode::Bap => BAP_ARMED,
        _ => BAP_DISARMED,
    }
}

/// The writes that every mode shares, in order: the three control words of
/// the temperature sensor, the I/O control word, both battery management
/// words, the TOTAL word, and last the mode word.
pub open spec fn common_configuration(mode: PowerMode) -> Seq<Command> {
    seq![
        user_write(TEMP_SENSOR_CONTROL_WORD_1, 0x0000),
        user_write(TEMP_SENSOR_CONTROL_WORD_2, 0x0000),
        user_write(TEMP_SENSOR_CONTROL_WORD_3, 0x0000),
        user_write(IO_CONTROL_WORD, io_control_value(mode)),
        user_write(BATTERY_MANAGEMENT_WORD_1, battery_management_1_value(mode)),
        user_write(BATTERY_MANAGEMENT_WORD_2, battery_management_2_value(mode)),
        user_write(TOTAL_WORD, 0x0000),
        user_write(BAP_MODE_WORD, bap_mode_value(mode)),
    ]
}

/// The writes that put a tag into `mode`. Passive mode ends by clearing the
/// second battery management word again, so that the tag cannot latch
/// battery assistance.
pub open spec fn configuration(mode: PowerMode) -> Seq<Command> {
    if mode == PowerMode::Passive {
        common_configuration(mode).push(user_write(BATTERY_MANAGEMENT_WORD_2, 0x0000))
    } else {
        common_configuration(mode)
    }
}

/// Lists the writes that put a tag into `mode`.
pub fn configure(mode: PowerMode) -> (plan: Vec<Command>)
    ensures
        plan@ == configuration(mode),
{
    let io: u16 = match mode {
        PowerMode::Passive => 0xE600,
        PowerMode::Bap => 0xE000,
        PowerMode::SemiBap | PowerMode::PseudoBap => 0x0600,
    };
    let first: u16 = match mode {
        PowerMode::Bap => 0x2001,
        _ => 0x0000,
    };
    let second: u16 = match mode {
        PowerMode::Bap => 0x0001,
        _ => 0x0100,
    };
    let armed: u16 = match mode {
        PowerMode::Bap => BAP_ARMED,
        _ => BAP_DISARMED,
    };
    let mut plan: Vec<Command> = Vec::new();
    plan.push(write_user(TEMP_SENSOR_CONTROL_WORD_1, 0x0000));
    plan.push(write_user(TEMP_SENSOR_CONTROL_WORD_2, 0x0000));
    plan.push(write_user(TEMP_SENSOR_CONTROL_WORD_3, 0x0000));
    plan.push(write_user(IO_CONTROL_WORD, io));
    plan.push(write_user(BATTERY_MANAGEMENT_WORD_1, first));
    plan.push(write_user(BATTERY_MANAGEMENT_WORD_2, second));
    plan.push(write_user(TOTAL_WORD, 0x0000));
    plan.push(write_user(BAP_MODE_WORD, armed));
    assert(plan@ =~= common_configuration(mode));
    match mode {
        PowerMode::Passive => {
            plan.push(write_user(BATTERY_MANAGEMENT_WORD_2, 0x0000));
        },
        _ => {},
    }
    plan
}

/// A write of `word` at `address` of the user bank.
pub fn write_user(address: u16, word: u16) -> (command: Command)
    ensures
        command == user_write(address, word),
{
    user(address).write(word)
}

/// Whether `command` writes the word at `address` of the user bank.
pub open spec fn writes_to(command: Command, address: u16) -> bool {
    match command {
        Command::Write { bank, address: a, .. } => bank == MemoryBank::User && a == address,
        _ => false,
    }
}

/// In every mode the mode word is the eighth write and no write before it
/// touches it; whatever follows only clears the second battery management
/// word, and only passive mode has anything follow.
pub proof fn lemma_mode_word_goes_last(mode: PowerMode)
    ensures
        configuration(mode).len() == if mode == PowerMode::Passive { 9int } else { 8int },
        configuration(mode)[7] == user_write(BAP_MODE_WORD, bap_mode_value(mode)),
        forall|i: int| 0 <= i < 7 ==> !writes_to(#[trigger] configuration(mode)[i], BAP_MODE_WORD),
        forall|i: int|
            7 < i < configuration(mode).len() ==> #[trigger] configuration(mode)[i] == user_write(
                BATTERY_MANAGEMENT_WORD_2,
                0x0000,
            ),
{
}

/// How long the field is held on a tag to charge its capacitor before the
/// accelerometer is used.
pub const CHARGE_WINDOW_MS: u32 = 2000;

/// Charging the capacitor: one long sampling window, then one inventory
/// cycle.
pub open spec fn charge_sequence() -> Seq<Command> {
    seq![Command::SampleWindow { millis: CHARGE_WINDOW_MS }, Command::Refresh]
}

/// Lists the commands that charge the tag's capacitor.
pub fn semi_bap_charge() -> (plan: Vec<Command>)
    ensures
        plan@ == charge_sequence(),
{
    let mut plan: Vec<Command> = Vec::new();
    plan.push(Command::SampleWindow { millis: CHARGE_WINDOW_MS });
    plan.push(Command::Refresh);
    assert(plan@ =~= charge_sequence());
    plan
}

/// What is known of the mode that a tag is in.
#[derive(Clone, Copy, Debug, PartialEq, Eq, Structural)]
pub enum PowerState {
    /// Nothing is known: no configuration has run to its end since the tag
    /// was met, or the last one failed half way.
    Unknown,
    /// The writes for this mode are going out.
    Configuring(PowerMode),
    /// The writes for this mode have all been made.
    Settled(PowerMode),
}

/// Follows a tag through its changes of mode.
#[derive(Clone, Copy, Debug, PartialEq, Eq, Structural)]
pub struct PowerModeController {
    pub state: PowerState,
}

impl PowerModeController {
    /// A controller for a tag whose mode is not known.
    pub fn new() -> (controller: PowerModeController)
        ensures
            controller.state == PowerState::Unknown,
    {
        PowerModeController { state: PowerState::Unknown }
    }

    /// The mode that the tag is known to be in.
    pub fn mode(&self) -> (mode: Option<PowerMode>)
        ensures
            mode == match self.state {
                PowerState::Settled(m) => Some(m),
                _ => None::<PowerMode>,
            },
    {
        match self.state {
            PowerState::Settled(m) => Some(m),
            _ => None,
        }
    }

    /// Starts a change to `target` and lists the writes that make it. From
    /// here on the mode is unknown until [`Self::complete`] is told how the
    /// writes went.
    pub fn configure(&mut self, target: PowerMode) -> (plan: Vec<Command>)
        ensures
            final(self).state == PowerState::Configuring(target),
            plan@ == configuration(target),
    {
        self.state = PowerState::Configuring(target);
        configure(target)
    }

    /// Records how the writes went: the tag is in the mode asked for where
    /// all of them were made, and in no known mode where one failed. Outside
    /// a change of mode nothing is recorded.
    pub fn complete(&mut self, outcome: &Result<(), ProtocolError>)
        ensures
            final(self).state == match old(self).state {
                PowerState::Configuring(target) => if outcome is Ok {
                    PowerState::Settled(target)
                } else {
                    PowerState::Unknown
                },
                other => other,
            },
    {
        match self.state {
            PowerState::Configuring(target) => {
                match outcome {
                    Ok(_) => {
                        self.state = PowerState::Settled(target);
                    },
                    Err(_) => {
                        self.state = PowerState::Unknown;
                    },
                }
            },
            _ => {},
        }
    }
}

} // verus!
