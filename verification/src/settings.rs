//! Reading back what the control words of a tag hold.

use vstd::pervasive::unreached;
use vstd::prelude::*;

use crate::layout::{
    user, BAP_MODE_WORD, BATTERY_MANAGEMENT_WORD_1, IO_CONTROL_WORD, TEMP_SENSOR_CONTROL_WORD_1,
    TOTAL_WORD,
};
use crate::link::{payload, receive, reception, word_at, word_in, Command, Reply, Step};
use crate::power::user_read;

verus! {

/// What the control words of a tag hold.
#[derive(Clone, Copy, Debug, PartialEq, Eq, Structural)]
pub struct TagSettings {
    pub temp_sensor_control_1: u16,
    pub temp_sensor_control_2: u16,
    pub temp_sensor_control_3: u16,
    pub io_control: u16,
    pub battery_management_1: u16,
    pub battery_management_2: u16,
    pub total: u16,
    pub bap_mode: u16,
}

/// Which of the control words are being read.
#[derive(Clone, Copy, Debug, PartialEq, Eq, Structural)]
pub enum SettingsGroup {
    TempSensorControl,
    IoControl,
    BatteryManagement,
    Total,
    BapMode,
}

/// Reading the control words of a tag, group by group. The words of the
/// groups read so far are in `settings`; the others are zero there.
#[derive(Clone, Copy, Debug, PartialEq, Eq, Structural)]
pub struct ReadConfig {
    pub group: SettingsGroup,
    pub settings: TagSettings,
}

impl ReadConfig {
    /// The command whose reply is awaited.
    pub open spec fn awaited(self) -> Command {
        match self.group {
            SettingsGroup::TempSensorControl => user_read(TEMP_SENSOR_CONTROL_WORD_1, 3),
            SettingsGroup::IoControl => user_read(IO_CONTROL_WORD, 1),
            SettingsGroup::BatteryManagement => user_read(BATTERY_MANAGEMENT_WORD_1, 2),
            SettingsGroup::Total => user_read(TOTAL_WORD, 1),
            SettingsGroup::BapMode => user_read(BAP_MODE_WORD, 1),
        }
    }

    /// The settings with the words of the awaited group taken from
    /// `bytes`.
    pub open spec fn filled(self, bytes: Seq<u8>) -> TagSettings {
        match self.group {
            SettingsGroup::TempSensorControl => TagSettings {
                temp_sensor_control_1: word_in(bytes, 0),
                temp_sensor_control_2: word_in(bytes, 1),
                temp_sensor_control_3: word_in(bytes, 2),
                ..self.settings
            },
            SettingsGroup::IoControl => TagSettings {
                io_control: word_in(bytes, 0),
                ..self.settings
            },
            SettingsGroup::BatteryManagement => TagSettings {
                battery_management_1: word_in(bytes, 0),
                battery_management_2: word_in(bytes, 1),
                ..self.settings
            },
            SettingsGroup::Total => TagSettings { total: word_in(bytes, 0), ..self.settings },
            SettingsGroup::BapMode => TagSettings { bap_mode: word_in(bytes, 0), ..self.settings },
        }
    }

    /// The group that is read after the awaited one; none after the last.
    pub open spec fn following(self) -> Option<SettingsGroup> {
        match self.group {
            SettingsGroup::TempSensorControl => Some(SettingsGroup::IoControl),
            SettingsGroup::IoControl => Some(SettingsGroup::BatteryManagement),
            SettingsGroup::BatteryManagement => Some(SettingsGroup::Total),
            SettingsGroup::Total => Some(SettingsGroup::BapMode),
            SettingsGroup::BapMode => None,
        }
    }

    /// What the reading in state `self` does on `reply`: any failure ends
    /// it; otherwise the words read are kept and the next group is read, and
    /// after the last group the reading ends with all the words.
    pub open spec fn next(self, reply: Reply) -> Step<ReadConfig, TagSettings> {
        match reception(self.awaited(), reply) {
            Err(e) => Step::Finish(Err(e)),
            Ok(_) => {
                let settings = self.filled(payload(reply));
                match self.following() {
                    Some(group) => {
                        let state = ReadConfig { group, settings };
                        Step::Issue(state, state.awaited())
                    },
                    None => Step::Finish(Ok(settings)),
                }
            },
        }
    }

    /// Starts the reading: the read of the first group goes out.
    pub fn begin() -> (start: (ReadConfig, Command))
        ensures
            start.0.group == SettingsGroup::TempSensorControl,
            start.1 == start.0.awaited(),
    {
        let state = ReadConfig {
            group: SettingsGroup::TempSensorControl,
            settings: TagSettings {
                temp_sensor_control_1: 0,
                temp_sensor_control_2: 0,
                temp_sensor_control_3: 0,
                io_control: 0,
                battery_management_1: 0,
                battery_management_2: 0,
                total: 0,
                bap_mode: 0,
            },
        };
        (state, state.command())
    }

    /// The command of the group that is being read.
    pub fn command(&self) -> (command: Command)
        ensures
            command == self.awaited(),
    {
        match self.group {
            SettingsGroup::TempSensorControl => user(TEMP_SENSOR_CONTROL_WORD_1).read(3),
            SettingsGroup::IoControl => user(IO_CONTROL_WORD).read(1),
            SettingsGroup::BatteryManagement => user(BATTERY_MANAGEMENT_WORD_1).read(2),
            SettingsGroup::Total => user(TOTAL_WORD).read(1),
            SettingsGroup::BapMode => user(BAP_MODE_WORD).read(1),
        }
    }

    /// Takes the reply to the command that is out.
    pub fn advance(self, reply: &Reply) -> (step: Step<ReadConfig, TagSettings>)
        ensures
            step == self.next(*reply),
    {
        match receive(self.command(), reply) {
            Err(e) => Step::Finish(Err(e)),
            Ok(_) => match reply {
                Reply::Data(bytes) => {
                    let first: u16 = word_at(bytes, 0);
                    let mut settings = self.settings;
                    let following = match self.group {
                        SettingsGroup::TempSensorControl => {
                            settings.temp_sensor_control_1 = first;
                            settings.temp_sensor_control_2 = word_at(bytes, 1);
                            settings.temp_sensor_control_3 = word_at(bytes, 2);
                            Some(SettingsGroup::IoControl)
                        },
                        SettingsGroup::IoControl => {
                            settings.io_control = first;
                            Some(SettingsGroup::BatteryManagement)
                        },
                        SettingsGroup::BatteryManagement => {
                            settings.battery_management_1 = first;
                            settings.battery_management_2 = word_at(bytes, 1);
                            Some(SettingsGroup::Total)
                        },
                        SettingsGroup::Total => {
                            settings.total = first;
                            Some(SettingsGroup::BapMode)
                        },
                        SettingsGroup::BapMode => {
                            settings.bap_mode = first;
                            None
                        },
                    };
                    match following {
                        Some(group) => {
                            let state = ReadConfig { group, settings };
                            let command = state.command();
                            Step::Issue(state, command)
                        },
                        None => Step::Finish(Ok(settings)),
                    }
                },
                _ => unreached(),
            },
        }
    }
}

} // verus!
