//! One tag, selected, and what can be asked of it.
//!
//! Reads and writes reach whichever tag the reader has selected, so nothing
//! may be asked of a tag before it has been selected. A [`SensorSession`]
//! is the proof that it has been: the only way to one is through a
//! [`Selection`] that the reader has answered. Every operation starts from
//! the session; one operation runs at a time.

use vstd::pervasive::unreached;
use vstd::prelude::*;

use crate::accel::{
    setup, setup_sequence, turn_off, turn_on, TestConnection, MEASURE_OFF, MEASURE_ON,
};
use crate::fifo::{fifo_read, GetFifoEntries, GetNumFifoEntries, ReadFifo};
use crate::registers::{register_read, register_write, Register};
use crate::calibration::{factory_read_command, VerifyAndRepair};
use crate::link::{receive, reception, Command, Reply, Step};
use crate::power::{configuration, configure, PowerMode};
use crate::pseudo_bap::{
    discharge_sequence, disarm_command, pseudo_bap_discharge, PseudoBapChargeAndSample,
};
use crate::script::Script;
use crate::temperature::{sensor_read, ReadTemperature};
use crate::window::{CollectWindow, WindowStage};

verus! {

/// What identifies a tag: its product code and the identifier that its
/// maker gave it.
#[derive(Debug, PartialEq, Eq)]
pub struct TagIdentity {
    pub epc: Vec<u8>,
    pub tid: Vec<u8>,
}

/// Tells whether two byte strings are the same.
pub fn same_bytes(a: &Vec<u8>, b: &Vec<u8>) -> (same: bool)
    ensures
        same == (a@ == b@),
{
    if a.len() != b.len() {
        return false;
    }
    let mut i: usize = 0;
    while i < a.len()
        invariant
            a@.len() == b@.len(),
            i <= a@.len(),
            forall|k: int| 0 <= k < i ==> a@[k] == b@[k],
        decreases a@.len() - i,
    {
        if a[i] != b[i] {
            return false;
        }
        i = i + 1;
    }
    assert(a@ =~= b@);
    true
}

/// Finds the first of `tags` whose product code is `epc`.
pub fn find_tag(tags: &Vec<TagIdentity>, epc: &Vec<u8>) -> (found: Option<usize>)
    ensures
        match found {
            Some(i) => {
                &&& i < tags@.len()
                &&& tags@[i as int].epc@ == epc@
                &&& forall|k: int| 0 <= k < i ==> tags@[k].epc@ != epc@
            },
            None => forall|k: int| 0 <= k < tags@.len() ==> tags@[k].epc@ != epc@,
        },
{
    let mut i: usize = 0;
    while i < tags.len()
        invariant
            i <= tags@.len(),
            forall|k: int| 0 <= k < i ==> tags@[k].epc@ != epc@,
        decreases tags@.len() - i,
    {
        if same_bytes(&tags[i].epc, epc) {
            return Some(i);
        }
        i = i + 1;
    }
    None
}

/// A tag that the reader has been asked to select.
pub struct Selection {
    tag: TagIdentity,
}

/// A tag that the reader has selected.
pub struct SensorSession {
    tag: TagIdentity,
}

impl Selection {
    /// The tag.
    pub closed spec fn tag(self) -> TagIdentity {
        self.tag
    }

    /// Asks for `tag` to be selected.
    pub fn begin(tag: TagIdentity) -> (start: (Selection, Command))
        ensures
            start.0.tag() == tag,
            start.1 == Command::Select,
    {
        (Selection { tag }, Command::Select)
    }

    /// Takes the reader's answer: a session with the tag where the reader
    /// has selected it, and the reader's failure where it has not.
    pub fn advance(self, reply: &Reply) -> (step: Step<Selection, SensorSession>)
        ensures
            match reception(Command::Select, *reply) {
                Err(e) => step == Step::<Selection, SensorSession>::Finish(Err(e)),
                Ok(_) => step matches Step::Finish(Ok(session)) && session.tag() == self.tag(),
            },
    {
        match receive(Command::Select, reply) {
            Err(e) => Step::Finish(Err(e)),
            Ok(_) => Step::Finish(Ok(SensorSession { tag: self.tag })),
        }
    }
}

fn launch(plan: Vec<Command>) -> (start: (Script, Command))
    requires
        plan@.len() > 0,
    ensures
        start.0.steps() == plan@,
        start.0.cursor() == 0,
        start.1 == plan@[0],
{
    match Script::begin(plan) {
        Step::Issue(script, command) => (script, command),
        Step::Finish(_) => unreached(),
    }
}

fn single(command: Command) -> (start: (Script, Command))
    ensures
        start.0.steps() == seq![command],
        start.0.cursor() == 0,
        start.1 == command,
{
    let mut plan: Vec<Command> = Vec::new();
    plan.push(command);
    assert(plan@ =~= seq![command]);
    launch(plan)
}

impl SensorSession {
    /// The tag.
    pub closed spec fn tag(self) -> TagIdentity {
        self.tag
    }

    /// The tag of the session.
    pub fn identity(&self) -> (tag: &TagIdentity)
        ensures
            *tag == self.tag(),
    {
        &self.tag
    }

    /// Starts putting the tag into `mode`.
    pub fn configure(&self, mode: PowerMode) -> (start: (Script, Command))
        ensures
            start.0.steps() == configuration(mode),
            start.0.cursor() == 0,
            start.1 == configuration(mode)[0],
    {
        launch(configure(mode))
    }

    /// Starts the check of the tag's calibration.
    pub fn verify_and_repair(&self) -> (start: (VerifyAndRepair, Command))
        ensures
            start.0 == VerifyAndRepair::ReadingFactory,
            start.1 == factory_read_command(),
    {
        VerifyAndRepair::begin()
    }

    /// Starts a reading of the temperature.
    pub fn read_temperature(&self) -> (start: (ReadTemperature, Command))
        ensures
            start.1 == sensor_read(),
    {
        ReadTemperature::begin()
    }

    /// Starts draining the tag's capacitor, to end with a wait of
    /// `discharge_ms` milliseconds.
    pub fn pseudo_bap_discharge(&self, discharge_ms: u32) -> (start: (Script, Command))
        ensures
            start.0.steps() == discharge_sequence(discharge_ms),
            start.0.cursor() == 0,
            start.1 == discharge_sequence(discharge_ms)[0],
    {
        launch(pseudo_bap_discharge(discharge_ms))
    }

    /// Starts a pseudo-BAP measurement on the drained tag.
    pub fn pseudo_bap_charge_and_sample(&self) -> (start: (PseudoBapChargeAndSample, Command))
        ensures
            start.0 == PseudoBapChargeAndSample::Disarming,
            start.1 == disarm_command(),
    {
        PseudoBapChargeAndSample::begin()
    }

    /// Starts the check that the accelerometer answers.
    pub fn test_connection(&self) -> (start: (TestConnection, Command))
        ensures
            start.1 == register_read(Register::DevIdAd, 3),
    {
        TestConnection::begin()
    }

    /// Starts setting the accelerometer up.
    pub fn setup(&self) -> (start: (Script, Command))
        ensures
            start.0.steps() == setup_sequence(),
            start.0.cursor() == 0,
            start.1 == setup_sequence()[0],
    {
        launch(setup())
    }

    /// Starts switching measurement on.
    pub fn turn_on(&self) -> (start: (Script, Command))
        ensures
            start.0.steps() == seq![register_write(Register::PowerCtl, MEASURE_ON)],
            start.0.cursor() == 0,
            start.1 == register_write(Register::PowerCtl, MEASURE_ON),
    {
        single(turn_on())
    }

    /// Starts switching measurement off.
    pub fn turn_off(&self) -> (start: (Script, Command))
        ensures
            start.0.steps() == seq![register_write(Register::PowerCtl, MEASURE_OFF)],
            start.0.cursor() == 0,
            start.1 == register_write(Register::PowerCtl, MEASURE_OFF),
    {
        single(turn_off())
    }

    /// Starts asking how many entries the sample buffer holds.
    pub fn get_num_fifo_entries(&self) -> (start: (GetNumFifoEntries, Command))
        ensures
            start.1 == register_read(Register::FifoEntriesL, 2),
    {
        GetNumFifoEntries::begin()
    }

    /// Starts reading `entries` entries off the sample buffer.
    pub fn read_fifo(&self, entries: u16) -> (start: (ReadFifo, Command))
        ensures
            start.0.entries == entries,
            start.1 == fifo_read(entries),
    {
        ReadFifo::begin(entries)
    }

    /// Starts draining the sample buffer.
    pub fn get_fifo_entries(&self) -> (start: (GetFifoEntries, Command))
        ensures
            start.0 == GetFifoEntries::Counting,
            start.1 == register_read(Register::FifoEntriesL, 2),
    {
        GetFifoEntries::begin()
    }

    /// Starts a measurement of at least `min_duration_ms` milliseconds.
    pub fn collect_window(&self, min_duration_ms: u64) -> (start: (CollectWindow, Command))
        ensures
            start.0.stage == WindowStage::Arming,
            start.0.min_duration_ms == min_duration_ms,
            start.0.peak_signal == None::<i32>,
            start.1 == start.0.awaited(),
    {
        CollectWindow::begin(min_duration_ms)
    }
}

} // verus!
