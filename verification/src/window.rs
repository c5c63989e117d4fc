//! One window of acceleration samples.
//!
//! Measurement is switched on, the tag is kept in the field for at least
//! the time asked for, measurement is switched off, and the sample buffer is
//! read out: first the three entries that the reset left in it, which are
//! dropped, then all the rest, which must be whole samples.

use vstd::pervasive::unreached;
use vstd::prelude::*;

use crate::accel::{turn_off, turn_on, MEASURE_OFF, MEASURE_ON};
use crate::fifo::{
    decode_entries, entry_count, fifo_read, group_samples, read_fifo_command, readings_of,
    samples_of, take_count, whole_samples, AccelSample, BOOTSTRAP_ENTRIES, ENTRIES_PER_SAMPLE,
    SAMPLE_INTERVAL_MS,
};
use crate::registers::{read_register, register_read, register_write, Register};
use crate::link::{
    payload, receive, reception, ClockReading, Command, LinkError, ProtocolError, Reply, Step,
};

verus! {

/// Length of one sampling window within the measurement, in milliseconds.
/// The field is renewed this often, which keeps the capacitor charged.
pub const WINDOW_TICK_MS: u32 = 20;

/// How far a measurement has come.
#[derive(Clone, Copy, Debug, PartialEq, Eq, Structural)]
pub enum WindowStage {
    /// The write that switches measurement on is out.
    Arming,
    /// The clocks are being read for the start of the measurement.
    Starting,
    /// A sampling window is out.
    Ticking,
    /// The clocks are being read to see whether time is up.
    Timing,
    /// The inventory cycle that follows the last sampling window is out.
    Refreshing,
    /// The write that switches measurement off is out.
    Disarming,
    /// The read of the count registers is out.
    Counting,
    /// The read that drops one of the entries left by the reset is out;
    /// the number says which, counted from one.
    Discarding(u16),
    /// The count registers are being read again, for what is left.
    DrainCounting,
    /// The read of all that is left is out; the number says how many
    /// entries that is.
    Draining(u16),
}

/// A measurement under way.
#[derive(Clone, Copy, Debug, PartialEq, Eq, Structural)]
pub struct CollectWindow {
    pub stage: WindowStage,
    /// The least time for which measurement is to stay on.
    pub min_duration_ms: u64,
    /// The clocks when measurement was switched on.
    pub start: ClockReading,
    /// The strongest signal of the sampling windows so far.
    pub peak_signal: Option<i32>,
}

/// What a measurement brought.
#[derive(Debug, PartialEq, Eq)]
pub struct Window {
    /// The samples, oldest first.
    pub samples: Vec<AccelSample>,
    /// The strongest signal of the sampling windows; none where there was
    /// no time for a window.
    pub peak_signal: Option<i32>,
}

/// The clocks that `reply` carries.
pub open spec fn clock_of(reply: Reply) -> ClockReading {
    match reply {
        Reply::Clock(reading) => reading,
        _ => ClockReading { monotonic_ms: 0, utc_ms: 0 },
    }
}

/// The signal strength that `reply` carries.
pub open spec fn signal_of(reply: Reply) -> i32 {
    match reply {
        Reply::Stats(stats) => stats.peak_signal,
        _ => 0,
    }
}

/// The stronger of the signal so far and a new one.
pub open spec fn stronger(so_far: Option<i32>, signal: i32) -> i32 {
    match so_far {
        Some(peak) => if peak >= signal {
            peak
        } else {
            signal
        },
        None => signal,
    }
}

/// Milliseconds that have passed from `start` to `now`. A clock that has
/// run backwards has let no time pass.
pub open spec fn elapsed_ms(start: ClockReading, now: ClockReading) -> int {
    if now.monotonic_ms >= start.monotonic_ms {
        now.monotonic_ms - start.monotonic_ms
    } else {
        0
    }
}

/// Whether a buffer that reports `entries` entries after a measurement can
/// be read out: the three entries of the reset are there, and what follows
/// them is whole samples.
pub open spec fn readable(entries: u16) -> bool {
    entries >= BOOTSTRAP_ENTRIES && (entries - BOOTSTRAP_ENTRIES) % (ENTRIES_PER_SAMPLE as int) == 0
}

/// Whether a buffer of `entries` entries holds the three entries of the
/// reset and `samples` whole samples after them.
pub open spec fn holds_samples(entries: u16, samples: int) -> bool {
    samples >= 0 && entries == BOOTSTRAP_ENTRIES + ENTRIES_PER_SAMPLE * samples
}

impl CollectWindow {
    /// The command whose reply is awaited.
    pub open spec fn awaited(self) -> Command {
        match self.stage {
            WindowStage::Arming => register_write(Register::PowerCtl, MEASURE_ON),
            WindowStage::Starting => Command::ReadClock,
            WindowStage::Ticking => Command::SampleWindow { millis: WINDOW_TICK_MS },
            WindowStage::Timing => Command::ReadClock,
            WindowStage::Refreshing => Command::Refresh,
            WindowStage::Disarming => register_write(Register::PowerCtl, MEASURE_OFF),
            WindowStage::Counting => register_read(Register::FifoEntriesL, 2),
            WindowStage::Discarding(_) => fifo_read(1),
            WindowStage::DrainCounting => register_read(Register::FifoEntriesL, 2),
            WindowStage::Draining(entries) => fifo_read(entries),
        }
    }

    /// The measurement at another stage.
    pub open spec fn at(self, stage: WindowStage) -> CollectWindow {
        CollectWindow { stage, ..self }
    }

    /// The stage that follows a reading of the clocks: another sampling
    /// window while less than the time asked for has passed, and the end of
    /// sampling after that.
    pub open spec fn after_clock(self, now: ClockReading) -> WindowStage {
        if elapsed_ms(self.start, now) < self.min_duration_ms {
            WindowStage::Ticking
        } else {
            WindowStage::Refreshing
        }
    }

    /// Whether `step` hands out the command of `next` and goes on from
    /// there.
    pub open spec fn goes_on(step: Step<CollectWindow, Window>, next: CollectWindow) -> bool {
        step == Step::<CollectWindow, Window>::Issue(next, next.awaited())
    }

    /// Whether `step` ends the measurement with `error`.
    pub open spec fn fails(step: Step<CollectWindow, Window>, error: ProtocolError) -> bool {
        step == Step::<CollectWindow, Window>::Finish(Err(error))
    }

    /// Whether `step` is what the measurement in state `self` does on
    /// `reply`.
    ///
    /// Any failure of the reader ends it. Sampling windows go out until the
    /// clock shows that the time asked for has passed. A count that leaves
    /// no room for the three entries of the reset, or that is not whole
    /// samples after them, ends the measurement as a corrupt buffer before
    /// anything is read out; so does a count of what is left that is not
    /// whole samples. The measurement ends in samples only with every entry
    /// that was read out in one of them.
    pub open spec fn leads_to(self, reply: Reply, step: Step<CollectWindow, Window>) -> bool {
        match reception(self.awaited(), reply) {
            Err(e) => Self::fails(step, e),
            Ok(_) => match self.stage {
                WindowStage::Arming => Self::goes_on(step, self.at(WindowStage::Starting)),
                WindowStage::Starting => {
                    let started = CollectWindow { start: clock_of(reply), ..self };
                    Self::goes_on(step, started.at(started.after_clock(started.start)))
                },
                WindowStage::Ticking => Self::goes_on(
                    step,
                    CollectWindow {
                        stage: WindowStage::Timing,
                        peak_signal: Some(stronger(self.peak_signal, signal_of(reply))),
                        ..self
                    },
                ),
                WindowStage::Timing => Self::goes_on(
                    step,
                    self.at(self.after_clock(clock_of(reply))),
                ),
                WindowStage::Refreshing => Self::goes_on(step, self.at(WindowStage::Disarming)),
                WindowStage::Disarming => Self::goes_on(step, self.at(WindowStage::Counting)),
                WindowStage::Counting => if readable(entry_count(payload(reply))) {
                    Self::goes_on(step, self.at(WindowStage::Discarding(1)))
                } else {
                    Self::fails(step, ProtocolError::CorruptFifo)
                },
                WindowStage::Discarding(which) => if which < BOOTSTRAP_ENTRIES {
                    Self::goes_on(step, self.at(WindowStage::Discarding((which + 1) as u16)))
                } else {
                    Self::goes_on(step, self.at(WindowStage::DrainCounting))
                },
                WindowStage::DrainCounting => {
                    let entries = entry_count(payload(reply));
                    if entries % ENTRIES_PER_SAMPLE != 0 {
                        Self::fails(step, ProtocolError::CorruptFifo)
                    } else if entries == 0 {
                        step matches Step::Finish(Ok(window)) && window.samples@.len() == 0
                            && window.peak_signal == self.peak_signal
                    } else {
                        Self::goes_on(step, self.at(WindowStage::Draining(entries)))
                    }
                },
                WindowStage::Draining(entries) => {
                    let readings = readings_of(payload(reply));
                    if !whole_samples(readings) {
                        Self::fails(step, ProtocolError::CorruptFifo)
                    } else if self.start.utc_ms + (readings.len() / 3) * SAMPLE_INTERVAL_MS
                        > i64::MAX {
                        Self::fails(step, ProtocolError::Link(LinkError::MalformedReply))
                    } else {
                        step matches Step::Finish(Ok(window)) && window.samples@ == samples_of(
                            readings,
                            self.start.utc_ms,
                        ) && window.peak_signal == self.peak_signal
                    }
                },
            },
        }
    }

    /// Starts a measurement that keeps measuring for at least
    /// `min_duration_ms` milliseconds: the write that switches measurement
    /// on goes out.
    pub fn begin(min_duration_ms: u64) -> (start: (CollectWindow, Command))
        ensures
            start.0.stage == WindowStage::Arming,
            start.0.min_duration_ms == min_duration_ms,
            start.0.peak_signal == None::<i32>,
            start.1 == start.0.awaited(),
    {
        (
            CollectWindow {
                stage: WindowStage::Arming,
                min_duration_ms,
                start: ClockReading { monotonic_ms: 0, utc_ms: 0 },
                peak_signal: None,
            },
            turn_on(),
        )
    }

    /// The command of the current stage.
    pub fn command(&self) -> (command: Command)
        ensures
            command == self.awaited(),
    {
        match self.stage {
            WindowStage::Arming => turn_on(),
            WindowStage::Starting => Command::ReadClock,
            WindowStage::Ticking => Command::SampleWindow { millis: WINDOW_TICK_MS },
            WindowStage::Timing => Command::ReadClock,
            WindowStage::Refreshing => Command::Refresh,
            WindowStage::Disarming => turn_off(),
            WindowStage::Counting => read_register(Register::FifoEntriesL, 2),
            WindowStage::Discarding(_) => read_fifo_command(1),
            WindowStage::DrainCounting => read_register(Register::FifoEntriesL, 2),
            WindowStage::Draining(entries) => read_fifo_command(entries),
        }
    }

    fn proceed(self, stage: WindowStage) -> (step: Step<CollectWindow, Window>)
        ensures
            Self::goes_on(step, self.at(stage)),
    {
        let next = CollectWindow { stage, ..self };
        let command = next.command();
        Step::Issue(next, command)
    }

    fn stage_after(&self, now: ClockReading) -> (stage: WindowStage)
        ensures
            stage == self.after_clock(now),
    {
        let elapsed: u64 = if now.monotonic_ms >= self.start.monotonic_ms {
            now.monotonic_ms - self.start.monotonic_ms
        } else {
            0
        };
        if elapsed < self.min_duration_ms {
            WindowStage::Ticking
        } else {
            WindowStage::Refreshing
        }
    }

    /// Takes the reply to the command that is out.
    pub fn advance(self, reply: &Reply) -> (step: Step<CollectWindow, Window>)
        ensures
            self.leads_to(*reply, step),
    {
        match receive(self.command(), reply) {
            Err(e) => Step::Finish(Err(e)),
            Ok(_) => match self.stage {
                WindowStage::Arming => self.proceed(WindowStage::Starting),
                WindowStage::Starting => match reply {
                    Reply::Clock(reading) => {
                        let started = CollectWindow { start: *reading, ..self };
                        let stage = started.stage_after(*reading);
                        started.proceed(stage)
                    },
                    _ => unreached(),
                },
                WindowStage::Ticking => match reply {
                    Reply::Stats(stats) => {
                        let peak: i32 = match self.peak_signal {
                            Some(peak) => if peak >= stats.peak_signal {
                                peak
                            } else {
                                stats.peak_signal
                            },
                            None => stats.peak_signal,
                        };
                        let heard = CollectWindow { peak_signal: Some(peak), ..self };
                        heard.proceed(WindowStage::Timing)
                    },
                    _ => unreached(),
                },
                WindowStage::Timing => match reply {
                    Reply::Clock(reading) => {
                        let stage = self.stage_after(*reading);
                        self.proceed(stage)
                    },
                    _ => unreached(),
                },
                WindowStage::Refreshing => self.proceed(WindowStage::Disarming),
                WindowStage::Disarming => self.proceed(WindowStage::Counting),
                WindowStage::Counting => match take_count(reply) {
                    Ok(entries) => if entries >= BOOTSTRAP_ENTRIES && (entries - BOOTSTRAP_ENTRIES)
                        % ENTRIES_PER_SAMPLE == 0 {
                        self.proceed(WindowStage::Discarding(1))
                    } else {
                        Step::Finish(Err(ProtocolError::CorruptFifo))
                    },
                    Err(_) => unreached(),
                },
                WindowStage::Discarding(which) => if which < BOOTSTRAP_ENTRIES {
                    self.proceed(WindowStage::Discarding(which + 1))
                } else {
                    self.proceed(WindowStage::DrainCounting)
                },
                WindowStage::DrainCounting => match take_count(reply) {
                    Ok(entries) => if entries % ENTRIES_PER_SAMPLE != 0 {
                        Step::Finish(Err(ProtocolError::CorruptFifo))
                    } else if entries == 0 {
                        Step::Finish(
                            Ok(Window { samples: Vec::new(), peak_signal: self.peak_signal }),
                        )
                    } else {
                        self.proceed(WindowStage::Draining(entries))
                    },
                    Err(_) => unreached(),
                },
                WindowStage::Draining(_) => match reply {
                    Reply::Data(bytes) => {
                        let readings = decode_entries(bytes);
                        let samples: usize = readings.len() / 3;
                        if readings.len() % 3 != 0 {
                            Step::Finish(Err(ProtocolError::CorruptFifo))
                        } else if self.start.utc_ms > i64::MAX - (samples as i64)
                            * SAMPLE_INTERVAL_MS {
                            Step::Finish(Err(ProtocolError::Link(LinkError::MalformedReply)))
                        } else {
                            match group_samples(&readings, self.start.utc_ms) {
                                Ok(samples) => Step::Finish(
                                    Ok(Window { samples, peak_signal: self.peak_signal }),
                                ),
                                Err(_) => unreached(),
                            }
                        }
                    },
                    _ => unreached(),
                },
            },
        }
    }
}

/// Sampling ends only on a reading of the clocks, and only once that
/// reading shows that the time asked for has passed since measurement was
/// switched on.
pub proof fn lemma_sampling_lasts(
    state: CollectWindow,
    reply: Reply,
    step: Step<CollectWindow, Window>,
)
    requires
        state.leads_to(reply, step),
        step matches Step::Issue(next, _) && next.stage is Refreshing,
    ensures
        state.stage is Starting || state.stage is Timing,
        step matches Step::Issue(next, _) && elapsed_ms(next.start, clock_of(reply))
            >= state.min_duration_ms,
{
}

/// A measurement ends in samples only where the buffer was read out in
/// full and held whole samples: three entries went into each sample, and
/// none was left over.
pub proof fn lemma_no_entry_is_dropped(
    state: CollectWindow,
    reply: Reply,
    step: Step<CollectWindow, Window>,
)
    requires
        state.leads_to(reply, step),
        step matches Step::Finish(Ok(_)),
    ensures
        state.stage matches WindowStage::Draining(entries) ==> (step matches Step::Finish(
            Ok(window),
        ) && 3 * window.samples@.len() == entries),
        state.stage is DrainCounting ==> entry_count(payload(reply)) == 0,
        state.stage is DrainCounting || state.stage is Draining,
{
}

/// A count after a measurement that is short of the three entries of the
/// reset, or that is not whole samples after them, ends the measurement as
/// a corrupt buffer, and nothing is read out of it.
pub proof fn lemma_partial_sample_is_refused(
    state: CollectWindow,
    reply: Reply,
    step: Step<CollectWindow, Window>,
)
    requires
        state.stage is Counting,
        state.leads_to(reply, step),
        reception(state.awaited(), reply) is Ok,
    ensures
        (exists|k: int| #[trigger] holds_samples(entry_count(payload(reply)), k)) <==> !(step matches Step::Finish(
            _,
        )),
        step matches Step::Finish(outcome) ==> outcome == Err::<Window, ProtocolError>(
            ProtocolError::CorruptFifo,
        ),
{
    let entries = entry_count(payload(reply));
    if readable(entries) {
        let k = (entries - BOOTSTRAP_ENTRIES) / 3;
        assert(holds_samples(entries, k));
    }
}

} // verus!
