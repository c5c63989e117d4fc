//! The temperature sensor's calibration.
//!
//! The tag holds its calibration twice: as written at the factory, in
//! memory that cannot be changed, and as the sensor uses it, in memory that
//! can. The upper eleven bits of the two words must agree. The lower five
//! bits of the active word are a fine trim that may be set freely.

use vstd::pervasive::unreached;
use vstd::prelude::*;

use crate::codec::{reinterpret_unsigned, sign_extend5, trim_value};
use crate::layout::{
    factory_calibration, factory_calibration_word, user, user_word, CALIBRATION_ACTIVE_WORD,
};
use crate::link::{
    answers, payload, receive, reception, word_at, word_in, Command, ProtocolError, Reply, Step,
};
use crate::temperature::{code_value, decode, Temperature};

verus! {

/// The two calibration words of a tag.
#[derive(Clone, Copy, Debug, PartialEq, Eq, Structural)]
pub struct CalibrationPair {
    /// The word written at the factory.
    pub factory: u16,
    /// The word that the sensor works with.
    pub active: u16,
}

/// The read of the factory calibration word.
pub open spec fn factory_read_command() -> Command {
    factory_calibration_word().reading(1)
}

/// The read of the active calibration word.
pub open spec fn active_read_command() -> Command {
    user_word(CALIBRATION_ACTIVE_WORD).reading(1)
}

/// The write that sets the active calibration word to `word`.
pub open spec fn repair_command(word: u16) -> Command {
    user_word(CALIBRATION_ACTIVE_WORD).writing(word)
}

impl CalibrationPair {
    /// Whether the upper eleven bits of the two words agree.
    pub open spec fn in_sync(self) -> bool {
        self.factory as int / 32 == self.active as int / 32
    }

    /// The fine trim of the active word, as a temperature.
    pub open spec fn trim(self) -> Temperature {
        Temperature { quarters: trim_value(self.active) as i16 }
    }

    /// The pair as it stands once it has been checked, and repaired where
    /// it had drifted: the active word of a drifted pair is the factory
    /// word.
    pub open spec fn repaired(self) -> CalibrationPair {
        if self.in_sync() {
            self
        } else {
            CalibrationPair { factory: self.factory, active: self.factory }
        }
    }

    /// Tells whether the upper eleven bits of the two words agree.
    pub fn is_in_sync(&self) -> (b: bool)
        ensures
            b == self.in_sync(),
    {
        let factory = self.factory;
        let active = self.active;
        assert((factory & 0xFFE0 == active & 0xFFE0) <==> (factory / 32 == active / 32))
            by (bit_vector);
        factory & 0xFFE0 == active & 0xFFE0
    }

    /// Reads the fine trim off a pair that is in sync; a pair that has
    /// drifted has no trim to report.
    pub fn fine_trim(&self) -> (r: Result<Temperature, ProtocolError>)
        ensures
            r == if self.in_sync() {
                Ok::<Temperature, ProtocolError>(self.trim())
            } else {
                Err::<Temperature, ProtocolError>(ProtocolError::CalibrationMismatch)
            },
    {
        if self.is_in_sync() {
            let trim: i16 = sign_extend5(self.active);
            let code: u16 = reinterpret_unsigned(trim);
            proof {
                lemma_trim_decodes_to_itself(self.active, code);
            }
            Ok(decode(code))
        } else {
            Err(ProtocolError::CalibrationMismatch)
        }
    }
}

/// A sign-extended trim, taken as a sensor code, decodes to the trim: the
/// decoder reads the nine low bits, and the extension has filled them.
pub proof fn lemma_trim_decodes_to_itself(raw: u16, code: u16)
    requires
        crate::codec::signed_value(code) == trim_value(raw),
    ensures
        code_value(code) == trim_value(raw),
        -16 <= code_value(code) <= 15,
        code_value(code) < 0 <==> raw as int % 32 >= 16,
{
}

/// Checking a pair that has drifted repairs it for good: once the factory
/// word has been written over the active word the pair is in sync, a second
/// check finds nothing to repair, and it reports the trim of the factory
/// word.
pub proof fn lemma_repair_is_idempotent(pair: CalibrationPair)
    ensures
        pair.repaired().in_sync(),
        pair.repaired().repaired() == pair.repaired(),
        pair.repaired().factory == pair.factory,
        !pair.in_sync() ==> pair.repaired().trim().quarters == trim_value(pair.factory),
{
}

/// The same law, told of the check itself. Where the active word read
/// back has drifted, the check writes the factory word over it; and where a
/// later check reads back what was written, it ends with the trim of the
/// factory word and writes nothing.
pub proof fn lemma_second_check_finds_sync(factory: u16, first: Reply, second: Reply)
    requires
        answers(active_read_command(), first),
        answers(active_read_command(), second),
        !(CalibrationPair { factory, active: word_in(payload(first), 0) }).in_sync(),
        word_in(payload(second), 0) == factory,
    ensures
        (VerifyAndRepair::ReadingActive { factory }).next(first) == Step::<
            VerifyAndRepair,
            Option<Temperature>,
        >::Issue(VerifyAndRepair::Repairing { factory }, repair_command(factory)),
        (VerifyAndRepair::ReadingActive { factory }).next(second) == Step::<
            VerifyAndRepair,
            Option<Temperature>,
        >::Finish(Ok(Some(Temperature { quarters: trim_value(factory) as i16 }))),
{
}

/// The check of a tag's calibration, and its repair where it has drifted.
#[derive(Clone, Copy, Debug, PartialEq, Eq, Structural)]
pub enum VerifyAndRepair {
    /// The read of the factory word is out.
    ReadingFactory,
    /// The read of the active word is out.
    ReadingActive { factory: u16 },
    /// The write of the factory word over the active word is out.
    Repairing { factory: u16 },
}

impl VerifyAndRepair {
    /// The command whose reply is awaited.
    pub open spec fn awaited(self) -> Command {
        match self {
            VerifyAndRepair::ReadingFactory => factory_read_command(),
            VerifyAndRepair::ReadingActive { .. } => active_read_command(),
            VerifyAndRepair::Repairing { factory } => repair_command(factory),
        }
    }

    /// What the check in state `self` does on `reply`.
    ///
    /// Any failure ends it. With both words read, a pair in sync ends it
    /// with the trim; a pair that has drifted has the factory word written
    /// over the active word, and the check then ends without a trim.
    pub open spec fn next(self, reply: Reply) -> Step<VerifyAndRepair, Option<Temperature>> {
        match reception(self.awaited(), reply) {
            Err(e) => Step::Finish(Err(e)),
            Ok(_) => match self {
                VerifyAndRepair::ReadingFactory => Step::Issue(
                    VerifyAndRepair::ReadingActive { factory: word_in(payload(reply), 0) },
                    active_read_command(),
                ),
                VerifyAndRepair::ReadingActive { factory } => {
                    let pair = CalibrationPair { factory, active: word_in(payload(reply), 0) };
                    if pair.in_sync() {
                        Step::Finish(Ok(Some(pair.trim())))
                    } else {
                        Step::Issue(
                            VerifyAndRepair::Repairing { factory },
                            repair_command(pair.repaired().active),
                        )
                    }
                },
                VerifyAndRepair::Repairing { .. } => Step::Finish(Ok(None)),
            },
        }
    }

    /// Starts the check: the read of the factory word goes out.
    pub fn begin() -> (start: (VerifyAndRepair, Command))
        ensures
            start.0 == VerifyAndRepair::ReadingFactory,
            start.1 == factory_read_command(),
    {
        (VerifyAndRepair::ReadingFactory, factory_calibration().read(1))
    }

    /// Takes the reply to the command that is out.
    pub fn advance(self, reply: &Reply) -> (step: Step<VerifyAndRepair, Option<Temperature>>)
        ensures
            step == self.next(*reply),
    {
        let active = user(CALIBRATION_ACTIVE_WORD);
        match self {
            VerifyAndRepair::ReadingFactory => {
                match receive(factory_calibration().read(1), reply) {
                    Err(e) => Step::Finish(Err(e)),
                    Ok(_) => match reply {
                        Reply::Data(bytes) => Step::Issue(
                            VerifyAndRepair::ReadingActive { factory: word_at(bytes, 0) },
                            active.read(1),
                        ),
                        _ => unreached(),
                    },
                }
            },
            VerifyAndRepair::ReadingActive { factory } => {
                match receive(active.read(1), reply) {
                    Err(e) => Step::Finish(Err(e)),
                    Ok(_) => match reply {
                        Reply::Data(bytes) => {
                            let pair = CalibrationPair { factory, active: word_at(bytes, 0) };
                            match pair.fine_trim() {
                                Ok(trim) => Step::Finish(Ok(Some(trim))),
                                Err(_) => Step::Issue(
                                    VerifyAndRepair::Repairing { factory },
                                    active.write(factory),
                                ),
                            }
                        },
                        _ => unreached(),
                    },
                }
            },
            VerifyAndRepair::Repairing { factory } => {
                match receive(active.write(factory), reply) {
                    Err(e) => Step::Finish(Err(e)),
                    Ok(_) => Step::Finish(Ok(None)),
                }
            },
        }
    }
}

} // verus!
