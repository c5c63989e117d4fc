//! Fixed sequences of commands.
//!
//! Most of what is asked of a tag is a list of words to write with pauses
//! in between. A [`Script`] hands such a list out one command at a time and
//! stops at the first command that fails.

use vstd::prelude::*;

use crate::link::{answers, receive, reception, Command, ProtocolError, Reply, Step};

verus! {

/// A sequence of commands under way: the command at `cursor` has been
/// handed out and its reply is awaited.
pub struct Script {
    steps: Vec<Command>,
    cursor: usize,
}

impl Script {
    #[verifier::type_invariant]
    spec fn in_flight(self) -> bool {
        self.cursor < self.steps@.len()
    }

    /// The whole sequence.
    pub closed spec fn steps(self) -> Seq<Command> {
        self.steps@
    }

    /// The position of the command whose reply is awaited.
    pub closed spec fn cursor(self) -> int {
        self.cursor as int
    }

    /// The command whose reply is awaited.
    pub open spec fn awaited(self) -> Command {
        self.steps()[self.cursor()]
    }

    /// Starts on `steps`: the first command goes out, or the script ends at
    /// once where there is none.
    pub fn begin(steps: Vec<Command>) -> (step: Step<Script, ()>)
        ensures
            steps@.len() == 0 ==> step == Step::<Script, ()>::Finish(Ok(())),
            steps@.len() > 0 ==> (match step {
                Step::Issue(script, command) => {
                    &&& script.steps() == steps@
                    &&& script.cursor() == 0
                    &&& command == steps@[0]
                },
                Step::Finish(_) => false,
            }),
    {
        if steps.len() == 0 {
            Step::Finish(Ok(()))
        } else {
            let first = steps[0];
            Step::Issue(Script { steps, cursor: 0 }, first)
        }
    }

    /// Takes the reply to the awaited command.
    ///
    /// A reply that fails [`reception`] ends the script with that error and
    /// nothing further is handed out. Otherwise the next command goes out,
    /// or the script ends in success after the last.
    pub fn advance(self, reply: &Reply) -> (step: Step<Script, ()>)
        ensures
            self.cursor() < self.steps().len(),
            match reception(self.awaited(), *reply) {
                Err(e) => step == Step::<Script, ()>::Finish(Err(e)),
                Ok(_) => if self.cursor() + 1 == self.steps().len() {
                    step == Step::<Script, ()>::Finish(Ok(()))
                } else {
                    match step {
                        Step::Issue(next, command) => {
                            &&& next.steps() == self.steps()
                            &&& next.cursor() == self.cursor() + 1
                            &&& command == self.steps()[self.cursor() + 1]
                        },
                        Step::Finish(_) => false,
                    }
                },
            },
    {
        proof {
            use_type_invariant(&self);
        }
        match receive(self.steps[self.cursor], reply) {
            Err(e) => Step::Finish(Err(e)),
            Ok(_) => {
                let total: usize = self.steps.len();
                let following: usize = self.cursor + 1;
                if following == total {
                    Step::Finish(Ok(()))
                } else {
                    let command = self.steps[following];
                    Step::Issue(Script { steps: self.steps, cursor: following }, command)
                }
            },
        }
    }
}

/// How a script of `steps` that awaits the reply to the command at
/// `cursor` ends when it is given `replies` one after the other: with the
/// first error, in success after its last command, or not yet where the
/// replies run out before that.
pub open spec fn outcome(steps: Seq<Command>, cursor: int, replies: Seq<Reply>) -> Option<
    Result<(), ProtocolError>,
>
    decreases replies.len(),
{
    if replies.len() == 0 {
        None
    } else {
        match reception(steps[cursor], replies[0]) {
            Err(e) => Some(Err(e)),
            Ok(_) => if cursor + 1 == steps.len() {
                Some(Ok(()))
            } else {
                outcome(steps, cursor + 1, replies.drop_first())
            },
        }
    }
}

/// A script ends in success exactly where each of its commands, from the
/// awaited one on and in order, has had a well-formed answer; up to there
/// it has not ended.
pub proof fn lemma_success_takes_every_answer(
    steps: Seq<Command>,
    cursor: int,
    replies: Seq<Reply>,
)
    requires
        0 <= cursor < steps.len(),
        replies.len() == steps.len() - cursor,
    ensures
        outcome(steps, cursor, replies) == Some(Ok::<(), ProtocolError>(())) <==> (forall|i: int|
            0 <= i < replies.len() ==> answers(steps[cursor + i], #[trigger] replies[i])),
        forall|n: int|
            0 <= n < replies.len() ==> outcome(steps, cursor, #[trigger] replies.take(n)) != Some(
                Ok::<(), ProtocolError>(()),
            ),
    decreases replies.len(),
{
    let rest = replies.drop_first();
    assert forall|n: int| 0 <= n < replies.len() implies outcome(
        steps,
        cursor,
        #[trigger] replies.take(n),
    ) != Some(Ok::<(), ProtocolError>(())) by {
        if n > 0 && cursor + 1 < steps.len() {
            lemma_success_takes_every_answer(steps, cursor + 1, rest);
            assert(replies.take(n).drop_first() =~= rest.take(n - 1));
            assert(replies.take(n)[0] == replies[0]);
        }
    }
    if cursor + 1 < steps.len() {
        lemma_success_takes_every_answer(steps, cursor + 1, rest);
        if outcome(steps, cursor, replies) == Some(Ok::<(), ProtocolError>(())) {
            assert forall|i: int| 0 <= i < replies.len() implies answers(
                steps[cursor + i],
                #[trigger] replies[i],
            ) by {
                if i > 0 {
                    assert(rest[i - 1] == replies[i]);
                }
            }
        } else if answers(steps[cursor], replies[0]) {
            let i = choose|i: int| 0 <= i < rest.len() && !answers(steps[cursor + 1 + i], rest[i]);
            assert(rest[i] == replies[i + 1]);
        }
    }
}

} // verus!
