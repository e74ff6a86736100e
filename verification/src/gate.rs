//! The decision-gated loop: one decision point, polled at a fixed cadence.

use vstd::prelude::*;

verus! {

/// The decision point of the gated loop.
///
/// It takes nothing and always answers `true`, so a loop that polls it runs
/// until a tool outside the process changes the answer. It is kept as a
/// function of its own, never inlined, so that such a tool can find it.
#[inline(never)]
pub fn should_continue() -> (keep_going: bool)
    ensures
        keep_going,
{
    true
}

/// What follows a turn of the loop.
#[derive(Clone, Copy, Debug, PartialEq, Eq, Structural)]
pub enum Next {
    /// Sleep for `pause_millis` milliseconds, then ask the decision point
    /// again.
    Poll { pause_millis: u64 },
    /// Leave the loop and end the process with `code`.
    Exit { code: i32 },
}

/// One turn of the loop: the line to print, and what follows.
#[derive(Debug)]
pub struct Turn {
    pub marker: String,
    pub next: Next,
}

/// The mathematical value of a [`Turn`].
pub struct TurnView {
    pub marker: Seq<char>,
    pub next: Next,
}

impl View for Turn {
    type V = TurnView;

    open spec fn view(&self) -> TurnView {
        TurnView { marker: self.marker@, next: self.next }
    }
}

/// The turn that an answer of the decision point calls for: on `true` the
/// liveness marker and a pause of 100 ms before the next poll, on `false`
/// the completion marker and a clean exit.
pub open spec fn turn_of(keep_going: bool) -> TurnView {
    if keep_going {
        TurnView { marker: "Running"@, next: Next::Poll { pause_millis: 100 } }
    } else {
        TurnView { marker: "Done"@, next: Next::Exit { code: 0 } }
    }
}

/// Decides one turn of the loop from what the decision point answered.
pub fn turn(keep_going: bool) -> (step: Turn)
    ensures
        step@ == turn_of(keep_going),
{
    if keep_going {
        Turn { marker: String::from_str("Running"), next: Next::Poll { pause_millis: 100 } }
    } else {
        Turn { marker: String::from_str("Done"), next: Next::Exit { code: 0 } }
    }
}

/// The turns that the loop takes when the decision point gives `answers`,
/// poll after poll: it stops at the first `false` and asks no more.
pub open spec fn turns(answers: Seq<bool>) -> Seq<TurnView>
    decreases answers.len(),
{
    if answers.len() == 0 {
        Seq::empty()
    } else if !answers[0] {
        seq![turn_of(false)]
    } else {
        seq![turn_of(true)] + turns(answers.drop_first())
    }
}

/// While the decision point answers `true` the loop prints its liveness
/// marker, pauses and polls again, and never exits. The first `false`, at
/// poll `first_false`, is seen by that very poll: the loop exits with code 0
/// and prints no liveness marker after it.
pub proof fn lemma_runs_until_told_to_stop(answers: Seq<bool>, first_false: int)
    requires
        0 <= first_false <= answers.len(),
        forall|i: int| 0 <= i < first_false ==> answers[i],
        first_false < answers.len() ==> !answers[first_false],
    ensures
        forall|i: int| 0 <= i < first_false ==> #[trigger] turns(answers)[i] == turn_of(true),
        first_false < answers.len() ==> turns(answers).len() == first_false + 1,
        first_false < answers.len() ==> turns(answers)[first_false] == turn_of(false),
        first_false == answers.len() ==> turns(answers).len() == answers.len(),
    decreases answers.len(),
{
    if answers.len() > 0 && answers[0] {
        let rest = answers.drop_first();
        assert forall|i: int| 0 <= i < first_false - 1 implies rest[i] by {
            assert(rest[i] == answers[i + 1]);
        }
        lemma_runs_until_told_to_stop(rest, first_false - 1);
        assert forall|i: int| 0 <= i < first_false implies #[trigger] turns(answers)[i] == turn_of(
            true,
        ) by {
            if i > 0 {
                assert(turns(answers)[i] == turns(rest)[i - 1]);
            }
        }
    }
}

} // verus!
