//! The responder's life: one start, three ways to end, and the race between
//! them.
//!
//! The timer, the listener and each handled request end the process on their
//! own and share no state. Whichever of them fires first decides how the
//! process ends; whatever fires later finds it ended and changes nothing.

use vstd::prelude::*;

verus! {

/// Something that ends the responder.
#[derive(Debug)]
pub enum Event {
    /// The startup timer ran out before any request was handled.
    TimerElapsed,
    /// The shutdown that a handled request scheduled has come to run.
    RequestHandled,
    /// The listener itself failed while serving; `detail` says how.
    ListenerFailed { detail: String },
}

/// Where the responder stands: running, or ended in one of three ways.
#[derive(Clone, Copy, Debug, PartialEq, Eq, Structural)]
pub enum Phase {
    Starting,
    ExitServed,
    ExitError,
    ExitTimeout,
}

/// The stream that a marker line is printed to.
#[derive(Clone, Copy, Debug, PartialEq, Eq, Structural)]
pub enum Console {
    Output,
    Error,
}

/// The end of the process: one marker line, then the exit code.
#[derive(Debug)]
pub struct Exit {
    pub marker: String,
    pub console: Console,
    pub code: i32,
}

/// The mathematical value of an [`Exit`].
pub struct ExitView {
    pub marker: Seq<char>,
    pub console: Console,
    pub code: i32,
}

impl View for Exit {
    type V = ExitView;

    open spec fn view(&self) -> ExitView {
        ExitView { marker: self.marker@, console: self.console, code: self.code }
    }
}

/// What [`react`] decides: the phase after the event and, if the event ends
/// the process, how.
#[derive(Debug)]
pub struct Reaction {
    pub next: Phase,
    pub exit: Option<Exit>,
}

/// The terminal phase that an event leads to when it is the first to fire.
pub open spec fn terminal_of(event: Event) -> Phase {
    match event {
        Event::TimerElapsed => Phase::ExitTimeout,
        Event::RequestHandled => Phase::ExitServed,
        Event::ListenerFailed { .. } => Phase::ExitError,
    }
}

/// The exit that an event causes when it is the first to fire. Only a
/// listener failure is reported on the error stream, with its detail after
/// the marker's fixed words.
pub open spec fn exit_of(event: Event) -> ExitView {
    match event {
        Event::TimerElapsed => ExitView {
            marker: "Exiting due to timeout"@,
            console: Console::Output,
            code: 2,
        },
        Event::RequestHandled => ExitView {
            marker: "Exiting after request"@,
            console: Console::Output,
            code: 0,
        },
        Event::ListenerFailed { detail } => ExitView {
            marker: "Exiting after server error: "@ + detail@,
            console: Console::Error,
            code: 1,
        },
    }
}

impl Phase {
    /// Whether the process has ended.
    pub open spec fn is_terminal(self) -> bool {
        self != Phase::Starting
    }

    /// The phase after `event`: the first event decides, and a terminal
    /// phase is never left.
    pub open spec fn after(self, event: Event) -> Phase {
        if self == Phase::Starting {
            terminal_of(event)
        } else {
            self
        }
    }

    /// The exit code that an observer of the process sees in this phase:
    /// none while it runs, then 0 for served, 1 for a listener failure and 2
    /// for the timeout.
    pub open spec fn code(self) -> Option<i32> {
        match self {
            Phase::Starting => None,
            Phase::ExitServed => Some(0i32),
            Phase::ExitError => Some(1i32),
            Phase::ExitTimeout => Some(2i32),
        }
    }

    /// The exit code of this phase, if the process has ended.
    pub fn exit_code(self) -> (code: Option<i32>)
        ensures
            code == self.code(),
            code is Some <==> self.is_terminal(),
    {
        match self {
            Phase::Starting => None,
            Phase::ExitServed => Some(0),
            Phase::ExitError => Some(1),
            Phase::ExitTimeout => Some(2),
        }
    }
}

/// The marker line and exit code with which `event` ends a running process.
pub fn exit_for(event: &Event) -> (exit: Exit)
    ensures
        exit@ == exit_of(*event),
        Some(exit.code) == terminal_of(*event).code(),
{
    match event {
        Event::TimerElapsed => Exit {
            marker: String::from_str("Exiting due to timeout"),
            console: Console::Output,
            code: 2,
        },
        Event::RequestHandled => Exit {
            marker: String::from_str("Exiting after request"),
            console: Console::Output,
            code: 0,
        },
        Event::ListenerFailed { detail } => Exit {
            marker: String::from_str("Exiting after server error: ").concat(detail.as_str()),
            console: Console::Error,
            code: 1,
        },
    }
}

/// Decides what an event does to a responder in `phase`.
///
/// A running responder ends at once, in the way the event calls for. One
/// that has ended stays as it is and nothing more is printed or exited:
/// no transition is retried, reversed or entered twice.
pub fn react(phase: Phase, event: &Event) -> (reaction: Reaction)
    ensures
        reaction.next == phase.after(*event),
        reaction.next.is_terminal(),
        phase == Phase::Starting ==> (reaction.exit matches Some(exit) && exit@ == exit_of(*event)
            && Some(exit.code) == reaction.next.code()),
        phase.is_terminal() ==> reaction.exit is None,
{
    match phase {
        Phase::Starting => {
            let next = match event {
                Event::TimerElapsed => Phase::ExitTimeout,
                Event::RequestHandled => Phase::ExitServed,
                Event::ListenerFailed { .. } => Phase::ExitError,
            };
            Reaction { next, exit: Some(exit_for(event)) }
        },
        _ => Reaction { next: phase, exit: None },
    }
}

/// The phase of a responder after a run of events, in the order in which
/// they fired.
pub open spec fn outcome(events: Seq<Event>) -> Phase
    decreases events.len(),
{
    if events.len() == 0 {
        Phase::Starting
    } else {
        outcome(events.drop_last()).after(events.last())
    }
}

/// A terminal phase is final: no event leads out of it, so the exit code
/// that an observer has seen never changes.
pub proof fn lemma_terminal_is_final(phase: Phase, event: Event)
    requires
        phase.is_terminal(),
    ensures
        phase.after(event) == phase,
        phase.after(event).code() == phase.code(),
{
}

/// Every event ends a running responder, each in its own way: the three
/// terminal phases and their exit codes 0, 1 and 2 correspond one to one.
pub proof fn lemma_one_code_per_ending(event: Event)
    ensures
        Phase::Starting.after(event).is_terminal(),
        Phase::Starting.after(event).code() == Some(exit_of(event).code),
        event is RequestHandled <==> exit_of(event).code == 0,
        event is ListenerFailed <==> exit_of(event).code == 1,
        event is TimerElapsed <==> exit_of(event).code == 2,
{
}

/// The first event wins the race: however many events fire, and in whatever
/// order, the process ends exactly once, in the way of the first.
pub proof fn lemma_first_event_decides(events: Seq<Event>)
    requires
        events.len() > 0,
    ensures
        outcome(events) == terminal_of(events[0]),
        outcome(events).is_terminal(),
        outcome(events).code() == Some(exit_of(events[0]).code),
    decreases events.len(),
{
    if events.len() == 1 {
        assert(events.drop_last().len() == 0);
        assert(outcome(events.drop_last()) == Phase::Starting);
    } else {
        lemma_first_event_decides(events.drop_last());
        assert(events.drop_last()[0] == events[0]);
    }
}

/// The process ends exactly once: before any event it runs, and from the
/// first event on, at every later moment, it stands in the one terminal
/// phase that the first event chose. Events that fire together with the
/// first, or after it, cause no second exit.
pub proof fn lemma_ends_exactly_once(events: Seq<Event>, fired: int)
    requires
        0 <= fired <= events.len(),
    ensures
        fired == 0 ==> outcome(events.take(fired)) == Phase::Starting,
        fired >= 1 ==> outcome(events.take(fired)) == terminal_of(events[0]),
        fired >= 1 ==> outcome(events.take(fired)) == outcome(events),
{
    if fired >= 1 {
        assert(events.take(fired)[0] == events[0]);
        lemma_first_event_decides(events.take(fired));
        lemma_first_event_decides(events);
    } else {
        assert(events.take(fired).len() == 0);
    }
}

} // verus!
