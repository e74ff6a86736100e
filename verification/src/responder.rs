//! The timeout-raced responder: what it does at startup and on each request.
//!
//! The functions here decide; the host performs. Each hands back the actions
//! to take, in the order in which they are to be taken.

use vstd::prelude::*;
use crate::lifecycle::{exit_of, outcome, terminal_of, Event, Phase, lemma_first_event_decides};
use crate::message::{arguments, debug_rendering, startup_message, startup_text, texts};
use crate::response::{respond, served_response, Response, ResponseView};

verus! {

/// An IPv4 address and a TCP port.
#[derive(Clone, Copy, Debug)]
pub struct Endpoint {
    pub octets: (u8, u8, u8, u8),
    pub port: u16,
}

/// One thing for the host to do.
#[derive(Debug)]
pub enum Action {
    /// Start a task of its own that sleeps for `millis` milliseconds and
    /// then reports [`Event::TimerElapsed`]. It is never cancelled.
    StartTimer { millis: u64 },
    /// Bind `endpoint` and serve requests on it without end. A failure of
    /// the listener is reported as [`Event::ListenerFailed`].
    Listen { endpoint: Endpoint },
    /// Start a task of its own that reports [`Event::RequestHandled`],
    /// without waiting for the response to reach the client.
    ScheduleShutdown,
    /// Hand `response` back as the answer to the request.
    Reply { response: Response },
}

/// The mathematical value of an [`Action`].
pub enum ActionView {
    StartTimer { millis: u64 },
    Listen { endpoint: Endpoint },
    ScheduleShutdown,
    Reply { response: ResponseView },
}

impl View for Action {
    type V = ActionView;

    open spec fn view(&self) -> ActionView {
        match *self {
            Action::StartTimer { millis } => ActionView::StartTimer { millis },
            Action::Listen { endpoint } => ActionView::Listen { endpoint },
            Action::ScheduleShutdown => ActionView::ScheduleShutdown,
            Action::Reply { response } => ActionView::Reply { response: response@ },
        }
    }
}

/// The values of a list of actions, in the list's order.
pub open spec fn plan(actions: Seq<Action>) -> Seq<ActionView> {
    actions.map_values(|a: Action| a@)
}

/// What the responder starts with: its message, and what to do next.
#[derive(Debug)]
pub struct Startup {
    pub message: String,
    pub actions: Vec<Action>,
}

/// The endpoint that the responder listens on: 127.0.0.1, port 3000.
pub open spec fn loopback() -> Endpoint {
    Endpoint { octets: (127u8, 0u8, 0u8, 1u8), port: 3000 }
}

/// The startup sequence after the message is captured: first the timer of
/// 2000 ms, then the listener.
pub open spec fn startup_plan() -> Seq<ActionView> {
    seq![
        ActionView::StartTimer { millis: 2000 },
        ActionView::Listen { endpoint: loopback() },
    ]
}

/// The handling of one request: first schedule the shutdown, then reply.
pub open spec fn request_plan(message: Seq<char>) -> Seq<ActionView> {
    seq![
        ActionView::ScheduleShutdown,
        ActionView::Reply { response: served_response(message) },
    ]
}

/// Starts the responder: captures the startup message from the invocation,
/// before anything touches the network, and lays out the rest of the
/// startup sequence.
pub fn startup(invocation: &Vec<String>) -> (start: Startup)
    ensures
        start.message@ == startup_text(texts(invocation@)),
        plan(start.actions@) == startup_plan(),
        start.actions@.len() == 2,
{
    let message = startup_message(invocation);
    let mut actions: Vec<Action> = Vec::new();
    actions.push(Action::StartTimer { millis: 2000 });
    actions.push(
        Action::Listen { endpoint: Endpoint { octets: (127, 0, 0, 1), port: 3000 } },
    );
    proof {
        assert(plan(actions@) =~= startup_plan());
    }
    Startup { message, actions }
}

/// Handles one request, whatever it asks for: the shutdown is scheduled
/// before the response is built and handed back, so the process may end
/// while the response is still on its way.
pub fn handle_request(message: &str) -> (actions: Vec<Action>)
    ensures
        plan(actions@) == request_plan(message@),
        actions@.len() == 2,
{
    let mut actions: Vec<Action> = Vec::new();
    actions.push(Action::ScheduleShutdown);
    actions.push(Action::Reply { response: respond(message) });
    proof {
        assert(plan(actions@) =~= request_plan(message@));
    }
    actions
}

/// A request that is handled before the timer runs out is answered with
/// status 200 and a body that is the rendering of all the arguments, and the
/// process then ends with exit code 0, whatever fires afterwards.
pub proof fn lemma_request_wins(invocation: Seq<Seq<char>>, later: Seq<Event>)
    ensures
        request_plan(startup_text(invocation))[1] == (ActionView::Reply {
            response: served_response(startup_text(invocation)),
        }),
        served_response(startup_text(invocation)).status == 200,
        served_response(startup_text(invocation)).body == debug_rendering(arguments(invocation)),
        outcome(seq![Event::RequestHandled] + later) == Phase::ExitServed,
        outcome(seq![Event::RequestHandled] + later).code() == Some(0i32),
{
    lemma_first_event_decides(seq![Event::RequestHandled] + later);
}

/// With no request handled, the timer that startup sets to 2000 ms ends the
/// process with exit code 2, whatever fires afterwards, and startup itself
/// sends no response.
pub proof fn lemma_timer_wins(later: Seq<Event>)
    ensures
        startup_plan()[0] == (ActionView::StartTimer { millis: 2000 }),
        forall|i: int| 0 <= i < startup_plan().len() ==> !(#[trigger] startup_plan()[i] is Reply),
        outcome(seq![Event::TimerElapsed] + later) == Phase::ExitTimeout,
        outcome(seq![Event::TimerElapsed] + later).code() == Some(2i32),
        exit_of(Event::TimerElapsed).code == 2,
        terminal_of(Event::TimerElapsed) == Phase::ExitTimeout,
{
    lemma_first_event_decides(seq![Event::TimerElapsed] + later);
}

} // verus!
