use fixtures::lifecycle::{exit_for, react, Console, Event, Phase};

#[test]
fn timer_ends_a_running_responder_with_code_2() {
    let reaction = react(Phase::Starting, &Event::TimerElapsed);
    assert_eq!(reaction.next, Phase::ExitTimeout);
    let exit = reaction.exit.expect("a running responder ends");
    assert_eq!(exit.marker, "Exiting due to timeout");
    assert_eq!(exit.console, Console::Output);
    assert_eq!(exit.code, 2);
}

#[test]
fn handled_request_ends_a_running_responder_with_code_0() {
    let reaction = react(Phase::Starting, &Event::RequestHandled);
    assert_eq!(reaction.next, Phase::ExitServed);
    let exit = reaction.exit.expect("a running responder ends");
    assert_eq!(exit.marker, "Exiting after request");
    assert_eq!(exit.console, Console::Output);
    assert_eq!(exit.code, 0);
}

#[test]
fn listener_failure_ends_a_running_responder_with_code_1() {
    let event = Event::ListenerFailed { detail: "address in use".to_string() };
    let reaction = react(Phase::Starting, &event);
    assert_eq!(reaction.next, Phase::ExitError);
    let exit = reaction.exit.expect("a running responder ends");
    assert_eq!(exit.marker, "Exiting after server error: address in use");
    assert_eq!(exit.console, Console::Error);
    assert_eq!(exit.code, 1);
}

#[test]
fn listener_failure_with_empty_detail_keeps_the_fixed_words() {
    let exit = exit_for(&Event::ListenerFailed { detail: String::new() });
    assert_eq!(exit.marker, "Exiting after server error: ");
    assert_eq!(exit.code, 1);
}

#[test]
fn exit_for_matches_each_event() {
    assert_eq!(exit_for(&Event::TimerElapsed).code, 2);
    assert_eq!(exit_for(&Event::RequestHandled).code, 0);
    assert_eq!(exit_for(&Event::ListenerFailed { detail: "x".to_string() }).code, 1);
}

#[test]
fn exit_codes_of_the_phases() {
    assert_eq!(Phase::Starting.exit_code(), None);
    assert_eq!(Phase::ExitServed.exit_code(), Some(0));
    assert_eq!(Phase::ExitError.exit_code(), Some(1));
    assert_eq!(Phase::ExitTimeout.exit_code(), Some(2));
}

#[test]
fn an_ended_responder_stays_as_it_is() {
    let ended = [Phase::ExitServed, Phase::ExitError, Phase::ExitTimeout];
    for phase in ended {
        let events = [
            Event::TimerElapsed,
            Event::RequestHandled,
            Event::ListenerFailed { detail: "late".to_string() },
        ];
        for event in events.iter() {
            let reaction = react(phase, event);
            assert_eq!(reaction.next, phase);
            assert!(reaction.exit.is_none());
        }
    }
}

#[test]
fn two_concurrent_requests_exit_once() {
    let first = react(Phase::Starting, &Event::RequestHandled);
    assert_eq!(first.next, Phase::ExitServed);
    assert!(first.exit.is_some());
    let second = react(first.next, &Event::RequestHandled);
    assert_eq!(second.next, Phase::ExitServed);
    assert!(second.exit.is_none());
    assert_eq!(second.next.exit_code(), Some(0));
}

#[test]
fn the_first_event_decides_the_exit_code() {
    let runs: Vec<(Vec<Event>, i32)> = vec![
        (vec![Event::TimerElapsed, Event::RequestHandled], 2),
        (vec![Event::RequestHandled, Event::TimerElapsed], 0),
        (
            vec![
                Event::ListenerFailed { detail: "reset".to_string() },
                Event::RequestHandled,
                Event::TimerElapsed,
            ],
            1,
        ),
    ];
    for (events, code) in runs {
        let mut phase = Phase::Starting;
        let mut exits: u32 = 0;
        for event in events.iter() {
            let reaction = react(phase, event);
            if reaction.exit.is_some() {
                exits += 1;
            }
            phase = reaction.next;
        }
        assert_eq!(exits, 1);
        assert_eq!(phase.exit_code(), Some(code));
    }
}
