use twizzler_core::callback_queue::Action;
use twizzler_core::callback_queue::CallbackQueueReceiver;
use twizzler_core::callback_queue::Event;
use twizzler_core::callback_queue::HandleState;

type Ev = Event<u64, i32, &'static str>;
type Act = Action<u64, i32, &'static str>;

fn is_receive(a: &Option<Act>) -> bool {
    matches!(a, Some(Action::Receive))
}

fn finished_with(a: &Option<Act>) -> Option<Result<(), &'static str>> {
    match a {
        Some(Action::Finish { result }) => Some(*result),
        _ => None,
    }
}

#[test]
fn a_request_is_received_answered_and_completed() {
    let mut r = CallbackQueueReceiver::new();
    assert_eq!(r.state(), HandleState::Idle);
    assert!(is_receive(&r.handle::<u64, i32, &'static str>(Event::Start)));
    assert_eq!(r.state(), HandleState::Receiving);
    match r.handle::<u64, i32, &'static str>(Event::Received { id: 7, item: 99 }) {
        Some(Action::Call { id, item }) => {
            assert_eq!(id, 7);
            assert_eq!(item, 99);
        }
        _ => panic!("the callback is due"),
    }
    assert_eq!(r.state(), HandleState::Calling { id: 7 });
    match r.handle::<u64, i32, &'static str>(Event::Called { reply: -5 }) {
        Some(Action::Complete { id, reply }) => {
            assert_eq!(id, 7);
            assert_eq!(reply, -5);
        }
        _ => panic!("the reply is due"),
    }
    assert_eq!(r.state(), HandleState::Completing);
    let end = r.handle::<u64, i32, &'static str>(Event::Completed);
    assert_eq!(finished_with(&end), Some(Ok(())));
    assert_eq!(r.state(), HandleState::Finished);
}

#[test]
fn an_error_of_the_queue_ends_the_handling() {
    let mut r = CallbackQueueReceiver::new();
    let _: Option<Act> = r.handle(Event::Start);
    let end: Option<Act> = r.handle(Event::ReceiveFailed { error: "would block" });
    assert_eq!(finished_with(&end), Some(Err("would block")));
    assert_eq!(r.state(), HandleState::Finished);

    let mut r = CallbackQueueReceiver::new();
    let _: Option<Act> = r.handle(Event::Start);
    let _: Option<Act> = r.handle(Event::Received { id: 1, item: 2 });
    let _: Option<Act> = r.handle(Event::Called { reply: 3 });
    let end: Option<Act> = r.handle(Event::CompleteFailed { error: "unknown" });
    assert_eq!(finished_with(&end), Some(Err("unknown")));
    assert_eq!(r.state(), HandleState::Finished);
}

#[test]
fn the_next_request_can_be_handled_after_the_last() {
    let mut r = CallbackQueueReceiver::new();
    for id in [3u32, 4, u32::MAX] {
        assert!(is_receive(&r.handle::<u64, i32, &'static str>(Event::Start)));
        let _: Option<Act> = r.handle(Event::Received { id, item: 0 });
        match r.handle::<u64, i32, &'static str>(Event::Called { reply: 1 }) {
            Some(Action::Complete { id: got, .. }) => assert_eq!(got, id),
            _ => panic!("the reply is due"),
        }
        let end: Option<Act> = r.handle(Event::Completed);
        assert_eq!(finished_with(&end), Some(Ok(())));
    }
}

#[test]
fn an_event_out_of_turn_changes_nothing() {
    let events: Vec<fn() -> Ev> = vec![
        || Event::Start,
        || Event::Received { id: 1, item: 1 },
        || Event::ReceiveFailed { error: "e" },
        || Event::Called { reply: 1 },
        || Event::Completed,
        || Event::CompleteFailed { error: "e" },
    ];
    // For each state, the indices of the events above that are in turn.
    let states: Vec<(Vec<Ev>, HandleState, Vec<usize>)> = vec![
        (vec![], HandleState::Idle, vec![0]),
        (vec![Event::Start], HandleState::Receiving, vec![1, 2]),
        (
            vec![Event::Start, Event::Received { id: 9, item: 1 }],
            HandleState::Calling { id: 9 },
            vec![3],
        ),
        (
            vec![Event::Start, Event::Received { id: 9, item: 1 }, Event::Called { reply: 0 }],
            HandleState::Completing,
            vec![4, 5],
        ),
        (
            vec![Event::Start, Event::ReceiveFailed { error: "e" }],
            HandleState::Finished,
            vec![0],
        ),
    ];
    for (prefix, state, in_turn) in states {
        for (i, event) in events.iter().enumerate() {
            let mut r = CallbackQueueReceiver::new();
            for e in prefix.iter() {
                let e: Ev = match e {
                    Event::Start => Event::Start,
                    Event::Received { id, item } => Event::Received { id: *id, item: *item },
                    Event::ReceiveFailed { error } => Event::ReceiveFailed { error: *error },
                    Event::Called { reply } => Event::Called { reply: *reply },
                    Event::Completed => Event::Completed,
                    Event::CompleteFailed { error } => Event::CompleteFailed { error: *error },
                };
                assert!(r.handle(e).is_some());
            }
            assert_eq!(r.state(), state);
            let answer = r.handle(event());
            assert_eq!(answer.is_some(), in_turn.contains(&i));
            if answer.is_none() {
                assert_eq!(r.state(), state);
            }
        }
    }
}
