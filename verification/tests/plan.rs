use webrtc_sendrecv::error::{AppError, IoErrorKind, WebSocketError};
use webrtc_sendrecv::media::plan::{Plan, Verdict};
use webrtc_sendrecv::media::step::{consecutive_elements, Call, OnFailure, Step};
use webrtc_sendrecv::message::WsMessage;

fn link(on_failure: OnFailure, element: usize) -> Step {
    Step {
        call: Call::SyncState { element },
        on_failure,
    }
}

fn send(on_failure: OnFailure) -> Step {
    Step {
        call: Call::Send {
            message: WsMessage::Text("hi".to_string()),
        },
        on_failure,
    }
}

/// Hands results to a plan; returns the elements of the calls made and where the plan ends.
fn run(steps: Vec<Step>, results: Vec<Result<(), String>>) -> (Vec<usize>, Verdict) {
    let mut verdict = Plan::begin(steps);
    let mut made = Vec::new();
    for result in results {
        match verdict {
            Verdict::Continue(plan) => {
                match &plan.current().call {
                    Call::SyncState { element } => made.push(*element),
                    _ => made.push(99),
                }
                verdict = plan.advance(result);
            }
            end => return (made, end),
        }
    }
    (made, verdict)
}

#[test]
fn an_empty_plan_is_complete() {
    assert!(matches!(Plan::begin(vec![]), Verdict::Complete));
}

#[test]
fn a_run_makes_every_call_in_order() {
    let steps = vec![
        link(OnFailure::Abort, 1),
        link(OnFailure::Return, 2),
        link(OnFailure::Ignore, 3),
    ];
    let results = vec![Ok(()), Ok(()), Err("does not matter".to_string())];
    let (made, end) = run(steps, results);
    assert_eq!(made, vec![1, 2, 3]);
    assert!(matches!(end, Verdict::Complete));
}

#[test]
fn a_run_stops_at_a_failure_that_is_returned() {
    let steps = vec![
        link(OnFailure::Abort, 1),
        link(OnFailure::Return, 2),
        link(OnFailure::Abort, 3),
    ];
    let results = vec![Ok(()), Err("no link".to_string()), Ok(()), Ok(())];
    let (made, end) = run(steps, results);
    assert_eq!(made, vec![1, 2]);
    match end {
        Verdict::Failed(error) => assert_eq!(error, AppError::Media("no link".to_string())),
        _ => panic!("the run should have failed"),
    }
}

#[test]
fn a_run_aborts_where_a_call_is_required() {
    let steps = vec![link(OnFailure::Abort, 1), link(OnFailure::Abort, 2)];
    let (made, end) = run(steps, vec![Err("no plugin".to_string()), Ok(())]);
    assert_eq!(made, vec![1]);
    match end {
        Verdict::Abort(text) => assert_eq!(text, "no plugin"),
        _ => panic!("the run should have aborted"),
    }
}

#[test]
fn a_run_without_all_results_waits() {
    let steps = vec![link(OnFailure::Abort, 1), link(OnFailure::Abort, 2)];
    let (made, end) = run(steps, vec![Ok(())]);
    assert_eq!(made, vec![1]);
    match end {
        Verdict::Continue(plan) => assert_eq!(*plan.current(), link(OnFailure::Abort, 2)),
        _ => panic!("there is a step left"),
    }
}

#[test]
fn sending_fails_with_a_closed_connection() {
    let (_, end) = run(
        vec![send(OnFailure::Return)],
        vec![Err("receiver is gone".to_string())],
    );
    match end {
        Verdict::Failed(error) => assert_eq!(
            error,
            AppError::WebSocket(WebSocketError {
                kind: IoErrorKind::BrokenPipe,
                description: "Connection Closed".to_string(),
            })
        ),
        _ => panic!("sending should have failed"),
    }
    let (_, end) = run(
        vec![send(OnFailure::Return).ignoring_failure()],
        vec![Err("receiver is gone".to_string())],
    );
    assert!(matches!(end, Verdict::Complete));
    let (_, end) = run(
        vec![send(OnFailure::Return).required()],
        vec![Err("receiver is gone".to_string())],
    );
    assert!(matches!(end, Verdict::Abort(_)));
}

#[test]
fn element_numbers_are_consecutive() {
    assert_eq!(consecutive_elements(6, 3), vec![6, 7, 8]);
    assert_eq!(consecutive_elements(0, 0), Vec::<usize>::new());
}
