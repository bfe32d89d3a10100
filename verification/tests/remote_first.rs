use rgb_lightning_node::io_error::{IoError, IoErrorKind};
use rgb_lightning_node::remote_first::{
    after_remote_first, bp_route, read_step, BpRoute, MirrorStep, ReadStep, RetryState, RetryStep,
    RETRY_INITIAL_DELAY_MS, RETRY_MAX_DELAY_MS,
};

fn err(kind: IoErrorKind) -> IoError {
    IoError { kind, message: "e".to_string() }
}

#[test]
fn backoff_doubles_up_to_cap() {
    let mut state = RetryState::new();
    assert_eq!(state.delay_ms(), RETRY_INITIAL_DELAY_MS);
    let mut delays = Vec::new();
    for _ in 0..7 {
        match state.on_result(Err(err(IoErrorKind::Other)), true) {
            RetryStep::Retry { delay_ms, error } => {
                assert_eq!(error, err(IoErrorKind::Other));
                delays.push(delay_ms);
            }
            other => panic!("unexpected {other:?}"),
        }
    }
    assert_eq!(delays, vec![500, 1000, 2000, 4000, 8000, 10000, 10000]);
    assert_eq!(state.attempts(), 7);
    assert_eq!(state.delay_ms(), RETRY_MAX_DELAY_MS);
    assert_eq!(state.on_result(Ok(()), false), RetryStep::Done(Ok(())));
}

#[test]
fn permanent_failure_ends_retry() {
    let mut state = RetryState::new();
    assert_eq!(
        state.on_result(Err(err(IoErrorKind::Other)), false),
        RetryStep::Done(Err(err(IoErrorKind::Other)))
    );
    assert_eq!(state.attempts(), 0);
}

#[test]
fn reads_fall_back_to_remote_only_when_missing() {
    assert_eq!(read_step(Ok(vec![1]), true), ReadStep::Done(Ok(vec![1])));
    assert_eq!(read_step(Err(err(IoErrorKind::NotFound)), true), ReadStep::ReadRemote);
    assert_eq!(
        read_step(Err(err(IoErrorKind::NotFound)), false),
        ReadStep::Done(Err(err(IoErrorKind::NotFound)))
    );
    assert_eq!(read_step(Err(err(IoErrorKind::Other)), true), ReadStep::Done(Err(err(IoErrorKind::Other))));
}

#[test]
fn remote_failure_fails_remote_first_write() {
    assert_eq!(after_remote_first(Ok(())), MirrorStep::Mirror);
    assert_eq!(after_remote_first(Err(err(IoErrorKind::Other))), MirrorStep::Fail(err(IoErrorKind::Other)));
}

#[test]
fn background_processor_routes() {
    assert_eq!(bp_route("", "", "manager"), BpRoute::RemoteFirst);
    assert_eq!(bp_route("", "", "output_sweeper"), BpRoute::RemoteFirst);
    assert_eq!(bp_route("", "", "network_graph"), BpRoute::LocalOnly);
    assert_eq!(bp_route("", "", "scorer"), BpRoute::LocalOnly);
    assert_eq!(bp_route("monitors", "", "manager"), BpRoute::Rest);
    assert_eq!(bp_route("", "", "managers"), BpRoute::Rest);
    assert_eq!(bp_route("", "x", "scorer"), BpRoute::Rest);
}
