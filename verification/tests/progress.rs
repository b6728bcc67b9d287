use tls_session::http::RecordKind;
use tls_session::progress::{
    add_discard, begin_iteration, early_data_due, next_phase, plan_traffic, settle_discard, Action,
    Fault, Phase, Progress, SessionError, StateKind, TrafficPlan,
};

#[test]
fn traffic_is_used_for_request_then_response_then_close() {
    assert_eq!(plan_traffic(false, false), TrafficPlan::SendRequest);
    assert_eq!(plan_traffic(false, true), TrafficPlan::SendRequest);
    assert_eq!(plan_traffic(true, false), TrafficPlan::AwaitResponse);
    assert_eq!(plan_traffic(true, true), TrafficPlan::Close);
}

#[test]
fn blocked_handshake_reads_before_anything_else() {
    for sent in [false, true] {
        for received in [false, true] {
            assert_eq!(next_phase(StateKind::BlockedHandshake, sent, received), Ok(Phase::Receive));
        }
    }
    assert_eq!(Phase::Receive.to_action(), Action::Receive);
}

#[test]
fn each_state_has_its_phase() {
    assert_eq!(next_phase(StateKind::ReadTraffic, true, false), Ok(Phase::Ready));
    assert_eq!(next_phase(StateKind::EncodeTlsData, false, false), Ok(Phase::Ready));
    assert_eq!(next_phase(StateKind::TransmitTlsData, false, false), Ok(Phase::Transmit));
    assert_eq!(
        next_phase(StateKind::WriteTraffic, false, false),
        Ok(Phase::TransmitThenReceive)
    );
    assert_eq!(next_phase(StateKind::WriteTraffic, true, false), Ok(Phase::Receive));
    assert_eq!(next_phase(StateKind::WriteTraffic, true, true), Ok(Phase::TransmitThenClose));
    assert_eq!(next_phase(StateKind::Closed, true, true), Ok(Phase::Closed));
    assert_eq!(next_phase(StateKind::PeerClosed, true, true), Ok(Phase::Closed));
}

#[test]
fn records_of_the_engine_are_sent_whatever_was_achieved() {
    for sent in [false, true] {
        for received in [false, true] {
            assert_eq!(next_phase(StateKind::TransmitTlsData, sent, received), Ok(Phase::Transmit));
        }
    }
}

#[test]
fn discards_add_up_while_they_can_be_held() {
    assert_eq!(add_discard(0, 0), Ok(0));
    assert_eq!(add_discard(5, 7), Ok(12));
    assert_eq!(add_discard(usize::MAX - 1, 1), Ok(usize::MAX));
    assert_eq!(add_discard(usize::MAX, 0), Ok(usize::MAX));
    assert_eq!(add_discard(usize::MAX, 1), Err(Fault::DiscardOutOfRange));
    assert_eq!(add_discard(1, usize::MAX), Err(Fault::DiscardOutOfRange));
}

#[test]
fn a_discard_is_accepted_up_to_what_the_buffer_holds() {
    assert_eq!(settle_discard(0, 0), Ok(0));
    assert_eq!(settle_discard(0, 10), Ok(0));
    assert_eq!(settle_discard(7, 10), Ok(7));
    assert_eq!(settle_discard(10, 10), Ok(10));
    assert_eq!(settle_discard(11, 10), Err(Fault::DiscardOutOfRange));
    assert_eq!(settle_discard(1, 0), Err(Fault::DiscardOutOfRange));
}

#[test]
fn early_data_is_due_once_when_meant_and_offered() {
    assert!(early_data_due(true, false, true));
    assert!(!early_data_due(true, true, true));
    assert!(!early_data_due(true, false, false));
    assert!(!early_data_due(false, false, true));
    assert!(!early_data_due(false, true, true));
    assert!(!early_data_due(true, true, false));
    assert!(!early_data_due(false, false, false));
    assert!(!early_data_due(false, true, false));
}

#[test]
fn a_state_without_an_answer_is_a_fault() {
    assert_eq!(next_phase(StateKind::Unhandled, false, false), Err(Fault::UnhandledState));
    assert_eq!(next_phase(StateKind::Unhandled, true, true), Err(Fault::UnhandledState));
}

#[test]
fn each_phase_has_its_action() {
    assert_eq!(Phase::Ready.to_action(), Action::Continue);
    assert_eq!(Phase::Transmit.to_action(), Action::Transmit);
    assert_eq!(Phase::TransmitThenReceive.to_action(), Action::Transmit);
    assert_eq!(Phase::TransmitThenClose.to_action(), Action::Transmit);
    assert_eq!(Phase::Receive.to_action(), Action::Receive);
    assert_eq!(Phase::Closed.to_action(), Action::Finished);
    assert_eq!(Phase::Failed.to_action(), Action::Abandon);
}

#[test]
fn an_iteration_begins_while_the_count_is_below_the_limit() {
    assert_eq!(begin_iteration(0, 300), Ok(1));
    assert_eq!(begin_iteration(298, 300), Ok(299));
    assert_eq!(begin_iteration(299, 300), Ok(300));
    assert_eq!(begin_iteration(300, 300), Err(Fault::IterationLimit));
    assert_eq!(begin_iteration(301, 300), Err(Fault::IterationLimit));
    assert_eq!(begin_iteration(0, 0), Err(Fault::IterationLimit));
}

#[test]
fn the_limit_allows_as_many_iterations_as_it_says() {
    let max = 300;
    let mut count = 0;
    let mut iterations = 0;
    while let Ok(begun) = begin_iteration(count, max) {
        count = begun;
        iterations += 1;
        assert!(iterations <= max);
    }
    assert_eq!(iterations, 300);
    assert_eq!(count, 300);
}

#[test]
fn nothing_is_achieved_at_first() {
    let progress = Progress::new();
    assert!(!progress.sent_request());
    assert!(!progress.received_response());
    assert!(!progress.sent_early_data());
    assert_eq!(progress.status_line(), None);
}

#[test]
fn response_start_then_continuation() {
    let mut progress = Progress::new();
    let first = progress.record_observed(b"HTTP/1.1 200 OK\r\n...");
    assert!(matches!(first, Ok(RecordKind::ResponseStart)));
    assert!(progress.received_response());
    assert_eq!(progress.status_line(), Some(&b"HTTP/1.1 200 OK"[..]));
    let second = progress.record_observed(b"more body bytes");
    assert!(matches!(second, Ok(RecordKind::Continuation)));
    assert!(progress.received_response());
    assert_eq!(progress.status_line(), Some(&b"HTTP/1.1 200 OK"[..]));
}

#[test]
fn a_continuation_alone_counts_as_response() {
    let mut progress = Progress::new();
    let kind = progress.record_observed(b"\xff\xfe not text");
    assert!(matches!(kind, Ok(RecordKind::Continuation)));
    assert!(progress.received_response());
    assert_eq!(progress.status_line(), None);
}

#[test]
fn a_response_start_that_is_not_utf8_is_refused() {
    let mut progress = Progress::new();
    let result = progress.record_observed(b"HTTP/1.1 200 \xff\r\n");
    assert!(matches!(result, Err(SessionError::Utf8Error)));
    assert!(!progress.received_response());
    assert_eq!(progress.status_line(), None);
}

#[test]
fn a_later_response_start_replaces_the_status_line() {
    let mut progress = Progress::new();
    assert!(progress.record_observed(b"HTTP/1.1 100 Continue\r\n\r\n").is_ok());
    assert!(progress.record_observed(b"HTTP/1.1 200 OK\r\n\r\n").is_ok());
    assert_eq!(progress.status_line(), Some(&b"HTTP/1.1 200 OK"[..]));
}

#[test]
fn a_session_without_request_does_not_settle() {
    let progress = Progress::new();
    assert_eq!(progress.settle(false), Err(Fault::RequestNotSent));
    assert_eq!(progress.settle(true), Err(Fault::RequestNotSent));
}

#[test]
fn a_response_without_request_does_not_settle() {
    let mut progress = Progress::new();
    assert!(progress.record_observed(b"HTTP/1.1 200 OK\r\n").is_ok());
    assert_eq!(progress.settle(false), Err(Fault::RequestNotSent));
}
