use viasendraw::frame::build_frame;
use viasendraw::locate::{find_endpoint, locate_step, Endpoint, LocateAction, LocateEvent, Selector};
use viasendraw::response::ACCEPT_MARKER;
use viasendraw::transfer::{
    backoff_ms, transfer_step, TransferAction, TransferEvent, TransferPhase, TransferState,
    DEFAULT_DEADLINE_MS, READ_TIMEOUT_MS,
};

/// The 31 bytes that follow the marker in the frame built for `payload`.
fn sent_portion(payload: &[u8]) -> Vec<u8> {
    build_frame(payload)[1..].to_vec()
}

/// A full 32-byte response echoing `sent` behind the accept marker.
fn echo_response(sent: &[u8]) -> Vec<u8> {
    let mut response = vec![ACCEPT_MARKER];
    response.extend_from_slice(sent);
    response
}

#[test]
fn backoff_schedule_doubles_then_caps() {
    let schedule: Vec<u64> = (1..=6).map(backoff_ms).collect();
    assert_eq!(schedule, vec![50, 100, 200, 400, 800, 800]);
}

#[test]
fn immediate_echo_succeeds_on_first_attempt() {
    // Scenario: the selector matches exactly one enumerated endpoint, the
    // write succeeds, and the device echoes the payload on the first read.
    let selector =
        Selector { vendor_id: 0xcb00, product_id: 0x2006, usage_page: 0xff60, usage_id: 0x61 };
    let endpoints = vec![Endpoint {
        vendor_id: 0xcb00,
        product_id: 0x2006,
        usage_page: 0xff60,
        usage_id: 0x61,
    }];
    assert_eq!(find_endpoint(&endpoints, &selector), Some(0));
    assert_eq!(
        locate_step(&LocateEvent::Start, &endpoints, &selector),
        LocateAction::TryPathOpen { index: 0 }
    );

    let sent = sent_portion(b"hello");
    let mut st = TransferState::new();
    let a = transfer_step(&mut st, &TransferEvent::Tick { elapsed_ms: 0 }, DEFAULT_DEADLINE_MS, &sent);
    assert_eq!(a, TransferAction::WriteFrame);
    let a = transfer_step(&mut st, &TransferEvent::Wrote { ok: true }, DEFAULT_DEADLINE_MS, &sent);
    assert_eq!(a, TransferAction::ReadResponse);
    let response = echo_response(&sent);
    let a = transfer_step(
        &mut st,
        &TransferEvent::Received { response, bytes_read: 32, elapsed_ms: 5 },
        DEFAULT_DEADLINE_MS,
        &sent,
    );
    assert_eq!(a, TransferAction::Finish { success: true });
    assert_eq!(st.attempt, 1);
    assert_eq!(st.phase, TransferPhase::Finished);
    assert!(st.success);
}

#[test]
fn echo_on_third_attempt_succeeds_after_two_backoffs() {
    // Scenario: the first two reads return nothing; the third echoes the
    // payload. The loop sleeps 50 ms and then 100 ms in between.
    let sent = sent_portion(b"hello");
    let mut st = TransferState::new();
    let mut elapsed: u64 = 0;
    let mut backoffs: Vec<u64> = Vec::new();
    let mut action =
        transfer_step(&mut st, &TransferEvent::Tick { elapsed_ms: elapsed }, DEFAULT_DEADLINE_MS, &sent);
    let success = loop {
        match action {
            TransferAction::WriteFrame => {
                action = transfer_step(
                    &mut st,
                    &TransferEvent::Wrote { ok: true },
                    DEFAULT_DEADLINE_MS,
                    &sent,
                );
            }
            TransferAction::ReadResponse => {
                let (response, bytes_read) = if st.attempt >= 3 {
                    (echo_response(&sent), 32)
                } else {
                    elapsed += READ_TIMEOUT_MS;
                    (vec![0u8; 32], 0)
                };
                action = transfer_step(
                    &mut st,
                    &TransferEvent::Received { response, bytes_read, elapsed_ms: elapsed },
                    DEFAULT_DEADLINE_MS,
                    &sent,
                );
            }
            TransferAction::Backoff { ms } => {
                backoffs.push(ms);
                elapsed += ms;
                action = transfer_step(
                    &mut st,
                    &TransferEvent::Tick { elapsed_ms: elapsed },
                    DEFAULT_DEADLINE_MS,
                    &sent,
                );
            }
            TransferAction::Retry => {
                action = transfer_step(
                    &mut st,
                    &TransferEvent::Tick { elapsed_ms: elapsed },
                    DEFAULT_DEADLINE_MS,
                    &sent,
                );
            }
            TransferAction::Finish { success } => break success,
        }
    };
    assert!(success);
    assert_eq!(st.attempt, 3);
    assert_eq!(backoffs, vec![50, 100]);
}

#[test]
fn unresponsive_device_fails_within_one_timeout_past_deadline() {
    // Scenario: no read ever returns a matching response; the loop must end
    // unsuccessfully, no earlier than the deadline and no later than one
    // per-attempt timeout past it.
    let sent = sent_portion(b"hello");
    let mut st = TransferState::new();
    let mut elapsed: u64 = 0;
    let mut action =
        transfer_step(&mut st, &TransferEvent::Tick { elapsed_ms: elapsed }, DEFAULT_DEADLINE_MS, &sent);
    let success = loop {
        match action {
            TransferAction::WriteFrame => {
                action = transfer_step(
                    &mut st,
                    &TransferEvent::Wrote { ok: true },
                    DEFAULT_DEADLINE_MS,
                    &sent,
                );
            }
            TransferAction::ReadResponse => {
                elapsed += READ_TIMEOUT_MS;
                action = transfer_step(
                    &mut st,
                    &TransferEvent::Received {
                        response: vec![0u8; 32],
                        bytes_read: 0,
                        elapsed_ms: elapsed,
                    },
                    DEFAULT_DEADLINE_MS,
                    &sent,
                );
            }
            TransferAction::Backoff { ms } => {
                elapsed += ms;
                action = transfer_step(
                    &mut st,
                    &TransferEvent::Tick { elapsed_ms: elapsed },
                    DEFAULT_DEADLINE_MS,
                    &sent,
                );
            }
            TransferAction::Retry => {
                action = transfer_step(
                    &mut st,
                    &TransferEvent::Tick { elapsed_ms: elapsed },
                    DEFAULT_DEADLINE_MS,
                    &sent,
                );
            }
            TransferAction::Finish { success } => break success,
        }
    };
    assert!(!success);
    assert!(st.attempt >= 1);
    assert!(elapsed >= DEFAULT_DEADLINE_MS);
    assert!(elapsed <= DEFAULT_DEADLINE_MS + READ_TIMEOUT_MS);
}

#[test]
fn failed_write_retries_at_once_without_backoff() {
    let sent = sent_portion(b"hello");
    let mut st = TransferState::new();
    let a = transfer_step(&mut st, &TransferEvent::Tick { elapsed_ms: 0 }, DEFAULT_DEADLINE_MS, &sent);
    assert_eq!(a, TransferAction::WriteFrame);
    let a = transfer_step(&mut st, &TransferEvent::Wrote { ok: false }, DEFAULT_DEADLINE_MS, &sent);
    assert_eq!(a, TransferAction::Retry);
    let a = transfer_step(&mut st, &TransferEvent::Tick { elapsed_ms: 1 }, DEFAULT_DEADLINE_MS, &sent);
    assert_eq!(a, TransferAction::WriteFrame);
    assert_eq!(st.attempt, 2);
}

#[test]
fn mismatched_echo_is_retried_with_backoff() {
    let sent = sent_portion(b"hello");
    let mut st = TransferState::new();
    transfer_step(&mut st, &TransferEvent::Tick { elapsed_ms: 0 }, DEFAULT_DEADLINE_MS, &sent);
    transfer_step(&mut st, &TransferEvent::Wrote { ok: true }, DEFAULT_DEADLINE_MS, &sent);
    let response = echo_response(&sent_portion(b"other"));
    let a = transfer_step(
        &mut st,
        &TransferEvent::Received { response, bytes_read: 32, elapsed_ms: 10 },
        DEFAULT_DEADLINE_MS,
        &sent,
    );
    assert_eq!(a, TransferAction::Backoff { ms: 50 });
    assert_eq!(st.phase, TransferPhase::Idle);
}
