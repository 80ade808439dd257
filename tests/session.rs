use tick_feed::session::{
    identify_message, FrameKind, FrameOutcome, OutgoingMessage, Phase, Session, SessionAction,
    StartError,
};
use tick_feed::tick::TickMessage;

fn connected() -> Session {
    let mut s = Session::new();
    s.start().unwrap();
    let actions = s.on_handshake(true);
    assert_eq!(
        actions,
        vec![SessionAction::EmitConnected, SessionAction::SendIdentify, SessionAction::StartReporter]
    );
    s
}

fn tick(ts: u64) -> TickMessage {
    TickMessage::new("ETH".to_string(), 3000.5f64.to_bits(), ts)
}

#[test]
fn refused_handshake_reports_one_error() {
    let mut s = Session::new();
    assert_eq!(s.start(), Ok(()));
    assert!(s.is_connected());
    assert_eq!(s.on_handshake(false), vec![SessionAction::EmitError]);
    assert!(!s.is_connected());
    assert_eq!(s.phase, Phase::Errored);
    assert_eq!(s.state.total_messages, 0);
    assert_eq!(s.finish(), vec![]);
    assert_eq!(s.on_frame(FrameKind::Text), FrameOutcome::Skip);
    assert_eq!(s.state.total_messages, 0);
}

#[test]
fn text_stream_of_2500_then_end() {
    let mut s = connected();
    let mut sampled = Vec::new();
    for i in 0..2500u64 {
        if s.on_frame(FrameKind::Text) == FrameOutcome::Decode {
            sampled.push(i);
            s.on_decoded(Some(tick(1_000)), 1_010);
        }
    }
    assert_eq!(s.state.total_messages, 2500);
    assert_eq!(sampled, vec![0, 1000, 2000]);
    assert_eq!(s.state.latency_count, 3);
    assert_eq!(s.state.latency_sum_ms, 30);
    assert_eq!(
        s.finish(),
        vec![SessionAction::StopReporter, SessionAction::EmitDisconnected]
    );
    assert_eq!(s.phase, Phase::Disconnected);
    assert!(!s.is_connected());
    assert_eq!(s.finish(), vec![]);
}

#[test]
fn count_ignores_decode_failures() {
    let mut s = connected();
    for i in 0..1234u64 {
        let kind = if i % 2 == 0 { FrameKind::Text } else { FrameKind::Binary };
        if s.on_frame(kind) == FrameOutcome::Decode {
            s.on_decoded(None, 5);
        }
    }
    assert_eq!(s.state.total_messages, 1234);
    assert_eq!(s.state.latency_count, 0);
}

#[test]
fn control_frames_are_not_counted() {
    let mut s = connected();
    assert_eq!(s.on_frame(FrameKind::Other), FrameOutcome::Skip);
    assert_eq!(s.state.total_messages, 0);
    assert_eq!(s.on_frame(FrameKind::Text), FrameOutcome::Decode);
    assert_eq!(s.on_frame(FrameKind::Text), FrameOutcome::Skip);
    assert_eq!(s.state.total_messages, 2);
}

#[test]
fn binary_frames_are_decoded_on_boundaries() {
    let mut s = connected();
    let mut frame = Vec::new();
    frame.extend_from_slice(&1u32.to_le_bytes());
    frame.extend_from_slice(&3000.5f64.to_le_bytes());
    frame.extend_from_slice(&900i64.to_le_bytes());
    assert_eq!(s.on_binary_frame(&frame, 1_000), FrameOutcome::Decode);
    assert_eq!(s.on_binary_frame(&frame, 1_000), FrameOutcome::Skip);
    assert_eq!(s.state.total_messages, 2);
    assert_eq!(s.state.latency_sum_ms, 100);
    assert_eq!(s.state.latency_count, 1);
    assert_eq!(s.state.last_tick, Some(tick(900)));
    assert_eq!(s.on_binary_frame(&frame[..10], 1_000), FrameOutcome::Skip);
    assert_eq!(s.state.total_messages, 3);
}

#[test]
fn reset_metrics_keeps_session_running() {
    let mut s = connected();
    s.on_frame(FrameKind::Text);
    s.on_decoded(Some(tick(1)), 2);
    s.on_frame(FrameKind::Binary);
    s.reset_metrics();
    assert!(s.is_connected());
    assert_eq!(s.phase, Phase::Connected);
    assert_eq!(s.state.total_messages, 0);
    assert_eq!(s.state.messages_this_second, 0);
    assert_eq!(s.state.latency_sum_ms, 0);
    assert_eq!(s.state.latency_count, 0);
    assert_eq!(s.state.last_tick, None);
}

#[test]
fn start_while_running_fails() {
    let mut s = connected();
    s.on_frame(FrameKind::Text);
    let e = s.start().unwrap_err();
    assert_eq!(e, StartError::AlreadyConnected);
    assert_eq!(e.message(), "Already connected");
    assert_eq!(s.state.total_messages, 1);
    assert_eq!(s.phase, Phase::Connected);
}

#[test]
fn restart_zeroes_counters() {
    let mut s = connected();
    s.on_frame(FrameKind::Text);
    s.stop();
    assert!(!s.is_connected());
    s.finish();
    assert_eq!(s.start(), Ok(()));
    assert_eq!(s.phase, Phase::Connecting);
    assert_eq!(s.state.total_messages, 0);
}

#[test]
fn stop_ends_reading() {
    let mut s = connected();
    s.stop();
    assert_eq!(s.on_frame(FrameKind::Text), FrameOutcome::Skip);
    assert_eq!(s.state.total_messages, 0);
    assert!(s.reporter_tick().is_none());
    assert_eq!(
        s.finish(),
        vec![SessionAction::StopReporter, SessionAction::EmitDisconnected]
    );
}

#[test]
fn reporter_tick_reports_and_resets_interval() {
    let mut s = connected();
    for _ in 0..3 {
        s.on_frame(FrameKind::Text);
    }
    s.on_decoded(Some(tick(100)), 160);
    let r = s.reporter_tick().unwrap();
    assert_eq!(r.metrics.messages_per_sec, 3);
    assert_eq!(r.metrics.total_messages, 3);
    assert_eq!(r.metrics.latency_sum_ms, 60);
    assert_eq!(r.metrics.latency_count, 1);
    assert_eq!(r.metrics.last_tick, Some(tick(100)));
    match r.stats {
        OutgoingMessage::Stats {
            client_id,
            messages_per_sec,
            total_messages,
            latency_sum_ms,
            latency_count,
        } => {
            assert_eq!(client_id, "tauri-rust");
            assert_eq!(messages_per_sec, 3);
            assert_eq!(total_messages, 3);
            assert_eq!(latency_sum_ms, 60);
            assert_eq!(latency_count, 1);
        }
        OutgoingMessage::Identify { .. } => panic!("expected stats"),
    }
    let r2 = s.reporter_tick().unwrap();
    assert_eq!(r2.metrics.messages_per_sec, 0);
    assert_eq!(r2.metrics.total_messages, 3);
    assert_eq!(r2.metrics.latency_count, 0);
}

#[test]
fn identify_carries_client_id() {
    match identify_message() {
        OutgoingMessage::Identify { client_id } => assert_eq!(client_id, "tauri-rust"),
        OutgoingMessage::Stats { .. } => panic!("expected identify"),
    }
}

#[test]
fn handshake_outside_connecting_is_ignored() {
    let mut s = Session::new();
    assert_eq!(s.on_handshake(true), vec![]);
    assert_eq!(s.phase, Phase::Idle);
    assert!(!s.is_connected());
}
