use asr33emu::domain::events::{
    ApplicationCommand, CommunicationMode, DataFlow, ThrottleMode, ThrottleOutput,
    TransportCommand, TransportEvent,
};
use asr33emu::domain::throttle::{DataThrottle, EnqueueOutcome, ThrottleConfig, ThrottleStep};
use asr33emu::domain::time::Duration;

fn emitted_data(step: ThrottleStep) -> Option<Vec<u8>> {
    match step {
        ThrottleStep::Output {
            output: ThrottleOutput::ToTransport(TransportCommand::Send(data)),
            ..
        }
        | ThrottleStep::Output {
            output: ThrottleOutput::ToApplication(data),
            ..
        } => Some(data),
        ThrottleStep::Dropped { data, .. } => Some(data),
        ThrottleStep::Idle | ThrottleStep::Wait { .. } => None,
    }
}

#[test]
fn tx_and_rx_have_independent_rates_and_timestamps() {
    let mut throttle = DataThrottle::new(
        ThrottleConfig {
            tx_rate_cps: 10,
            rx_rate_cps: 5,
            ..ThrottleConfig::default()
        },
        Duration::zero(),
    );
    assert_eq!(throttle.enqueue_tx(vec![b'T']), Ok(EnqueueOutcome::Queued));
    assert_eq!(throttle.enqueue_rx(vec![b'R']), Ok(EnqueueOutcome::Queued));

    assert_eq!(
        throttle.poll_tx(Duration::zero()),
        ThrottleStep::Wait {
            flow: DataFlow::Tx,
            duration: Duration::from_millis(100)
        }
    );
    assert_eq!(
        throttle.poll_rx(Duration::zero()),
        ThrottleStep::Wait {
            flow: DataFlow::Rx,
            duration: Duration::from_millis(200)
        }
    );
}

#[test]
fn disabling_throttle_mid_chunk_emits_remainder_whole() {
    let mut throttle = DataThrottle::new(ThrottleConfig::default(), Duration::zero());
    throttle
        .enqueue_tx(b"ABC".to_vec())
        .expect("queue has space");
    assert!(matches!(
        throttle.poll_tx(Duration::zero()),
        ThrottleStep::Wait { .. }
    ));
    assert_eq!(
        emitted_data(throttle.poll_tx(Duration::from_millis(100))),
        Some(b"A".to_vec())
    );
    throttle.set_throttle_mode(ThrottleMode::Unthrottled);
    assert_eq!(
        emitted_data(throttle.poll_tx(Duration::from_millis(100))),
        Some(b"BC".to_vec())
    );
}

#[test]
fn rate_change_mid_chunk_applies_to_next_chunk() {
    let mut throttle = DataThrottle::new(ThrottleConfig::default(), Duration::zero());
    throttle
        .enqueue_tx(b"AB".to_vec())
        .expect("queue has space");
    assert_eq!(
        throttle.poll_tx(Duration::zero()),
        ThrottleStep::Wait {
            flow: DataFlow::Tx,
            duration: Duration::from_millis(100),
        }
    );
    assert_eq!(
        emitted_data(throttle.poll_tx(Duration::from_millis(100))),
        Some(b"A".to_vec())
    );
    throttle.set_tx_rate(5);
    assert_eq!(
        throttle.poll_tx(Duration::from_millis(100)),
        ThrottleStep::Wait {
            flow: DataFlow::Tx,
            duration: Duration::from_millis(100)
        }
    );
}

#[test]
fn loopback_routes_tx_ignores_remote_rx_and_drops_stale_data_after_mode_change() {
    let mut throttle = DataThrottle::new(ThrottleConfig::default(), Duration::zero());
    throttle.set_throttle_mode(ThrottleMode::Unthrottled);
    throttle.set_communication_mode(CommunicationMode::Local);
    assert_eq!(
        throttle.enqueue_tx(b"LOCAL".to_vec()),
        Ok(EnqueueOutcome::Queued)
    );
    assert_eq!(
        throttle.handle_transport_event(TransportEvent::Received(b"REMOTE".to_vec())),
        Ok(EnqueueOutcome::IgnoredDuringLoopback)
    );
    assert_eq!(
        throttle.poll_loopback(Duration::zero()),
        ThrottleStep::Output {
            flow: DataFlow::Loopback,
            output: ThrottleOutput::ToApplication(b"LOCAL".to_vec())
        }
    );

    throttle
        .enqueue_tx(b"STALE".to_vec())
        .expect("queue has space");
    throttle.set_communication_mode(CommunicationMode::Line);
    assert_eq!(
        throttle.poll_loopback(Duration::zero()),
        ThrottleStep::Dropped {
            flow: DataFlow::Loopback,
            data: b"STALE".to_vec()
        }
    );
    assert_eq!(throttle.poll_rx(Duration::zero()), ThrottleStep::Idle);
}

#[test]
fn entering_local_mode_clears_stale_loopback_chunks() {
    let mut throttle = DataThrottle::new(ThrottleConfig::default(), Duration::zero());
    throttle.set_communication_mode(CommunicationMode::Local);
    throttle
        .enqueue_tx(b"STALE".to_vec())
        .expect("queue has space");
    throttle.set_communication_mode(CommunicationMode::Local);
    assert_eq!(throttle.poll_loopback(Duration::zero()), ThrottleStep::Idle);
}

#[test]
fn bounded_queues_report_backpressure_in_chunks_without_reordering() {
    let mut throttle = DataThrottle::new(
        ThrottleConfig {
            tx_queue_capacity: 2,
            rx_queue_capacity: 1,
            ..ThrottleConfig::default()
        },
        Duration::zero(),
    );
    assert_eq!(throttle.enqueue_tx(vec![1]), Ok(EnqueueOutcome::Queued));
    assert_eq!(throttle.enqueue_tx(vec![2, 3]), Ok(EnqueueOutcome::Queued));
    let error = throttle
        .enqueue_tx(vec![4])
        .expect_err("third chunk must backpressure");
    assert_eq!(error.backpressure.flow, DataFlow::Tx);
    assert_eq!(error.backpressure.capacity_chunks, 2);
    assert_eq!(error.data, vec![4]);

    throttle.set_throttle_mode(ThrottleMode::Unthrottled);
    assert_eq!(
        emitted_data(throttle.poll_tx(Duration::zero())),
        Some(vec![1])
    );
    assert_eq!(
        emitted_data(throttle.poll_tx(Duration::zero())),
        Some(vec![2, 3])
    );
}

#[test]
fn application_and_transport_contracts_drive_policy_without_callbacks() {
    let mut throttle = DataThrottle::new(ThrottleConfig::default(), Duration::zero());
    assert_eq!(
        throttle.handle_application_command(ApplicationCommand::SetThrottleMode(
            ThrottleMode::Unthrottled,
        )),
        Ok(EnqueueOutcome::Applied)
    );
    assert_eq!(
        throttle.handle_application_command(ApplicationCommand::Transmit(vec![0x41])),
        Ok(EnqueueOutcome::Queued)
    );
    assert_eq!(
        throttle.poll_tx(Duration::zero()),
        ThrottleStep::Output {
            flow: DataFlow::Tx,
            output: ThrottleOutput::ToTransport(TransportCommand::Send(vec![0x41]))
        }
    );
}

#[test]
fn paced_chunk_waits_one_character_time_between_bytes() {
    let mut throttle = DataThrottle::new(ThrottleConfig::default(), Duration::zero());
    throttle.enqueue_tx(b"HI".to_vec()).expect("queue has space");
    let mut now = Duration::zero();
    let mut waits = Vec::new();
    let mut emissions = Vec::new();
    loop {
        match throttle.poll_tx(now) {
            ThrottleStep::Idle => break,
            ThrottleStep::Wait { duration, .. } => {
                waits.push(duration.as_millis());
                now = now.saturating_add(duration);
            }
            other => emissions.push(emitted_data(other).expect("data")),
        }
    }
    assert_eq!(emissions, [b"H".to_vec(), b"I".to_vec()]);
    assert_eq!(waits, [100, 100]);
}
