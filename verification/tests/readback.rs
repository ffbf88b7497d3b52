use wgpu_crate::error::EngineError;
use wgpu_crate::readback::{Action, Event, MapSignal, Readback, Stage};

fn run(readback: &mut Readback, events: &[Event]) -> Vec<Action> {
    events.iter().map(|event| readback.step(*event)).collect()
}

#[test]
fn a_fresh_readback_waits_for_the_copy() {
    let readback = Readback::new(8192);
    assert_eq!(readback.stage, Stage::Encoding);
    assert_eq!(readback.expected, 8192);
}

#[test]
fn the_handshake_runs_in_order() {
    let mut readback = Readback::new(8192);
    let actions = run(
        &mut readback,
        &[
            Event::Encoded,
            Event::Submitted,
            Event::MapRequested,
            Event::Signal(MapSignal::Mapped),
            Event::Read(8192),
            Event::Unmapped,
        ],
    );
    assert_eq!(
        actions,
        vec![
            Action::Submit,
            Action::RequestMap,
            Action::Drive,
            Action::ReadMapped,
            Action::Unmap,
            Action::Finish,
        ]
    );
    assert_eq!(readback.stage, Stage::Finished);
}

#[test]
fn the_device_is_driven_until_it_answers() {
    let mut readback = Readback::new(16);
    run(&mut readback, &[Event::Encoded, Event::Submitted, Event::MapRequested]);
    for _ in 0..5 {
        assert_eq!(readback.step(Event::Signal(MapSignal::Pending)), Action::Drive);
        assert_eq!(readback.stage, Stage::Waiting);
    }
    assert_eq!(readback.step(Event::Signal(MapSignal::Mapped)), Action::ReadMapped);
}

#[test]
fn a_refused_copy_submits_nothing() {
    let mut readback = Readback::new(8192);
    let refused = Event::of_encoding(Err(EngineError::SizeMismatch));
    assert_eq!(refused, Event::Rejected(EngineError::SizeMismatch));
    assert_eq!(readback.step(refused), Action::Fail(EngineError::SizeMismatch));
    assert_eq!(readback.stage, Stage::Failed(EngineError::SizeMismatch));
    // Whatever is reported afterwards, nothing is asked of the device.
    for event in [
        Event::Encoded,
        Event::Submitted,
        Event::MapRequested,
        Event::Signal(MapSignal::Mapped),
        Event::Read(8192),
        Event::Unmapped,
        Event::DeviceRefused,
    ] {
        assert_eq!(readback.step(event), Action::Fail(EngineError::SizeMismatch));
    }
}

#[test]
fn a_recorded_copy_is_reported_as_encoded() {
    assert_eq!(Event::of_encoding(Ok(())), Event::Encoded);
}

#[test]
fn a_refused_mapping_fails_the_readback() {
    let mut readback = Readback::new(8192);
    run(&mut readback, &[Event::Encoded, Event::Submitted, Event::MapRequested]);
    assert_eq!(
        readback.step(Event::Signal(MapSignal::Refused)),
        Action::Fail(EngineError::ReadbackFailed)
    );
    assert_eq!(readback.stage, Stage::Failed(EngineError::ReadbackFailed));
}

#[test]
fn a_disconnected_channel_fails_the_readback() {
    let mut readback = Readback::new(8192);
    run(&mut readback, &[Event::Encoded, Event::Submitted, Event::MapRequested]);
    assert_eq!(
        readback.step(Event::Signal(MapSignal::Disconnected)),
        Action::Fail(EngineError::ReadbackFailed)
    );
}

#[test]
fn a_short_read_is_not_extracted() {
    let mut readback = Readback::new(8192);
    run(
        &mut readback,
        &[
            Event::Encoded,
            Event::Submitted,
            Event::MapRequested,
            Event::Signal(MapSignal::Mapped),
        ],
    );
    assert_eq!(readback.step(Event::Read(8184)), Action::Fail(EngineError::ReadbackFailed));
    assert_eq!(readback.step(Event::Unmapped), Action::Fail(EngineError::ReadbackFailed));
}

#[test]
fn a_refusal_by_the_device_is_a_device_error() {
    for done in 0..5usize {
        let mut readback = Readback::new(8);
        let path = [
            Event::Encoded,
            Event::Submitted,
            Event::MapRequested,
            Event::Signal(MapSignal::Mapped),
            Event::Read(8),
        ];
        run(&mut readback, &path[..done]);
        assert_eq!(
            readback.step(Event::DeviceRefused),
            Action::Fail(EngineError::DeviceResourceError)
        );
        assert_eq!(readback.stage, Stage::Failed(EngineError::DeviceResourceError));
    }
}

#[test]
fn a_report_out_of_turn_fails_the_readback() {
    // Reading before the device confirmed the mapping.
    let mut readback = Readback::new(8192);
    run(&mut readback, &[Event::Encoded, Event::Submitted, Event::MapRequested]);
    assert_eq!(readback.step(Event::Read(8192)), Action::Fail(EngineError::ReadbackFailed));
    // Requesting the mapping before the copy was submitted.
    let mut readback = Readback::new(8192);
    run(&mut readback, &[Event::Encoded]);
    assert_eq!(readback.step(Event::MapRequested), Action::Fail(EngineError::ReadbackFailed));
    // A signal before anything was recorded.
    let mut readback = Readback::new(8192);
    assert_eq!(
        readback.step(Event::Signal(MapSignal::Mapped)),
        Action::Fail(EngineError::ReadbackFailed)
    );
}

#[test]
fn a_finished_readback_asks_for_nothing_more() {
    let mut readback = Readback::new(8);
    run(
        &mut readback,
        &[
            Event::Encoded,
            Event::Submitted,
            Event::MapRequested,
            Event::Signal(MapSignal::Mapped),
            Event::Read(8),
            Event::Unmapped,
        ],
    );
    for event in [Event::Encoded, Event::Signal(MapSignal::Refused), Event::DeviceRefused] {
        assert_eq!(readback.step(event), Action::Finish);
        assert_eq!(readback.stage, Stage::Finished);
    }
}
