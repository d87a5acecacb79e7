use linkcast::record::Data;
use linkcast::registry::{InterfaceRegistry, UnknownInterfaceId};
use linkcast::session::{
    find_device, request_stream, CaptureSession, CloseReason, SessionAction, SessionEvent,
    SessionState, CHANNEL_CAPACITY,
};

fn listing() -> Vec<String> {
    vec![String::from("lo"), String::from("eth0"), String::from("eth1"), String::from("eth0")]
}

fn arp_frame(last_source_octet: u8, tag: Option<u16>) -> Vec<u8> {
    let mut frame = vec![0x02, 0, 0, 0, 0, 0x01, 0x02, 0, 0, 0, 0, last_source_octet];
    if let Some(id) = tag {
        frame.extend_from_slice(&[0x81, 0x00, (id >> 8) as u8, (id & 0xFF) as u8]);
    }
    frame.extend_from_slice(&[0x08, 0x06, 0, 1]);
    frame
}

fn arp_record(last_source_octet: u8, vlan: Option<u16>) -> Data {
    Data {
        src: format!("02:00:00:00:00:{:02X}", last_source_octet),
        dst: String::from("02:00:00:00:00:01"),
        vlan,
    }
}

fn running_session() -> CaptureSession {
    let mut session = CaptureSession::new(String::from("eth0"));
    assert_eq!(
        session.step(SessionEvent::DevicesListed(listing())),
        SessionAction::OpenDevice { index: 1, promiscuous: true, immediate: true }
    );
    assert_eq!(session.step(SessionEvent::DeviceOpened), SessionAction::PullFrame);
    assert_eq!(session.state(), SessionState::Running);
    session
}

fn feed(session: &mut CaptureSession, frames: Vec<Vec<u8>>) -> Vec<Data> {
    let mut delivered = Vec::new();
    for frame in frames {
        match session.step(SessionEvent::FrameCaptured(frame)) {
            SessionAction::Enqueue(record) => {
                delivered.push(record);
                assert_eq!(session.step(SessionEvent::RecordEnqueued), SessionAction::PullFrame);
            }
            other => assert_eq!(other, SessionAction::PullFrame),
        }
    }
    delivered
}

#[test]
fn channel_holds_fifteen_records() {
    assert_eq!(CHANNEL_CAPACITY, 15);
}

#[test]
fn find_device_gives_the_first_match() {
    assert_eq!(find_device(&listing(), &String::from("eth0")), Some(1));
    assert_eq!(find_device(&listing(), &String::from("lo")), Some(0));
    assert_eq!(find_device(&listing(), &String::from("eth1")), Some(2));
}

#[test]
fn find_device_reports_a_missing_name() {
    assert_eq!(find_device(&listing(), &String::from("eth2")), None);
    assert_eq!(find_device(&listing(), &String::from("ETH0")), None);
    assert_eq!(find_device(&Vec::new(), &String::from("lo")), None);
}

#[test]
fn request_for_a_known_identifier_starts_a_session() {
    let registry = InterfaceRegistry::from_names(&listing());
    let session = request_stream(&registry, 2).unwrap();
    assert_eq!(session.interface_name(), "eth1");
    assert_eq!(session.state(), SessionState::Starting);
}

#[test]
fn request_for_an_unknown_identifier_is_refused() {
    let registry = InterfaceRegistry::from_names(&listing());
    assert_eq!(request_stream(&registry, 4).unwrap_err(), UnknownInterfaceId { id: 4 });
    let empty = InterfaceRegistry::from_names(&Vec::new());
    assert_eq!(request_stream(&empty, 0).unwrap_err(), UnknownInterfaceId { id: 0 });
}

#[test]
fn session_opens_in_promiscuous_immediate_mode() {
    let mut session = CaptureSession::new(String::from("eth1"));
    assert_eq!(
        session.step(SessionEvent::DevicesListed(listing())),
        SessionAction::OpenDevice { index: 2, promiscuous: true, immediate: true }
    );
    assert_eq!(session.state(), SessionState::Starting);
    assert_eq!(session.interface_name(), "eth1");
}

#[test]
fn vanished_device_closes_without_running() {
    let mut session = CaptureSession::new(String::from("tap9"));
    assert_eq!(
        session.step(SessionEvent::DevicesListed(listing())),
        SessionAction::Close(CloseReason::DeviceNotFound)
    );
    assert_eq!(session.state(), SessionState::Closed(CloseReason::DeviceNotFound));
    assert_eq!(session.step(SessionEvent::DeviceOpened), SessionAction::Ignore);
    assert_eq!(session.state(), SessionState::Closed(CloseReason::DeviceNotFound));
}

#[test]
fn failed_open_closes_with_device_error() {
    let mut session = CaptureSession::new(String::from("eth0"));
    session.step(SessionEvent::DevicesListed(listing()));
    assert_eq!(
        session.step(SessionEvent::DeviceFailed),
        SessionAction::Close(CloseReason::DeviceError)
    );
    assert_eq!(session.state(), SessionState::Closed(CloseReason::DeviceError));
}

#[test]
fn three_frames_give_three_records_in_order() {
    let mut session = running_session();
    let frames = vec![arp_frame(0x0A, None), arp_frame(0x0B, Some(7)), arp_frame(0x0C, None)];
    assert_eq!(
        feed(&mut session, frames),
        vec![arp_record(0x0A, None), arp_record(0x0B, Some(7)), arp_record(0x0C, None)]
    );
    assert_eq!(session.state(), SessionState::Running);
}

#[test]
fn truncated_frame_is_skipped() {
    let mut session = running_session();
    let frames = vec![arp_frame(0x0A, None), vec![0x02, 0, 0, 0, 0, 0x01, 0x02], arp_frame(0x0C, Some(9))];
    assert_eq!(
        feed(&mut session, frames),
        vec![arp_record(0x0A, None), arp_record(0x0C, Some(9))]
    );
    assert_eq!(session.state(), SessionState::Running);
}

#[test]
fn undecodable_frame_asks_for_the_next_one() {
    let mut session = running_session();
    assert_eq!(session.step(SessionEvent::FrameCaptured(Vec::new())), SessionAction::PullFrame);
    let cut_tag = vec![2, 0, 0, 0, 0, 1, 2, 0, 0, 0, 0, 3, 0x81, 0x00, 0x00];
    assert_eq!(session.step(SessionEvent::FrameCaptured(cut_tag)), SessionAction::PullFrame);
    assert_eq!(session.state(), SessionState::Running);
}

#[test]
fn closed_sink_closes_a_running_session() {
    let mut session = running_session();
    let action = session.step(SessionEvent::FrameCaptured(arp_frame(1, None)));
    assert_eq!(action, SessionAction::Enqueue(arp_record(1, None)));
    assert_eq!(
        session.step(SessionEvent::SinkClosed),
        SessionAction::Close(CloseReason::SinkClosed)
    );
    assert_eq!(session.state(), SessionState::Closed(CloseReason::SinkClosed));
}

#[test]
fn closed_sink_leaves_other_sessions_running() {
    let mut first = running_session();
    let mut second = running_session();
    first.step(SessionEvent::SinkClosed);
    assert_eq!(first.state(), SessionState::Closed(CloseReason::SinkClosed));
    assert_eq!(second.state(), SessionState::Running);
    assert_eq!(feed(&mut second, vec![arp_frame(5, None)]), vec![arp_record(5, None)]);
}

#[test]
fn read_error_closes_a_running_session() {
    let mut session = running_session();
    assert_eq!(
        session.step(SessionEvent::DeviceFailed),
        SessionAction::Close(CloseReason::DeviceError)
    );
    assert_eq!(session.state(), SessionState::Closed(CloseReason::DeviceError));
}

#[test]
fn shutdown_closes_in_every_open_state() {
    let mut starting = CaptureSession::new(String::from("lo"));
    assert_eq!(
        starting.step(SessionEvent::Shutdown),
        SessionAction::Close(CloseReason::ProcessShutdown)
    );
    assert_eq!(starting.state(), SessionState::Closed(CloseReason::ProcessShutdown));
    let mut running = running_session();
    assert_eq!(
        running.step(SessionEvent::Shutdown),
        SessionAction::Close(CloseReason::ProcessShutdown)
    );
    assert_eq!(running.state(), SessionState::Closed(CloseReason::ProcessShutdown));
}

#[test]
fn closed_session_ignores_every_event() {
    let mut session = running_session();
    session.step(SessionEvent::SinkClosed);
    let events = vec![
        SessionEvent::DevicesListed(listing()),
        SessionEvent::DeviceOpened,
        SessionEvent::DeviceFailed,
        SessionEvent::FrameCaptured(arp_frame(1, None)),
        SessionEvent::RecordEnqueued,
        SessionEvent::SinkClosed,
        SessionEvent::Shutdown,
    ];
    for event in events {
        assert_eq!(session.step(event), SessionAction::Ignore);
        assert_eq!(session.state(), SessionState::Closed(CloseReason::SinkClosed));
    }
}

#[test]
fn events_out_of_place_are_ignored() {
    let mut starting = CaptureSession::new(String::from("eth0"));
    assert_eq!(
        starting.step(SessionEvent::FrameCaptured(arp_frame(1, None))),
        SessionAction::Ignore
    );
    assert_eq!(starting.step(SessionEvent::RecordEnqueued), SessionAction::Ignore);
    assert_eq!(starting.state(), SessionState::Starting);
    let mut running = running_session();
    assert_eq!(running.step(SessionEvent::DevicesListed(listing())), SessionAction::Ignore);
    assert_eq!(running.step(SessionEvent::DeviceOpened), SessionAction::Ignore);
    assert_eq!(running.state(), SessionState::Running);
}

#[test]
fn next_frame_waits_for_the_enqueue() {
    let mut session = running_session();
    for octet in 0..=(CHANNEL_CAPACITY as u8) {
        let action = session.step(SessionEvent::FrameCaptured(arp_frame(octet, None)));
        assert_eq!(action, SessionAction::Enqueue(arp_record(octet, None)));
        assert_eq!(session.step(SessionEvent::RecordEnqueued), SessionAction::PullFrame);
    }
}
