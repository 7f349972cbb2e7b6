use video_streaming::{
    CameraAction, CameraLifecycle, CameraState, DemandCounter, SessionAction, SessionEvent,
    SessionState, ViewerSession,
};

#[test]
fn camera_follows_demand() {
    let demands = [false, true, true, false, false, true, false, true];
    let mut cam = CameraLifecycle::new();
    let mut opens = 0;
    let mut closes = 0;
    let mut previous = false;
    let mut rises = 0;
    let mut falls = 0;
    for &d in demands.iter() {
        match cam.poll(d) {
            CameraAction::OpenDevice => opens += 1,
            CameraAction::CloseDevice => closes += 1,
            _ => {}
        }
        if d && !previous {
            rises += 1;
        }
        if !d && previous {
            falls += 1;
        }
        previous = d;
        assert!(opens == closes || opens == closes + 1);
    }
    assert_eq!(opens, rises);
    assert_eq!(closes, falls);
    assert_eq!((opens, closes), (3, 2));
    assert_eq!(cam.state(), CameraState::Open);
}

#[test]
fn camera_actions_per_state() {
    let mut cam = CameraLifecycle::new();
    assert_eq!(cam.poll(false), CameraAction::Wait);
    assert_eq!(cam.poll(true), CameraAction::OpenDevice);
    assert_eq!(cam.poll(true), CameraAction::Capture);
    assert_eq!(cam.poll(false), CameraAction::CloseDevice);
    assert_eq!(cam.state(), CameraState::Closed);
}

#[test]
fn failed_device_is_retried_on_next_poll() {
    let mut cam = CameraLifecycle::new();
    assert_eq!(cam.poll(true), CameraAction::OpenDevice);
    cam.device_failed();
    assert_eq!(cam.state(), CameraState::Closed);
    assert_eq!(cam.poll(true), CameraAction::OpenDevice);
}

#[test]
fn demand_counter_never_negative() {
    let mut c = DemandCounter::new();
    assert!(!c.decrement());
    assert_eq!(c.get(), 0);
    assert!(c.increment());
    assert!(c.poll_demand());
    assert!(c.decrement());
    assert_eq!(c.get(), 0);
    assert!(!c.poll_demand());
}

#[test]
fn session_deregisters_exactly_once() {
    let mut s = ViewerSession::new();
    assert_eq!(s.state(), SessionState::Registered);
    assert_eq!(s.on_event(SessionEvent::PacketReady), SessionAction::Forward);
    assert_eq!(s.state(), SessionState::Streaming);
    assert_eq!(s.on_event(SessionEvent::PacketReady), SessionAction::Forward);
    assert_eq!(s.on_event(SessionEvent::SendFailed), SessionAction::Deregister);
    assert_eq!(s.state(), SessionState::Deregistered);
    assert_eq!(s.on_event(SessionEvent::Closed), SessionAction::Idle);
    assert_eq!(s.on_event(SessionEvent::PacketReady), SessionAction::Idle);
}

#[test]
fn session_closed_before_streaming() {
    let mut s = ViewerSession::new();
    assert_eq!(s.on_event(SessionEvent::Closed), SessionAction::Deregister);
    assert_eq!(s.state(), SessionState::Deregistered);
}

#[test]
fn session_round_trip_restores_demand() {
    let mut bus = video_streaming::BroadcastBus::new(10);
    let before = bus.demand();
    let sub = bus.register().unwrap();
    assert_eq!(bus.demand(), before + 1);
    let mut session = ViewerSession::new();
    bus.publish(&vec![1]);
    assert!(bus.next(&sub).is_some());
    assert_eq!(session.on_event(SessionEvent::PacketReady), SessionAction::Forward);
    assert_eq!(bus.demand(), before + 1);
    let mut deregistrations = 0;
    for event in [SessionEvent::SendFailed, SessionEvent::Closed, SessionEvent::SendFailed] {
        if session.on_event(event) == SessionAction::Deregister {
            assert!(bus.deregister(&sub));
            deregistrations += 1;
        }
    }
    assert_eq!(deregistrations, 1);
    assert_eq!(bus.demand(), before);
}
