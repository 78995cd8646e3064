use screencopy::driver::take_result;
use screencopy::session::{BufferData, FrameEvent, PixelFormat, SessionAction};

#[test]
fn whole_frame_capture_finishes() {
    let mut session = BufferData::new((1920, 1080));
    assert!(!session.finished());
    let action = session.apply_event(FrameEvent::Buffer {
        format: PixelFormat::Recognized(0),
        width: 1920,
        height: 1080,
        stride: 7680,
    });
    match action {
        SessionAction::CopyFrame { fd, size, width, height, stride, format } => {
            assert!(fd >= 0);
            assert_eq!(size, 7680 * 1080);
            assert_eq!(width, 1920);
            assert_eq!(height, 1080);
            assert_eq!(stride, 7680);
            assert_eq!(format, 0);
            let mapping = memmap2::MmapMut::map_anon(7680 * 1080).unwrap();
            session.attach_mapping(mapping);
            nix::unistd::close(fd).unwrap();
        }
        SessionAction::Idle => panic!("expected a copy action"),
    }
    assert!(!session.finished());
    let ready_action = session.apply_event(FrameEvent::Ready);
    assert!(matches!(ready_action, SessionAction::Idle));
    assert!(session.finished());
    let result = take_result(session);
    match result {
        Some(buffer) => {
            assert_eq!(buffer.width, 1920);
            assert_eq!(buffer.height, 1080);
            assert_eq!(buffer.realwidth, 1920);
            assert_eq!(buffer.realheight, 1080);
            assert_eq!(buffer.stride, 7680);
            assert_eq!(buffer.frame_len, 7680 * 1080);
            assert_eq!(buffer.frame_mmap.as_ref().unwrap().len(), 7680 * 1080);
        }
        None => panic!("expected a finished buffer"),
    }
}

#[test]
fn unknown_format_fails_without_allocation() {
    let mut session = BufferData::new((1920, 1080));
    let action = session.apply_event(FrameEvent::Buffer {
        format: PixelFormat::Unrecognized(999),
        width: 1920,
        height: 1080,
        stride: 7680,
    });
    assert!(matches!(action, SessionAction::Idle));
    assert!(session.finished());
    assert!(!session.allocated);
    assert!(session.frame_mmap.is_none());
    assert!(take_result(session).is_none());
}

#[test]
fn failed_after_buffer_yields_empty() {
    let mut session = BufferData::new((4, 4));
    let action = session.apply_event(FrameEvent::Buffer {
        format: PixelFormat::Recognized(1),
        width: 4,
        height: 4,
        stride: 16,
    });
    match action {
        SessionAction::CopyFrame { fd, .. } => {
            let mapping = memmap2::MmapMut::map_anon(64).unwrap();
            session.attach_mapping(mapping);
            nix::unistd::close(fd).unwrap();
        }
        SessionAction::Idle => panic!("expected a copy action"),
    }
    let failed_action = session.apply_event(FrameEvent::Failed);
    assert!(matches!(failed_action, SessionAction::Idle));
    assert!(session.finished());
    assert!(take_result(session).is_none());
}

#[test]
fn failed_event_fails_immediately() {
    let mut session = BufferData::new((640, 480));
    session.apply_event(FrameEvent::Failed);
    assert!(session.finished());
    assert!(take_result(session).is_none());
}

#[test]
fn ready_without_buffer_yields_empty() {
    let mut session = BufferData::new((640, 480));
    session.apply_event(FrameEvent::Ready);
    assert!(session.finished());
    assert!(session.frame_mmap.is_none());
    assert!(take_result(session).is_none());
}

#[test]
fn informational_events_change_nothing() {
    let mut session = BufferData::new((800, 600));
    assert!(matches!(session.apply_event(FrameEvent::Damage), SessionAction::Idle));
    assert!(matches!(session.apply_event(FrameEvent::Flags), SessionAction::Idle));
    assert!(matches!(session.apply_event(FrameEvent::LinuxDmabuf), SessionAction::Idle));
    assert!(matches!(session.apply_event(FrameEvent::BufferDone), SessionAction::Idle));
    assert!(!session.finished());
    assert_eq!(session.width, 0);
    assert_eq!(session.height, 0);
    assert_eq!(session.realwidth, 800);
    assert_eq!(session.realheight, 600);
    assert!(!session.allocated);
}

#[test]
fn second_buffer_event_is_ignored() {
    let mut session = BufferData::new((4, 4));
    let first = session.apply_event(FrameEvent::Buffer {
        format: PixelFormat::Recognized(1),
        width: 4,
        height: 4,
        stride: 16,
    });
    let fd = match first {
        SessionAction::CopyFrame { fd, .. } => fd,
        SessionAction::Idle => panic!("expected a copy action"),
    };
    let second = session.apply_event(FrameEvent::Buffer {
        format: PixelFormat::Recognized(1),
        width: 8,
        height: 8,
        stride: 32,
    });
    assert!(matches!(second, SessionAction::Idle));
    assert_eq!(session.width, 4);
    assert_eq!(session.height, 4);
    assert_eq!(session.stride, 16);
    assert!(!session.finished());
    nix::unistd::close(fd).unwrap();
}

#[test]
fn oversized_frame_fails_before_allocation() {
    let mut session = BufferData::new((1, 1));
    let action = session.apply_event(FrameEvent::Buffer {
        format: PixelFormat::Recognized(0),
        width: 1,
        height: 2,
        stride: 2147483648,
    });
    assert!(matches!(action, SessionAction::Idle));
    assert!(session.finished());
    assert!(!session.allocated);
    assert!(take_result(session).is_none());
}

#[test]
fn mapping_length_mismatch_fails() {
    let mut session = BufferData::new((4, 4));
    let action = session.apply_event(FrameEvent::Buffer {
        format: PixelFormat::Recognized(1),
        width: 4,
        height: 4,
        stride: 16,
    });
    match action {
        SessionAction::CopyFrame { fd, .. } => {
            let mapping = memmap2::MmapMut::map_anon(32).unwrap();
            session.attach_mapping(mapping);
            nix::unistd::close(fd).unwrap();
        }
        SessionAction::Idle => panic!("expected a copy action"),
    }
    assert!(session.finished());
    assert!(session.frame_mmap.is_none());
    assert!(take_result(session).is_none());
}

#[test]
fn mapping_failure_fails_the_session() {
    let mut session = BufferData::new((4, 4));
    let action = session.apply_event(FrameEvent::Buffer {
        format: PixelFormat::Recognized(1),
        width: 4,
        height: 4,
        stride: 16,
    });
    let fd = match action {
        SessionAction::CopyFrame { fd, .. } => fd,
        SessionAction::Idle => panic!("expected a copy action"),
    };
    session.mapping_failed();
    assert!(session.finished());
    assert!(take_result(session).is_none());
    nix::unistd::close(fd).unwrap();
}
