use wamera_capture::fault::Fault;
use wamera_capture::format::FormatDescriptor;
use wamera_capture::format::FourCc;
use wamera_capture::format::Negotiated;
use wamera_capture::format::OnMismatch;
use wamera_capture::session::OpenOutcome;
use wamera_capture::session::Session;
use wamera_capture::session::SessionPhase;

fn mjpg_720p() -> FormatDescriptor {
    FormatDescriptor::new(1280, 720, FourCc::new(b"MJPG"))
}

fn yuyv_720p() -> FormatDescriptor {
    FormatDescriptor::new(1280, 720, FourCc::new(b"YUYV"))
}

fn open_session() -> Session {
    let mut session = Session::new();
    assert_eq!(session.open(OpenOutcome::Granted), Ok(()));
    session
}

#[test]
fn new_session_holds_nothing() {
    let session = Session::new();
    assert_eq!(session.current_phase(), SessionPhase::Closed);
    assert_eq!(session.active_format(), None);
    assert_eq!(session.ring_depth(), 0);
}

#[test]
fn open_fails_when_the_device_is_missing_or_busy() {
    let mut session = Session::new();
    assert_eq!(session.open(OpenOutcome::Missing), Err(Fault::DeviceUnavailable));
    assert_eq!(session.current_phase(), SessionPhase::Closed);
    assert_eq!(session.open(OpenOutcome::Busy), Err(Fault::DeviceUnavailable));
    assert_eq!(session.current_phase(), SessionPhase::Closed);
    assert_eq!(session.open(OpenOutcome::Granted), Ok(()));
    assert_eq!(session.current_phase(), SessionPhase::Open);
}

#[test]
fn open_twice_finds_the_device_held() {
    let mut session = open_session();
    assert_eq!(session.open(OpenOutcome::Granted), Err(Fault::DeviceUnavailable));
    assert_eq!(session.current_phase(), SessionPhase::Open);
}

#[test]
fn full_setup_reaches_streaming() {
    let mut session = open_session();
    let negotiated = session.negotiate_format(&mjpg_720p(), &mjpg_720p(), OnMismatch::Abort);
    assert_eq!(
        negotiated,
        Ok(Negotiated { format: mjpg_720p(), degraded: false, resized: false })
    );
    assert_eq!(session.active_format(), Some(mjpg_720p()));
    assert_eq!(session.allocate_buffers(4, 4), Ok(4));
    assert_eq!(session.ring_depth(), 4);
    assert_eq!(session.start(), Ok(()));
    assert_eq!(session.current_phase(), SessionPhase::Streaming);
    assert_eq!(session.acquire(), Ok(()));
}

#[test]
fn session_surfaces_a_substituted_encoding() {
    let mut session = open_session();
    let outcome = session.negotiate_format(&mjpg_720p(), &yuyv_720p(), OnMismatch::Abort);
    assert_eq!(outcome, Err(Fault::FormatNegotiationMismatch));
    assert_eq!(session.active_format(), None);

    let outcome = session.negotiate_format(&mjpg_720p(), &yuyv_720p(), OnMismatch::Degrade);
    assert_eq!(outcome, Ok(Negotiated { format: yuyv_720p(), degraded: true, resized: false }));
    assert_eq!(session.active_format(), Some(yuyv_720p()));
}

#[test]
fn negotiation_needs_an_idle_device() {
    let mut closed = Session::new();
    assert_eq!(
        closed.negotiate_format(&mjpg_720p(), &mjpg_720p(), OnMismatch::Abort),
        Err(Fault::DeviceUnavailable)
    );

    let mut with_ring = open_session();
    assert_eq!(with_ring.allocate_buffers(2, 2), Ok(2));
    assert_eq!(
        with_ring.negotiate_format(&mjpg_720p(), &mjpg_720p(), OnMismatch::Abort),
        Err(Fault::DeviceUnavailable)
    );
    assert_eq!(with_ring.start(), Ok(()));
    assert_eq!(
        with_ring.negotiate_format(&mjpg_720p(), &mjpg_720p(), OnMismatch::Degrade),
        Err(Fault::DeviceUnavailable)
    );
    assert_eq!(with_ring.active_format(), None);
}

#[test]
fn allocation_fails_when_the_driver_reserves_too_few() {
    let mut session = open_session();
    assert_eq!(session.allocate_buffers(4, 3), Err(Fault::AllocationFailed));
    assert_eq!(session.allocate_buffers(4, 0), Err(Fault::AllocationFailed));
    assert_eq!(session.ring_depth(), 0);
    assert_eq!(session.allocate_buffers(4, 5), Ok(5));
    assert_eq!(session.ring_depth(), 5);
}

#[test]
fn allocation_of_no_buffer_fails() {
    let mut session = open_session();
    assert_eq!(session.allocate_buffers(0, 0), Err(Fault::AllocationFailed));
    assert_eq!(session.allocate_buffers(0, 4), Err(Fault::AllocationFailed));
    assert_eq!(session.allocate_buffers(1, 1), Ok(1));
}

#[test]
fn allocation_needs_an_open_idle_device() {
    let mut closed = Session::new();
    assert_eq!(closed.allocate_buffers(4, 4), Err(Fault::DeviceUnavailable));

    let mut streaming = open_session();
    assert_eq!(streaming.allocate_buffers(2, 2), Ok(2));
    assert_eq!(streaming.start(), Ok(()));
    assert_eq!(streaming.allocate_buffers(4, 4), Err(Fault::DeviceUnavailable));
    assert_eq!(streaming.ring_depth(), 2);
}

#[test]
fn start_needs_a_device_and_a_ring() {
    let mut closed = Session::new();
    assert_eq!(closed.start(), Err(Fault::DeviceUnavailable));

    let mut bare = open_session();
    assert_eq!(bare.start(), Err(Fault::AllocationFailed));
    assert_eq!(bare.current_phase(), SessionPhase::Open);

    assert_eq!(bare.allocate_buffers(2, 2), Ok(2));
    assert_eq!(bare.start(), Ok(()));
    assert_eq!(bare.start(), Ok(()));
    assert_eq!(bare.current_phase(), SessionPhase::Streaming);
}

#[test]
fn acquisition_before_start_is_not_started() {
    let mut session = Session::new();
    assert_eq!(session.acquire(), Err(Fault::NotStarted));
    assert_eq!(session.open(OpenOutcome::Granted), Ok(()));
    assert_eq!(session.acquire(), Err(Fault::NotStarted));
    assert_eq!(session.allocate_buffers(4, 4), Ok(4));
    assert_eq!(session.acquire(), Err(Fault::NotStarted));
}

#[test]
fn acquisition_after_stop_is_not_started() {
    let mut session = open_session();
    assert_eq!(session.allocate_buffers(4, 4), Ok(4));
    assert_eq!(session.start(), Ok(()));
    assert_eq!(session.acquire(), Ok(()));
    session.stop();
    assert_eq!(session.current_phase(), SessionPhase::Open);
    assert_eq!(session.ring_depth(), 4);
    assert_eq!(session.acquire(), Err(Fault::NotStarted));
    assert_eq!(session.start(), Ok(()));
    assert_eq!(session.acquire(), Ok(()));
}

#[test]
fn stop_leaves_an_idle_session_as_it_was() {
    let mut closed = Session::new();
    closed.stop();
    assert_eq!(closed.current_phase(), SessionPhase::Closed);
    let mut open = open_session();
    open.stop();
    assert_eq!(open.current_phase(), SessionPhase::Open);
}

#[test]
fn release_gives_everything_up() {
    let mut session = open_session();
    assert!(session.negotiate_format(&mjpg_720p(), &mjpg_720p(), OnMismatch::Abort).is_ok());
    assert_eq!(session.allocate_buffers(4, 4), Ok(4));
    assert_eq!(session.start(), Ok(()));
    session.release();
    assert_eq!(session.current_phase(), SessionPhase::Closed);
    assert_eq!(session.active_format(), None);
    assert_eq!(session.ring_depth(), 0);
    assert_eq!(session.acquire(), Err(Fault::NotStarted));
    assert_eq!(session.open(OpenOutcome::Granted), Ok(()));
}
