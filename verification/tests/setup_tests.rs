use screen_capture::display::{Display, DisplayHandle};
use screen_capture::error::CaptureError;
use screen_capture::setup::{
    refusal_of, release_order, PixelFormat, Resource, SessionSetup, SetupEvent, SetupPhase,
    SetupRequest, FRAME_POOL_CAPACITY,
};

fn display(handle: isize) -> Display {
    Display {
        handle: DisplayHandle(handle),
        display_name: String::from("\\\\.\\DISPLAY1"),
        resolution: (1920, 1080),
    }
}

fn at(phase: SetupPhase) -> SessionSetup {
    SessionSetup { handle: DisplayHandle(7), phase, width: 1920, height: 1080 }
}

#[test]
fn setup_begins_by_binding_the_display() {
    let (setup, request) = SessionSetup::begin(&display(7));
    assert_eq!(
        setup,
        SessionSetup { handle: DisplayHandle(7), phase: SetupPhase::BindingTarget, width: 0, height: 0 }
    );
    assert_eq!(request, SetupRequest::BindTarget { handle: DisplayHandle(7) });
}

#[test]
fn setup_runs_through_every_request_in_order() {
    let (setup, _) = SessionSetup::begin(&display(7));
    let (setup, request) = setup.advance(SetupEvent::Bound { width: 1920, height: 1080 });
    assert_eq!(setup, at(SetupPhase::CreatingDevice));
    assert_eq!(request, SetupRequest::CreateDevice);
    let (setup, request) = setup.advance(SetupEvent::Granted);
    assert_eq!(setup, at(SetupPhase::CreatingPool));
    assert_eq!(
        request,
        SetupRequest::CreatePool { width: 1920, height: 1080, capacity: 1, format: PixelFormat::Bgra8 }
    );
    let (setup, request) = setup.advance(SetupEvent::Granted);
    assert_eq!(setup, at(SetupPhase::CreatingSession));
    assert_eq!(request, SetupRequest::CreateSession);
    let (setup, request) = setup.advance(SetupEvent::Granted);
    assert_eq!(setup, at(SetupPhase::Ready));
    assert_eq!(request, SetupRequest::Finish);
}

#[test]
fn frame_pool_holds_one_surface() {
    assert_eq!(FRAME_POOL_CAPACITY, 1);
}

#[test]
fn setup_fails_when_binding_is_refused() {
    let (setup, _) = SessionSetup::begin(&display(7));
    let (failed, request) = setup.advance(SetupEvent::Refused);
    assert_eq!(failed.phase, SetupPhase::Failed(CaptureError::InteropCreationFailed));
    assert_eq!(
        request,
        SetupRequest::Abort {
            error: CaptureError::InteropCreationFailed,
            reached: SetupPhase::BindingTarget,
        }
    );
}

#[test]
fn setup_fails_on_a_target_of_empty_area() {
    let sizes = [(0, 1080), (1920, 0), (0, 0), (-5, 10), (10, -5)];
    for (width, height) in sizes {
        let (setup, _) = SessionSetup::begin(&display(7));
        let (failed, request) = setup.advance(SetupEvent::Bound { width, height });
        assert_eq!(failed.phase, SetupPhase::Failed(CaptureError::InteropCreationFailed));
        assert_eq!(
            request,
            SetupRequest::Abort {
                error: CaptureError::InteropCreationFailed,
                reached: SetupPhase::BindingTarget,
            }
        );
    }
}

#[test]
fn setup_fails_on_a_binding_without_a_size() {
    let (setup, _) = SessionSetup::begin(&display(7));
    let (failed, _) = setup.advance(SetupEvent::Granted);
    assert_eq!(failed.phase, SetupPhase::Failed(CaptureError::InteropCreationFailed));
}

#[test]
fn setup_fails_with_device_error_when_the_device_is_refused() {
    let (failed, request) = at(SetupPhase::CreatingDevice).advance(SetupEvent::Refused);
    assert_eq!(failed.phase, SetupPhase::Failed(CaptureError::DeviceCreationFailed));
    assert_eq!(
        request,
        SetupRequest::Abort {
            error: CaptureError::DeviceCreationFailed,
            reached: SetupPhase::CreatingDevice,
        }
    );
}

#[test]
fn setup_fails_with_interop_error_when_pool_or_session_is_refused() {
    for phase in [SetupPhase::CreatingPool, SetupPhase::CreatingSession] {
        let (failed, request) = at(phase).advance(SetupEvent::Refused);
        assert_eq!(failed.phase, SetupPhase::Failed(CaptureError::InteropCreationFailed));
        assert_eq!(
            request,
            SetupRequest::Abort { error: CaptureError::InteropCreationFailed, reached: phase }
        );
    }
}

#[test]
fn setup_treats_an_answer_of_the_wrong_kind_as_a_refusal() {
    let stray = SetupEvent::Bound { width: 1920, height: 1080 };
    let (failed, request) = at(SetupPhase::CreatingDevice).advance(stray);
    assert_eq!(failed.phase, SetupPhase::Failed(CaptureError::DeviceCreationFailed));
    assert_eq!(
        request,
        SetupRequest::Abort {
            error: CaptureError::DeviceCreationFailed,
            reached: SetupPhase::CreatingDevice,
        }
    );
    let (failed, _) = at(SetupPhase::CreatingPool).advance(stray);
    assert_eq!(failed.phase, SetupPhase::Failed(CaptureError::InteropCreationFailed));
}

#[test]
fn setup_that_has_ended_stays_as_it_is() {
    let events =
        [SetupEvent::Granted, SetupEvent::Refused, SetupEvent::Bound { width: 1, height: 1 }];
    for phase in [SetupPhase::Ready, SetupPhase::Failed(CaptureError::DeviceCreationFailed)] {
        for event in events {
            let (after, request) = at(phase).advance(event);
            assert_eq!(after, at(phase));
            assert_eq!(request, SetupRequest::Nothing);
        }
    }
}

#[test]
fn setup_failure_keeps_the_display_and_the_size() {
    let (failed, _) = at(SetupPhase::CreatingSession).advance(SetupEvent::Refused);
    assert_eq!(failed.handle, DisplayHandle(7));
    assert_eq!((failed.width, failed.height), (1920, 1080));
}

#[test]
fn refusal_means_device_error_only_while_creating_the_device() {
    assert_eq!(refusal_of(SetupPhase::BindingTarget), CaptureError::InteropCreationFailed);
    assert_eq!(refusal_of(SetupPhase::CreatingDevice), CaptureError::DeviceCreationFailed);
    assert_eq!(refusal_of(SetupPhase::CreatingPool), CaptureError::InteropCreationFailed);
    assert_eq!(refusal_of(SetupPhase::CreatingSession), CaptureError::InteropCreationFailed);
    assert_eq!(refusal_of(SetupPhase::Ready), CaptureError::InteropCreationFailed);
    assert_eq!(
        refusal_of(SetupPhase::Failed(CaptureError::MapFailed)),
        CaptureError::InteropCreationFailed
    );
}

#[test]
fn release_order_is_the_reverse_of_acquisition() {
    assert_eq!(release_order(SetupPhase::BindingTarget), Vec::<Resource>::new());
    assert_eq!(release_order(SetupPhase::CreatingDevice), vec![Resource::Target]);
    assert_eq!(release_order(SetupPhase::CreatingPool), vec![Resource::Device, Resource::Target]);
    assert_eq!(
        release_order(SetupPhase::CreatingSession),
        vec![Resource::Pool, Resource::Device, Resource::Target]
    );
    assert_eq!(
        release_order(SetupPhase::Ready),
        vec![Resource::Session, Resource::Pool, Resource::Device, Resource::Target]
    );
    assert_eq!(
        release_order(SetupPhase::Failed(CaptureError::InteropCreationFailed)),
        Vec::<Resource>::new()
    );
}

#[test]
fn release_order_closes_the_pool_before_the_target() {
    let phases = [
        SetupPhase::BindingTarget,
        SetupPhase::CreatingDevice,
        SetupPhase::CreatingPool,
        SetupPhase::CreatingSession,
        SetupPhase::Ready,
    ];
    for phase in phases {
        let order = release_order(phase);
        let pool = order.iter().position(|r| *r == Resource::Pool);
        let target = order.iter().position(|r| *r == Resource::Target);
        if let (Some(pool), Some(target)) = (pool, target) {
            assert!(pool < target);
        }
    }
}
