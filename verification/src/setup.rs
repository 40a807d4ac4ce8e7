use crate::display::{create_capture_item_for_monitor, usable_size, Display, DisplayHandle};
use crate::error::CaptureError;
use vstd::prelude::*;

verus! {

/// The frame pool holds one surface: a consumer that falls behind makes the
/// compositor drop frames, not queue them.
pub const FRAME_POOL_CAPACITY: u32 = 1;

/// The pixel format of the frame pool's surfaces.
#[derive(Clone, Copy, PartialEq, Eq, Debug, Structural)]
pub enum PixelFormat {
    /// Four bytes per pixel: blue, green, red, alpha, unsigned normalized.
    Bgra8,
}

/// What a capture pipeline acquires from the platform, in this order.
#[derive(Clone, Copy, PartialEq, Eq, Debug, Structural)]
pub enum Resource {
    /// The display bound as a capturable item.
    Target,
    /// The GPU device and its immediate context.
    Device,
    /// The frame pool.
    Pool,
    /// The capture session on the pool.
    Session,
}

/// How far the setup of a session has come.
#[derive(Clone, Copy, PartialEq, Eq, Debug, Structural)]
pub enum SetupPhase {
    BindingTarget,
    CreatingDevice,
    CreatingPool,
    CreatingSession,
    Ready,
    Failed(CaptureError),
}

/// The platform's answer to the request that is pending.
#[derive(Clone, Copy, PartialEq, Eq, Debug, Structural)]
pub enum SetupEvent {
    /// The compositor bound the display and reported the item's size.
    Bound { width: i32, height: i32 },
    /// The device, the pool or the session was created.
    Granted,
    /// The platform refused.
    Refused,
}

/// What the host is to do next.
#[derive(Clone, Copy, PartialEq, Eq, Debug, Structural)]
pub enum SetupRequest {
    /// Bind the display as a capturable item and query its size.
    BindTarget { handle: DisplayHandle },
    /// Create the GPU device and its context.
    CreateDevice,
    /// Create the frame pool on the device.
    CreatePool { width: u32, height: u32, capacity: u32, format: PixelFormat },
    /// Create the capture session on the pool, for the target.
    CreateSession,
    /// Everything is acquired: make the session.
    Finish,
    /// Release what was held when the setup had come to `reached`, in the
    /// order that `release_order` gives, and report `error`.
    Abort { error: CaptureError, reached: SetupPhase },
    /// The setup had ended before; there is nothing to do.
    Nothing,
}

/// The setup of one session: which display, how far, and the size of the
/// target once it is bound.
#[derive(Clone, Copy, PartialEq, Eq, Debug, Structural)]
pub struct SessionSetup {
    pub handle: DisplayHandle,
    pub phase: SetupPhase,
    pub width: u32,
    pub height: u32,
}

/// The resources held when a setup has come to `phase`, in the order in
/// which they were acquired.
pub open spec fn acquired(phase: SetupPhase) -> Seq<Resource> {
    match phase {
        SetupPhase::BindingTarget => seq![],
        SetupPhase::CreatingDevice => seq![Resource::Target],
        SetupPhase::CreatingPool => seq![Resource::Target, Resource::Device],
        SetupPhase::CreatingSession => seq![Resource::Target, Resource::Device, Resource::Pool],
        SetupPhase::Ready => seq![
            Resource::Target,
            Resource::Device,
            Resource::Pool,
            Resource::Session,
        ],
        SetupPhase::Failed(_) => seq![],
    }
}

/// The order in which to release what is held at `phase`: last acquired,
/// first released.
pub open spec fn release_plan(phase: SetupPhase) -> Seq<Resource> {
    acquired(phase).reverse()
}

/// The error that a refusal means while the setup is at `phase`.
pub open spec fn refusal_at(phase: SetupPhase) -> CaptureError {
    match phase {
        SetupPhase::CreatingDevice => CaptureError::DeviceCreationFailed,
        _ => CaptureError::InteropCreationFailed,
    }
}

/// Whether the setup has ended, well or badly.
pub open spec fn ended(phase: SetupPhase) -> bool {
    phase is Ready || phase is Failed
}

/// Whether `event` grants the request that is pending at `phase`. Binding
/// is granted by a size that is positive in both dimensions, every other
/// request by `Granted`.
pub open spec fn grants(phase: SetupPhase, event: SetupEvent) -> bool {
    match phase {
        SetupPhase::BindingTarget => event matches SetupEvent::Bound { width, height }
            && usable_size(Some((width, height))),
        SetupPhase::CreatingDevice | SetupPhase::CreatingPool | SetupPhase::CreatingSession => event
            is Granted,
        _ => false,
    }
}

/// The phase that follows `phase` once its request is granted.
pub open spec fn phase_after(phase: SetupPhase) -> SetupPhase {
    match phase {
        SetupPhase::BindingTarget => SetupPhase::CreatingDevice,
        SetupPhase::CreatingDevice => SetupPhase::CreatingPool,
        SetupPhase::CreatingPool => SetupPhase::CreatingSession,
        SetupPhase::CreatingSession => SetupPhase::Ready,
        _ => phase,
    }
}

impl SessionSetup {
    /// The setup of a session for the display `handle`, with nothing done yet.
    pub open spec fn initial(handle: DisplayHandle) -> SessionSetup {
        SessionSetup { handle, phase: SetupPhase::BindingTarget, width: 0, height: 0 }
    }

    /// What the host is to do while the setup is in this state.
    pub open spec fn pending(self) -> SetupRequest {
        match self.phase {
            SetupPhase::BindingTarget => SetupRequest::BindTarget { handle: self.handle },
            SetupPhase::CreatingDevice => SetupRequest::CreateDevice,
            SetupPhase::CreatingPool => SetupRequest::CreatePool {
                width: self.width,
                height: self.height,
                capacity: FRAME_POOL_CAPACITY,
                format: PixelFormat::Bgra8,
            },
            SetupPhase::CreatingSession => SetupRequest::CreateSession,
            SetupPhase::Ready => SetupRequest::Finish,
            SetupPhase::Failed(_) => SetupRequest::Nothing,
        }
    }

    /// The state after a granting `event`: one phase on, and with the
    /// target's size where the event brought it.
    pub open spec fn granted(self, event: SetupEvent) -> SessionSetup {
        match event {
            SetupEvent::Bound { width, height } => SessionSetup {
                phase: phase_after(self.phase),
                width: width as u32,
                height: height as u32,
                ..self
            },
            _ => SessionSetup { phase: phase_after(self.phase), ..self },
        }
    }

    /// The state and the request that follow from `event`. An ended setup
    /// stays as it is. An event that grants the pending request moves the
    /// setup on to the next request. Any other event fails the setup, with
    /// the error that a refusal of the pending request means.
    pub open spec fn next(self, event: SetupEvent) -> (SessionSetup, SetupRequest) {
        if ended(self.phase) {
            (self, SetupRequest::Nothing)
        } else if grants(self.phase, event) {
            (self.granted(event), self.granted(event).pending())
        } else {
            (
                SessionSetup { phase: SetupPhase::Failed(refusal_at(self.phase)), ..self },
                SetupRequest::Abort { error: refusal_at(self.phase), reached: self.phase },
            )
        }
    }

    /// Whether the state is one that a setup can come to: the target's size
    /// is known, and positive, from the moment the target is bound.
    pub open spec fn sized(self) -> bool {
        acquired(self.phase).len() > 0 ==> self.width > 0 && self.height > 0
    }

    /// Begins the setup of a session for `display`. The first request is to
    /// bind that display.
    pub fn begin(display: &Display) -> (start: (SessionSetup, SetupRequest))
        ensures
            start.0 == SessionSetup::initial(display.handle),
            start.1 == start.0.pending(),
    {
        let setup = SessionSetup {
            handle: display.handle,
            phase: SetupPhase::BindingTarget,
            width: 0,
            height: 0,
        };
        (setup, SetupRequest::BindTarget { handle: display.handle })
    }

    /// Takes the platform's answer to the pending request and decides how
    /// the setup goes on.
    pub fn advance(&self, event: SetupEvent) -> (step: (SessionSetup, SetupRequest))
        ensures
            step == self.next(event),
            self.sized() ==> step.0.sized(),
    {
        let failed = (
            SessionSetup {
                handle: self.handle,
                phase: SetupPhase::Failed(refusal_of(self.phase)),
                width: self.width,
                height: self.height,
            },
            SetupRequest::Abort { error: refusal_of(self.phase), reached: self.phase },
        );
        match self.phase {
            SetupPhase::Ready | SetupPhase::Failed(_) => (*self, SetupRequest::Nothing),
            SetupPhase::BindingTarget => match event {
                SetupEvent::Bound { width, height } => {
                    match create_capture_item_for_monitor(self.handle, Some((width, height))) {
                        Ok(target) => {
                            let size = target.size();
                            (
                                SessionSetup {
                                    handle: self.handle,
                                    phase: SetupPhase::CreatingDevice,
                                    width: size.0,
                                    height: size.1,
                                },
                                SetupRequest::CreateDevice,
                            )
                        },
                        Err(_) => failed,
                    }
                },
                _ => failed,
            },
            SetupPhase::CreatingDevice => match event {
                SetupEvent::Granted => (
                    SessionSetup {
                        handle: self.handle,
                        phase: SetupPhase::CreatingPool,
                        width: self.width,
                        height: self.height,
                    },
                    SetupRequest::CreatePool {
                        width: self.width,
                        height: self.height,
                        capacity: FRAME_POOL_CAPACITY,
                        format: PixelFormat::Bgra8,
                    },
                ),
                _ => failed,
            },
            SetupPhase::CreatingPool => match event {
                SetupEvent::Granted => (
                    SessionSetup {
                        handle: self.handle,
                        phase: SetupPhase::CreatingSession,
                        width: self.width,
                        height: self.height,
                    },
                    SetupRequest::CreateSession,
                ),
                _ => failed,
            },
            SetupPhase::CreatingSession => match event {
                SetupEvent::Granted => (
                    SessionSetup {
                        handle: self.handle,
                        phase: SetupPhase::Ready,
                        width: self.width,
                        height: self.height,
                    },
                    SetupRequest::Finish,
                ),
                _ => failed,
            },
        }
    }
}

/// Computes `refusal_at(phase)`.
pub fn refusal_of(phase: SetupPhase) -> (error: CaptureError)
    ensures
        error == refusal_at(phase),
{
    match phase {
        SetupPhase::CreatingDevice => CaptureError::DeviceCreationFailed,
        _ => CaptureError::InteropCreationFailed,
    }
}

/// Lists what is held at `phase` in the order in which the host is to
/// release it: the reverse of the order of acquisition, so that the pool is
/// closed before the target is let go.
pub fn release_order(phase: SetupPhase) -> (order: Vec<Resource>)
    ensures
        order@ == release_plan(phase),
{
    let mut order: Vec<Resource> = Vec::new();
    match phase {
        SetupPhase::Ready => {
            order.push(Resource::Session);
            order.push(Resource::Pool);
            order.push(Resource::Device);
            order.push(Resource::Target);
        },
        SetupPhase::CreatingSession => {
            order.push(Resource::Pool);
            order.push(Resource::Device);
            order.push(Resource::Target);
        },
        SetupPhase::CreatingPool => {
            order.push(Resource::Device);
            order.push(Resource::Target);
        },
        SetupPhase::CreatingDevice => {
            order.push(Resource::Target);
        },
        _ => {},
    }
    assert(order@ =~= release_plan(phase));
    order
}

/// In every release plan the frame pool is closed before the target is
/// released, and the session before the pool.
pub proof fn lemma_pool_closes_before_target(phase: SetupPhase, i: int, j: int)
    requires
        0 <= i < release_plan(phase).len(),
        0 <= j < release_plan(phase).len(),
    ensures
        release_plan(phase)[i] == Resource::Pool && release_plan(phase)[j] == Resource::Target
            ==> i < j,
        release_plan(phase)[i] == Resource::Session && release_plan(phase)[j] == Resource::Pool
            ==> i < j,
{
}

/// A setup that began with `begin` only ever comes to states in which a
/// bound target has a positive size: the first state is such a state, and
/// every step keeps it so.
pub proof fn lemma_setup_keeps_target_sized(
    handle: DisplayHandle,
    setup: SessionSetup,
    event: SetupEvent,
)
    requires
        setup.sized(),
    ensures
        SessionSetup::initial(handle).sized(),
        setup.next(event).0.sized(),
{
}

} // verus!
