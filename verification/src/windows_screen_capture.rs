use crate::display::{CaptureTarget, CaptureTargetView, Display, DisplayHandle};
use crate::error::CaptureError;
use crate::frame::{
    staging_of, FrameContent, MappedResource, ResourceHandle, TextureDesc, TextureUsage,
    BYTES_PER_PIXEL,
};
use crate::relay::FrameRelay;
use crate::setup::{release_order, release_plan, refusal_at, refusal_of, Resource, SessionSetup, SetupPhase};
use tokio::sync::mpsc::Receiver;
use vstd::prelude::*;

verus! {

/// The life of a session: created, then started, then stopped. It never
/// goes back.
#[derive(Clone, Copy, PartialEq, Eq, Debug, Structural)]
pub enum SessionState {
    Created,
    Started,
    Stopped,
}

/// One capture session on one display: its target, where it is in its
/// life, and the staging resources that are mapped and not yet released.
#[derive(Debug)]
pub struct WindowsScreenCapture {
    target: CaptureTarget,
    state: SessionState,
    mapped: Vec<ResourceHandle>,
}

pub ghost struct SessionView {
    pub target: CaptureTargetView,
    pub state: SessionState,
    pub mapped: Set<ResourceHandle>,
}

impl View for WindowsScreenCapture {
    type V = SessionView;

    closed spec fn view(&self) -> SessionView {
        SessionView { target: self.target@, state: self.state, mapped: self.mapped@.to_set() }
    }
}

/// The session that a setup gives for the display `handle`, or the error
/// that creating it ends in. There is a session when the setup is ready,
/// was made for that display, and has a target of positive size. A failed
/// setup gives its error. A setup that was left before its end, or that is
/// not this display's, gives the error that a refusal at its phase means.
pub open spec fn creation(handle: DisplayHandle, setup: SessionSetup) -> Result<
    SessionView,
    CaptureError,
> {
    if setup.phase is Ready && setup.handle == handle && setup.width > 0 && setup.height > 0 {
        Ok(
            SessionView {
                target: CaptureTargetView { handle, width: setup.width, height: setup.height },
                state: SessionState::Created,
                mapped: Set::empty(),
            },
        )
    } else {
        match setup.phase {
            SetupPhase::Failed(error) => Err(error),
            _ => Err(refusal_at(setup.phase)),
        }
    }
}

/// Starting: a created session starts; a started one is told so and stays
/// as it is; a stopped one cannot start.
pub open spec fn starting(session: SessionView) -> (SessionView, Result<(), CaptureError>) {
    match session.state {
        SessionState::Created => (SessionView { state: SessionState::Started, ..session }, Ok(())),
        SessionState::Started => (session, Err(CaptureError::AlreadyStarted)),
        SessionState::Stopped => (session, Err(CaptureError::NotStarted)),
    }
}

/// Stopping: a session that is not yet stopped stops, and everything that
/// it holds is to be released; a stopped one stays as it is, with nothing
/// left to release.
pub open spec fn stopping(session: SessionView) -> (SessionView, Seq<Resource>) {
    if session.state == SessionState::Stopped {
        (session, Seq::empty())
    } else {
        (SessionView { state: SessionState::Stopped, ..session }, release_plan(SetupPhase::Ready))
    }
}

/// The staging description for a frame's texture, where there is one to
/// make: only a started session extracts, and only from a surface that
/// resolved to a texture.
pub open spec fn staging(session: SessionView, source: Option<TextureDesc>) -> Result<
    TextureDesc,
    CaptureError,
> {
    if session.state != SessionState::Started {
        Err(CaptureError::NotStarted)
    } else {
        match source {
            Some(desc) => Ok(staging_of(desc)),
            None => Err(CaptureError::SurfaceUnavailable),
        }
    }
}

/// Whether a reported mapping can be handed to the consumer: its rows have
/// room for the target's width, and the resource is not one that is still
/// mapped.
pub open spec fn acceptable(session: SessionView, mapping: MappedResource) -> bool {
    mapping.row_pitch as int >= BYTES_PER_PIXEL as int * session.target.width as int
        && !session.mapped.contains(mapping.resource)
}

/// Extracting: a started session takes an acceptable mapping into its
/// ledger and describes the frame behind it; everything else is an error
/// and leaves the session as it is.
pub open spec fn extracting(session: SessionView, mapping: Option<MappedResource>) -> (
    SessionView,
    Result<FrameContent, CaptureError>,
) {
    if session.state != SessionState::Started {
        (session, Err(CaptureError::NotStarted))
    } else {
        match mapping {
            Some(m) if acceptable(session, m) => (
                SessionView { mapped: session.mapped.insert(m.resource), ..session },
                Ok(
                    FrameContent {
                        resource: m.resource,
                        width: session.target.width,
                        height: session.target.height,
                        row_pitch: m.row_pitch,
                    },
                ),
            ),
            _ => (session, Err(CaptureError::MapFailed)),
        }
    }
}

/// Releasing: a resource that is mapped leaves the ledger and is to be
/// unmapped; any other is refused.
pub open spec fn releasing(session: SessionView, resource: ResourceHandle) -> (SessionView, bool) {
    if session.mapped.contains(resource) {
        (SessionView { mapped: session.mapped.remove(resource), ..session }, true)
    } else {
        (session, false)
    }
}

/// The session after one extraction and release for each mapping of
/// `mappings`, one after the other.
pub open spec fn after_cycles(session: SessionView, mappings: Seq<MappedResource>) -> SessionView
    decreases mappings.len(),
{
    if mappings.len() == 0 {
        session
    } else {
        let before = after_cycles(session, mappings.drop_last());
        let m = mappings.last();
        releasing(extracting(before, Some(m)).0, m.resource).0
    }
}

impl WindowsScreenCapture {
    #[verifier::type_invariant]
    spec fn ledger_is_a_set(&self) -> bool {
        self.mapped@.no_duplicates()
    }

    /// Makes the session that `setup` has prepared for `display`. A session
    /// that is returned has a target that is not empty in either dimension.
    pub fn new(display: &Display, setup: &SessionSetup) -> (session: Result<Self, CaptureError>)
        ensures
            session matches Ok(s) ==> creation(display.handle, *setup) == Ok::<
                SessionView,
                CaptureError,
            >(s@) && s@.target.width > 0 && s@.target.height > 0,
            session matches Err(error) ==> creation(display.handle, *setup) == Err::<
                SessionView,
                CaptureError,
            >(error),
    {
        match setup.phase {
            SetupPhase::Ready => {
                if setup.handle == display.handle && setup.width > 0 && setup.height > 0 {
                    let target = CaptureTarget::sized(display.handle, setup.width, setup.height);
                    let session = WindowsScreenCapture {
                        target,
                        state: SessionState::Created,
                        mapped: Vec::new(),
                    };
                    assert(session.mapped@.to_set() =~= Set::<ResourceHandle>::empty());
                    Ok(session)
                } else {
                    Err(refusal_of(setup.phase))
                }
            },
            SetupPhase::Failed(error) => Err(error),
            _ => Err(refusal_of(setup.phase)),
        }
    }

    /// Where the session is in its life.
    pub fn state(&self) -> (state: SessionState)
        ensures
            state == self@.state,
    {
        self.state
    }

    /// The target that the session captures.
    pub fn target(&self) -> (target: &CaptureTarget)
        ensures
            target@ == self@.target,
    {
        &self.target
    }

    /// How many staging resources are mapped and not yet released.
    pub fn mapped_count(&self) -> (count: usize)
        ensures
            count == self@.mapped.len(),
    {
        proof {
            use_type_invariant(self);
            self.mapped@.unique_seq_to_set();
        }
        self.mapped.len()
    }

    /// Opens the hand-off through which arrived frames reach the consumer:
    /// the relay for the frame-arrived callback, and the one receiving end.
    /// The session itself is as before.
    pub fn get_frame_receiver<T>(&mut self) -> (ends: (FrameRelay<T>, Receiver<T>))
        ensures
            final(self)@ == old(self)@,
    {
        FrameRelay::open()
    }

    /// Starts the session. `Ok` tells the host to start the capture on the
    /// compositor, which happens for the first start of a created session
    /// and never again: a session that is running answers `AlreadyStarted`,
    /// one that was stopped answers `NotStarted`, and neither changes.
    pub fn start_capture_session(&mut self) -> (started: Result<(), CaptureError>)
        ensures
            (final(self)@, started) == starting(old(self)@),
    {
        proof {
            use_type_invariant(&*self);
        }
        match self.state {
            SessionState::Created => {
                self.state = SessionState::Started;
                Ok(())
            },
            SessionState::Started => Err(CaptureError::AlreadyStarted),
            SessionState::Stopped => Err(CaptureError::NotStarted),
        }
    }

    /// Stops the session, started or not, and lists what the host is to
    /// release, in order: the frame pool is closed before the target is let
    /// go. A second stop finds nothing left to release.
    pub fn stop(&mut self) -> (release: Vec<Resource>)
        ensures
            (final(self)@, release@) == stopping(old(self)@),
    {
        proof {
            use_type_invariant(&*self);
        }
        match self.state {
            SessionState::Stopped => {
                let nothing: Vec<Resource> = Vec::new();
                assert(nothing@ =~= Seq::<Resource>::empty());
                nothing
            },
            _ => {
                self.state = SessionState::Stopped;
                release_order(SetupPhase::Ready)
            },
        }
    }

    /// Describes the staging texture into which a frame's texture is
    /// copied. `source` describes the frame's texture, and is `None` where
    /// the frame's surface did not resolve to a texture.
    pub fn surface_to_texture(&self, source: Option<TextureDesc>) -> (desc: Result<
        TextureDesc,
        CaptureError,
    >)
        ensures
            desc == staging(self@, source),
    {
        match self.state {
            SessionState::Started => match source {
                Some(d) => Ok(
                    TextureDesc {
                        width: d.width,
                        height: d.height,
                        mip_levels: d.mip_levels,
                        array_size: d.array_size,
                        format: d.format,
                        sample_count: d.sample_count,
                        sample_quality: d.sample_quality,
                        usage: TextureUsage::Staging,
                        bind_flags: 0,
                        cpu_read: true,
                        cpu_write: false,
                        misc_flags: 0,
                    },
                ),
                None => Err(CaptureError::SurfaceUnavailable),
            },
            _ => Err(CaptureError::NotStarted),
        }
    }

    /// Takes the device context's answer to the request to map a frame's
    /// staging copy: `None` where it refused. On `Ok` the resource is
    /// entered in the ledger and the frame's layout is returned; the bytes
    /// stay valid until the resource is released. On an error the ledger is
    /// as before, and a mapping that was reported is the host's to undo.
    pub fn get_frame_content(&mut self, mapping: Option<MappedResource>) -> (content: Result<
        FrameContent,
        CaptureError,
    >)
        ensures
            (final(self)@, content) == extracting(old(self)@, mapping),
    {
        proof {
            use_type_invariant(&*self);
        }
        match self.state {
            SessionState::Started => {},
            _ => {
                return Err(CaptureError::NotStarted);
            },
        }
        let m = match mapping {
            Some(m) => m,
            None => {
                return Err(CaptureError::MapFailed);
            },
        };
        let size = self.target.size();
        if (m.row_pitch as u64) < 4 * (size.0 as u64) {
            return Err(CaptureError::MapFailed);
        }
        if self.position_of(&m.resource).is_some() {
            return Err(CaptureError::MapFailed);
        }
        let mut ledger: Vec<ResourceHandle> = Vec::new();
        core::mem::swap(&mut self.mapped, &mut ledger);
        ledger.push(m.resource);
        self.mapped = ledger;
        proof {
            let before = old(self).mapped@;
            assert(!before.contains(m.resource));
            assert(self.mapped@ =~= before.push(m.resource));
            assert(self.mapped@.to_set() =~= before.to_set().insert(m.resource)) by {
                assert forall|r: ResourceHandle|
                    self.mapped@.contains(r) <==> (before.contains(r) || r == m.resource) by {
                    if before.contains(r) {
                        let k = choose|k: int| 0 <= k < before.len() && before[k] == r;
                        assert(self.mapped@[k] == r);
                    }
                    if r == m.resource {
                        assert(self.mapped@[before.len() as int] == r);
                    }
                }
            }
        }
        Ok(
            FrameContent {
                resource: m.resource,
                width: size.0,
                height: size.1,
                row_pitch: m.row_pitch,
            },
        )
    }

    /// Releases a mapped resource. `true` tells the host to unmap it, which
    /// happens once for each successful extraction: a resource that is not
    /// in the ledger is refused with `false`, and the host unmaps nothing.
    /// A session releases in every state, also after it was stopped.
    pub fn unmap_d3d_context(&mut self, resource: &ResourceHandle) -> (unmap: bool)
        ensures
            (final(self)@, unmap) == releasing(old(self)@, *resource),
    {
        proof {
            use_type_invariant(&*self);
        }
        match self.position_of(resource) {
            Some(at) => {
                let mut ledger: Vec<ResourceHandle> = Vec::new();
                core::mem::swap(&mut self.mapped, &mut ledger);
                ledger.remove(at);
                self.mapped = ledger;
                proof {
                    let before = old(self).mapped@;
                    let after = self.mapped@;
                    assert(after =~= before.remove(at as int));
                    assert(after.to_set() =~= before.to_set().remove(*resource)) by {
                        assert forall|r: ResourceHandle|
                            after.contains(r) <==> (before.contains(r) && r != *resource) by {
                            if after.contains(r) {
                                let k = choose|k: int| 0 <= k < after.len() && after[k] == r;
                                if k < at {
                                    assert(before[k] == r);
                                } else {
                                    assert(before[k + 1] == r);
                                }
                            }
                            if before.contains(r) && r != *resource {
                                let k = choose|k: int| 0 <= k < before.len() && before[k] == r;
                                if k < at {
                                    assert(after[k] == r);
                                } else {
                                    assert(after[k - 1] == r);
                                }
                            }
                        }
                    }
                }
                true
            },
            None => false,
        }
    }

    /// Where in the ledger `resource` stands, if it is mapped.
    fn position_of(&self, resource: &ResourceHandle) -> (at: Option<usize>)
        ensures
            at matches Some(i) ==> i < self.mapped@.len() && self.mapped@[i as int] == *resource,
            at is None ==> !self.mapped@.contains(*resource),
            at is Some <==> self@.mapped.contains(*resource),
    {
        let mut i: usize = 0;
        while i < self.mapped.len()
            invariant
                i <= self.mapped@.len(),
                forall|k: int| 0 <= k < i ==> self.mapped@[k] != *resource,
            decreases self.mapped@.len() - i,
        {
            if self.mapped[i] == *resource {
                return Some(i);
            }
            i = i + 1;
        }
        None
    }
}

/// A second start changes nothing and tells the host to start nothing: of
/// two starts in a row, only the first can ask for the capture to begin.
pub proof fn lemma_second_start_is_refused(session: SessionView)
    ensures
        starting(starting(session).0).0 == starting(session).0,
        starting(starting(session).0).1 is Err,
        starting(session).1 is Ok ==> starting(starting(session).0).1 == Err::<(), CaptureError>(
            CaptureError::AlreadyStarted,
        ),
{
}

/// A session stops from every state, started or not, and a second stop
/// changes nothing and has nothing to release.
pub proof fn lemma_stop_is_idempotent(session: SessionView)
    ensures
        stopping(session).0.state == SessionState::Stopped,
        session.state != SessionState::Stopped ==> stopping(session).1 == release_plan(
            SetupPhase::Ready,
        ),
        stopping(stopping(session).0) == (stopping(session).0, Seq::<Resource>::empty()),
{
}

/// A stopped session stays stopped: it does not start and does not extract.
pub proof fn lemma_stopped_is_final(session: SessionView, mapping: Option<MappedResource>)
    requires
        session.state == SessionState::Stopped,
    ensures
        starting(session) == (session, Err::<(), CaptureError>(CaptureError::NotStarted)),
        extracting(session, mapping) == (
            session,
            Err::<FrameContent, CaptureError>(CaptureError::NotStarted),
        ),
{
}

/// An extraction followed by the release of its resource leaves a started
/// session exactly as it was, and both succeed.
pub proof fn lemma_cycle_restores(session: SessionView, mapping: MappedResource)
    requires
        session.state == SessionState::Started,
        acceptable(session, mapping),
    ensures
        extracting(session, Some(mapping)).1 is Ok,
        releasing(extracting(session, Some(mapping)).0, mapping.resource) == (session, true),
{
    let held = extracting(session, Some(mapping)).0;
    assert(held.mapped.remove(mapping.resource) =~= session.mapped);
}

/// Any number of cycles of extraction and release, one after the other,
/// leave a started session exactly as it was: nothing stays mapped, and the
/// next cycle finds the session ready for it.
pub proof fn lemma_cycles_leave_no_trace(session: SessionView, mappings: Seq<MappedResource>)
    requires
        session.state == SessionState::Started,
        forall|i: int| 0 <= i < mappings.len() ==> acceptable(session, #[trigger] mappings[i]),
    ensures
        after_cycles(session, mappings) == session,
    decreases mappings.len(),
{
    if mappings.len() > 0 {
        lemma_cycles_leave_no_trace(session, mappings.drop_last());
        lemma_cycle_restores(session, mappings.last());
    }
}

} // verus!
