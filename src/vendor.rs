//! GPU utilisation through a vendor SDK session (NVML).
//!
//! The session is opened on the first query. Where opening fails, the failure is
//! kept: later queries answer `None` at once and never try to open it again.

use nvml_wrapper::error::NvmlError;
use nvml_wrapper::{Device, Nvml};
use vstd::prelude::*;

verus! {

#[verifier::external_type_specification]
#[verifier::external_body]
pub struct ExNvml(Nvml);

#[verifier::external_type_specification]
#[verifier::external_body]
pub struct ExNvmlError(NvmlError);

#[verifier::external_type_specification]
#[verifier::external_body]
pub struct ExDevice<'a>(Device<'a>);

/// Relies on `Nvml::init`: opens an NVML session, or reports why it could not.
#[verifier::external_body]
fn nvml_init() -> (r: Result<Nvml, NvmlError>) {
    Nvml::init()
}

/// Relies on `Nvml::device_by_index`: the handle of the device at `index`.
#[verifier::external_body]
fn nvml_device(nvml: &Nvml, index: u32) -> (r: Result<Device<'_>, NvmlError>) {
    nvml.device_by_index(index)
}

/// Relies on `Device::utilization_rates`: its `gpu` field, the percentage of the
/// last sample period during which a kernel ran on the device.
#[verifier::external_body]
fn nvml_gpu_utilization(device: &Device<'_>) -> (r: Result<u32, NvmlError>) {
    device.utilization_rates().map(|u| u.gpu)
}

/// Where a session stands.
#[derive(Clone, Copy, Debug, PartialEq, Eq, Structural)]
pub enum SessionPhase {
    /// Opening has not been tried.
    Untried,
    /// Opening was tried and failed.
    Unavailable,
    /// The session is open.
    Open,
}

enum SessionState<H> {
    Untried,
    Unavailable,
    Open(H),
}

/// A vendor SDK session of type `H`, opened at most once.
pub struct SdkSession<H> {
    state: SessionState<H>,
    attempts: Ghost<nat>,
}

impl<H> SdkSession<H> {
    pub closed spec fn view(&self) -> SessionPhase {
        match self.state {
            SessionState::Untried => SessionPhase::Untried,
            SessionState::Unavailable => SessionPhase::Unavailable,
            SessionState::Open(_) => SessionPhase::Open,
        }
    }

    /// How many times opening the session has been tried.
    pub closed spec fn attempts(&self) -> nat {
        self.attempts@
    }

    /// The open handle, if any.
    pub closed spec fn handle_spec(&self) -> Option<H> {
        match self.state {
            SessionState::Open(h) => Some(h),
            _ => None,
        }
    }

    pub closed spec fn wf(&self) -> bool {
        &&& self.attempts@ <= 1
        &&& (self.attempts@ == 0 <==> self.state is Untried)
    }

    /// A session whose opening has not been tried.
    pub fn new() -> (r: Self)
        ensures
            r.wf(),
            r@ == SessionPhase::Untried,
            r.attempts() == 0,
    {
        SdkSession { state: SessionState::Untried, attempts: Ghost(0) }
    }

    /// Whether opening must still be tried.
    pub fn needs_open(&self) -> (r: bool)
        ensures
            r == (self@ == SessionPhase::Untried),
    {
        match self.state {
            SessionState::Untried => true,
            _ => false,
        }
    }

    /// Records the outcome of the one attempt to open the session.
    pub fn record_open(&mut self, opened: Option<H>)
        requires
            old(self).wf(),
            old(self)@ == SessionPhase::Untried,
        ensures
            final(self).wf(),
            final(self).attempts() == 1,
            final(self).handle_spec() == opened,
            final(self)@ == (if opened is Some {
                SessionPhase::Open
            } else {
                SessionPhase::Unavailable
            }),
    {
        match opened {
            Some(h) => self.state = SessionState::Open(h),
            None => self.state = SessionState::Unavailable,
        }
        self.attempts = Ghost(1);
    }

    /// The open handle, if any.
    pub fn handle(&self) -> (r: Option<&H>)
        ensures
            r == match self.handle_spec() {
                Some(h) => Some(&h),
                None => None::<&H>,
            },
            r is Some <==> self@ == SessionPhase::Open,
    {
        match &self.state {
            SessionState::Open(h) => Some(h),
            _ => None,
        }
    }
}

/// What a query does to a session: it opens it where opening was never tried,
/// and otherwise leaves it as it is.
pub open spec fn query_step<H>(pre: SdkSession<H>, post: SdkSession<H>) -> bool {
    &&& post.wf()
    &&& post@ != SessionPhase::Untried
    &&& pre@ == SessionPhase::Untried ==> post.attempts() == pre.attempts() + 1
    &&& pre@ != SessionPhase::Untried ==> post@ == pre@ && post.attempts() == pre.attempts()
        && post.handle_spec() == pre.handle_spec()
}

impl SdkSession<Nvml> {
    /// Utilisation of the first device, in percent, or `None` where the session
    /// could not be opened, there is no device, or the device does not report it.
    pub fn current_gpu_percent(&mut self) -> (r: Option<u32>)
        requires
            old(self).wf(),
        ensures
            query_step(*old(self), *final(self)),
            final(self)@ == SessionPhase::Unavailable ==> r is None,
            r is Some ==> final(self)@ == SessionPhase::Open,
    {
        if self.needs_open() {
            self.record_open(nvml_init().ok());
        }
        match self.handle() {
            Some(nvml) => match nvml_device(nvml, 0) {
                Ok(device) => nvml_gpu_utilization(&device).ok(),
                Err(_) => None,
            },
            None => None,
        }
    }
}

/// A session whose opening failed stays closed: every later query answers
/// `None` and does not try to open it again.
pub proof fn lemma_failed_open_is_kept<H>(
    s0: SdkSession<H>,
    s1: SdkSession<H>,
    s2: SdkSession<H>,
)
    requires
        s0.wf(),
        query_step(s0, s1),
        s1@ == SessionPhase::Unavailable,
        query_step(s1, s2),
    ensures
        s2@ == SessionPhase::Unavailable,
        s2.attempts() == s1.attempts(),
        s2.attempts() <= 1,
{
}

} // verus!
