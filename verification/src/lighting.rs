//! Lighting backends and the rules for choosing one.

use vstd::prelude::*;
use crate::error::ErrorCode;
use crate::types::Lighting;

verus! {

/// A way to set the keypad's lighting. The app has two, tried in order.
pub trait LightingClient {
    /// Whether `r` is an answer `available` may give for the backend as it
    /// stands. A backend that asks the system each time may give either,
    /// which is what holds unless an implementation says more.
    open spec fn may_report(&self, r: bool) -> bool {
        true
    }

    /// Whether a request for `lighting` may answer `r` and leave the
    /// backend as `after`. Unless an implementation says more, any answer
    /// and any state may follow.
    open spec fn apply_post(&self, lighting: Lighting, r: Result<(), ErrorCode>, after: &Self) -> bool {
        true
    }

    fn apply(&mut self, lighting: &Lighting) -> (r: Result<(), ErrorCode>)
        ensures old(self).apply_post(*lighting, r, final(self));

    fn available(&self) -> (r: bool)
        ensures self.may_report(r);
}

/// No backend at all: every request fails with `Lighting`.
pub struct NullLighting;

/// A backend that keeps the last request it took, for tests and dry runs.
pub struct RecordingLighting {
    pub available: bool,
    pub last: Option<Lighting>,
}

/// A primary backend, and a fallback used only while the primary is
/// unavailable.
pub struct LightingChain<P, F> {
    primary: P,
    fallback: F,
}

impl<P, F> LightingChain<P, F> {
    /// The primary backend as it stands.
    pub closed spec fn primary_state(&self) -> P {
        self.primary
    }

    /// The fallback backend as it stands.
    pub closed spec fn fallback_state(&self) -> F {
        self.fallback
    }

    pub fn new(primary: P, fallback: F) -> (c: Self)
        ensures c.primary_state() == primary, c.fallback_state() == fallback,
    {
        LightingChain { primary, fallback }
    }

    pub fn primary(&mut self) -> (r: &mut P)
        ensures
            *r == old(self).primary_state(),
            final(self).primary_state() == *final(r),
            final(self).fallback_state() == old(self).fallback_state(),
    {
        &mut self.primary
    }

    pub fn fallback(&mut self) -> (r: &mut F)
        ensures
            *r == old(self).fallback_state(),
            final(self).fallback_state() == *final(r),
            final(self).primary_state() == old(self).primary_state(),
    {
        &mut self.fallback
    }
}

impl LightingClient for NullLighting {
    open spec fn may_report(&self, r: bool) -> bool {
        !r
    }

    open spec fn apply_post(&self, lighting: Lighting, r: Result<(), ErrorCode>, after: &Self) -> bool {
        r == Err::<(), ErrorCode>(ErrorCode::Lighting)
    }

    fn apply(&mut self, lighting: &Lighting) -> (r: Result<(), ErrorCode>) {
        Err(ErrorCode::Lighting)
    }

    fn available(&self) -> (r: bool) {
        false
    }
}

impl LightingClient for RecordingLighting {
    /// It reports its own flag.
    open spec fn may_report(&self, r: bool) -> bool {
        r == self.available
    }

    /// Keeps the request when available; fails with `Lighting` otherwise.
    open spec fn apply_post(&self, lighting: Lighting, r: Result<(), ErrorCode>, after: &Self) -> bool {
        &&& after.available == self.available
        &&& self.available ==> r is Ok && after.last == Some(lighting)
        &&& !self.available ==> r == Err::<(), ErrorCode>(ErrorCode::Lighting) && after.last == self.last
    }

    fn apply(&mut self, lighting: &Lighting) -> (r: Result<(), ErrorCode>) {
        if self.available {
            self.last = Some(*lighting);
            Ok(())
        } else {
            Err(ErrorCode::Lighting)
        }
    }

    fn available(&self) -> (r: bool) {
        self.available
    }
}

/// What a request to a chain may answer and leave behind: the primary
/// takes it when it reports available, the fallback when only it does,
/// and neither being available fails with `Lighting`. The backend not
/// asked is left as it was; a failure of the one asked is the answer.
pub open spec fn chain_apply_post<P: LightingClient, F: LightingClient>(
    before: LightingChain<P, F>,
    lighting: Lighting,
    r: Result<(), ErrorCode>,
    after: LightingChain<P, F>,
) -> bool {
    let (p, f) = (before.primary_state(), before.fallback_state());
    ||| p.may_report(true) && p.apply_post(lighting, r, &after.primary_state())
        && after.fallback_state() == f
    ||| p.may_report(false) && f.may_report(true) && f.apply_post(lighting, r, &after.fallback_state())
        && after.primary_state() == p
    ||| p.may_report(false) && f.may_report(false) && r == Err::<(), ErrorCode>(ErrorCode::Lighting)
        && after.primary_state() == p && after.fallback_state() == f
}

impl<P: LightingClient, F: LightingClient> LightingClient for LightingChain<P, F> {
    open spec fn may_report(&self, r: bool) -> bool {
        ||| r && self.primary_state().may_report(true)
        ||| self.primary_state().may_report(false) && self.fallback_state().may_report(r)
    }

    open spec fn apply_post(&self, lighting: Lighting, r: Result<(), ErrorCode>, after: &Self) -> bool {
        chain_apply_post(*self, lighting, r, *after)
    }

    /// Sends the request to the primary when it reports available, else to
    /// the fallback when that does, and fails with `Lighting` when neither
    /// does. A failure of the chosen backend is the answer: the other is
    /// not tried.
    fn apply(&mut self, lighting: &Lighting) -> (r: Result<(), ErrorCode>) {
        if self.primary.available() {
            return self.primary.apply(lighting);
        }
        if self.fallback.available() {
            return self.fallback.apply(lighting);
        }
        Err(ErrorCode::Lighting)
    }

    fn available(&self) -> (r: bool) {
        self.primary.available() || self.fallback.available()
    }
}

/// OpenRazer can light the pad when its daemon owns the bus or the pad's
/// driver node exists; other front ends do not matter.
pub fn openrazer_lighting_ready(daemon_owns_bus: bool, tartarus_sysfs: bool, other_frontend_count: usize) -> (r: bool)
    ensures r == (daemon_owns_bus || tartarus_sysfs),
{
    daemon_owns_bus || tartarus_sysfs
}

/// Other OpenRazer front ends never make OpenRazer count as missing.
pub fn peer_frontends_make_openrazer_missing(other_frontend_count: usize) -> (r: bool)
    ensures !r,
{
    false
}

/// The app never claims OpenRazer's bus name for itself.
pub fn should_request_openrazer_bus_name() -> (r: bool)
    ensures !r,
{
    false
}

/// A brightness percentage as the driver's 0–255 scale: `b × 2.55`,
/// rounded half up, at most 255.
pub open spec fn razer_brightness(b: u8) -> int {
    let v = (b * 255 + 50) / 100;
    if v > 255 { 255 } else { v }
}

pub fn brightness_to_razer(brightness: u8) -> (r: u8)
    ensures r == razer_brightness(brightness),
{
    let v: u32 = (brightness as u32 * 255 + 50) / 100;
    if v > 255 { 255 } else { v as u8 }
}

/// The value the driver's wave effect takes for its direction.
pub fn wave_sysfs_value() -> (r: u8)
    ensures r == 1,
{
    1
}

} // verus!
