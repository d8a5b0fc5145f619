//! The presentation-surface lifecycle: capability negotiation, the
//! per-frame acquisition protocol, and recovery from the failure modes a
//! presentation backend can report.
//!
//! The backend itself (GPU driver, window system) is outside the library.
//! Callers query it, translate what it reported into the plain values and
//! outcomes defined here, and perform the actions these functions decide
//! on: every decision — which format, which alpha mode, when to
//! reconfigure, when to rebuild, when to give up — is made and verified
//! here.

use vstd::prelude::*;

use crate::settings::GraphicsSettings;

verus! {

/// A pixel format as reported by the backend, identified by a plain code.
/// The caller that talks to the backend keeps the mapping between codes
/// and the backend's own format values.
#[derive(Debug, Clone, Copy, PartialEq, Eq, Structural)]
pub struct PixelFormat(pub u32);

/// How a frame's alpha channel is combined with what the window-system
/// compositor already shows.
#[derive(Debug, Clone, Copy, PartialEq, Eq, Structural)]
pub enum AlphaMode {
    Auto,
    Opaque,
    PreMultiplied,
    PostMultiplied,
    Inherit,
}

/// When a presented frame becomes visible relative to vertical sync.
#[derive(Debug, Clone, Copy, PartialEq, Eq, Structural)]
pub enum PresentMode {
    AutoVsync,
    AutoNoVsync,
}

/// Why binding or negotiating a surface failed.  Both are reported once at
/// setup time and are fatal: there is no degraded mode.
#[derive(Debug, Clone, Copy, PartialEq, Eq, Structural)]
pub enum BindError {
    /// The drawable's native handle type is not presentable on this
    /// backend.
    UnsupportedPlatform,
    /// The backend reported no supported pixel format for the drawable.
    Incompatible,
}

/// The one acquisition failure that must not be retried: the backend ran
/// out of memory, and retrying cannot recover that.
#[derive(Debug, Clone, Copy, PartialEq, Eq, Structural)]
pub enum FatalError {
    OutOfMemory,
}

/// Where the surface stands in its lifecycle.
#[derive(Debug, Clone, Copy, PartialEq, Eq, Structural)]
pub enum SurfaceState {
    /// Bound to a drawable but no configuration applied yet; building a
    /// surface applies one, so a built surface is never seen here.
    Unconfigured,
    /// A configuration is applied; frames can be acquired.
    Configured,
    /// The native surface object was invalidated; recreation leaves this
    /// state before the next attempt, so it never outlives an attempt.
    Lost,
}

/// What the backend reported for one acquisition attempt.
#[derive(Debug, Clone, Copy, PartialEq, Eq, Structural)]
pub enum AcquireOutcome {
    /// A frame was returned and the configuration still matches.
    Optimal,
    /// A frame was returned but the configuration is stale; the frame is
    /// discarded and the surface reconfigured.
    Suboptimal,
    /// No frame was ready within the backend's deadline.
    Timeout,
    /// The configuration no longer matches the drawable, typically after a
    /// resize.
    Outdated,
    /// The surface object itself was invalidated and must be rebuilt.
    Lost,
    /// The backend exhausted its memory.
    OutOfMemory,
}

/// What the backend supports for a given drawable, queried once per
/// backend/drawable pair.  `formats` is ordered: the first entry is the
/// backend's preferred default.
#[derive(Debug, Clone)]
pub struct SurfaceCapabilities {
    pub formats: Vec<PixelFormat>,
    pub alpha_modes: Vec<AlphaMode>,
}

/// The concrete, versioned configuration a surface currently holds.
/// `version` counts how many times a configuration has been applied.
#[derive(Debug, Clone, Copy, PartialEq, Eq, Structural)]
pub struct SurfaceConfig {
    pub width: u32,
    pub height: u32,
    pub format: PixelFormat,
    pub present_mode: PresentMode,
    pub alpha_mode: AlphaMode,
    pub version: u64,
}

/// The alpha mode negotiation picks from what the backend supports:
/// post-multiplied first — it composites correctly with a transparent
/// window background without an extra pass — then pre-multiplied, then
/// the backend's automatic mode.
pub open spec fn chosen_alpha(modes: Seq<AlphaMode>) -> AlphaMode {
    if modes.contains(AlphaMode::PostMultiplied) {
        AlphaMode::PostMultiplied
    } else if modes.contains(AlphaMode::PreMultiplied) {
        AlphaMode::PreMultiplied
    } else {
        AlphaMode::Auto
    }
}

/// The present mode negotiation picks: an automatic vsync-preferring mode
/// when vsync is requested, else an automatic non-blocking one.
pub open spec fn present_mode_for(vsync: bool) -> PresentMode {
    if vsync {
        PresentMode::AutoVsync
    } else {
        PresentMode::AutoNoVsync
    }
}

/// Alpha-mode selection is deterministic and priority-ordered: wherever
/// post-multiplied alpha is supported it is chosen; failing that,
/// pre-multiplied wherever supported; failing both, the automatic mode.
pub proof fn lemma_alpha_priority(modes: Seq<AlphaMode>)
    ensures
        modes.contains(AlphaMode::PostMultiplied) ==> chosen_alpha(modes)
            == AlphaMode::PostMultiplied,
        !modes.contains(AlphaMode::PostMultiplied) && modes.contains(AlphaMode::PreMultiplied)
            ==> chosen_alpha(modes) == AlphaMode::PreMultiplied,
        !modes.contains(AlphaMode::PostMultiplied) && !modes.contains(AlphaMode::PreMultiplied)
            ==> chosen_alpha(modes) == AlphaMode::Auto,
{
}

fn contains_mode(modes: &Vec<AlphaMode>, m: AlphaMode) -> (r: bool)
    ensures
        r == modes@.contains(m),
{
    let mut i: usize = 0;
    while i < modes.len()
        invariant
            0 <= i <= modes@.len(),
            forall|j: int| 0 <= j < i ==> modes@[j] != m,
        decreases modes@.len() - i,
    {
        if modes[i] == m {
            assert(modes@[i as int] == m);
            return true;
        }
        i = i + 1;
    }
    false
}

/// Pick the supported alpha mode of highest priority.
pub fn select_alpha(modes: &Vec<AlphaMode>) -> (r: AlphaMode)
    ensures
        r == chosen_alpha(modes@),
{
    if contains_mode(modes, AlphaMode::PostMultiplied) {
        AlphaMode::PostMultiplied
    } else if contains_mode(modes, AlphaMode::PreMultiplied) {
        AlphaMode::PreMultiplied
    } else {
        AlphaMode::Auto
    }
}

/// Pick concrete configuration values from the reported capabilities: the
/// backend's preferred (first) pixel format, the highest-priority
/// supported alpha mode, the present mode the vsync request maps to, and
/// the override size if one is supplied, else the drawable's current
/// physical size.  Fails, with no partial configuration, exactly when the
/// backend reported no pixel format at all.
pub fn negotiate(
    caps: &SurfaceCapabilities,
    vsync_requested: bool,
    override_size: Option<(u32, u32)>,
    drawable_size: (u32, u32),
) -> (r: Result<SurfaceConfig, BindError>)
    ensures
        r is Ok <==> caps.formats@.len() > 0,
        caps.formats@.len() == 0 ==> r == Err::<SurfaceConfig, BindError>(BindError::Incompatible),
        r matches Ok(c) ==> {
            &&& c.format == caps.formats@[0]
            &&& c.alpha_mode == chosen_alpha(caps.alpha_modes@)
            &&& c.present_mode == present_mode_for(vsync_requested)
            &&& (override_size matches Some(s) ==> (c.width, c.height) == s)
            &&& (override_size is None ==> (c.width, c.height) == drawable_size)
            &&& c.version == 1
        },
{
    if caps.formats.len() == 0 {
        return Err(BindError::Incompatible);
    }
    let format = caps.formats[0];
    let alpha_mode = select_alpha(&caps.alpha_modes);
    let present_mode = if vsync_requested {
        PresentMode::AutoVsync
    } else {
        PresentMode::AutoNoVsync
    };
    let (width, height) = match override_size {
        Some(s) => s,
        None => drawable_size,
    };
    Ok(SurfaceConfig { width, height, format, present_mode, alpha_mode, version: 1 })
}

/// A one-shot handle to an acquired backend frame.  `attempt` is the
/// number of the acquisition attempt (counted over the surface's life)
/// that produced it, and `generation` the surface generation it belongs
/// to; holding a frame across a reconfiguration is not supported.  The
/// caller must present it or drop it exactly once, which moving it into
/// [`AcquiredFrame::present`] enforces.
#[derive(Debug, Clone, Copy, PartialEq, Eq, Structural)]
pub struct AcquiredFrame {
    pub attempt: u64,
    pub generation: u64,
}

impl AcquiredFrame {
    /// Consume the frame for presentation.  The handing over to the
    /// backend happens where the backend lives; this move makes a second
    /// present, or a present after a drop, impossible.
    pub fn present(self) {
    }
}

/// The binding of one drawable to the backend, before any configuration
/// has been negotiated.  The drawable is named by a caller-chosen identity
/// so that every later rebuild can be held to reuse the same one.
#[derive(Debug, Clone, Copy, PartialEq, Eq, Structural)]
pub struct SurfaceBuilder {
    pub drawable: u64,
}

/// The configured, live surface: its negotiated configuration, where it
/// stands in its lifecycle, and how often its native object has been
/// rebuilt.  `generation` counts rebuilds of the native surface object;
/// `attempts` counts acquisition attempts over the surface's life.
#[derive(Debug)]
pub struct Surface {
    pub drawable: u64,
    pub vsync: bool,
    pub format: PixelFormat,
    pub alpha_modes: Vec<AlphaMode>,
    pub config: SurfaceConfig,
    pub state: SurfaceState,
    pub generation: u64,
    pub attempts: u64,
}

impl SurfaceBuilder {
    /// Bind a drawable to the backend.  `presentable` is the backend's
    /// verdict on the drawable's native handle type; where it is refused
    /// there is nothing to build on and binding fails.
    pub fn new(drawable: u64, presentable: bool) -> (r: Result<SurfaceBuilder, BindError>)
        ensures
            r is Ok <==> presentable,
            r matches Ok(b) ==> b.drawable == drawable,
            !presentable ==> r == Err::<SurfaceBuilder, BindError>(BindError::UnsupportedPlatform),
    {
        if presentable {
            Ok(SurfaceBuilder { drawable })
        } else {
            Err(BindError::UnsupportedPlatform)
        }
    }

    /// Negotiate against the reported capabilities and configure the
    /// surface once.  Fails exactly when the backend reported no pixel
    /// format; otherwise the returned surface is configured to the
    /// drawable's current physical size, with the negotiated format,
    /// alpha mode and present mode.
    pub fn build(
        self,
        settings: &GraphicsSettings,
        caps: SurfaceCapabilities,
        drawable_size: (u32, u32),
    ) -> (r: Result<Surface, BindError>)
        ensures
            r is Ok <==> caps.formats@.len() > 0,
            caps.formats@.len() == 0 ==> r == Err::<Surface, BindError>(BindError::Incompatible),
            r matches Ok(s) ==> {
                &&& s.wf()
                &&& s.drawable == self.drawable
                &&& s.vsync == settings.vsync
                &&& s.format == caps.formats@[0]
                &&& s.alpha_modes@ == caps.alpha_modes@
                &&& (s.config.width, s.config.height) == drawable_size
                &&& s.config.version == 1
                &&& s.generation == 0
                &&& s.attempts == 0
            },
    {
        let config = match negotiate(&caps, settings.vsync, None, drawable_size) {
            Ok(c) => c,
            Err(e) => {
                return Err(e);
            },
        };
        Ok(
            Surface {
                drawable: self.drawable,
                vsync: settings.vsync,
                format: config.format,
                alpha_modes: caps.alpha_modes,
                config,
                state: SurfaceState::Configured,
                generation: 0,
                attempts: 0,
            },
        )
    }
}

impl Surface {
    /// A surface is well formed when its configuration agrees with what
    /// was negotiated for it — same pixel format, the present mode its
    /// vsync request maps to, the highest-priority supported alpha mode —
    /// and it stands configured.  Construction establishes this and every
    /// operation preserves it.
    pub open spec fn wf(self) -> bool {
        &&& self.config.format == self.format
        &&& self.config.present_mode == present_mode_for(self.vsync)
        &&& self.config.alpha_mode == chosen_alpha(self.alpha_modes@)
        &&& self.state is Configured
        &&& self.config.version >= 1
    }

    /// The negotiated pixel format, needed by callers that build a
    /// compatible render pipeline.
    pub fn format(&self) -> (r: PixelFormat)
        ensures
            r == self.format,
    {
        self.format
    }

    /// Apply a configuration: the explicit size where one is given (a
    /// resize event), else the drawable's current physical size, which the
    /// caller re-reads for every call — the surface never caches one.
    /// Format stays as negotiated; present mode and alpha mode are
    /// re-derived from what negotiation recorded.  Always leaves the
    /// surface configured, with the version advanced by one.
    pub fn configure(&mut self, size: Option<(u32, u32)>, drawable_size: (u32, u32))
        requires
            old(self).config.version < u64::MAX,
        ensures
            final(self).state is Configured,
            final(self).drawable == old(self).drawable,
            final(self).vsync == old(self).vsync,
            final(self).format == old(self).format,
            final(self).alpha_modes == old(self).alpha_modes,
            final(self).generation == old(self).generation,
            final(self).attempts == old(self).attempts,
            final(self).config.version == old(self).config.version + 1,
            final(self).config.format == old(self).format,
            final(self).config.present_mode == present_mode_for(old(self).vsync),
            final(self).config.alpha_mode == chosen_alpha(old(self).alpha_modes@),
            size matches Some(s) ==> (final(self).config.width, final(self).config.height) == s,
            size is None ==> (final(self).config.width, final(self).config.height)
                == drawable_size,
    {
        let present_mode = if self.vsync {
            PresentMode::AutoVsync
        } else {
            PresentMode::AutoNoVsync
        };
        let alpha_mode = select_alpha(&self.alpha_modes);
        let (width, height) = match size {
            Some(s) => s,
            None => drawable_size,
        };
        self.config = SurfaceConfig {
            width,
            height,
            format: self.format,
            present_mode,
            alpha_mode,
            version: self.config.version + 1,
        };
        self.state = SurfaceState::Configured;
    }

    /// Rebuild the native surface object after it was lost, from the
    /// retained backend connection and the same drawable the surface was
    /// built from — the drawable identity never changes — then apply the
    /// configuration afresh at the drawable's current size.
    pub fn recreate(&mut self, drawable_size: (u32, u32))
        requires
            old(self).generation < u64::MAX,
            old(self).config.version < u64::MAX,
        ensures
            final(self).state is Configured,
            final(self).drawable == old(self).drawable,
            final(self).vsync == old(self).vsync,
            final(self).format == old(self).format,
            final(self).alpha_modes == old(self).alpha_modes,
            final(self).generation == old(self).generation + 1,
            final(self).attempts == old(self).attempts,
            final(self).config.version == old(self).config.version + 1,
            final(self).config.format == old(self).format,
            final(self).config.present_mode == present_mode_for(old(self).vsync),
            final(self).config.alpha_mode == chosen_alpha(old(self).alpha_modes@),
            (final(self).config.width, final(self).config.height) == drawable_size,
    {
        self.generation = self.generation + 1;
        self.configure(None, drawable_size);
    }

    /// A window-system resize event: the caller already knows the
    /// authoritative new size, so it is applied directly, bypassing the
    /// acquisition retry loop.
    pub fn resized(&mut self, new_size: (u32, u32))
        requires
            old(self).wf(),
            old(self).config.version < u64::MAX,
        ensures
            final(self).wf(),
            final(self).drawable == old(self).drawable,
            final(self).vsync == old(self).vsync,
            final(self).format == old(self).format,
            final(self).alpha_modes == old(self).alpha_modes,
            final(self).generation == old(self).generation,
            final(self).attempts == old(self).attempts,
            final(self).config.version == old(self).config.version + 1,
            (final(self).config.width, final(self).config.height) == new_size,
    {
        self.configure(Some(new_size), new_size);
    }

    /// One acquisition attempt, the unit of retry.  The caller hands in
    /// what the backend reported for it, together with the drawable's
    /// current physical size, re-read for this attempt.
    ///
    /// A usable optimal frame comes back as `Ok(Some(..))`.  Every
    /// recoverable outcome comes back as `Ok(None)` after its recovery has
    /// been applied: a timeout changes nothing; a suboptimal or outdated
    /// report reconfigures at the current size; a lost surface is rebuilt
    /// — exactly one recreation, on the same drawable — and reconfigured.
    /// Out-of-memory is fatal and changes nothing: it is handed straight
    /// to the caller.
    pub fn try_acquire(&mut self, outcome: AcquireOutcome, drawable_size: (u32, u32)) -> (r:
        Result<Option<AcquiredFrame>, FatalError>)
        requires
            old(self).wf(),
            old(self).attempts < u64::MAX,
            old(self).config.version < u64::MAX,
            old(self).generation < u64::MAX,
        ensures
            final(self).wf(),
            final(self).drawable == old(self).drawable,
            final(self).vsync == old(self).vsync,
            final(self).format == old(self).format,
            final(self).alpha_modes == old(self).alpha_modes,
            final(self).attempts == old(self).attempts + 1,
            final(self).config.format == old(self).config.format,
            final(self).config.present_mode == old(self).config.present_mode,
            final(self).config.alpha_mode == old(self).config.alpha_mode,
            outcome is Optimal ==> {
                &&& r matches Ok(Some(f)) && f == (AcquiredFrame {
                    attempt: old(self).attempts,
                    generation: old(self).generation,
                })
                &&& final(self).config == old(self).config
                &&& final(self).generation == old(self).generation
            },
            outcome is Suboptimal || outcome is Outdated ==> {
                &&& r == Ok::<Option<AcquiredFrame>, FatalError>(None)
                &&& final(self).generation == old(self).generation
                &&& final(self).config.version == old(self).config.version + 1
                &&& (final(self).config.width, final(self).config.height) == drawable_size
            },
            outcome is Timeout ==> {
                &&& r == Ok::<Option<AcquiredFrame>, FatalError>(None)
                &&& final(self).config == old(self).config
                &&& final(self).generation == old(self).generation
            },
            outcome is Lost ==> {
                &&& r == Ok::<Option<AcquiredFrame>, FatalError>(None)
                &&& final(self).generation == old(self).generation + 1
                &&& final(self).config.version == old(self).config.version + 1
                &&& (final(self).config.width, final(self).config.height) == drawable_size
            },
            outcome is OutOfMemory ==> {
                &&& r == Err::<Option<AcquiredFrame>, FatalError>(FatalError::OutOfMemory)
                &&& final(self).config == old(self).config
                &&& final(self).generation == old(self).generation
            },
    {
        let attempt = self.attempts;
        self.attempts = self.attempts + 1;
        match outcome {
            AcquireOutcome::Optimal => Ok(
                Some(AcquiredFrame { attempt, generation: self.generation }),
            ),
            AcquireOutcome::Suboptimal => {
                // The stale frame the backend handed over is discarded by
                // the caller without presenting it.
                self.configure(None, drawable_size);
                Ok(None)
            },
            AcquireOutcome::Timeout => Ok(None),
            AcquireOutcome::Outdated => {
                self.configure(None, drawable_size);
                Ok(None)
            },
            AcquireOutcome::Lost => {
                self.state = SurfaceState::Lost;
                self.recreate(drawable_size);
                Ok(None)
            },
            AcquireOutcome::OutOfMemory => Err(FatalError::OutOfMemory),
        }
    }
}

/// An outcome that ends the retry loop: a usable frame, or the one fatal
/// error.  Every other outcome is absorbed by retrying.
pub open spec fn is_decisive(o: AcquireOutcome) -> bool {
    o is Optimal || o is OutOfMemory
}

/// An outcome whose recovery reapplies the configuration.
pub open spec fn triggers_reconfigure(o: AcquireOutcome) -> bool {
    o is Suboptimal || o is Outdated || o is Lost
}

/// The position of the first decisive outcome in a backend's reports
/// (the sequence's length if there is none).
pub open spec fn first_decisive(s: Seq<AcquireOutcome>) -> int
    decreases s.len(),
{
    if s.len() == 0 {
        0
    } else if is_decisive(s[0]) {
        0
    } else {
        1 + first_decisive(s.subrange(1, s.len() as int))
    }
}

/// How many outcomes of a report sequence lose the surface.
pub open spec fn count_lost(s: Seq<AcquireOutcome>) -> nat
    decreases s.len(),
{
    if s.len() == 0 {
        0
    } else {
        count_lost(s.drop_last()) + if s.last() is Lost {
            1nat
        } else {
            0nat
        }
    }
}

/// How many outcomes of a report sequence trigger a reconfiguration.
pub open spec fn count_reconfigures(s: Seq<AcquireOutcome>) -> nat
    decreases s.len(),
{
    if s.len() == 0 {
        0
    } else {
        count_reconfigures(s.drop_last()) + if triggers_reconfigure(s.last()) {
            1nat
        } else {
            0nat
        }
    }
}

/// A position before which nothing is decisive and at which something is
/// is the first decisive position.
proof fn lemma_first_decisive_at(s: Seq<AcquireOutcome>, i: int)
    requires
        0 <= i < s.len(),
        is_decisive(s[i]),
        forall|j: int| 0 <= j < i ==> !is_decisive(s[j]),
    ensures
        first_decisive(s) == i,
    decreases i,
{
    if i == 0 {
    } else {
        let t = s.subrange(1, s.len() as int);
        assert(t[i - 1] == s[i]);
        assert(forall|j: int| 0 <= j < i - 1 ==> t[j] == s[j + 1]);
        lemma_first_decisive_at(t, i - 1);
    }
}

/// Extending a prefix by one outcome raises each count by that outcome's
/// own contribution.
proof fn lemma_counts_step(s: Seq<AcquireOutcome>, k: int)
    requires
        0 <= k < s.len(),
    ensures
        count_lost(s.take(k + 1)) == count_lost(s.take(k)) + if s[k] is Lost {
            1nat
        } else {
            0nat
        },
        count_reconfigures(s.take(k + 1)) == count_reconfigures(s.take(k))
            + if triggers_reconfigure(s[k]) {
            1nat
        } else {
            0nat
        },
{
    assert(s.take(k + 1).drop_last() =~= s.take(k));
    assert(s.take(k + 1).last() == s[k]);
}

/// Neither count can exceed the sequence's length.
proof fn lemma_counts_le_len(s: Seq<AcquireOutcome>)
    ensures
        count_lost(s) <= s.len(),
        count_reconfigures(s) <= s.len(),
    decreases s.len(),
{
    if s.len() > 0 {
        lemma_counts_le_len(s.drop_last());
    }
}

impl Surface {
    /// Acquire a frame, retrying over the backend's successive reports
    /// until one is decisive.  `outcomes` is what the backend reports,
    /// attempt by attempt; `drawable_size` is the drawable's physical size
    /// while the loop runs.
    ///
    /// The loop never gives up early: writing `i` for the position of the
    /// first decisive outcome, exactly `i + 1` attempts are made, every
    /// recoverable outcome before `i` is absorbed — reconfiguring once per
    /// suboptimal, outdated or lost report, rebuilding once per lost
    /// report, on the same drawable — and then either the frame of attempt
    /// `i` is returned, or, on out-of-memory, the fatal error comes back
    /// with no retry and no recovery performed after it.
    #[verifier::loop_isolation(false)]
    pub fn acquire(&mut self, outcomes: &Vec<AcquireOutcome>, drawable_size: (u32, u32)) -> (r:
        Result<AcquiredFrame, FatalError>)
        requires
            old(self).wf(),
            exists|i: int| 0 <= i < outcomes@.len() && is_decisive(outcomes@[i]),
            old(self).attempts + outcomes@.len() <= u64::MAX,
            old(self).config.version + outcomes@.len() <= u64::MAX,
            old(self).generation + outcomes@.len() <= u64::MAX,
        ensures
            final(self).wf(),
            final(self).drawable == old(self).drawable,
            final(self).vsync == old(self).vsync,
            final(self).format == old(self).format,
            final(self).alpha_modes == old(self).alpha_modes,
            final(self).config.format == old(self).config.format,
            final(self).config.present_mode == old(self).config.present_mode,
            final(self).config.alpha_mode == old(self).config.alpha_mode,
            ({
                let i = first_decisive(outcomes@);
                &&& 0 <= i < outcomes@.len()
                &&& is_decisive(outcomes@[i])
                &&& final(self).attempts == old(self).attempts + i + 1
                &&& final(self).generation == old(self).generation + count_lost(
                    outcomes@.take(i),
                )
                &&& final(self).config.version == old(self).config.version + count_reconfigures(
                    outcomes@.take(i),
                )
                &&& (r is Ok <==> outcomes@[i] is Optimal)
                &&& (r matches Ok(f) ==> f == (AcquiredFrame {
                    attempt: (old(self).attempts + i) as u64,
                    generation: final(self).generation,
                }))
                &&& (outcomes@[i] is OutOfMemory ==> r == Err::<AcquiredFrame, FatalError>(
                    FatalError::OutOfMemory,
                ))
                &&& (count_reconfigures(outcomes@.take(i)) > 0 ==> (
                final(self).config.width,
                final(self).config.height,
                ) == drawable_size)
                &&& (count_reconfigures(outcomes@.take(i)) == 0 ==> final(self).config == old(
                    self,
                ).config)
            }),
    {
        let ghost s = outcomes@;
        let ghost start = *old(self);
        let n: usize = outcomes.len();
        let mut i: usize = 0;
        loop
            invariant
                self.wf(),
                outcomes@ == s,
                n == s.len(),
                0 <= i <= s.len(),
                exists|j: int| 0 <= j < s.len() && is_decisive(s[j]),
                forall|j: int| 0 <= j < i ==> !is_decisive(s[j]),
                start.attempts + s.len() <= u64::MAX,
                start.config.version + s.len() <= u64::MAX,
                start.generation + s.len() <= u64::MAX,
                self.drawable == start.drawable,
                self.vsync == start.vsync,
                self.format == start.format,
                self.alpha_modes == start.alpha_modes,
                self.config.format == start.config.format,
                self.config.present_mode == start.config.present_mode,
                self.config.alpha_mode == start.config.alpha_mode,
                self.attempts == start.attempts + i,
                self.generation == start.generation + count_lost(s.take(i as int)),
                self.config.version == start.config.version + count_reconfigures(
                    s.take(i as int),
                ),
                count_reconfigures(s.take(i as int)) > 0 ==> (
                self.config.width,
                self.config.height,
                ) == drawable_size,
                count_reconfigures(s.take(i as int)) == 0 ==> self.config == start.config,
            decreases s.len() - i,
        {
            proof {
                let w = choose|j: int| 0 <= j < s.len() && is_decisive(s[j]);
                assert(i <= w);
                lemma_counts_le_len(s.take(i as int));
            }
            let outcome = outcomes[i];
            let r = self.try_acquire(outcome, drawable_size);
            proof {
                lemma_counts_step(s, i as int);
            }
            match r {
                Ok(Some(frame)) => {
                    proof {
                        lemma_first_decisive_at(s, i as int);
                    }
                    return Ok(frame);
                },
                Ok(None) => {
                    proof {
                        assert(i < n);
                    }
                    i = i + 1;
                },
                Err(e) => {
                    proof {
                        lemma_first_decisive_at(s, i as int);
                    }
                    return Err(e);
                },
            }
        }
    }
}

} // verus!
