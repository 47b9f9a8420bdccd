//! Surface negotiation: which colour format and present mode to take from
//! what a device advertises, and the surface configuration that follows a
//! window through its resizes.

use vstd::prelude::*;

verus! {

/// `wgpu::TextureFormat`, carried through as an opaque value.
#[verifier::external_type_specification]
#[verifier::external_body]
pub struct ExTextureFormat(wgpu::TextureFormat);

/// Whether a texture format stores its colours sRGB-encoded, as
/// `wgpu::TextureFormat::is_srgb` reports it.
pub uninterp spec fn format_is_srgb(format: wgpu::TextureFormat) -> bool;

/// `wgpu::TextureFormat::is_srgb`: compares the format with its own
/// counterpart without the sRGB suffix, so the answer depends on the format
/// alone.
#[verifier::external_body]
fn is_srgb(format: &wgpu::TextureFormat) -> (srgb: bool)
    ensures
        srgb == format_is_srgb(*format),
{
    format.is_srgb()
}

/// When a finished frame becomes visible.
#[derive(Clone, Copy, Debug, PartialEq, Eq, Structural)]
pub enum PresentMode {
    AutoVsync,
    AutoNoVsync,
    /// Locked to the vertical blank; every compliant device offers it.
    Fifo,
    FifoRelaxed,
    Immediate,
    /// Low latency without blocking: the newest frame replaces a waiting one.
    Mailbox,
}

/// How the alpha channel is treated when the surface is composited.
#[derive(Clone, Copy, Debug, PartialEq, Eq, Structural)]
pub enum AlphaMode {
    Auto,
    Opaque,
    PreMultiplied,
    PostMultiplied,
    Inherit,
}

/// Frames that the presentation engine may queue in advance.
pub const FRAME_LATENCY: u32 = 2;

/// What a device advertises for a surface. The order of each list is the
/// device's order of preference.
pub struct SurfaceCaps {
    pub formats: Vec<wgpu::TextureFormat>,
    pub present_modes: Vec<PresentMode>,
    pub alpha_modes: Vec<AlphaMode>,
}

/// For each advertised format, whether it is sRGB-encoded.
pub open spec fn srgb_flags(formats: Seq<wgpu::TextureFormat>) -> Seq<bool> {
    Seq::new(formats.len(), |i: int| format_is_srgb(formats[i]))
}

/// Some position is flagged.
pub open spec fn any_flagged(flags: Seq<bool>) -> bool {
    exists|j: int| 0 <= j < flags.len() && #[trigger] flags[j]
}

/// `i` is the position to prefer: the first flagged one, or the first of
/// all where none is flagged.
pub open spec fn is_preferred(flags: Seq<bool>, i: int) -> bool {
    &&& 0 <= i < flags.len()
    &&& forall|j: int| 0 <= j < i ==> !#[trigger] flags[j]
    &&& flags[i] || (i == 0 && !any_flagged(flags))
}

/// The position to prefer in a non-empty list of flags.
pub open spec fn preferred_index(flags: Seq<bool>) -> int {
    choose|i: int| is_preferred(flags, i)
}

/// Only one position is the preferred one.
pub proof fn lemma_preferred_is_unique(flags: Seq<bool>, i: int, j: int)
    requires
        is_preferred(flags, i),
        is_preferred(flags, j),
    ensures
        i == j,
{
    if i < j {
        // The later position is not the first of all, so it is flagged, and
        // the earlier one is not: it cannot be preferred either way.
        assert(flags[j] && !flags[i]);
        assert(any_flagged(flags));
    } else if j < i {
        assert(flags[i] && !flags[j]);
        assert(any_flagged(flags));
    }
}

/// The present mode to take from `modes`: the low-latency mode where it is
/// offered, else the one locked to the vertical blank.
pub open spec fn preferred_present_mode(modes: Seq<PresentMode>) -> PresentMode {
    if modes.contains(PresentMode::Mailbox) {
        PresentMode::Mailbox
    } else {
        PresentMode::Fifo
    }
}

/// A window dimension as a surface takes it: never zero.
pub open spec fn clamped(dimension: u32) -> u32 {
    if dimension < 1 {
        1
    } else {
        dimension
    }
}

/// A resize keeps a configuration valid: where only the size changes, and
/// changes to clamped dimensions, both dimensions stay at least 1, and format
/// and present mode stay among those that the device advertises.
pub proof fn lemma_resize_keeps_config_valid(
    before: SurfaceConfigView,
    caps: SurfaceCaps,
    width: u32,
    height: u32,
)
    requires
        before.within(caps),
    ensures
        (SurfaceConfigView { width: clamped(width), height: clamped(height), ..before }).within(
            caps,
        ),
        (SurfaceConfigView {
            width: clamped(width),
            height: clamped(height),
            ..before
        }).well_formed(),
{
}

/// Picks the position to prefer from the sRGB flags of the advertised
/// formats: the first flagged position, or position 0 where none is flagged.
pub fn preferred_position(flags: &[bool]) -> (i: usize)
    requires
        flags@.len() > 0,
    ensures
        is_preferred(flags@, i as int),
        i == preferred_index(flags@),
        any_flagged(flags@) ==> flags@[i as int],
        !any_flagged(flags@) ==> i == 0,
{
    let n: usize = flags.len();
    let mut i: usize = 0;
    while i < n
        invariant
            n == flags@.len(),
            i <= n,
            forall|j: int| 0 <= j < i ==> !#[trigger] flags@[j],
        decreases n - i,
    {
        if flags[i] {
            proof {
                lemma_preferred_is_unique(flags@, i as int, preferred_index(flags@));
            }
            return i;
        }
        i = i + 1;
    }
    proof {
        assert(is_preferred(flags@, 0));
        lemma_preferred_is_unique(flags@, 0, preferred_index(flags@));
    }
    0
}

/// Picks the colour format: the first advertised format that is
/// sRGB-encoded, or the first advertised format where none is.
pub fn select_format(formats: &[wgpu::TextureFormat]) -> (format: wgpu::TextureFormat)
    requires
        formats@.len() > 0,
    ensures
        format == formats@[preferred_index(srgb_flags(formats@))],
        is_preferred(srgb_flags(formats@), preferred_index(srgb_flags(formats@))),
        formats@.contains(format),
        any_flagged(srgb_flags(formats@)) ==> format_is_srgb(format),
        !any_flagged(srgb_flags(formats@)) ==> format == formats@[0],
{
    let n: usize = formats.len();
    let mut flags: Vec<bool> = Vec::with_capacity(n);
    let mut i: usize = 0;
    while i < n
        invariant
            n == formats@.len(),
            i <= n,
            flags@.len() == i,
            forall|j: int| 0 <= j < i ==> #[trigger] flags@[j] == format_is_srgb(formats@[j]),
        decreases n - i,
    {
        flags.push(is_srgb(&formats[i]));
        i = i + 1;
    }
    assert(flags@ =~= srgb_flags(formats@));
    let chosen: usize = preferred_position(flags.as_slice());
    formats[chosen]
}

/// Picks the present mode: the low-latency mode where the device offers it,
/// else the mode locked to the vertical blank.
///
/// The choice lies within `modes` whenever `modes` offers one of the two.
pub fn select_present_mode(modes: &[PresentMode]) -> (mode: PresentMode)
    ensures
        mode == preferred_present_mode(modes@),
        modes@.contains(PresentMode::Mailbox) ==> mode == PresentMode::Mailbox,
        !modes@.contains(PresentMode::Mailbox) ==> mode == PresentMode::Fifo,
        modes@.contains(PresentMode::Mailbox) || modes@.contains(PresentMode::Fifo)
            ==> modes@.contains(mode),
{
    let n: usize = modes.len();
    let mut i: usize = 0;
    while i < n
        invariant
            n == modes@.len(),
            i <= n,
            forall|j: int| 0 <= j < i ==> #[trigger] modes@[j] != PresentMode::Mailbox,
        decreases n - i,
    {
        if modes[i] == PresentMode::Mailbox {
            return PresentMode::Mailbox;
        }
        i = i + 1;
    }
    PresentMode::Fifo
}

/// Picks the alpha mode: the one that the device lists first.
pub fn select_alpha_mode(modes: &[AlphaMode]) -> (mode: AlphaMode)
    requires
        modes@.len() > 0,
    ensures
        mode == modes@[0],
{
    modes[0]
}

/// Raises a window dimension of zero to one.
pub fn clamp_dimension(dimension: u32) -> (out: u32)
    ensures
        out == clamped(dimension),
        out >= 1,
        dimension >= 1 ==> out == dimension,
{
    if dimension < 1 {
        1
    } else {
        dimension
    }
}

/// What a surface configuration holds.
pub ghost struct SurfaceConfigView {
    pub format: wgpu::TextureFormat,
    pub present_mode: PresentMode,
    pub alpha_mode: AlphaMode,
    pub width: u32,
    pub height: u32,
    pub frame_latency: u32,
}

impl SurfaceConfigView {
    /// Neither dimension is zero.
    pub open spec fn well_formed(self) -> bool {
        self.width >= 1 && self.height >= 1
    }

    /// Format and present mode are among those that `caps` advertises.
    pub open spec fn within(self, caps: SurfaceCaps) -> bool {
        caps.formats@.contains(self.format) && caps.present_modes@.contains(self.present_mode)
    }
}

/// The configuration of the presentation surface. Its width and height are
/// at least 1 at all times.
pub struct SurfaceConfig {
    format: wgpu::TextureFormat,
    present_mode: PresentMode,
    alpha_mode: AlphaMode,
    width: u32,
    height: u32,
    frame_latency: u32,
}

impl View for SurfaceConfig {
    type V = SurfaceConfigView;

    closed spec fn view(&self) -> SurfaceConfigView {
        SurfaceConfigView {
            format: self.format,
            present_mode: self.present_mode,
            alpha_mode: self.alpha_mode,
            width: self.width,
            height: self.height,
            frame_latency: self.frame_latency,
        }
    }
}

impl SurfaceConfig {
    #[verifier::type_invariant]
    spec fn valid(self) -> bool {
        self@.well_formed()
    }

    /// The first configuration of a surface, from what the device advertises
    /// and the size that the window asks for.
    pub fn configure(caps: &SurfaceCaps, width: u32, height: u32) -> (config: SurfaceConfig)
        requires
            caps.formats@.len() > 0,
            caps.alpha_modes@.len() > 0,
        ensures
            config@.format == caps.formats@[preferred_index(srgb_flags(caps.formats@))],
            config@.present_mode == preferred_present_mode(caps.present_modes@),
            config@.alpha_mode == caps.alpha_modes@[0],
            config@.width == clamped(width),
            config@.height == clamped(height),
            config@.frame_latency == FRAME_LATENCY,
            config@.well_formed(),
            caps.formats@.contains(config@.format),
            caps.present_modes@.contains(PresentMode::Mailbox) || caps.present_modes@.contains(
                PresentMode::Fifo,
            ) ==> config@.within(*caps),
    {
        SurfaceConfig {
            format: select_format(caps.formats.as_slice()),
            present_mode: select_present_mode(caps.present_modes.as_slice()),
            alpha_mode: select_alpha_mode(caps.alpha_modes.as_slice()),
            width: clamp_dimension(width),
            height: clamp_dimension(height),
            frame_latency: FRAME_LATENCY,
        }
    }

    /// Takes a new window size. A dimension of zero becomes 1; nothing
    /// else changes.
    pub fn resize(&mut self, width: u32, height: u32)
        ensures
            final(self)@ == (SurfaceConfigView {
                width: clamped(width),
                height: clamped(height),
                ..old(self)@
            }),
            final(self)@.well_formed(),
    {
        proof {
            use_type_invariant(&*self);
        }
        self.width = clamp_dimension(width);
        self.height = clamp_dimension(height);
    }

    /// The colour format.
    pub fn format(&self) -> (format: wgpu::TextureFormat)
        ensures
            format == self@.format,
    {
        self.format
    }

    /// The present mode.
    pub fn present_mode(&self) -> (mode: PresentMode)
        ensures
            mode == self@.present_mode,
    {
        self.present_mode
    }

    /// The alpha mode.
    pub fn alpha_mode(&self) -> (mode: AlphaMode)
        ensures
            mode == self@.alpha_mode,
    {
        self.alpha_mode
    }

    /// The width, at least 1.
    pub fn width(&self) -> (width: u32)
        ensures
            width == self@.width,
            width >= 1,
    {
        proof {
            use_type_invariant(self);
        }
        self.width
    }

    /// The height, at least 1.
    pub fn height(&self) -> (height: u32)
        ensures
            height == self@.height,
            height >= 1,
    {
        proof {
            use_type_invariant(self);
        }
        self.height
    }

    /// Frames that may be queued in advance.
    pub fn frame_latency(&self) -> (depth: u32)
        ensures
            depth == self@.frame_latency,
    {
        self.frame_latency
    }
}

} // verus!
