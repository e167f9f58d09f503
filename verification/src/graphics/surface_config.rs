//! The configuration of the presentable surface, and how its default is
//! chosen from what the surface reports.

use vstd::prelude::*;

verus! {

/// `wgpu::TextureFormat`, carried as an opaque value. The core stores formats
/// and hands them on; of their contents it learns only what [`srgb_flags`]
/// asks of them.
#[verifier::external_type_specification]
#[verifier::external_body]
pub struct ExTextureFormat(wgpu::TextureFormat);

/// `wgpu::PresentMode`, carried as an opaque value.
#[verifier::external_type_specification]
#[verifier::external_body]
pub struct ExPresentMode(wgpu::PresentMode);

/// `wgpu::CompositeAlphaMode`, carried as an opaque value.
#[verifier::external_type_specification]
#[verifier::external_body]
pub struct ExCompositeAlphaMode(wgpu::CompositeAlphaMode);

/// The answer of `wgpu::TextureFormat::is_srgb` for `format`. The method
/// compares the format with itself stripped of its sRGB suffix, so its answer
/// depends on the format alone.
pub uninterp spec fn format_is_srgb(format: wgpu::TextureFormat) -> bool;

/// Calls `wgpu::TextureFormat::is_srgb`. Trusted: that the method returns, for
/// every format, the one answer named [`format_is_srgb`]. It does not panic.
#[verifier::external_body]
fn is_srgb(format: wgpu::TextureFormat) -> (srgb: bool)
    ensures
        srgb == format_is_srgb(format),
{
    format.is_srgb()
}

/// The number of frames that the presentation engine may queue in advance.
pub const MAX_QUEUED_FRAMES: u32 = 2;

/// A surface dimension as the core stores it: never below one pixel.
pub open spec fn clamp_extent(extent: u32) -> u32 {
    if extent < 1 {
        1
    } else {
        extent
    }
}

/// The sRGB flag of each format, in order.
pub open spec fn srgb_flags_of(formats: Seq<wgpu::TextureFormat>) -> Seq<bool> {
    Seq::new(formats.len(), |i: int| format_is_srgb(formats[i]))
}

/// The position of the first flag that is set, searching from `start`.
pub open spec fn first_srgb_from(srgb: Seq<bool>, start: int) -> Option<int>
    decreases srgb.len() - start,
{
    if start < 0 || start >= srgb.len() {
        None
    } else if srgb[start] {
        Some(start)
    } else {
        first_srgb_from(srgb, start + 1)
    }
}

/// The position of the format that a surface is configured with: the first
/// sRGB one where the surface offers any, else the first one reported.
pub open spec fn preferred_position(srgb: Seq<bool>) -> int {
    match first_srgb_from(srgb, 0) {
        Some(k) => k,
        None => 0,
    }
}

/// What [`first_srgb_from`] finds is the first set flag at or after `start`,
/// and it finds nothing only where no flag is set from there on.
pub proof fn lemma_first_srgb_from(srgb: Seq<bool>, start: int)
    requires
        0 <= start,
    ensures
        match first_srgb_from(srgb, start) {
            Some(k) => {
                &&& start <= k < srgb.len()
                &&& srgb[k]
                &&& forall|j: int| start <= j < k ==> !srgb[j]
            },
            None => forall|j: int| start <= j < srgb.len() ==> !srgb[j],
        },
    decreases srgb.len() - start,
{
    if start < srgb.len() && !srgb[start] {
        lemma_first_srgb_from(srgb, start + 1);
    }
}

/// The preferred position lies within a list that is not empty; it holds an
/// sRGB format with none before it, or it is the first position of a list
/// without any sRGB format.
pub proof fn lemma_preferred_position(srgb: Seq<bool>)
    requires
        srgb.len() > 0,
    ensures
        0 <= preferred_position(srgb) < srgb.len(),
        forall|j: int| 0 <= j < preferred_position(srgb) ==> !srgb[j],
        srgb[preferred_position(srgb)] || (preferred_position(srgb) == 0 && forall|j: int|
            0 <= j < srgb.len() ==> !srgb[j]),
{
    lemma_first_srgb_from(srgb, 0);
}

/// The mathematical content of a [`SurfaceConfig`].
pub struct SurfaceConfigView {
    pub format: wgpu::TextureFormat,
    pub width: nat,
    pub height: nat,
    pub present_mode: wgpu::PresentMode,
    pub alpha_mode: wgpu::CompositeAlphaMode,
    pub max_queued_frames: nat,
}

impl SurfaceConfigView {
    /// Both dimensions are at least one pixel, and the queue depth is the
    /// fixed one.
    pub open spec fn wf(self) -> bool {
        &&& self.width >= 1
        &&& self.height >= 1
        &&& self.max_queued_frames == MAX_QUEUED_FRAMES
    }

    /// The same configuration with another size. Format, presentation mode,
    /// alpha mode and queue depth stay as they are.
    pub open spec fn resized(self, width: nat, height: nat) -> SurfaceConfigView {
        SurfaceConfigView { width, height, ..self }
    }
}

/// The configuration that a surface gets by default: the preferred format,
/// the window's size with each dimension clamped to one pixel, and the first
/// presentation mode and alpha mode that the surface reports.
pub open spec fn default_config(
    formats: Seq<wgpu::TextureFormat>,
    present_modes: Seq<wgpu::PresentMode>,
    alpha_modes: Seq<wgpu::CompositeAlphaMode>,
    width: u32,
    height: u32,
) -> SurfaceConfigView {
    SurfaceConfigView {
        format: formats[preferred_position(srgb_flags_of(formats))],
        width: clamp_extent(width) as nat,
        height: clamp_extent(height) as nat,
        present_mode: present_modes[0],
        alpha_mode: alpha_modes[0],
        max_queued_frames: MAX_QUEUED_FRAMES as nat,
    }
}

/// The default format is one that the surface reports. It is sRGB wherever
/// the surface reports an sRGB format at all, and it is the first reported
/// format where the surface reports none.
pub proof fn lemma_default_format(
    formats: Seq<wgpu::TextureFormat>,
    present_modes: Seq<wgpu::PresentMode>,
    alpha_modes: Seq<wgpu::CompositeAlphaMode>,
    width: u32,
    height: u32,
)
    requires
        formats.len() > 0,
    ensures
        formats.contains(default_config(formats, present_modes, alpha_modes, width, height).format),
        (exists|i: int| 0 <= i < formats.len() && format_is_srgb(formats[i])) ==> format_is_srgb(
            default_config(formats, present_modes, alpha_modes, width, height).format,
        ),
        (forall|i: int| 0 <= i < formats.len() ==> !format_is_srgb(formats[i])) ==> default_config(
            formats,
            present_modes,
            alpha_modes,
            width,
            height,
        ).format == formats[0],
{
    let srgb = srgb_flags_of(formats);
    lemma_preferred_position(srgb);
    let k = preferred_position(srgb);
    assert(srgb[k] == format_is_srgb(formats[k]));
    assert(formats[k] == default_config(formats, present_modes, alpha_modes, width, height).format);
    if exists|i: int| 0 <= i < formats.len() && format_is_srgb(formats[i]) {
        let i = choose|i: int| 0 <= i < formats.len() && format_is_srgb(formats[i]);
        assert(srgb[i]);
    }
    if forall|i: int| 0 <= i < formats.len() ==> !format_is_srgb(formats[i]) {
        assert(!srgb[k]);
    }
}

/// How the surface is configured: pixel format, size in pixels, presentation
/// mode, alpha compositing mode and queue depth. Only the size ever changes.
#[derive(Clone, Copy, Debug)]
pub struct SurfaceConfig {
    format: wgpu::TextureFormat,
    width: u32,
    height: u32,
    present_mode: wgpu::PresentMode,
    alpha_mode: wgpu::CompositeAlphaMode,
    max_queued_frames: u32,
}

impl View for SurfaceConfig {
    type V = SurfaceConfigView;

    closed spec fn view(&self) -> SurfaceConfigView {
        SurfaceConfigView {
            format: self.format,
            width: self.width as nat,
            height: self.height as nat,
            present_mode: self.present_mode,
            alpha_mode: self.alpha_mode,
            max_queued_frames: self.max_queued_frames as nat,
        }
    }
}

impl SurfaceConfig {
    /// Every configuration that exists is well formed.
    #[verifier::type_invariant]
    pub open spec fn inv(self) -> bool {
        self@.wf()
    }

    /// A configuration of the given format, size and modes, with the fixed
    /// queue depth.
    pub(crate) fn new(
        format: wgpu::TextureFormat,
        width: u32,
        height: u32,
        present_mode: wgpu::PresentMode,
        alpha_mode: wgpu::CompositeAlphaMode,
    ) -> (config: SurfaceConfig)
        requires
            width >= 1,
            height >= 1,
        ensures
            config@ == (SurfaceConfigView {
                format,
                width: width as nat,
                height: height as nat,
                present_mode,
                alpha_mode,
                max_queued_frames: MAX_QUEUED_FRAMES as nat,
            }),
            config@.wf(),
    {
        SurfaceConfig {
            format,
            width,
            height,
            present_mode,
            alpha_mode,
            max_queued_frames: MAX_QUEUED_FRAMES,
        }
    }

    /// Sets the size and leaves the rest untouched.
    pub(crate) fn resize(&mut self, width: u32, height: u32)
        requires
            width >= 1,
            height >= 1,
        ensures
            final(self)@ == old(self)@.resized(width as nat, height as nat),
            final(self)@.wf(),
    {
        proof {
            use_type_invariant(&*self);
        }
        self.width = width;
        self.height = height;
    }

    /// The pixel format.
    pub fn format(&self) -> (format: wgpu::TextureFormat)
        ensures
            format == self@.format,
    {
        self.format
    }

    /// The width in pixels, at least 1.
    pub fn width(&self) -> (width: u32)
        ensures
            width == self@.width,
            width >= 1,
    {
        proof {
            use_type_invariant(self);
        }
        self.width
    }

    /// The height in pixels, at least 1.
    pub fn height(&self) -> (height: u32)
        ensures
            height == self@.height,
            height >= 1,
    {
        proof {
            use_type_invariant(self);
        }
        self.height
    }

    /// The presentation mode.
    pub fn present_mode(&self) -> (mode: wgpu::PresentMode)
        ensures
            mode == self@.present_mode,
    {
        self.present_mode
    }

    /// The alpha compositing mode.
    pub fn alpha_mode(&self) -> (mode: wgpu::CompositeAlphaMode)
        ensures
            mode == self@.alpha_mode,
    {
        self.alpha_mode
    }

    /// The number of frames that may be queued in advance.
    pub fn max_queued_frames(&self) -> (frames: u32)
        ensures
            frames == self@.max_queued_frames,
            frames == MAX_QUEUED_FRAMES,
    {
        proof {
            use_type_invariant(self);
        }
        self.max_queued_frames
    }
}

/// Asks each format whether it is sRGB encoded.
pub fn srgb_flags(formats: &[wgpu::TextureFormat]) -> (flags: Vec<bool>)
    ensures
        flags@ == srgb_flags_of(formats@),
{
    let mut flags: Vec<bool> = Vec::new();
    let mut i: usize = 0;
    while i < formats.len()
        invariant
            i <= formats@.len(),
            flags@.len() == i,
            forall|j: int| 0 <= j < i ==> flags@[j] == format_is_srgb(formats@[j]),
        decreases formats@.len() - i,
    {
        flags.push(is_srgb(formats[i]));
        i = i + 1;
    }
    flags
}

/// Picks among formats by their sRGB flags: the first flagged position, or
/// position 0 where none is flagged. An empty list has no position.
pub fn preferred_format_position(srgb: &[bool]) -> (position: Option<usize>)
    ensures
        position is None <==> srgb@.len() == 0,
        position matches Some(k) ==> k == preferred_position(srgb@),
{
    if srgb.len() == 0 {
        return None;
    }
    let mut i: usize = 0;
    while i < srgb.len()
        invariant
            i <= srgb@.len(),
            first_srgb_from(srgb@, 0) == first_srgb_from(srgb@, i as int),
        decreases srgb@.len() - i,
    {
        if srgb[i] {
            return Some(i);
        }
        i = i + 1;
    }
    Some(0)
}

/// The format to configure a surface with, out of those it reports: the
/// first sRGB one, or the first one where none is sRGB. An empty list has
/// none.
pub fn preferred_format(formats: &[wgpu::TextureFormat]) -> (format: Option<wgpu::TextureFormat>)
    ensures
        format is None <==> formats@.len() == 0,
        format matches Some(f) ==> f == formats@[preferred_position(srgb_flags_of(formats@))],
{
    let flags = srgb_flags(formats);
    match preferred_format_position(flags.as_slice()) {
        None => None,
        Some(k) => {
            proof {
                lemma_preferred_position(flags@);
            }
            Some(formats[k])
        },
    }
}

} // verus!
