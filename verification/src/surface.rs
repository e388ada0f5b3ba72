//! How the window's surface is configured: which texture format and alpha
//! mode it uses, how large it is, and when a new size takes effect.

use vstd::prelude::*;
use crate::bindings::{spec_storage_texture, storage_texture, StorageTextureDesc};
use crate::dispatch::{dispatch_size, extent_fits, spec_workgroup_count};

verus! {

/// `wgpu::TextureFormat`, carried through as an opaque value.
#[verifier::external_type_specification]
#[verifier::external_body]
pub struct ExTextureFormat(wgpu::TextureFormat);

/// `wgpu::CompositeAlphaMode`, carried through as an opaque value.
#[verifier::external_type_specification]
#[verifier::external_body]
pub struct ExCompositeAlphaMode(wgpu::CompositeAlphaMode);

/// Whether `wgpu::TextureFormat::is_srgb` holds of `format`.
pub uninterp spec fn texture_format_is_srgb(format: wgpu::TextureFormat) -> bool;

/// Calls `wgpu::TextureFormat::is_srgb`. Its result depends on the format
/// alone: wgpu answers whether the format differs from the same format
/// with its sRGB suffix removed. The contract only names that answer.
#[verifier::external_body]
fn format_is_srgb(format: &wgpu::TextureFormat) -> (srgb: bool)
    ensures
        srgb == texture_format_is_srgb(*format),
{
    format.is_srgb()
}

/// Index of the format the surface prefers: the first sRGB format offered,
/// or the first format when none is sRGB.
pub open spec fn is_preferred_format_index(formats: Seq<wgpu::TextureFormat>, i: int) -> bool {
    &&& 0 <= i < formats.len()
    &&& if exists|k: int| 0 <= k < formats.len() && #[trigger] texture_format_is_srgb(formats[k]) {
        &&& texture_format_is_srgb(formats[i])
        &&& forall|k: int| 0 <= k < i ==> !#[trigger] texture_format_is_srgb(formats[k])
    } else {
        i == 0
    }
}

/// Picks the surface format: the first sRGB one among `formats`, so that the
/// display receives gamma-corrected colours, else the first one. `None` when
/// the surface offers no format at all.
pub fn choose_surface_format(formats: &Vec<wgpu::TextureFormat>) -> (chosen: Option<wgpu::TextureFormat>)
    ensures
        chosen is None <==> formats@.len() == 0,
        chosen matches Some(f) ==> exists|i: int|
            is_preferred_format_index(formats@, i) && formats@[i] == f,
{
    let n = formats.len();
    if n == 0 {
        return None;
    }
    let mut i: usize = 0;
    while i < n
        invariant
            n == formats@.len(),
            0 < n,
            i <= n,
            forall|k: int| 0 <= k < i ==> !#[trigger] texture_format_is_srgb(formats@[k]),
        decreases n - i,
    {
        let f = formats[i];
        if format_is_srgb(&f) {
            assert(is_preferred_format_index(formats@, i as int));
            return Some(f);
        }
        i = i + 1;
    }
    assert(is_preferred_format_index(formats@, 0));
    Some(formats[0])
}

/// Frames the surface may queue ahead of presentation.
pub const MAX_FRAME_LATENCY: u32 = 2;

/// What the surface is configured with, apart from what never changes (it is
/// a render attachment, presented with automatic vsync, with no extra view
/// formats).
#[derive(Clone, Copy, Debug, PartialEq)]
pub struct SurfaceSettings {
    pub format: wgpu::TextureFormat,
    pub alpha_mode: wgpu::CompositeAlphaMode,
    pub width: u32,
    pub height: u32,
    pub max_frame_latency: u32,
}

/// Whether a size can be rendered to: both sides are nonzero.
pub open spec fn is_drawable_size(width: u32, height: u32) -> bool {
    width > 0 && height > 0
}

/// Whether a new window or canvas size should reconfigure the surface.
pub fn should_resize(width: u32, height: u32) -> (resize: bool)
    ensures
        resize == is_drawable_size(width, height),
        resize <==> (width != 0 && height != 0),
{
    width > 0 && height > 0
}

/// The settings `settings` with the size replaced.
pub open spec fn with_size(settings: SurfaceSettings, width: u32, height: u32) -> SurfaceSettings {
    SurfaceSettings { width, height, ..settings }
}

/// The settings after a request to resize to `width` × `height`: the new size
/// when it is drawable, the settings unchanged otherwise.
pub open spec fn resized(settings: SurfaceSettings, width: u32, height: u32) -> SurfaceSettings {
    if is_drawable_size(width, height) {
        with_size(settings, width, height)
    } else {
        settings
    }
}

/// The settings a surface starts with, from what it reports it supports:
/// the preferred format, the first alpha mode, the given size.
/// `None` when the surface reports no format or no alpha mode.
pub fn surface_settings(
    formats: &Vec<wgpu::TextureFormat>,
    alpha_modes: &Vec<wgpu::CompositeAlphaMode>,
    width: u32,
    height: u32,
) -> (settings: Option<SurfaceSettings>)
    ensures
        settings is None <==> formats@.len() == 0 || alpha_modes@.len() == 0,
        settings matches Some(s) ==> {
            &&& exists|i: int| is_preferred_format_index(formats@, i) && formats@[i] == s.format
            &&& s.alpha_mode == alpha_modes@[0]
            &&& s.width == width
            &&& s.height == height
            &&& s.max_frame_latency == MAX_FRAME_LATENCY
        },
{
    match choose_surface_format(formats) {
        None => None,
        Some(format) => {
            if alpha_modes.len() == 0 {
                None
            } else {
                Some(SurfaceSettings {
                    format,
                    alpha_mode: alpha_modes[0],
                    width,
                    height,
                    max_frame_latency: MAX_FRAME_LATENCY,
                })
            }
        }
    }
}

impl SurfaceSettings {
    /// Takes a new size. A size with a zero side is ignored and leaves the
    /// settings as they were; the result says whether the surface and the
    /// size-dependent resources have to be rebuilt.
    pub fn resize(&mut self, width: u32, height: u32) -> (changed: bool)
        ensures
            changed == is_drawable_size(width, height),
            *final(self) == resized(*old(self), width, height),
            changed <==> (width != 0 && height != 0),
            changed ==> final(self).width == width && final(self).height == height
                && final(self).format == old(self).format && final(self).alpha_mode
                == old(self).alpha_mode && final(self).max_frame_latency
                == old(self).max_frame_latency,
            !changed ==> *final(self) == *old(self),
    {
        if !should_resize(width, height) {
            return false;
        }
        self.width = width;
        self.height = height;
        true
    }

    /// The settings with the size set to `width` × `height`, whatever it is:
    /// the size the renderer is created with.
    pub fn with_dimensions(self, width: u32, height: u32) -> (settings: SurfaceSettings)
        ensures
            settings == with_size(self, width, height),
    {
        SurfaceSettings { width, height, ..self }
    }

    /// The storage texture that matches the surface: the same size.
    pub fn storage_texture(&self) -> (desc: StorageTextureDesc)
        ensures
            desc == spec_storage_texture(self.width, self.height),
            desc.width == self.width,
            desc.height == self.height,
    {
        storage_texture(self.width, self.height)
    }

    /// The workgroups a frame dispatches to cover the surface.
    pub fn dispatch_size(&self) -> (groups: (u32, u32))
        requires
            extent_fits(self.width as int),
            extent_fits(self.height as int),
        ensures
            groups.0 == spec_workgroup_count(self.width as int),
            groups.1 == spec_workgroup_count(self.height as int),
    {
        dispatch_size(self.width, self.height)
    }
}

/// The settings after a sequence of resize requests, in order.
pub open spec fn resized_by(settings: SurfaceSettings, sizes: Seq<(u32, u32)>) -> SurfaceSettings
    decreases sizes.len(),
{
    if sizes.len() == 0 {
        settings
    } else {
        resized(resized_by(settings, sizes.drop_last()), sizes.last().0, sizes.last().1)
    }
}

/// The last size in `sizes` with no zero side, or `initial` when there is
/// none.
pub open spec fn latest_drawable_size(initial: (u32, u32), sizes: Seq<(u32, u32)>) -> (u32, u32)
    decreases sizes.len(),
{
    if sizes.len() == 0 {
        initial
    } else if is_drawable_size(sizes.last().0, sizes.last().1) {
        sizes.last()
    } else {
        latest_drawable_size(initial, sizes.drop_last())
    }
}

/// After any sequence of resize requests, the surface has the latest size
/// with no zero side (the initial size if there is none), and keeps its
/// format, alpha mode and frame latency. The storage texture built for it
/// has that size, and each frame dispatches workgroups for that size.
pub proof fn lemma_frames_use_latest_size(settings: SurfaceSettings, sizes: Seq<(u32, u32)>)
    ensures
        (resized_by(settings, sizes).width, resized_by(settings, sizes).height)
            == latest_drawable_size((settings.width, settings.height), sizes),
        resized_by(settings, sizes).format == settings.format,
        resized_by(settings, sizes).alpha_mode == settings.alpha_mode,
        resized_by(settings, sizes).max_frame_latency == settings.max_frame_latency,
        spec_storage_texture(resized_by(settings, sizes).width, resized_by(settings, sizes).height)
            == spec_storage_texture(
            latest_drawable_size((settings.width, settings.height), sizes).0,
            latest_drawable_size((settings.width, settings.height), sizes).1,
        ),
        spec_workgroup_count(resized_by(settings, sizes).width as int) == spec_workgroup_count(
            latest_drawable_size((settings.width, settings.height), sizes).0 as int,
        ),
        spec_workgroup_count(resized_by(settings, sizes).height as int) == spec_workgroup_count(
            latest_drawable_size((settings.width, settings.height), sizes).1 as int,
        ),
    decreases sizes.len(),
{
    if sizes.len() > 0 {
        lemma_frames_use_latest_size(settings, sizes.drop_last());
    }
}

/// Every size with both sides nonzero is taken exactly, whatever its
/// shape, and every size with a zero side is ignored.
pub proof fn lemma_resize_takes_exactly_nonzero_sizes(settings: SurfaceSettings, width: u32, height: u32)
    ensures
        width != 0 && height != 0 ==> resized(settings, width, height).width == width
            && resized(settings, width, height).height == height,
        width == 0 || height == 0 ==> resized(settings, width, height) == settings,
        is_drawable_size(width, height) <==> (width != 0 && height != 0),
{
}

/// Resizing to a size and to its transpose gives transposed sizes: the
/// orientation of the window plays no part.
pub proof fn lemma_resize_ignores_orientation(settings: SurfaceSettings, width: u32, height: u32)
    requires
        width != 0,
        height != 0,
    ensures
        resized(settings, height, width).width == resized(settings, width, height).height,
        resized(settings, height, width).height == resized(settings, width, height).width,
{
}

/// A resize changes only the size: format, alpha mode and frame latency stay
/// as they were.
pub proof fn lemma_resize_keeps_format(settings: SurfaceSettings, width: u32, height: u32)
    ensures
        resized(settings, width, height).format == settings.format,
        resized(settings, width, height).alpha_mode == settings.alpha_mode,
        resized(settings, width, height).max_frame_latency == settings.max_frame_latency,
{
}

/// A size with a zero side changes nothing.
pub proof fn lemma_resize_to_empty_is_ignored(settings: SurfaceSettings, width: u32, height: u32)
    requires
        width == 0 || height == 0,
    ensures
        resized(settings, width, height) == settings,
{
}

/// Resizing twice to the same size is the same as resizing once.
pub proof fn lemma_resize_idempotent(settings: SurfaceSettings, width: u32, height: u32)
    ensures
        resized(resized(settings, width, height), width, height) == resized(settings, width, height),
{
}

/// After a drawable resize, the surface has exactly the requested size,
/// whatever size requests came before.
pub proof fn lemma_last_drawable_size_wins(
    settings: SurfaceSettings,
    w1: u32,
    h1: u32,
    w2: u32,
    h2: u32,
)
    requires
        is_drawable_size(w2, h2),
    ensures
        resized(resized(settings, w1, h1), w2, h2) == resized(settings, w2, h2),
        resized(settings, w2, h2).width == w2,
        resized(settings, w2, h2).height == h2,
{
}

} // verus!
