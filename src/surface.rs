//! The presentable surface: its size, its pixel format and its configuration.
use vstd::prelude::*;

verus! {

#[verifier::external_type_specification]
#[verifier::external_body]
pub struct ExTextureFormat(wgpu::TextureFormat);

#[verifier::external_type_specification]
#[verifier::external_body]
pub struct ExPresentMode(wgpu::PresentMode);

#[verifier::external_type_specification]
#[verifier::external_body]
pub struct ExCompositeAlphaMode(wgpu::CompositeAlphaMode);

/// Whether a texture format stores its colour channels sRGB-encoded.
pub uninterp spec fn srgb_of(f: wgpu::TextureFormat) -> bool;

/// Relies on `wgpu::TextureFormat::is_srgb`, which depends on the format alone.
pub assume_specification[ wgpu::TextureFormat::is_srgb ](f: &wgpu::TextureFormat) -> (r: bool)
    ensures
        r == srgb_of(*f),
;

/// A physical window size in pixels.
#[derive(Clone, Copy, Debug, PartialEq, Eq, Structural)]
pub struct WindowSize {
    pub width: u32,
    pub height: u32,
}

impl WindowSize {
    /// Whether the size covers at least one pixel.
    pub open spec fn has_area(self) -> bool {
        self.width > 0 && self.height > 0
    }
}

/// `i` is the position of the first sRGB-capable format of `fs`.
pub open spec fn first_srgb_at(fs: Seq<wgpu::TextureFormat>, i: int) -> bool {
    &&& 0 <= i < fs.len()
    &&& srgb_of(fs[i])
    &&& forall|j: int| 0 <= j < i ==> !srgb_of(#[trigger] fs[j])
}

/// The format a surface is configured with: the first sRGB-capable one,
/// else the first one offered.
pub open spec fn preferred_format(fs: Seq<wgpu::TextureFormat>) -> wgpu::TextureFormat
    recommends
        fs.len() > 0,
{
    if exists|i: int| first_srgb_at(fs, i) {
        fs[choose|i: int| first_srgb_at(fs, i)]
    } else {
        fs[0]
    }
}

/// There is at most one first sRGB-capable position.
pub proof fn lemma_first_srgb_unique(fs: Seq<wgpu::TextureFormat>, i: int, k: int)
    requires
        first_srgb_at(fs, i),
        first_srgb_at(fs, k),
    ensures
        i == k,
{
    if i < k {
        assert(!srgb_of(fs[i]));
    } else if k < i {
        assert(!srgb_of(fs[k]));
    }
}

/// Picks the surface format among those the surface supports, in their order:
/// the first sRGB-capable one, else the first one. `None` when none is offered.
pub fn choose_surface_format(formats: &Vec<wgpu::TextureFormat>) -> (r: Option<
    wgpu::TextureFormat,
>)
    ensures
        r is None <==> formats@.len() == 0,
        r is Some ==> r->0 == preferred_format(formats@),
{
    if formats.len() == 0 {
        return None;
    }
    let mut i: usize = 0;
    while i < formats.len()
        invariant
            0 <= i <= formats@.len(),
            formats@.len() > 0,
            forall|j: int| 0 <= j < i ==> !srgb_of(#[trigger] formats@[j]),
        decreases formats@.len() - i,
    {
        if formats[i].is_srgb() {
            proof {
                assert(first_srgb_at(formats@, i as int));
                let k = choose|k: int| first_srgb_at(formats@, k);
                lemma_first_srgb_unique(formats@, i as int, k);
            }
            return Some(formats[i]);
        }
        i = i + 1;
    }
    assert(!exists|k: int| first_srgb_at(formats@, k));
    Some(formats[0])
}

/// The configuration bound to the surface. It is re-applied to the surface
/// every time it changes.
#[derive(Clone, Copy, Debug)]
pub struct SurfaceConfig {
    pub width: u32,
    pub height: u32,
    pub format: wgpu::TextureFormat,
    pub present_mode: wgpu::PresentMode,
    pub alpha_mode: wgpu::CompositeAlphaMode,
}

impl SurfaceConfig {
    /// The size the configuration describes.
    pub open spec fn size(self) -> WindowSize {
        WindowSize { width: self.width, height: self.height }
    }

    /// The same configuration at another size.
    pub open spec fn with_size(self, size: WindowSize) -> SurfaceConfig {
        SurfaceConfig { width: size.width, height: size.height, ..self }
    }
}

/// Why a session cannot start: the surface offers nothing to configure it with.
#[derive(Clone, Copy, Debug, PartialEq, Eq, Structural)]
pub enum StartupError {
    NoSurfaceFormat,
    NoPresentMode,
    NoAlphaMode,
}

/// The error, if any, for the given lists of surface capabilities.
pub open spec fn startup_error_for(
    formats: Seq<wgpu::TextureFormat>,
    present_modes: Seq<wgpu::PresentMode>,
    alpha_modes: Seq<wgpu::CompositeAlphaMode>,
) -> Option<StartupError> {
    if formats.len() == 0 {
        Some(StartupError::NoSurfaceFormat)
    } else if present_modes.len() == 0 {
        Some(StartupError::NoPresentMode)
    } else if alpha_modes.len() == 0 {
        Some(StartupError::NoAlphaMode)
    } else {
        None
    }
}

/// The initial configuration: the window's size, the preferred format and the
/// first present mode and alpha mode that the surface reports.
pub fn initial_config(
    size: WindowSize,
    formats: &Vec<wgpu::TextureFormat>,
    present_modes: &Vec<wgpu::PresentMode>,
    alpha_modes: &Vec<wgpu::CompositeAlphaMode>,
) -> (r: Result<SurfaceConfig, StartupError>)
    ensures
        match startup_error_for(formats@, present_modes@, alpha_modes@) {
            Some(e) => r == Err::<SurfaceConfig, StartupError>(e),
            None => r matches Ok(c) && {
                &&& c.size() == size
                &&& c.format == preferred_format(formats@)
                &&& c.present_mode == present_modes@[0]
                &&& c.alpha_mode == alpha_modes@[0]
            },
        },
{
    let format = match choose_surface_format(formats) {
        Some(f) => f,
        None => return Err(StartupError::NoSurfaceFormat),
    };
    if present_modes.len() == 0 {
        return Err(StartupError::NoPresentMode);
    }
    if alpha_modes.len() == 0 {
        return Err(StartupError::NoAlphaMode);
    }
    Ok(
        SurfaceConfig {
            width: size.width,
            height: size.height,
            format,
            present_mode: present_modes[0],
            alpha_mode: alpha_modes[0],
        },
    )
}

} // verus!
