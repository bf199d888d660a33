//! Configuration of the presentable surface and its offscreen render target.
//!
//! The renderer draws into an offscreen target of a storage-capable format
//! and a fixed compositing pass copies it onto the presentable surface. The
//! two always have the configured size, which is never zero.

use vstd::prelude::*;
use vstd::string::*;

verus! {

/// Why a surface could not be created, resized or drawn.
pub enum RenderError {
    NoAdapter,
    Device(String),
    Surface(String),
    Renderer(String),
}

impl RenderError {
    /// The error as a sentence.
    pub fn message(&self) -> (r: String)
        ensures
            r@ == match self {
                RenderError::NoAdapter => "No suitable GPU adapter found"@,
                RenderError::Device(e) => "Device error: "@ + e@,
                RenderError::Surface(e) => "Surface error: "@ + e@,
                RenderError::Renderer(e) => "Renderer error: "@ + e@,
            },
    {
        match self {
            RenderError::NoAdapter => String::from_str("No suitable GPU adapter found"),
            RenderError::Device(e) => String::from_str("Device error: ").concat(e.as_str()),
            RenderError::Surface(e) => String::from_str("Surface error: ").concat(e.as_str()),
            RenderError::Renderer(e) => String::from_str("Renderer error: ").concat(e.as_str()),
        }
    }
}

/// A dimension of at least one pixel: zero becomes one.
pub open spec fn clamp_dim(d: u32) -> u32 {
    if d == 0 { 1 } else { d }
}

/// The surface format: one that the surface offers, by its index in the
/// offered list, or the fixed fallback format.
#[derive(Clone, Copy, Debug, PartialEq, Eq, Structural)]
pub enum FormatChoice {
    Offered(usize),
    Fallback,
}

/// How the surface is composited with what lies behind it.
#[derive(Clone, Copy, Debug, PartialEq, Eq, Structural)]
pub enum AlphaMode {
    PreMultiplied,
    Auto,
}

/// The first offered format that is not colour-managed (not sRGB), given
/// for each offered format whether it is sRGB; the fallback when all are.
pub open spec fn format_of(srgb: Seq<bool>) -> FormatChoice {
    if exists|i: int| 0 <= i < srgb.len() && !srgb[i] {
        FormatChoice::Offered(
            (choose|i: int| 0 <= i < srgb.len() && !srgb[i] && forall|j: int| 0 <= j < i ==> srgb[j]) as usize,
        )
    } else {
        FormatChoice::Fallback
    }
}

/// Picks the first offered format that is not sRGB.
pub fn choose_format(srgb: &Vec<bool>) -> (r: FormatChoice)
    ensures
        match r {
            FormatChoice::Offered(i) => {
                &&& i < srgb@.len()
                &&& !srgb@[i as int]
                &&& forall|j: int| 0 <= j < i ==> srgb@[j]
            },
            FormatChoice::Fallback => forall|j: int| 0 <= j < srgb@.len() ==> srgb@[j],
        },
        r == format_of(srgb@),
{
    let mut i: usize = 0;
    while i < srgb.len()
        invariant
            i <= srgb@.len(),
            forall|j: int| 0 <= j < i ==> srgb@[j],
        decreases srgb@.len() - i,
    {
        if !srgb[i] {
            let r = FormatChoice::Offered(i);
            proof {
                let k = i as int;
                assert(0 <= k < srgb@.len() && !srgb@[k]);
                let c = choose|c: int| 0 <= c < srgb@.len() && !srgb@[c] && forall|j: int| 0 <= j < c ==> srgb@[j];
                assert(0 <= c < srgb@.len() && !srgb@[c] && forall|j: int| 0 <= j < c ==> srgb@[j]);
                if c < k {
                    assert(srgb@[c]);
                }
                if k < c {
                    assert(srgb@[k]);
                }
                assert(c == k);
            }
            return r;
        }
        i = i + 1;
    }
    FormatChoice::Fallback
}

/// Premultiplied alpha where the surface supports it, else the default mode.
pub fn choose_alpha_mode(premultiplied_supported: bool) -> (r: AlphaMode)
    ensures
        r == (if premultiplied_supported { AlphaMode::PreMultiplied } else { AlphaMode::Auto }),
{
    if premultiplied_supported { AlphaMode::PreMultiplied } else { AlphaMode::Auto }
}

/// The configuration of a presentable surface; the offscreen target has
/// the same width and height.
#[derive(Clone, Copy, Debug, PartialEq, Eq, Structural)]
pub struct SurfaceConfig {
    pub format: FormatChoice,
    pub alpha_mode: AlphaMode,
    pub width: u32,
    pub height: u32,
}

impl SurfaceConfig {
    /// Neither dimension is zero.
    pub open spec fn wf(self) -> bool {
        self.width >= 1 && self.height >= 1
    }

    /// The configuration for a new surface of the requested size, from what
    /// the surface offers: for each offered format whether it is sRGB, and
    /// whether premultiplied alpha is supported.
    pub fn negotiate(srgb: &Vec<bool>, premultiplied_supported: bool, width: u32, height: u32) -> (r: SurfaceConfig)
        ensures
            r.format == format_of(srgb@),
            r.alpha_mode == (if premultiplied_supported { AlphaMode::PreMultiplied } else { AlphaMode::Auto }),
            r.width == clamp_dim(width),
            r.height == clamp_dim(height),
            r.wf(),
    {
        SurfaceConfig {
            format: choose_format(srgb),
            alpha_mode: choose_alpha_mode(premultiplied_supported),
            width: if width == 0 { 1 } else { width },
            height: if height == 0 { 1 } else { height },
        }
    }

    /// Sets a new size, each dimension at least one; format and alpha mode
    /// stay.
    pub fn resize(&mut self, width: u32, height: u32)
        ensures
            *final(self) == (SurfaceConfig { width: clamp_dim(width), height: clamp_dim(height), ..*old(self) }),
            final(self).wf(),
    {
        self.width = if width == 0 { 1 } else { width };
        self.height = if height == 0 { 1 } else { height };
    }
}

/// Resizing to zero by zero configures a one by one surface, and no
/// resize configures a surface with a zero dimension.
pub proof fn lemma_resize_never_zero(c: SurfaceConfig, width: u32, height: u32)
    ensures
        (SurfaceConfig { width: clamp_dim(0), height: clamp_dim(0), ..c }).width == 1,
        (SurfaceConfig { width: clamp_dim(0), height: clamp_dim(0), ..c }).height == 1,
        (SurfaceConfig { width: clamp_dim(width), height: clamp_dim(height), ..c }).wf(),
{
}

} // verus!
