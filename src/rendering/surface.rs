//! Choosing and keeping the configuration of a window's surface.
use vstd::prelude::*;
use crate::error::PineError;

verus! {

/// wgpu's `TextureFormat`, held as an opaque value.
#[verifier::external_type_specification]
#[verifier::external_body]
pub struct ExTextureFormat(wgpu::TextureFormat);

/// wgpu's `CompositeAlphaMode`, held as an opaque value.
#[verifier::external_type_specification]
#[verifier::external_body]
pub struct ExCompositeAlphaMode(wgpu::CompositeAlphaMode);

/// wgpu's `PresentMode`, a plain enum whose variants are visible.
#[verifier::external_type_specification]
pub struct ExPresentMode(wgpu::PresentMode);

/// Relies on wgpu's `TextureFormat::is_srgb`: whether the format stores
/// color in the sRGB encoding. Nothing more is assumed of its answer.
pub assume_specification[ wgpu::TextureFormat::is_srgb ](format: &wgpu::TextureFormat) -> bool;

/// How a surface is set up: its texture format, alpha handling, present mode,
/// size in physical pixels and frame latency.
#[derive(Debug, Clone, Copy)]
pub struct SurfaceConfig {
    pub format: wgpu::TextureFormat,
    pub alpha_mode: wgpu::CompositeAlphaMode,
    pub present_mode: wgpu::PresentMode,
    pub width: u32,
    pub height: u32,
    pub desired_maximum_frame_latency: u32,
}

/// The frame latency that surfaces are configured with.
pub const FRAME_LATENCY: u32 = 2;

/// The index of the first set flag, or 0 when no flag is set.
pub fn first_flagged_or_first(flags: &Vec<bool>) -> (r: usize)
    requires
        flags@.len() > 0,
    ensures
        r < flags@.len(),
        forall|k: int| 0 <= k < r ==> !flags@[k],
        flags@[r as int] || (r == 0 && forall|k: int| 0 <= k < flags@.len() ==> !flags@[k]),
{
    let mut i: usize = 0;
    while i < flags.len()
        invariant
            0 <= i <= flags@.len(),
            forall|k: int| 0 <= k < i ==> !flags@[k],
        decreases flags@.len() - i,
    {
        if flags[i] {
            return i;
        }
        i = i + 1;
    }
    0
}

/// Picks the format to render with: the first sRGB format offered, or else
/// the first format offered; `None` when nothing is offered.
pub fn select_format(formats: &Vec<wgpu::TextureFormat>) -> (r: Option<wgpu::TextureFormat>)
    ensures
        r is None <==> formats@.len() == 0,
        r matches Some(f) ==> exists|i: int| 0 <= i < formats@.len() && formats@[i] == f,
{
    if formats.len() == 0 {
        return None;
    }
    let mut flags: Vec<bool> = Vec::new();
    let mut i: usize = 0;
    while i < formats.len()
        invariant
            0 <= i <= formats@.len(),
            flags@.len() == i,
        decreases formats@.len() - i,
    {
        flags.push(formats[i].is_srgb());
        i = i + 1;
    }
    let k = first_flagged_or_first(&flags);
    Some(formats[k])
}

impl SurfaceConfig {
    /// Configures a surface from what it supports and the window's size: the
    /// chosen format (see `select_format`), the first alpha mode offered,
    /// first-in-first-out presentation (frames wait for the display) and a
    /// latency of two frames. Fails when no format or no alpha mode is offered.
    pub fn negotiate(
        formats: &Vec<wgpu::TextureFormat>,
        alpha_modes: &Vec<wgpu::CompositeAlphaMode>,
        width: u32,
        height: u32,
    ) -> (r: Result<SurfaceConfig, PineError>)
        ensures
            r is Err <==> formats@.len() == 0 || alpha_modes@.len() == 0,
            r matches Err(e) ==> e == PineError::UnsupportedSurface,
            r matches Ok(c) ==> {
                &&& exists|i: int| 0 <= i < formats@.len() && formats@[i] == c.format
                &&& c.alpha_mode == alpha_modes@[0]
                &&& c.present_mode == wgpu::PresentMode::Fifo
                &&& c.width == width
                &&& c.height == height
                &&& c.desired_maximum_frame_latency == FRAME_LATENCY
            },
    {
        if alpha_modes.len() == 0 {
            return Err(PineError::UnsupportedSurface);
        }
        match select_format(formats) {
            None => Err(PineError::UnsupportedSurface),
            Some(format) => Ok(
                SurfaceConfig {
                    format,
                    alpha_mode: alpha_modes[0],
                    present_mode: wgpu::PresentMode::Fifo,
                    width,
                    height,
                    desired_maximum_frame_latency: FRAME_LATENCY,
                },
            ),
        }
    }
}

} // verus!
