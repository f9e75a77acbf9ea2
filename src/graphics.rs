//! Framebuffer formats and sizes.
use vstd::prelude::*;

use crate::gsp::ScreenDimensions;

verus! {

/// Pixel format of a framebuffer.
#[derive(Debug, Copy, Clone, PartialEq, Eq, Structural)]
pub enum FramebufferColorFormat {
    RGBA8,
    BGR8,
    RGB565,
    RGB5A1,
    RGBA4,
}

impl FramebufferColorFormat {
    /// The wire value of this variant.
    pub open spec fn spec_value(self) -> u8 {
        match self {
            FramebufferColorFormat::RGBA8 => 0,
            FramebufferColorFormat::BGR8 => 1,
            FramebufferColorFormat::RGB565 => 2,
            FramebufferColorFormat::RGB5A1 => 3,
            FramebufferColorFormat::RGBA4 => 4,
        }
    }

    /// The variant whose wire value is `v`, if any.
    pub open spec fn spec_from_value(v: u8) -> Option<FramebufferColorFormat> {
        if v == 0 {
            Some(FramebufferColorFormat::RGBA8)
        } else if v == 1 {
            Some(FramebufferColorFormat::BGR8)
        } else if v == 2 {
            Some(FramebufferColorFormat::RGB565)
        } else if v == 3 {
            Some(FramebufferColorFormat::RGB5A1)
        } else if v == 4 {
            Some(FramebufferColorFormat::RGBA4)
        } else {
            None
        }
    }

    pub fn to_value(&self) -> (r: u8)
        ensures
            r == self.spec_value(),
    {
        match self {
            FramebufferColorFormat::RGBA8 => 0,
            FramebufferColorFormat::BGR8 => 1,
            FramebufferColorFormat::RGB565 => 2,
            FramebufferColorFormat::RGB5A1 => 3,
            FramebufferColorFormat::RGBA4 => 4,
        }
    }

    pub fn from_value(v: u8) -> (r: Option<FramebufferColorFormat>)
        ensures
            r == FramebufferColorFormat::spec_from_value(v),
    {
        match v {
            0 => Some(FramebufferColorFormat::RGBA8),
            1 => Some(FramebufferColorFormat::BGR8),
            2 => Some(FramebufferColorFormat::RGB565),
            3 => Some(FramebufferColorFormat::RGB5A1),
            4 => Some(FramebufferColorFormat::RGBA4),
            _ => None,
        }
    }
}

impl FramebufferColorFormat {
    pub open spec fn spec_bytes_per_pixel(self) -> usize {
        match self {
            FramebufferColorFormat::RGBA8 => 4,
            FramebufferColorFormat::BGR8 => 3,
            _ => 2,
        }
    }

    pub fn bytes_per_pixel(&self) -> (r: usize)
        ensures
            r == self.spec_bytes_per_pixel(),
    {
        match self {
            FramebufferColorFormat::RGBA8 => 4,
            FramebufferColorFormat::BGR8 => 3,
            _ => 2,
        }
    }
}

/// Bytes of a framebuffer of `dimensions` in `format`.
pub fn framebuffer_size(dimensions: ScreenDimensions, format: FramebufferColorFormat) -> (r: u64)
    ensures
        r == dimensions.width as int * dimensions.height as int * format.spec_bytes_per_pixel(),
{
    let w = dimensions.width as u64;
    let h = dimensions.height as u64;
    let b = format.bytes_per_pixel() as u64;
    assert(w * h <= 0xFFFF * 0xFFFF) by (nonlinear_arith)
        requires
            w <= 0xFFFF,
            h <= 0xFFFF,
    ;
    assert(w * h * b <= 0xFFFF * 0xFFFF * 4) by (nonlinear_arith)
        requires
            w * h <= 0xFFFF * 0xFFFF,
            b <= 4,
    ;
    w * h * b
}

} // verus!
