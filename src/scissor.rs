use vstd::prelude::*;

verus! {

/// A draw command's clip rectangle in physical pixels: the GUI library's
/// rectangle multiplied by the content scale, with a top-left origin.
#[derive(Clone, Copy, Debug, PartialEq, Eq, Structural)]
pub struct ClipRect {
    pub x: i64,
    pub y: i64,
    pub w: i64,
    pub h: i64,
}

/// A scissor rectangle as the GPU takes it: bottom-left origin, no negative
/// coordinate.
#[derive(Clone, Copy, Debug, PartialEq, Eq, Structural)]
pub struct ScissorRect {
    pub left: u32,
    pub bottom: u32,
    pub width: u32,
    pub height: u32,
}

/// `v` brought into the range of `u32`: below it to 0, above it to the maximum.
pub open spec fn saturate_u32(v: int) -> u32 {
    if v < 0 {
        0
    } else if v > u32::MAX {
        u32::MAX
    } else {
        v as u32
    }
}

/// The scissor rectangle of `clip` on a framebuffer `fb_height` pixels high.
/// A clip rectangle that starts left of the framebuffer starts at 0 instead
/// and loses that overhang from its width; one that starts above it starts at
/// the bottom edge and loses the overhang from its height.
pub open spec fn scissor_spec(clip: ClipRect, fb_height: u32) -> ScissorRect {
    ScissorRect {
        left: if clip.x < 0 { 0 } else { saturate_u32(clip.x as int) },
        bottom: if clip.y < 0 { 0 } else { saturate_u32(fb_height - clip.y - clip.h) },
        width: if clip.x < 0 { saturate_u32(clip.w + clip.x) } else { saturate_u32(clip.w as int) },
        height: if clip.y < 0 { saturate_u32(clip.h + clip.y) } else { saturate_u32(clip.h as int) },
    }
}

fn saturating_to_u32(v: i128) -> (r: u32)
    ensures
        r == saturate_u32(v as int),
{
    if v < 0 {
        0
    } else if v > u32::MAX as i128 {
        u32::MAX
    } else {
        v as u32
    }
}

/// Converts a clip rectangle into the scissor rectangle of a framebuffer
/// `fb_height` pixels high.
pub fn scissor_rect(clip: ClipRect, fb_height: u32) -> (r: ScissorRect)
    ensures
        r == scissor_spec(clip, fb_height),
{
    let x = clip.x as i128;
    let y = clip.y as i128;
    let w = clip.w as i128;
    let h = clip.h as i128;
    let left = if x < 0 { 0 } else { saturating_to_u32(x) };
    let bottom = if y < 0 { 0 } else { saturating_to_u32(fb_height as i128 - y - h) };
    let width = if x < 0 { saturating_to_u32(w + x) } else { saturating_to_u32(w) };
    let height = if y < 0 { saturating_to_u32(h + y) } else { saturating_to_u32(h) };
    ScissorRect { left, bottom, width, height }
}

} // verus!
