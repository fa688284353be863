//! The plain data behind the opaque drawing objects the script builds:
//! colours and texture-drawing parameters. Every float the host works
//! with is carried here as its 32-bit bit pattern; the host converts at
//! its own boundary and the bridge only stores and routes the bits.
use vstd::prelude::*;

verus! {

/// A colour: red, green, blue, alpha, each the bit pattern of the
/// host's 32-bit float channel.
#[derive(Clone, Copy, PartialEq, Eq, Structural, Debug)]
pub struct ColorData {
    pub red: u32,
    pub green: u32,
    pub blue: u32,
    pub alpha: u32,
}

impl ColorData {
    /// A colour from its four channel bit patterns.
    pub fn new(red: u32, green: u32, blue: u32, alpha: u32) -> (c: ColorData)
        ensures
            c == (ColorData { red, green, blue, alpha }),
    {
        ColorData { red, green, blue, alpha }
    }
}

/// Texture-drawing parameters: the fields of the host's draw call that
/// the script may set. Sizes, rectangles and angles are 32-bit float
/// bit patterns.
#[derive(Clone, Copy, PartialEq, Debug)]
pub struct DrawParams {
    /// Width and height to stretch the texture to, if set.
    pub dest_size: Option<(u32, u32)>,
    /// Source rectangle (x, y, width, height) within the texture, if set.
    pub source: Option<(u32, u32, u32, u32)>,
    /// Rotation angle.
    pub rotation: u32,
    /// Mirror along the x axis.
    pub flip_x: bool,
    /// Mirror along the y axis.
    pub flip_y: bool,
    /// Rotation pivot, if set.
    pub pivot: Option<(u32, u32)>,
}

impl DrawParams {
    /// The parameters with nothing set: no stretch, the whole texture,
    /// no rotation, no mirroring, no pivot.
    pub open spec fn spec_default() -> DrawParams {
        DrawParams {
            dest_size: None,
            source: None,
            rotation: 0u32,
            flip_x: false,
            flip_y: false,
            pivot: None,
        }
    }

    /// The parameters the script's full builder produces: destination
    /// size and source rectangle set, the given rotation and flips, and
    /// no pivot.
    pub fn with_dest_and_source(
        dest_w: u32,
        dest_h: u32,
        src_x: u32,
        src_y: u32,
        src_w: u32,
        src_h: u32,
        rotation: u32,
        flip_x: bool,
        flip_y: bool,
    ) -> (p: DrawParams)
        ensures
            p == (DrawParams {
                dest_size: Some((dest_w, dest_h)),
                source: Some((src_x, src_y, src_w, src_h)),
                rotation,
                flip_x,
                flip_y,
                pivot: None::<(u32, u32)>,
            }),
    {
        DrawParams {
            dest_size: Some((dest_w, dest_h)),
            source: Some((src_x, src_y, src_w, src_h)),
            rotation,
            flip_x,
            flip_y,
            pivot: None,
        }
    }
}

impl Default for DrawParams {
    /// Nothing set: no stretch, the whole texture, no rotation, no
    /// mirroring, no pivot. The zero bit pattern is the float zero.
    fn default() -> (p: Self)
        ensures
            p == DrawParams::spec_default(),
    {
        DrawParams {
            dest_size: None,
            source: None,
            rotation: 0,
            flip_x: false,
            flip_y: false,
            pivot: None,
        }
    }
}

} // verus!
