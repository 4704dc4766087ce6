use vstd::prelude::*;
use crate::picture::{ChannelCount, Gamma, PixelData};

verus! {

// The rendering layer as a command model: the painters here decide what
// to draw — corner positions, texture parameters, channel order, colours
// — and hand the decisions out as plain values.  The I/O shell owns the
// graphics context and turns each value into the one call it stands for.

// Error codes and parameter values of the graphics interface, as its
// specification numbers them.
pub const NO_ERROR: u32 = 0;
pub const INVALID_ENUM: u32 = 1280;
pub const INVALID_VALUE: u32 = 1281;
pub const INVALID_OPERATION: u32 = 1282;
pub const OUT_OF_MEMORY: u32 = 1285;
pub const INVALID_FRAMEBUFFER_OPERATION: u32 = 1286;

pub const FILTER_NEAREST: u32 = 9728;
pub const FILTER_LINEAR: u32 = 9729;
pub const FILTER_NEAREST_MIPMAP_NEAREST: u32 = 9984;
pub const FILTER_LINEAR_MIPMAP_NEAREST: u32 = 9985;
pub const FILTER_NEAREST_MIPMAP_LINEAR: u32 = 9986;
pub const FILTER_LINEAR_MIPMAP_LINEAR: u32 = 9987;

pub const WRAP_REPEAT: u32 = 10497;
pub const WRAP_MIRRORED_REPEAT: u32 = 33648;
pub const WRAP_CLAMP_TO_EDGE: u32 = 33071;

pub const STORAGE_RGBA8: u32 = 32856;
pub const STORAGE_RGBA16: u32 = 32859;

pub const FORMAT_RED: u32 = 6403;
pub const FORMAT_RG: u32 = 33319;
pub const FORMAT_RGB: u32 = 6407;
pub const FORMAT_RGBA: u32 = 6408;

/// What went wrong in the rendering layer.
pub enum Error {
    ShaderCompilation(String),
    ProgramLinking(String),
    AttributeNotFound(String),
    UniformNotFound(String),
    GLError(u32),
}

/// Classifies the error flag the graphics interface reported after a
/// batch of calls: zero is success, anything else is an error carrying
/// the flag.
pub fn check_for_gl_errors(flag: u32) -> (r: Result<(), Error>)
    ensures
        match r {
            Ok(()) => flag == NO_ERROR,
            Err(Error::GLError(f)) => f == flag && flag != NO_ERROR,
            _ => false,
        },
{
    if flag == NO_ERROR {
        Ok(())
    } else {
        Err(Error::GLError(flag))
    }
}

/// How a texture repeats outside its own extent.
#[derive(Clone, Copy, PartialEq, Eq, Structural, Debug)]
pub enum WrapMode {
    Repeat,
    MirroredRepeat,
    ClampToEdge,
}

impl WrapMode {
    /// The parameter value the graphics interface gives this mode.
    pub fn parameter(&self) -> (r: u32)
        ensures
            r == match self {
                WrapMode::Repeat => WRAP_REPEAT,
                WrapMode::MirroredRepeat => WRAP_MIRRORED_REPEAT,
                WrapMode::ClampToEdge => WRAP_CLAMP_TO_EDGE,
            },
    {
        match self {
            WrapMode::Repeat => WRAP_REPEAT,
            WrapMode::MirroredRepeat => WRAP_MIRRORED_REPEAT,
            WrapMode::ClampToEdge => WRAP_CLAMP_TO_EDGE,
        }
    }
}

/// How a texture is sampled between its own texels.
#[derive(Clone, Copy, PartialEq, Eq, Structural, Debug)]
pub enum InterpolationType {
    Nearest,
    Linear,
}

/// The minification filter parameter for a choice of filter and optional
/// mipmap filter.
pub fn minification_parameter(
    minification: InterpolationType,
    mipmap: Option<InterpolationType>,
) -> (r: u32)
    ensures
        r == match mipmap {
            Some(InterpolationType::Nearest) => match minification {
                InterpolationType::Nearest => FILTER_NEAREST_MIPMAP_NEAREST,
                InterpolationType::Linear => FILTER_LINEAR_MIPMAP_NEAREST,
            },
            Some(InterpolationType::Linear) => match minification {
                InterpolationType::Nearest => FILTER_NEAREST_MIPMAP_LINEAR,
                InterpolationType::Linear => FILTER_LINEAR_MIPMAP_LINEAR,
            },
            None => match minification {
                InterpolationType::Nearest => FILTER_NEAREST,
                InterpolationType::Linear => FILTER_LINEAR,
            },
        },
{
    match mipmap {
        Some(mipmap) => match (minification, mipmap) {
            (InterpolationType::Nearest, InterpolationType::Nearest) => {
                FILTER_NEAREST_MIPMAP_NEAREST
            },
            (InterpolationType::Nearest, InterpolationType::Linear) => {
                FILTER_NEAREST_MIPMAP_LINEAR
            },
            (InterpolationType::Linear, InterpolationType::Nearest) => {
                FILTER_LINEAR_MIPMAP_NEAREST
            },
            (InterpolationType::Linear, InterpolationType::Linear) => {
                FILTER_LINEAR_MIPMAP_LINEAR
            },
        },
        None => match minification {
            InterpolationType::Nearest => FILTER_NEAREST,
            InterpolationType::Linear => FILTER_LINEAR,
        },
    }
}

/// The texture storage format for a sample depth: eight-bit samples go
/// into eight-bit storage, wider samples into sixteen-bit storage.
pub fn storage_format(eight_bit: bool) -> (r: u32)
    ensures
        r == if eight_bit {
            STORAGE_RGBA8
        } else {
            STORAGE_RGBA16
        },
{
    if eight_bit {
        STORAGE_RGBA8
    } else {
        STORAGE_RGBA16
    }
}

/// The pixel-format value for a channel count.
pub fn channel_format(count: &ChannelCount) -> (r: u32)
    ensures
        r == match count {
            ChannelCount::One => FORMAT_RED,
            ChannelCount::Two => FORMAT_RG,
            ChannelCount::Three => FORMAT_RGB,
            ChannelCount::Four => FORMAT_RGBA,
        },
{
    match count {
        ChannelCount::One => FORMAT_RED,
        ChannelCount::Two => FORMAT_RG,
        ChannelCount::Three => FORMAT_RGB,
        ChannelCount::Four => FORMAT_RGBA,
    }
}

/// A texture upload: the raw buffer with its shape.
pub struct Image {
    /// The samples; an empty slot only reserves the texture's extent.
    pub data: Option<PixelData>,
    pub resolution: [u32; 2],
    pub channel_count: ChannelCount,
}

impl Image {
    /// A consistent upload: one sample per channel per pixel.
    pub open spec fn wf(self) -> bool {
        match self.data {
            Some(d) => d.spec_len() == self.resolution@[0] as int * self.resolution@[1] as int
                * self.channel_count.spec_count(),
            None => true,
        }
    }
}

/// One drawing command, ready for the shell to execute.
pub enum PaintOp {
    /// Fill the quad with a solid colour, channels in thousandths.
    Fill { color: [u16; 4], corners: [[i64; 2]; 4] },
    /// Draw the uploaded texture over the quad with this channel order
    /// and display gamma.
    Blit { corners: [[i64; 2]; 4], swizzle: [i32; 4], gamma: Gamma },
}

/// Whether the four corners trace the axis-aligned rectangle at `origin`
/// of extent `size`, in the order lower-left, upper-left, upper-right,
/// lower-right.
pub open spec fn corners_of(
    corners: [[i64; 2]; 4],
    origin: [i64; 2],
    size: [u64; 2],
) -> bool {
    &&& corners@[0]@[0] == origin@[0] && corners@[0]@[1] == origin@[1]
    &&& corners@[1]@[0] == origin@[0] && corners@[1]@[1] == origin@[1] + size@[1]
    &&& corners@[2]@[0] == origin@[0] + size@[0] && corners@[2]@[1] == origin@[1] + size@[1]
    &&& corners@[3]@[0] == origin@[0] + size@[0] && corners@[3]@[1] == origin@[1]
}

/// The screen-filling quad primitive: it turns a viewport rectangle into
/// the corner positions every painter draws with.
pub struct Canvas {
}

impl Canvas {
    pub fn new() -> (r: Canvas) {
        Canvas {  }
    }

    /// The rectangle's corners in drawing order.
    pub fn draw(&self, origin: [i64; 2], size: [u64; 2]) -> (r: [[i64; 2]; 4])
        requires
            size@[0] <= i64::MAX as u64,
            size@[1] <= i64::MAX as u64,
            origin@[0] + size@[0] <= i64::MAX as int,
            origin@[1] + size@[1] <= i64::MAX as int,
        ensures
            corners_of(r, origin, size),
    {
        let x0 = origin[0];
        let y0 = origin[1];
        let x1 = origin[0] + size[0] as i64;
        let y1 = origin[1] + size[1] as i64;
        let r = [[x0, y0], [x0, y1], [x1, y1], [x1, y0]];
        proof {
            assert(r@[0]@[0] == x0 && r@[0]@[1] == y0);
            assert(r@[1]@[0] == x0 && r@[1]@[1] == y1);
            assert(r@[2]@[0] == x1 && r@[2]@[1] == y1);
            assert(r@[3]@[0] == x1 && r@[3]@[1] == y0);
        }
        r
    }
}

/// Paints a viewport with one solid colour.
pub struct Filler {
    canvas: Canvas,
}

impl Filler {
    pub fn new() -> (r: Filler) {
        Filler { canvas: Canvas::new() }
    }

    /// The fill command for this viewport rectangle.
    pub fn fill(&self, color: [u16; 4], origin: [i64; 2], size: [u64; 2]) -> (r: PaintOp)
        requires
            size@[0] <= i64::MAX as u64,
            size@[1] <= i64::MAX as u64,
            origin@[0] + size@[0] <= i64::MAX as int,
            origin@[1] + size@[1] <= i64::MAX as int,
        ensures
            match r {
                PaintOp::Fill { color: c, corners } => c == color && corners_of(
                    corners,
                    origin,
                    size,
                ),
                _ => false,
            },
    {
        PaintOp::Fill { color, corners: self.canvas.draw(origin, size) }
    }
}

/// Paints a viewport with the picture most recently uploaded to it.
pub struct Blitter {
    canvas: Canvas,
    image: Option<Image>,
    swizzle: [i32; 4],
    gamma: Gamma,
}

impl Blitter {
    /// What the blitter would draw with.
    pub closed spec fn image_spec(self) -> Option<Image> {
        self.image
    }

    pub closed spec fn swizzle_spec(self) -> [i32; 4] {
        self.swizzle
    }

    pub closed spec fn gamma_spec(self) -> Gamma {
        self.gamma
    }

    /// A blitter with nothing uploaded yet: identity channel order, unit
    /// gamma.
    pub fn new() -> (r: Blitter)
        ensures
            r.image_spec() is None,
            r.swizzle_spec()@ == seq![0i32, 1i32, 2i32, 3i32],
            r.gamma_spec().num == 1 && r.gamma_spec().den == 1,
    {
        let swizzle = [0i32, 1i32, 2i32, 3i32];
        proof {
            assert(swizzle@ =~= seq![0i32, 1i32, 2i32, 3i32]);
        }
        Blitter { canvas: Canvas::new(), image: None, swizzle, gamma: Gamma::linear() }
    }

    /// Takes a picture for later blits, with the channel order that
    /// presents it as RGBA and the gamma to show it at.
    pub fn upload_texture(&mut self, image: Image, channel_order: [i32; 4], gamma: Gamma)
        ensures
            final(self).image_spec() == Some(image),
            final(self).swizzle_spec() == channel_order,
            final(self).gamma_spec() == gamma,
    {
        self.image = Some(image);
        self.swizzle = channel_order;
        self.gamma = gamma;
    }

    /// The blit command for this viewport rectangle, drawing with the
    /// uploaded picture's channel order and gamma.
    pub fn blit(&self, origin: [i64; 2], size: [u64; 2]) -> (r: PaintOp)
        requires
            self.image_spec() is Some,
            size@[0] <= i64::MAX as u64,
            size@[1] <= i64::MAX as u64,
            origin@[0] + size@[0] <= i64::MAX as int,
            origin@[1] + size@[1] <= i64::MAX as int,
        ensures
            match r {
                PaintOp::Blit { corners, swizzle, gamma } => {
                    &&& corners_of(corners, origin, size)
                    &&& swizzle == self.swizzle_spec()
                    &&& gamma == self.gamma_spec()
                },
                _ => false,
            },
    {
        PaintOp::Blit {
            corners: self.canvas.draw(origin, size),
            swizzle: self.swizzle,
            gamma: self.gamma,
        }
    }
}

} // verus!
