use vstd::prelude::*;
use crate::paths::views_of;

verus! {

// The picture model: decoded pixel data as plain values, with the ICC
// colour work delegated to the lcms2 crate behind the trusted items at the
// bottom of this file.  Decoding itself reads files and stays in the I/O
// shell; it hands this module plain buffers.

/// Why a picture could not be produced or shown.
#[derive(Debug)]
pub enum PictureError {
    /// Reading the file failed; the message comes from the shell.
    IO(String),
    /// The decoder rejected the file; the message comes from the shell.
    ImageError(String),
    /// The colour transform failed.
    ICCError(IccError),
    UnsupportedChannelCount(u8),
    UnsupportedImageFormat,
    UnsupportedPixelFormat,
    /// An animation declared no frames at all.
    ZeroFrames,
}

/// The ways the colour engine can fail, one for each of its error cases.
#[derive(Clone, Copy, PartialEq, Eq, Structural, Debug)]
pub enum IccError {
    ObjectCreation,
    MissingData,
    InvalidString,
}

/// How many channels one pixel carries.
#[derive(Clone, Copy, PartialEq, Eq, Structural, Debug)]
pub enum ChannelCount {
    One,
    Two,
    Three,
    Four,
}

impl ChannelCount {
    /// The count as a number.
    pub open spec fn spec_count(self) -> int {
        match self {
            ChannelCount::One => 1,
            ChannelCount::Two => 2,
            ChannelCount::Three => 3,
            ChannelCount::Four => 4,
        }
    }

    /// The count as a number.
    pub fn count(&self) -> (r: u8)
        ensures
            r as int == self.spec_count(),
    {
        match self {
            ChannelCount::One => 1,
            ChannelCount::Two => 2,
            ChannelCount::Three => 3,
            ChannelCount::Four => 4,
        }
    }

    /// Classifies a raw channel count; anything outside one to four
    /// channels is unsupported.
    pub fn from_count(number: u8) -> (r: Result<ChannelCount, PictureError>)
        ensures
            match r {
                Ok(c) => 1 <= number <= 4 && c.spec_count() == number as int,
                Err(PictureError::UnsupportedChannelCount(n)) => n == number && (number < 1
                    || number > 4),
                _ => false,
            },
    {
        match number {
            1 => Ok(ChannelCount::One),
            2 => Ok(ChannelCount::Two),
            3 => Ok(ChannelCount::Three),
            4 => Ok(ChannelCount::Four),
            _ => Err(PictureError::UnsupportedChannelCount(number)),
        }
    }
}

/// What the channels of a pixel mean.
#[derive(Clone, Copy, PartialEq, Eq, Structural, Debug)]
pub enum ChannelInterpretation {
    L,
    LA,
    RGB,
    RGBA,
}

impl ChannelInterpretation {
    /// The channel order a sampler needs to present this layout as RGBA.
    pub open spec fn spec_swizzle(self) -> Seq<i32> {
        match self {
            ChannelInterpretation::L => seq![0i32, 0i32, 0i32, 3i32],
            ChannelInterpretation::LA => seq![0i32, 0i32, 0i32, 1i32],
            ChannelInterpretation::RGB => seq![0i32, 1i32, 2i32, 3i32],
            ChannelInterpretation::RGBA => seq![0i32, 1i32, 2i32, 3i32],
        }
    }

    /// The channel order a sampler needs to present this layout as RGBA.
    pub fn swizzle_for_rgba(&self) -> (r: [i32; 4])
        ensures
            r@ == self.spec_swizzle(),
    {
        let r = match self {
            ChannelInterpretation::L => [0i32, 0i32, 0i32, 3i32],
            ChannelInterpretation::LA => [0i32, 0i32, 0i32, 1i32],
            ChannelInterpretation::RGB => [0i32, 1i32, 2i32, 3i32],
            ChannelInterpretation::RGBA => [0i32, 1i32, 2i32, 3i32],
        };
        proof {
            match self {
                ChannelInterpretation::L => {
                    assert(r@ =~= seq![0i32, 0i32, 0i32, 3i32]);
                },
                ChannelInterpretation::LA => {
                    assert(r@ =~= seq![0i32, 0i32, 0i32, 1i32]);
                },
                ChannelInterpretation::RGB => {
                    assert(r@ =~= seq![0i32, 1i32, 2i32, 3i32]);
                },
                ChannelInterpretation::RGBA => {
                    assert(r@ =~= seq![0i32, 1i32, 2i32, 3i32]);
                },
            }
        }
        r
    }

    /// How many channels this layout needs.
    pub open spec fn spec_channels(self) -> int {
        match self {
            ChannelInterpretation::L => 1,
            ChannelInterpretation::LA => 2,
            ChannelInterpretation::RGB => 3,
            ChannelInterpretation::RGBA => 4,
        }
    }
}

/// Decoded pixels at one of the two supported bit depths.
pub enum PixelData {
    EightBit(Vec<u8>),
    SixteenBit(Vec<u16>),
}

impl PixelData {
    /// How many samples the buffer holds.
    pub open spec fn spec_len(self) -> int {
        match self {
            PixelData::EightBit(v) => v@.len() as int,
            PixelData::SixteenBit(v) => v@.len() as int,
        }
    }

    pub open spec fn is_eight_bit(self) -> bool {
        self is EightBit
    }

    /// Whether two buffers hold exactly the same samples at the same
    /// depth.
    pub open spec fn same_samples(self, other: PixelData) -> bool {
        match (self, other) {
            (PixelData::EightBit(a), PixelData::EightBit(b)) => a@ == b@,
            (PixelData::SixteenBit(a), PixelData::SixteenBit(b)) => a@ == b@,
            _ => false,
        }
    }
}

/// A display gamma as an exact ratio.
#[derive(Clone, Copy, PartialEq, Eq, Structural, Debug)]
pub struct Gamma {
    pub num: u32,
    pub den: u32,
}

impl Gamma {
    /// Unit gamma: the decoded values are shown as they are.
    pub fn linear() -> (r: Gamma)
        ensures
            r.num == 1 && r.den == 1,
    {
        Gamma { num: 1, den: 1 }
    }
}

/// One decoded still picture, ready to upload.
pub struct StillPicture {
    pub pixel_data: PixelData,
    pub resolution: [u32; 2],
    pub channel_count: ChannelCount,
    pub channel_interpretation: ChannelInterpretation,
    pub gamma: Gamma,
    pub icc: lcms2::Profile,
}

impl StillPicture {
    /// A consistent picture: the buffer holds exactly one sample per
    /// channel per pixel, and the layout agrees with the channel count.
    pub open spec fn wf(self) -> bool {
        &&& self.pixel_data.spec_len() == self.resolution@[0] as int * self.resolution@[1] as int
            * self.channel_count.spec_count()
        &&& self.channel_interpretation.spec_channels() == self.channel_count.spec_count()
        &&& self.gamma.den > 0
    }

    /// Assembles a picture from what the decoder reported: dimensions,
    /// channel count, whether the pixels carry colour and alpha, and the
    /// raw buffer.  Every inconsistent combination is rejected.
    pub fn from_decoded(
        width: u32,
        height: u32,
        channels: u8,
        has_color: bool,
        has_alpha: bool,
        pixel_data: PixelData,
        icc: lcms2::Profile,
    ) -> (r: Result<StillPicture, PictureError>)
        ensures
            match r {
                Ok(p) => {
                    &&& p.wf()
                    &&& p.resolution@[0] == width && p.resolution@[1] == height
                    &&& p.channel_count.spec_count() == channels as int
                    &&& p.pixel_data == pixel_data
                    &&& p.gamma.num == 1 && p.gamma.den == 1
                    &&& match p.channel_interpretation {
                        ChannelInterpretation::RGBA => has_color && has_alpha && channels == 4,
                        ChannelInterpretation::RGB => has_color && !has_alpha && channels == 3,
                        ChannelInterpretation::LA => !has_color && has_alpha && channels == 2,
                        ChannelInterpretation::L => !has_color && !has_alpha && channels == 1,
                    }
                },
                Err(PictureError::UnsupportedChannelCount(n)) => n == channels && (channels < 1
                    || channels > 4),
                Err(PictureError::UnsupportedPixelFormat) => 1 <= channels <= 4,
                _ => false,
            },
    {
        let channel_count = match ChannelCount::from_count(channels) {
            Ok(c) => c,
            Err(e) => {
                return Err(e);
            },
        };
        let channel_interpretation = match (has_color, has_alpha, &channel_count) {
            (true, true, ChannelCount::Four) => ChannelInterpretation::RGBA,
            (true, false, ChannelCount::Three) => ChannelInterpretation::RGB,
            (false, true, ChannelCount::Two) => ChannelInterpretation::LA,
            (false, false, ChannelCount::One) => ChannelInterpretation::L,
            _ => {
                return Err(PictureError::UnsupportedPixelFormat);
            },
        };
        proof {
            assert(0 <= (width as int) * (height as int) <= 0xffffffff * 0xffffffff) by (
            nonlinear_arith)
                requires
                    width <= 0xffffffffu32,
                    height <= 0xffffffffu32,
            ;
            assert((width as int) * (height as int) * (channels as int) <= 0xffffffff
                * 0xffffffff * 0xff) by (nonlinear_arith)
                requires
                    0 <= (width as int) * (height as int) <= 0xffffffff * 0xffffffff,
                    channels <= 0xffu8,
            ;
        }
        let expected = (width as u128) * (height as u128) * (channels as u128);
        let actual = match &pixel_data {
            PixelData::EightBit(v) => v.len() as u128,
            PixelData::SixteenBit(v) => v.len() as u128,
        };
        if actual != expected {
            return Err(PictureError::UnsupportedPixelFormat);
        }
        Ok(
            StillPicture {
                pixel_data,
                resolution: [width, height],
                channel_count,
                channel_interpretation,
                gamma: Gamma::linear(),
                icc,
            },
        )
    }

    /// Adjusts the display gamma; the high-dynamic-range path shows its
    /// pictures with a non-unit ratio.
    pub fn set_gamma(&mut self, num: u32, den: u32)
        requires
            den > 0,
        ensures
            *final(self) == (StillPicture { gamma: Gamma { num, den }, ..*old(self) }),
    {
        self.gamma = Gamma { num, den };
    }

    /// Re-expresses the pixels in the colour space of `target`, in place.
    /// The buffer keeps its bit depth and its exact length; everything
    /// else about the picture is untouched, and a failed transform leaves
    /// the picture exactly as it was.
    pub fn transform_to_icc(&mut self, target: &lcms2::Profile) -> (r: Result<
        (),
        PictureError,
    >)
        requires
            old(self).wf(),
        ensures
            final(self).wf(),
            match r {
                Ok(()) => {
                    &&& final(self).pixel_data.spec_len() == old(self).pixel_data.spec_len()
                    &&& final(self).pixel_data.is_eight_bit()
                        == old(self).pixel_data.is_eight_bit()
                    &&& final(self).resolution == old(self).resolution
                    &&& final(self).channel_count == old(self).channel_count
                    &&& final(self).channel_interpretation == old(
                        self,
                    ).channel_interpretation
                    &&& final(self).gamma == old(self).gamma
                    &&& final(self).icc == old(self).icc
                },
                Err(PictureError::ICCError(_)) => *final(self) == *old(self),
                _ => false,
            },
    {
        let ghost original_len = self.pixel_data.spec_len();
        match &self.pixel_data {
            PixelData::EightBit(data) => {
                match self.channel_interpretation {
                    ChannelInterpretation::L => {
                        let mut pixels = copy_samples(data);
                        match transform_gray_8(&self.icc, target, &mut pixels) {
                            Ok(()) => {
                                self.pixel_data = PixelData::EightBit(pixels);
                                Ok(())
                            },
                            Err(e) => Err(PictureError::ICCError(e)),
                        }
                    },
                    ChannelInterpretation::LA => {
                        let mut pixels = chunk_pairs(data);
                        match transform_gray_alpha_8(&self.icc, target, &mut pixels) {
                            Ok(()) => {
                                self.pixel_data = PixelData::EightBit(flatten_pairs(&pixels));
                                Ok(())
                            },
                            Err(e) => Err(PictureError::ICCError(e)),
                        }
                    },
                    ChannelInterpretation::RGB => {
                        let mut pixels = chunk_triples(data);
                        match transform_rgb_8(&self.icc, target, &mut pixels) {
                            Ok(()) => {
                                self.pixel_data = PixelData::EightBit(
                                    flatten_triples(&pixels),
                                );
                                Ok(())
                            },
                            Err(e) => Err(PictureError::ICCError(e)),
                        }
                    },
                    ChannelInterpretation::RGBA => {
                        let mut pixels = chunk_quads(data);
                        match transform_rgba_8(&self.icc, target, &mut pixels) {
                            Ok(()) => {
                                self.pixel_data = PixelData::EightBit(flatten_quads(&pixels));
                                Ok(())
                            },
                            Err(e) => Err(PictureError::ICCError(e)),
                        }
                    },
                }
            },
            PixelData::SixteenBit(data) => {
                match self.channel_interpretation {
                    ChannelInterpretation::L => {
                        let mut pixels = copy_samples(data);
                        match transform_gray_16(&self.icc, target, &mut pixels) {
                            Ok(()) => {
                                self.pixel_data = PixelData::SixteenBit(pixels);
                                Ok(())
                            },
                            Err(e) => Err(PictureError::ICCError(e)),
                        }
                    },
                    ChannelInterpretation::LA => {
                        let mut pixels = chunk_pairs(data);
                        match transform_gray_alpha_16(&self.icc, target, &mut pixels) {
                            Ok(()) => {
                                self.pixel_data = PixelData::SixteenBit(
                                    flatten_pairs(&pixels),
                                );
                                Ok(())
                            },
                            Err(e) => Err(PictureError::ICCError(e)),
                        }
                    },
                    ChannelInterpretation::RGB => {
                        let mut pixels = chunk_triples(data);
                        match transform_rgb_16(&self.icc, target, &mut pixels) {
                            Ok(()) => {
                                self.pixel_data = PixelData::SixteenBit(
                                    flatten_triples(&pixels),
                                );
                                Ok(())
                            },
                            Err(e) => Err(PictureError::ICCError(e)),
                        }
                    },
                    ChannelInterpretation::RGBA => {
                        let mut pixels = chunk_quads(data);
                        match transform_rgba_16(&self.icc, target, &mut pixels) {
                            Ok(()) => {
                                self.pixel_data = PixelData::SixteenBit(
                                    flatten_quads(&pixels),
                                );
                                Ok(())
                            },
                            Err(e) => Err(PictureError::ICCError(e)),
                        }
                    },
                }
            },
        }
    }

    /// A copy of the picture; the profile has to go through its byte form,
    /// which can fail, so this is not a plain clone.
    pub fn duplicate(&self) -> (r: Result<StillPicture, PictureError>)
        requires
            self.wf(),
        ensures
            match r {
                Ok(p) => {
                    &&& p.wf()
                    &&& p.pixel_data.same_samples(self.pixel_data)
                    &&& p.resolution == self.resolution
                    &&& p.channel_count == self.channel_count
                    &&& p.channel_interpretation == self.channel_interpretation
                    &&& p.gamma == self.gamma
                },
                Err(PictureError::ICCError(_)) => true,
                _ => false,
            },
    {
        let bytes = match profile_icc_bytes(&self.icc) {
            Ok(b) => b,
            Err(e) => {
                return Err(PictureError::ICCError(e));
            },
        };
        let icc = match profile_from_icc(&bytes) {
            Ok(p) => p,
            Err(e) => {
                return Err(PictureError::ICCError(e));
            },
        };
        let pixel_data = match &self.pixel_data {
            PixelData::EightBit(v) => PixelData::EightBit(copy_samples(v)),
            PixelData::SixteenBit(v) => PixelData::SixteenBit(copy_samples(v)),
        };
        Ok(
            StillPicture {
                pixel_data,
                resolution: [self.resolution[0], self.resolution[1]],
                channel_count: self.channel_count,
                channel_interpretation: self.channel_interpretation,
                gamma: self.gamma,
                icc,
            },
        )
    }
}

/// One frame of an animated picture and how long it stays up.
pub struct Frame {
    pub still: StillPicture,
    /// Milliseconds until the next frame is due.
    pub interval: u64,
}

/// Plays the frames of an animation in a loop, never two frames closer
/// together than the interval the earlier frame declared.
pub struct FramesPlayer {
    frames: Vec<Frame>,
    playhead: usize,
    onset: u64,
    interval: u64,
}

impl FramesPlayer {
    pub closed spec fn wf(self) -> bool {
        &&& self.frames@.len() > 0
        &&& self.frames@.len() <= usize::MAX
        &&& self.playhead < self.frames@.len()
        &&& forall|i: int| 0 <= i < self.frames@.len() ==> (#[trigger] self.frames@[i].still).wf()
    }

    pub closed spec fn frames_spec(self) -> Seq<Frame> {
        self.frames@
    }

    pub closed spec fn playhead_spec(self) -> int {
        self.playhead as int
    }

    pub closed spec fn onset_spec(self) -> int {
        self.onset as int
    }

    pub closed spec fn interval_spec(self) -> int {
        self.interval as int
    }

    /// Whether the next frame is due at this instant.
    pub open spec fn due(self, now: u64) -> bool {
        now as int >= self.onset_spec() + self.interval_spec()
    }

    /// The player as it stands after one poll at `now`: a due player
    /// advances its playhead with wraparound and starts the yielded
    /// frame's interval; any other player is untouched.
    pub closed spec fn stepped(self, now: u64) -> FramesPlayer {
        if self.due(now) && self.wf() {
            FramesPlayer {
                frames: self.frames,
                playhead: (((self.playhead as int + 1) % (self.frames@.len() as int)) as usize),
                onset: now,
                interval: self.frames@[self.playhead as int].interval,
            }
        } else {
            self
        }
    }

    /// Builds a player over the decoded frames; an empty animation is the
    /// zero-frames error.
    pub fn new(frames: Vec<Frame>, now: u64) -> (r: Result<FramesPlayer, PictureError>)
        requires
            forall|i: int| 0 <= i < frames@.len() ==> (#[trigger] frames@[i].still).wf(),
        ensures
            match r {
                Ok(p) => {
                    &&& p.wf()
                    &&& frames@.len() > 0
                    &&& p.frames_spec() == frames@
                    &&& p.playhead_spec() == 0
                    &&& p.onset_spec() == now as int
                    &&& p.interval_spec() == 0
                },
                Err(PictureError::ZeroFrames) => frames@.len() == 0,
                _ => false,
            },
    {
        if frames.len() == 0 {
            return Err(PictureError::ZeroFrames);
        }
        Ok(FramesPlayer { frames, playhead: 0, onset: now, interval: 0 })
    }

    /// Yields the frame under the playhead once its predecessor's
    /// interval has elapsed, and never earlier; the playhead then wraps
    /// around the frame list.
    pub fn next(&mut self, now: u64) -> (r: Option<&StillPicture>)
        requires
            old(self).wf(),
        ensures
            final(self).wf(),
            *final(self) == old(self).stepped(now),
            final(self).frames_spec() == old(self).frames_spec(),
            match r {
                Some(s) => {
                    &&& old(self).due(now)
                    &&& *s == old(self).frames_spec()[old(self).playhead_spec()].still
                    &&& s.wf()
                    &&& final(self).playhead_spec() == (old(self).playhead_spec() + 1) % (
                    old(self).frames_spec().len() as int)
                    &&& final(self).onset_spec() == now as int
                    &&& final(self).interval_spec() == old(self).frames_spec()[old(
                        self,
                    ).playhead_spec()].interval as int
                },
                None => {
                    &&& !old(self).due(now)
                    &&& *final(self) == *old(self)
                },
            },
    {
        if now >= self.onset && now - self.onset >= self.interval {
            let here = self.playhead;
            let len = self.frames.len();
            self.playhead = (here + 1) % len;
            self.onset = now;
            self.interval = self.frames[here].interval;
            return Some(&self.frames[here].still);
        }
        None
    }
}

/// Law: after a frame comes up at `t1`, the following frame cannot come
/// up before `t1` plus the interval the first frame declared.  The
/// hypotheses are exactly what `FramesPlayer::next` ensures of a yield at
/// `t1` and of a later yield at `t2`.
pub proof fn lemma_frame_pacing(before: FramesPlayer, after: FramesPlayer, t1: u64, t2: u64)
    requires
        before.wf(),
        before.due(t1),
        after.onset_spec() == t1 as int,
        after.interval_spec() == before.frames_spec()[before.playhead_spec()].interval as int,
        after.due(t2),
    ensures
        t2 as int >= t1 as int + before.frames_spec()[before.playhead_spec()].interval as int,
{
}

/// A decoded picture: one frame, or a looping animation.
pub enum Picture {
    Still(StillPicture),
    Motion(FramesPlayer),
}

impl Picture {
    pub open spec fn wf(self) -> bool {
        match self {
            Picture::Still(s) => s.wf(),
            Picture::Motion(p) => p.wf(),
        }
    }
}

/// The extensions the decode collaborator recognizes, lower case, in the
/// order its formats are listed.
pub open spec fn allowed_extensions() -> Seq<Seq<u8>> {
    seq![
        seq![112u8, 110u8, 103u8],  // png
        seq![106u8, 112u8, 103u8],  // jpg
        seq![106u8, 112u8, 101u8, 103u8],  // jpeg
        seq![103u8, 105u8, 102u8],  // gif
        seq![119u8, 101u8, 98u8, 112u8],  // webp
        seq![112u8, 98u8, 109u8],  // pbm
        seq![112u8, 97u8, 109u8],  // pam
        seq![112u8, 112u8, 109u8],  // ppm
        seq![112u8, 103u8, 109u8],  // pgm
        seq![116u8, 105u8, 102u8, 102u8],  // tiff
        seq![116u8, 105u8, 102u8],  // tif
        seq![116u8, 103u8, 97u8],  // tga
        seq![100u8, 100u8, 115u8],  // dds
        seq![98u8, 109u8, 112u8],  // bmp
        seq![105u8, 99u8, 111u8],  // ico
        seq![104u8, 100u8, 114u8],  // hdr
        seq![101u8, 120u8, 114u8],  // exr
        seq![102u8, 102u8],  // ff
        seq![97u8, 118u8, 105u8, 102u8],  // avif
    ]
}

/// The extension allow-list as byte strings.
pub fn extensions() -> (r: Vec<Vec<u8>>)
    ensures
        views_of(r@) == allowed_extensions(),
{
    let mut r: Vec<Vec<u8>> = Vec::new();
    r.push(vec![112u8, 110u8, 103u8]);  // png
    r.push(vec![106u8, 112u8, 103u8]);  // jpg
    r.push(vec![106u8, 112u8, 101u8, 103u8]);  // jpeg
    r.push(vec![103u8, 105u8, 102u8]);  // gif
    r.push(vec![119u8, 101u8, 98u8, 112u8]);  // webp
    r.push(vec![112u8, 98u8, 109u8]);  // pbm
    r.push(vec![112u8, 97u8, 109u8]);  // pam
    r.push(vec![112u8, 112u8, 109u8]);  // ppm
    r.push(vec![112u8, 103u8, 109u8]);  // pgm
    r.push(vec![116u8, 105u8, 102u8, 102u8]);  // tiff
    r.push(vec![116u8, 105u8, 102u8]);  // tif
    r.push(vec![116u8, 103u8, 97u8]);  // tga
    r.push(vec![100u8, 100u8, 115u8]);  // dds
    r.push(vec![98u8, 109u8, 112u8]);  // bmp
    r.push(vec![105u8, 99u8, 111u8]);  // ico
    r.push(vec![104u8, 100u8, 114u8]);  // hdr
    r.push(vec![101u8, 120u8, 114u8]);  // exr
    r.push(vec![102u8, 102u8]);  // ff
    r.push(vec![97u8, 118u8, 105u8, 102u8]);  // avif
    proof {
        assert(views_of(r@) =~= allowed_extensions());
    }
    r
}

// What the colour engine needs the buffers as: one fixed-size array per
// pixel.  The functions below regroup a flat buffer without touching a
// single sample.

fn chunk_pairs<T: Copy>(data: &Vec<T>) -> (r: Vec<[T; 2]>)
    requires
        data@.len() % 2 == 0,
    ensures
        r@.len() == data@.len() / 2,
        forall|i: int, j: int|
            0 <= i < r@.len() && 0 <= j < 2 ==> r@[i]@[j] == data@[2 * i + j],
{
    proof {
        vstd::arithmetic::div_mod::lemma_fundamental_div_mod(data@.len() as int, 2);
    }
    let n = data.len() / 2;
    let mut r: Vec<[T; 2]> = Vec::new();
    let mut c: usize = 0;
    while c < n
        invariant
            c <= n,
            2 * (n as int) == data@.len(),
            data@.len() <= usize::MAX,
            r@.len() == c,
            forall|i: int, j: int| 0 <= i < c && 0 <= j < 2 ==> r@[i]@[j] == data@[2 * i + j],
        decreases n - c,
    {
        let a = data[2 * c];
        let b = data[2 * c + 1];
        let entry = [a, b];
        assert(entry@[0] == a && entry@[1] == b);
        r.push(entry);
        c = c + 1;
    }
    r
}

fn flatten_pairs<T: Copy>(v: &Vec<[T; 2]>) -> (r: Vec<T>)
    ensures
        r@.len() == 2 * v@.len(),
        forall|i: int, j: int| 0 <= i < v@.len() && 0 <= j < 2 ==> r@[2 * i + j] == v@[i]@[j],
{
    let mut r: Vec<T> = Vec::new();
    let mut c: usize = 0;
    while c < v.len()
        invariant
            c <= v@.len(),
            r@.len() == 2 * c,
            forall|i: int, j: int| 0 <= i < c && 0 <= j < 2 ==> r@[2 * i + j] == v@[i]@[j],
        decreases v@.len() - c,
    {
        let entry = v[c];
        r.push(entry[0]);
        r.push(entry[1]);
        c = c + 1;
    }
    r
}

fn chunk_triples<T: Copy>(data: &Vec<T>) -> (r: Vec<[T; 3]>)
    requires
        data@.len() % 3 == 0,
    ensures
        r@.len() == data@.len() / 3,
        forall|i: int, j: int|
            0 <= i < r@.len() && 0 <= j < 3 ==> r@[i]@[j] == data@[3 * i + j],
{
    proof {
        vstd::arithmetic::div_mod::lemma_fundamental_div_mod(data@.len() as int, 3);
    }
    let n = data.len() / 3;
    let mut r: Vec<[T; 3]> = Vec::new();
    let mut c: usize = 0;
    while c < n
        invariant
            c <= n,
            3 * (n as int) == data@.len(),
            data@.len() <= usize::MAX,
            r@.len() == c,
            forall|i: int, j: int| 0 <= i < c && 0 <= j < 3 ==> r@[i]@[j] == data@[3 * i + j],
        decreases n - c,
    {
        let a = data[3 * c];
        let b = data[3 * c + 1];
        let d = data[3 * c + 2];
        let entry = [a, b, d];
        assert(entry@[0] == a && entry@[1] == b && entry@[2] == d);
        r.push(entry);
        c = c + 1;
    }
    r
}

fn flatten_triples<T: Copy>(v: &Vec<[T; 3]>) -> (r: Vec<T>)
    ensures
        r@.len() == 3 * v@.len(),
        forall|i: int, j: int| 0 <= i < v@.len() && 0 <= j < 3 ==> r@[3 * i + j] == v@[i]@[j],
{
    let mut r: Vec<T> = Vec::new();
    let mut c: usize = 0;
    while c < v.len()
        invariant
            c <= v@.len(),
            r@.len() == 3 * c,
            forall|i: int, j: int| 0 <= i < c && 0 <= j < 3 ==> r@[3 * i + j] == v@[i]@[j],
        decreases v@.len() - c,
    {
        let entry = v[c];
        r.push(entry[0]);
        r.push(entry[1]);
        r.push(entry[2]);
        c = c + 1;
    }
    r
}

fn chunk_quads<T: Copy>(data: &Vec<T>) -> (r: Vec<[T; 4]>)
    requires
        data@.len() % 4 == 0,
    ensures
        r@.len() == data@.len() / 4,
        forall|i: int, j: int|
            0 <= i < r@.len() && 0 <= j < 4 ==> r@[i]@[j] == data@[4 * i + j],
{
    proof {
        vstd::arithmetic::div_mod::lemma_fundamental_div_mod(data@.len() as int, 4);
    }
    let n = data.len() / 4;
    let mut r: Vec<[T; 4]> = Vec::new();
    let mut c: usize = 0;
    while c < n
        invariant
            c <= n,
            4 * (n as int) == data@.len(),
            data@.len() <= usize::MAX,
            r@.len() == c,
            forall|i: int, j: int| 0 <= i < c && 0 <= j < 4 ==> r@[i]@[j] == data@[4 * i + j],
        decreases n - c,
    {
        let a = data[4 * c];
        let b = data[4 * c + 1];
        let d = data[4 * c + 2];
        let e = data[4 * c + 3];
        let entry = [a, b, d, e];
        assert(entry@[0] == a && entry@[1] == b && entry@[2] == d && entry@[3] == e);
        r.push(entry);
        c = c + 1;
    }
    r
}

fn flatten_quads<T: Copy>(v: &Vec<[T; 4]>) -> (r: Vec<T>)
    ensures
        r@.len() == 4 * v@.len(),
        forall|i: int, j: int| 0 <= i < v@.len() && 0 <= j < 4 ==> r@[4 * i + j] == v@[i]@[j],
{
    let mut r: Vec<T> = Vec::new();
    let mut c: usize = 0;
    while c < v.len()
        invariant
            c <= v@.len(),
            r@.len() == 4 * c,
            forall|i: int, j: int| 0 <= i < c && 0 <= j < 4 ==> r@[4 * i + j] == v@[i]@[j],
        decreases v@.len() - c,
    {
        let entry = v[c];
        r.push(entry[0]);
        r.push(entry[1]);
        r.push(entry[2]);
        r.push(entry[3]);
        c = c + 1;
    }
    r
}

/// A fresh copy of a sample buffer.
fn copy_samples<T: Copy>(v: &Vec<T>) -> (r: Vec<T>)
    ensures
        r@ == v@,
{
    let mut r: Vec<T> = Vec::new();
    let mut i: usize = 0;
    while i < v.len()
        invariant
            i <= v@.len(),
            r@ =~= v@.take(i as int),
        decreases v@.len() - i,
    {
        r.push(v[i]);
        assert(r@ =~= v@.take(i + 1));
        i = i + 1;
    }
    proof {
        assert(v@.take(v@.len() as int) =~= v@);
    }
    r
}

// The trusted boundary to the lcms2 colour engine.  Every contract below
// is checked only against the lcms2 sources: a same-format transform
// rewrites its buffer in place and cannot change its length, and a failed
// construction leaves the buffer alone.

#[verifier::external_type_specification]
#[verifier::external_body]
#[verifier::reject_recursive_types(Context)]
pub struct ExProfile<Context>(lcms2::Profile<Context>);

#[verifier::external_type_specification]
#[verifier::external_body]
pub struct ExGlobalContext(lcms2::GlobalContext);

/// Relies on lcms2::Profile::new_icc: parses an in-memory ICC profile.
#[verifier::external_body]
fn profile_from_icc(data: &Vec<u8>) -> (r: Result<lcms2::Profile, IccError>)
{
    match lcms2::Profile::new_icc(data) {
        Ok(p) => Ok(p),
        Err(lcms2::Error::ObjectCreationError) => Err(IccError::ObjectCreation),
        Err(lcms2::Error::MissingData) => Err(IccError::MissingData),
        Err(lcms2::Error::InvalidString) => Err(IccError::InvalidString),
    }
}

/// Relies on lcms2::Profile::icc: serializes the profile back to bytes.
#[verifier::external_body]
fn profile_icc_bytes(profile: &lcms2::Profile) -> (r: Result<Vec<u8>, IccError>)
{
    match profile.icc() {
        Ok(b) => Ok(b),
        Err(lcms2::Error::ObjectCreationError) => Err(IccError::ObjectCreation),
        Err(lcms2::Error::MissingData) => Err(IccError::MissingData),
        Err(lcms2::Error::InvalidString) => Err(IccError::InvalidString),
    }
}

/// Relies on lcms2::Transform::new and Transform::transform_in_place:
/// a same-format transform rewrites the buffer in place, one output
/// sample per input sample, and a failed construction touches nothing.
#[verifier::external_body]
fn transform_gray_8(source: &lcms2::Profile, target: &lcms2::Profile, pixels: &mut Vec<u8>) -> (
    r: Result<(), IccError>)
    ensures
        match r {
            Ok(()) => final(pixels)@.len() == old(pixels)@.len(),
            Err(_) => final(pixels)@ == old(pixels)@,
        },
{
    let f = lcms2::PixelFormat::GRAY_8;
    match lcms2::Transform::new(source, f, target, f, lcms2::Intent::Perceptual) {
        Ok(t) => Ok(t.transform_in_place(pixels)),
        Err(lcms2::Error::ObjectCreationError) => Err(IccError::ObjectCreation),
        Err(lcms2::Error::MissingData) => Err(IccError::MissingData),
        Err(lcms2::Error::InvalidString) => Err(IccError::InvalidString),
    }
}

/// Relies on lcms2::Transform::new and Transform::transform_in_place.
#[verifier::external_body]
fn transform_gray_alpha_8(
    source: &lcms2::Profile,
    target: &lcms2::Profile,
    pixels: &mut Vec<[u8; 2]>,
) -> (r: Result<(), IccError>)
    ensures
        match r {
            Ok(()) => final(pixels)@.len() == old(pixels)@.len(),
            Err(_) => final(pixels)@ == old(pixels)@,
        },
{
    let f = lcms2::PixelFormat::GRAYA_8;
    match lcms2::Transform::new(source, f, target, f, lcms2::Intent::Perceptual) {
        Ok(t) => Ok(t.transform_in_place(pixels)),
        Err(lcms2::Error::ObjectCreationError) => Err(IccError::ObjectCreation),
        Err(lcms2::Error::MissingData) => Err(IccError::MissingData),
        Err(lcms2::Error::InvalidString) => Err(IccError::InvalidString),
    }
}

/// Relies on lcms2::Transform::new and Transform::transform_in_place.
#[verifier::external_body]
fn transform_rgb_8(
    source: &lcms2::Profile,
    target: &lcms2::Profile,
    pixels: &mut Vec<[u8; 3]>,
) -> (r: Result<(), IccError>)
    ensures
        match r {
            Ok(()) => final(pixels)@.len() == old(pixels)@.len(),
            Err(_) => final(pixels)@ == old(pixels)@,
        },
{
    let f = lcms2::PixelFormat::RGB_8;
    match lcms2::Transform::new(source, f, target, f, lcms2::Intent::Perceptual) {
        Ok(t) => Ok(t.transform_in_place(pixels)),
        Err(lcms2::Error::ObjectCreationError) => Err(IccError::ObjectCreation),
        Err(lcms2::Error::MissingData) => Err(IccError::MissingData),
        Err(lcms2::Error::InvalidString) => Err(IccError::InvalidString),
    }
}

/// Relies on lcms2::Transform::new and Transform::transform_in_place.
#[verifier::external_body]
fn transform_rgba_8(
    source: &lcms2::Profile,
    target: &lcms2::Profile,
    pixels: &mut Vec<[u8; 4]>,
) -> (r: Result<(), IccError>)
    ensures
        match r {
            Ok(()) => final(pixels)@.len() == old(pixels)@.len(),
            Err(_) => final(pixels)@ == old(pixels)@,
        },
{
    let f = lcms2::PixelFormat::RGBA_8;
    match lcms2::Transform::new(source, f, target, f, lcms2::Intent::Perceptual) {
        Ok(t) => Ok(t.transform_in_place(pixels)),
        Err(lcms2::Error::ObjectCreationError) => Err(IccError::ObjectCreation),
        Err(lcms2::Error::MissingData) => Err(IccError::MissingData),
        Err(lcms2::Error::InvalidString) => Err(IccError::InvalidString),
    }
}

/// Relies on lcms2::Transform::new and Transform::transform_in_place.
#[verifier::external_body]
fn transform_gray_16(
    source: &lcms2::Profile,
    target: &lcms2::Profile,
    pixels: &mut Vec<u16>,
) -> (r: Result<(), IccError>)
    ensures
        match r {
            Ok(()) => final(pixels)@.len() == old(pixels)@.len(),
            Err(_) => final(pixels)@ == old(pixels)@,
        },
{
    let f = lcms2::PixelFormat::GRAY_16;
    match lcms2::Transform::new(source, f, target, f, lcms2::Intent::Perceptual) {
        Ok(t) => Ok(t.transform_in_place(pixels)),
        Err(lcms2::Error::ObjectCreationError) => Err(IccError::ObjectCreation),
        Err(lcms2::Error::MissingData) => Err(IccError::MissingData),
        Err(lcms2::Error::InvalidString) => Err(IccError::InvalidString),
    }
}

/// Relies on lcms2::Transform::new and Transform::transform_in_place.
#[verifier::external_body]
fn transform_gray_alpha_16(
    source: &lcms2::Profile,
    target: &lcms2::Profile,
    pixels: &mut Vec<[u16; 2]>,
) -> (r: Result<(), IccError>)
    ensures
        match r {
            Ok(()) => final(pixels)@.len() == old(pixels)@.len(),
            Err(_) => final(pixels)@ == old(pixels)@,
        },
{
    let f = lcms2::PixelFormat::GRAYA_16;
    match lcms2::Transform::new(source, f, target, f, lcms2::Intent::Perceptual) {
        Ok(t) => Ok(t.transform_in_place(pixels)),
        Err(lcms2::Error::ObjectCreationError) => Err(IccError::ObjectCreation),
        Err(lcms2::Error::MissingData) => Err(IccError::MissingData),
        Err(lcms2::Error::InvalidString) => Err(IccError::InvalidString),
    }
}

/// Relies on lcms2::Transform::new and Transform::transform_in_place.
#[verifier::external_body]
fn transform_rgb_16(
    source: &lcms2::Profile,
    target: &lcms2::Profile,
    pixels: &mut Vec<[u16; 3]>,
) -> (r: Result<(), IccError>)
    ensures
        match r {
            Ok(()) => final(pixels)@.len() == old(pixels)@.len(),
            Err(_) => final(pixels)@ == old(pixels)@,
        },
{
    let f = lcms2::PixelFormat::RGB_16;
    match lcms2::Transform::new(source, f, target, f, lcms2::Intent::Perceptual) {
        Ok(t) => Ok(t.transform_in_place(pixels)),
        Err(lcms2::Error::ObjectCreationError) => Err(IccError::ObjectCreation),
        Err(lcms2::Error::MissingData) => Err(IccError::MissingData),
        Err(lcms2::Error::InvalidString) => Err(IccError::InvalidString),
    }
}

/// Relies on lcms2::Transform::new and Transform::transform_in_place.
#[verifier::external_body]
fn transform_rgba_16(
    source: &lcms2::Profile,
    target: &lcms2::Profile,
    pixels: &mut Vec<[u16; 4]>,
) -> (r: Result<(), IccError>)
    ensures
        match r {
            Ok(()) => final(pixels)@.len() == old(pixels)@.len(),
            Err(_) => final(pixels)@ == old(pixels)@,
        },
{
    let f = lcms2::PixelFormat::RGBA_16;
    match lcms2::Transform::new(source, f, target, f, lcms2::Intent::Perceptual) {
        Ok(t) => Ok(t.transform_in_place(pixels)),
        Err(lcms2::Error::ObjectCreationError) => Err(IccError::ObjectCreation),
        Err(lcms2::Error::MissingData) => Err(IccError::MissingData),
        Err(lcms2::Error::InvalidString) => Err(IccError::InvalidString),
    }
}

} // verus!
