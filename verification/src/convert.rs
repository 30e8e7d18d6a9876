//! Conversion of uploads to WebP: decoding of still images, and the whole
//! GIF to animated WebP pipeline with its frame timing.
use vstd::prelude::*;

use image::codecs::gif::GifDecoder;
use image::io::Reader;
use image::{AnimationDecoder, ColorType, GenericImageView, ImageDecoder, ImageError};
use std::io::Cursor;

verus! {

#[verifier::external_type_specification]
#[verifier::external_body]
pub struct ExImageError(ImageError);

#[verifier::external_type_specification]
#[verifier::external_body]
pub struct ExStillEncoder<'a>(webp::Encoder<'a>);

#[verifier::external_type_specification]
#[verifier::external_body]
pub struct ExAnimationEncoder(webp_animation::Encoder);

#[verifier::external_type_specification]
#[verifier::external_body]
pub struct ExAnimationError(webp_animation::Error);

/// Why a conversion failed.
#[derive(Debug, PartialEq, Eq)]
pub enum ConversionError {
    /// Reading or writing failed.
    IO,
    /// The upload could not be decoded.
    Decoder,
    /// The still-image encoder refused the image, with its reason.
    Encoder(String),
    /// The animation encoder failed.
    AWebPEncoder,
    /// The output path has no parent directory.
    ParentNotFound(String),
    /// A video could not be converted.
    Ffmpeg,
}

/// The message reported for a conversion error.
pub open spec fn conversion_message(e: ConversionError) -> Seq<char> {
    match e {
        ConversionError::IO => "IO operation failed"@,
        ConversionError::Decoder => "Decoder failed"@,
        ConversionError::Encoder(s) => "Encoder failed: "@ + s@,
        ConversionError::AWebPEncoder => "Encoder failed to encode image"@,
        ConversionError::ParentNotFound(p) => "Failed to find parent directory for "@ + p@,
        ConversionError::Ffmpeg => "Failed to convert video file"@,
    }
}

impl ConversionError {
    /// The message reported for this error.
    pub fn message(&self) -> (m: String)
        ensures
            m@ == conversion_message(*self),
    {
        match self {
            ConversionError::IO => String::from_str("IO operation failed"),
            ConversionError::Decoder => String::from_str("Decoder failed"),
            ConversionError::Encoder(s) => {
                let mut m = String::from_str("Encoder failed: ");
                m.append(s.as_str());
                m
            },
            ConversionError::AWebPEncoder => String::from_str("Encoder failed to encode image"),
            ConversionError::ParentNotFound(p) => {
                let mut m = String::from_str("Failed to find parent directory for ");
                m.append(p.as_str());
                m
            },
            ConversionError::Ffmpeg => String::from_str("Failed to convert video file"),
        }
    }
}

/// The pixel layout of a decoded image.
#[derive(Debug, PartialEq, Eq, Structural)]
pub enum ImageLayout {
    /// 8-bit gray.
    Luma8,
    /// 8-bit gray with alpha.
    LumaA8,
    /// 8-bit RGB.
    Rgb8,
    /// 8-bit RGB with alpha.
    Rgba8,
    /// Any layout with more than 8 bits per channel.
    Other,
}

/// A decoded still image as plain values: its layout, its size and the
/// bytes of its pixels, row by row.
pub struct DecodedImage {
    pub layout: ImageLayout,
    pub width: u32,
    pub height: u32,
    pub pixels: Vec<u8>,
}

/// A decoded image as plain values.
pub open spec fn image_values(d: DecodedImage) -> (ImageLayout, u32, u32, Seq<u8>) {
    (d.layout, d.width, d.height, d.pixels@)
}

/// The stage at which loading a still image failed.
pub enum LoadFailure {
    /// Guessing the format from the bytes failed.
    Format,
    /// Decoding in the guessed format failed.
    Decode,
}

/// Whether `image` can guess a format for these bytes without an error.
pub uninterp spec fn image_format_guessed(bytes: Seq<u8>) -> bool;

/// What `image` decodes from these bytes in the format it guessed: the
/// layout, size and pixel bytes, or `None` when decoding fails.
pub uninterp spec fn image_decoding(bytes: Seq<u8>) -> Option<(ImageLayout, u32, u32, Seq<u8>)>;

/// `image::io::Reader::new(Cursor::new(bytes)).with_guessed_format()`, then
/// `decode()`, the image given by its `color()`, `width()`, `height()` and
/// `into_bytes()`. The reader type cannot be declared to Verus (its parameter
/// is bound by `std::io::Read`), so these calls stand in this one item; which
/// stage failed is reported.
#[verifier::external_body]
fn load_image(bytes: &[u8]) -> (r: Result<DecodedImage, LoadFailure>)
    ensures
        r is Err ==> (!image_format_guessed(bytes@) <==> r->Err_0 is Format),
        r matches Ok(d) ==> (image_format_guessed(bytes@) && image_decoding(bytes@) == Some(
            image_values(d),
        )),
        r matches Err(LoadFailure::Decode) ==> image_decoding(bytes@) is None,
{
    let img = match Reader::new(Cursor::new(bytes)).with_guessed_format() {
        Err(_) => return Err(LoadFailure::Format),
        Ok(reader) => reader.decode().map_err(|_| LoadFailure::Decode)?,
    };
    let layout = match img.color() {
        ColorType::L8 => ImageLayout::Luma8,
        ColorType::La8 => ImageLayout::LumaA8,
        ColorType::Rgb8 => ImageLayout::Rgb8,
        ColorType::Rgba8 => ImageLayout::Rgba8,
        _ => ImageLayout::Other,
    };
    Ok(DecodedImage { layout, width: img.width(), height: img.height(), pixels: img.into_bytes() })
}

/// Decodes an uploaded still image: a format that cannot be guessed is an
/// I/O error, bytes that do not decode are a decoder error; otherwise the
/// image is what `image` decodes.
pub fn decode_image(bytes: &[u8]) -> (r: Result<DecodedImage, ConversionError>)
    ensures
        !image_format_guessed(bytes@) ==> r == Err::<DecodedImage, ConversionError>(
            ConversionError::IO,
        ),
        image_format_guessed(bytes@) && image_decoding(bytes@) is None ==> r == Err::<
            DecodedImage,
            ConversionError,
        >(ConversionError::Decoder),
        r is Ok <==> (image_format_guessed(bytes@) && image_decoding(bytes@) is Some),
        r matches Ok(d) ==> image_decoding(bytes@) == Some(image_values(d)),
{
    match load_image(bytes) {
        Ok(img) => Ok(img),
        Err(LoadFailure::Format) => Err(ConversionError::IO),
        Err(LoadFailure::Decode) => Err(ConversionError::Decoder),
    }
}

/// What a still-image encoder was made over: its pixel bytes, whether they
/// carry alpha, its width and its height.
pub uninterp spec fn still_encoder_input(e: webp::Encoder) -> (Seq<u8>, bool, u32, u32);

/// `webp::Encoder::from_rgb`: an encoder for RGB pixels of this size; the
/// source keeps the pixels, the RGB layout and the size as given.
#[verifier::external_body]
fn rgb_encoder<'a>(pixels: &'a [u8], width: u32, height: u32) -> (r: webp::Encoder<'a>)
    ensures
        still_encoder_input(r) == (pixels@, false, width, height),
{
    webp::Encoder::from_rgb(pixels, width, height)
}

/// `webp::Encoder::from_rgba`: an encoder for RGBA pixels of this size; the
/// source keeps the pixels, the RGBA layout and the size as given.
#[verifier::external_body]
fn rgba_encoder<'a>(pixels: &'a [u8], width: u32, height: u32) -> (r: webp::Encoder<'a>)
    ensures
        still_encoder_input(r) == (pixels@, true, width, height),
{
    webp::Encoder::from_rgba(pixels, width, height)
}

/// The WebP encoder for a decoded still image, as `webp::Encoder::from_image`
/// makes it (the whole of that function is this choice): an RGB image gets an
/// RGB encoder, an RGBA image an RGBA encoder, each over the image's pixels
/// and size; any other layout is refused with the reason `Unimplemented`.
pub fn webp_encoder<'a>(img: &'a DecodedImage) -> (r: Result<webp::Encoder<'a>, ConversionError>)
    ensures
        r is Ok <==> (img.layout == ImageLayout::Rgb8 || img.layout == ImageLayout::Rgba8),
        r matches Err(e) ==> (e matches ConversionError::Encoder(m) && m@ == "Unimplemented"@),
        r matches Ok(e) ==> still_encoder_input(e) == (
            img.pixels@,
            img.layout == ImageLayout::Rgba8,
            img.width,
            img.height,
        ),
{
    match img.layout {
        ImageLayout::Rgb8 => Ok(rgb_encoder(img.pixels.as_slice(), img.width, img.height)),
        ImageLayout::Rgba8 => Ok(rgba_encoder(img.pixels.as_slice(), img.width, img.height)),
        _ => Err(ConversionError::Encoder(String::from_str("Unimplemented"))),
    }
}

/// A frame delay in whole milliseconds: the delay's ratio of milliseconds
/// rounded down, capped at `i32::MAX`.
pub fn delay_to_ms(numer: u32, denom: u32) -> (ms: i32)
    requires
        denom > 0,
    ensures
        ms == (if numer / denom > i32::MAX {
            i32::MAX as int
        } else {
            (numer / denom) as int
        }),
{
    let q = numer / denom;
    if q > 2147483647 {
        2147483647
    } else {
        q as i32
    }
}

/// The sum of the first `n` delays.
pub open spec fn prefix_sum(d: Seq<i32>, n: int) -> int
    decreases n,
{
    if n <= 0 {
        0
    } else {
        prefix_sum(d, n - 1) + d[n - 1]
    }
}

/// Every running sum of the delays, the total included, fits in `i32`.
pub open spec fn sums_fit(d: Seq<i32>) -> bool {
    forall|k: int| 0 <= k <= d.len() ==> i32::MIN <= #[trigger] prefix_sum(d, k) <= i32::MAX
}

/// The timestamps of the frames of an animation from their delays: each
/// frame starts when the delays of the frames before it have passed, and the
/// animation ends when all have. `None` when a running sum leaves `i32`.
pub fn frame_timestamps(delays: &Vec<i32>) -> (r: Option<(Vec<i32>, i32)>)
    ensures
        r is Some <==> sums_fit(delays@),
        r matches Some((ts, end)) ==> {
            &&& ts@.len() == delays@.len()
            &&& forall|i: int| 0 <= i < ts@.len() ==> #[trigger] ts@[i] == prefix_sum(delays@, i)
            &&& end == prefix_sum(delays@, delays@.len() as int)
        },
{
    let mut ts: Vec<i32> = Vec::new();
    let mut t: i32 = 0;
    let mut i: usize = 0;
    while i < delays.len()
        invariant
            i <= delays.len(),
            ts@.len() == i,
            t == prefix_sum(delays@, i as int),
            forall|j: int| 0 <= j < i ==> #[trigger] ts@[j] == prefix_sum(delays@, j),
            forall|k: int| 0 <= k <= i ==> i32::MIN <= #[trigger] prefix_sum(delays@, k) <= i32::MAX,
        decreases delays.len() - i,
    {
        ts.push(t);
        let d = delays[i];
        let next: i64 = t as i64 + d as i64;
        assert(next == prefix_sum(delays@, i + 1));
        if next > 2147483647 || next < -2147483648 {
            assert(!(i32::MIN <= prefix_sum(delays@, i + 1) <= i32::MAX));
            return None;
        }
        t = next as i32;
        i = i + 1;
    }
    Some((ts, t))
}

/// Law: with delays that are never negative, a later frame never starts
/// before an earlier one.
pub proof fn timestamps_never_decrease(d: Seq<i32>, i: int, j: int)
    requires
        forall|k: int| 0 <= k < d.len() ==> #[trigger] d[k] >= 0,
        0 <= i <= j <= d.len(),
    ensures
        prefix_sum(d, i) <= prefix_sum(d, j),
    decreases j - i,
{
    if i < j {
        timestamps_never_decrease(d, i, j - 1);
        assert(d[j - 1] >= 0);
    }
}

/// Law: with delays that are all positive, every frame starts strictly after
/// the one before it, as the animation encoder demands.
pub proof fn timestamps_increase(d: Seq<i32>, i: int, j: int)
    requires
        forall|k: int| 0 <= k < d.len() ==> #[trigger] d[k] > 0,
        0 <= i < j <= d.len(),
    ensures
        prefix_sum(d, i) < prefix_sum(d, j),
    decreases j - i,
{
    if i < j - 1 {
        timestamps_increase(d, i, j - 1);
    }
    assert(d[j - 1] > 0);
}

/// A decoded GIF frame: its RGBA pixels and its delay as a ratio of
/// milliseconds.
pub struct GifFrame {
    pub pixels: Vec<u8>,
    pub delay_numer: u32,
    pub delay_denom: u32,
}

/// A frame as plain values: pixels, delay numerator, delay denominator.
pub open spec fn frame_values(f: GifFrame) -> (Seq<u8>, u32, u32) {
    (f.pixels@, f.delay_numer, f.delay_denom)
}

/// What `image` decodes from these bytes as a GIF: the canvas width and
/// height and every frame as plain values, or `None` when it fails.
pub uninterp spec fn gif_decoding(bytes: Seq<u8>) -> Option<(u32, u32, Seq<(Seq<u8>, u32, u32)>)>;

/// `GifDecoder::new(bytes)`, its `dimensions()`, then
/// `into_frames().collect_frames()`, each frame given as its pixels
/// (`buffer()`) and its delay (`delay().numer_denom_ms()`). The decoder type
/// cannot be declared to Verus (its parameter is bound by `std::io::Read`),
/// so the calls on it stand in this one item. The source reads both sizes
/// from 16-bit fields, builds every delay with a non-zero denominator, and
/// composes every frame onto a full RGBA canvas of that size.
#[verifier::external_body]
fn decode_gif(bytes: &[u8]) -> (r: Result<(u32, u32, Vec<GifFrame>), ImageError>)
    ensures
        match r {
            Ok((w, h, frames)) => {
                &&& gif_decoding(bytes@) == Some(
                    (w, h, frames@.map_values(|f: GifFrame| frame_values(f))),
                )
                &&& w <= 65535 && h <= 65535
                &&& forall|i: int| 0 <= i < frames@.len() ==> #[trigger] frames@[i].delay_denom > 0
                &&& forall|i: int| 0 <= i < frames@.len() ==> (#[trigger] frames@[i]).pixels@.len()
                    == w * h * 4
            },
            Err(_) => gif_decoding(bytes@) is None,
        },
{
    let decoder = GifDecoder::new(bytes)?;
    let (w, h) = decoder.dimensions();
    let frames = decoder.into_frames().collect_frames()?;
    let frames = frames.into_iter().map(|f| {
        let (delay_numer, delay_denom) = f.delay().numer_denom_ms();
        GifFrame { pixels: f.into_buffer().into_raw(), delay_numer, delay_denom }
    }).collect();
    Ok((w, h, frames))
}

/// The canvas size an animation encoder was made with.
pub uninterp spec fn animation_canvas(encoder: webp_animation::Encoder) -> (u32, u32);

/// The frames an animation encoder holds, in the order added: RGBA pixels
/// and the timestamp from which each is shown.
pub uninterp spec fn animation_frames(encoder: webp_animation::Encoder) -> Seq<(Seq<u8>, i32)>;

/// Whether `webp_animation` makes an encoder for a canvas of this size
/// (memory exhaustion aside).
pub uninterp spec fn animation_started(width: u32, height: u32) -> bool;

/// Whether libwebp takes a frame of these pixels at this timestamp after
/// these frames on a canvas of this size (memory exhaustion aside).
pub uninterp spec fn animation_frame_accepted(
    width: u32,
    height: u32,
    before: Seq<(Seq<u8>, i32)>,
    pixels: Seq<u8>,
    timestamp: i32,
) -> bool;

/// The animated WebP that `webp_animation` assembles, with its default
/// options, from a canvas size, frames and an end timestamp, or `None` when
/// libwebp refuses to assemble it (memory exhaustion aside).
pub uninterp spec fn animated_webp(width: u32, height: u32, frames: Seq<(Seq<u8>, i32)>, end: i32) -> Option<Seq<u8>>;

/// The timestamp of the last frame added, or -1 before any.
pub open spec fn last_timestamp(frames: Seq<(Seq<u8>, i32)>) -> int {
    if frames.len() == 0 {
        -1
    } else {
        frames.last().1 as int
    }
}

/// `webp_animation::Encoder::new((width, height))`: an encoder that holds no
/// frame yet. The source refuses a zero width or height; otherwise libwebp
/// decides.
#[verifier::external_body]
fn animation_encoder(width: u32, height: u32) -> (r: Result<
    webp_animation::Encoder,
    webp_animation::Error,
>)
    ensures
        r is Ok <==> (width > 0 && height > 0 && animation_started(width, height)),
        r matches Ok(e) ==> animation_canvas(e) == (width, height) && animation_frames(e)
            == Seq::<(Seq<u8>, i32)>::empty(),
{
    webp_animation::Encoder::new((width, height))
}

/// `Encoder::add_frame`: adds RGBA pixels shown from `timestamp` on. In the
/// source it refuses a timestamp that is not above the last one (-1 before
/// any frame) and, for a canvas whose sides fit in `i32`, pixels whose length
/// is not width × height × 4; otherwise libwebp decides. The canvas never
/// changes. The encoder's frames after a refusal are left unsaid.
#[verifier::external_body]
fn animation_add_frame(
    encoder: &mut webp_animation::Encoder,
    pixels: &[u8],
    timestamp: i32,
) -> (r: Result<(), webp_animation::Error>)
    ensures
        animation_canvas(*final(encoder)) == animation_canvas(*old(encoder)),
        r is Ok ==> animation_frames(*final(encoder)) == animation_frames(*old(encoder)).push(
            (pixels@, timestamp),
        ),
        r is Ok ==> timestamp > last_timestamp(animation_frames(*old(encoder))),
        animation_canvas(*old(encoder)).0 <= i32::MAX && animation_canvas(*old(encoder)).1
            <= i32::MAX ==> (r is Ok <==> (timestamp > last_timestamp(
            animation_frames(*old(encoder)),
        ) && pixels@.len() == animation_canvas(*old(encoder)).0 * animation_canvas(
            *old(encoder),
        ).1 * 4 && animation_frame_accepted(
            animation_canvas(*old(encoder)).0,
            animation_canvas(*old(encoder)).1,
            animation_frames(*old(encoder)),
            pixels@,
            timestamp,
        ))),
{
    encoder.add_frame(pixels, timestamp)
}

/// `Encoder::finalize`: the animation assembled from the encoder's canvas
/// and frames, ending at `timestamp`, as bytes. In the source it refuses an
/// encoder without frames and an end before the last frame; otherwise
/// libwebp decides.
#[verifier::external_body]
fn animation_finalize(encoder: webp_animation::Encoder, timestamp: i32) -> (r: Result<
    Vec<u8>,
    webp_animation::Error,
>)
    ensures
        r is Ok <==> (animation_frames(encoder).len() > 0 && timestamp >= last_timestamp(
            animation_frames(encoder),
        ) && animated_webp(
            animation_canvas(encoder).0,
            animation_canvas(encoder).1,
            animation_frames(encoder),
            timestamp,
        ) is Some),
        r matches Ok(b) ==> animated_webp(
            animation_canvas(encoder).0,
            animation_canvas(encoder).1,
            animation_frames(encoder),
            timestamp,
        ) == Some(b@),
{
    encoder.finalize(timestamp).map(|data| data.to_vec())
}

/// The delay of a frame in whole milliseconds, capped at `i32::MAX`.
pub open spec fn delay_ms_spec(numer: u32, denom: u32) -> i32 {
    if numer / denom > i32::MAX {
        i32::MAX
    } else {
        (numer / denom) as i32
    }
}

/// The delays, in whole milliseconds, of decoded frames.
pub open spec fn frame_delays_ms(frames: Seq<(Seq<u8>, u32, u32)>) -> Seq<i32> {
    frames.map_values(|f: (Seq<u8>, u32, u32)| delay_ms_spec(f.1, f.2))
}

/// Whether a decoded GIF can be handed to the animation encoder: a canvas
/// of non-zero width and height, and running sums of delays within `i32`.
pub open spec fn gif_encodable(decoded: (u32, u32, Seq<(Seq<u8>, u32, u32)>)) -> bool {
    decoded.0 != 0 && decoded.1 != 0 && sums_fit(frame_delays_ms(decoded.2))
}

/// The frames of a decoded GIF as the animation encoder gets them: each
/// frame's pixels, shown from the sum of the delays before it.
pub open spec fn timed_frames(decoded: (u32, u32, Seq<(Seq<u8>, u32, u32)>)) -> Seq<(Seq<u8>, i32)> {
    Seq::new(
        decoded.2.len(),
        |k: int| (decoded.2[k].0, prefix_sum(frame_delays_ms(decoded.2), k) as i32),
    )
}

/// The end of the animation of a decoded GIF: the sum of all delays.
pub open spec fn animation_end(decoded: (u32, u32, Seq<(Seq<u8>, u32, u32)>)) -> i32 {
    prefix_sum(frame_delays_ms(decoded.2), decoded.2.len() as int) as i32
}

/// Whether the animation encoder refuses a decoded GIF for what the source
/// shows: no frame at all, a frame after a zero delay (its timestamp is not
/// above the one before), or a frame whose pixels are not width × height × 4
/// bytes.
pub open spec fn gif_refused(decoded: (u32, u32, Seq<(Seq<u8>, u32, u32)>)) -> bool {
    ||| decoded.2.len() == 0
    ||| exists|k: int| 1 <= k < decoded.2.len() && #[trigger] frame_delays_ms(decoded.2)[k - 1] <= 0
    ||| exists|k: int|
        0 <= k < decoded.2.len() && (#[trigger] decoded.2[k]).0.len() != decoded.0 * decoded.1 * 4
}

/// Law: the delay of each decoded frame, in whole milliseconds, is the
/// ratio of its delay rounded down, capped at `i32::MAX` (the decoder gives
/// every frame a non-zero denominator).
pub proof fn frame_delays_are_gif_delays(frames: Seq<(Seq<u8>, u32, u32)>, k: int)
    requires
        0 <= k < frames.len(),
        frames[k].2 > 0,
    ensures
        frame_delays_ms(frames).len() == frames.len(),
        frame_delays_ms(frames)[k] as int == (if frames[k].1 as int / frames[k].2 as int
            > i32::MAX {
            i32::MAX as int
        } else {
            frames[k].1 as int / frames[k].2 as int
        }),
{
}

/// Law: the animation made from a decoded GIF keeps every frame's pixels in
/// order; the first frame starts at 0, each next frame starts the delay of
/// the one before it later, and the animation ends the last frame's delay
/// after the last frame starts.
pub proof fn gif_frames_keep_their_timing(decoded: (u32, u32, Seq<(Seq<u8>, u32, u32)>), k: int)
    requires
        gif_encodable(decoded),
        0 <= k < decoded.2.len(),
    ensures
        timed_frames(decoded).len() == decoded.2.len(),
        timed_frames(decoded)[k].0 == decoded.2[k].0,
        timed_frames(decoded)[0].1 == 0,
        k + 1 < decoded.2.len() ==> timed_frames(decoded)[k + 1].1 as int == timed_frames(
            decoded,
        )[k].1 as int + frame_delays_ms(decoded.2)[k] as int,
        k + 1 == decoded.2.len() ==> animation_end(decoded) as int == timed_frames(decoded)[k].1 as int
            + frame_delays_ms(decoded.2)[k] as int,
{
    let fd = frame_delays_ms(decoded.2);
    assert(i32::MIN <= prefix_sum(fd, k) <= i32::MAX);
    assert(i32::MIN <= prefix_sum(fd, k + 1) <= i32::MAX);
    assert(prefix_sum(fd, 0) == 0);
    assert(prefix_sum(fd, k + 1) == prefix_sum(fd, k) + fd[k]);
}

/// Law: a GIF with a canvas of non-zero sides, at least one frame, every
/// frame a full RGBA canvas, every delay but the last at least one whole
/// millisecond and a total delay within `i32` is handed to the animation
/// encoder and not refused; a GIF without frames is refused.
pub proof fn well_formed_gifs_are_encodable(decoded: (u32, u32, Seq<(Seq<u8>, u32, u32)>))
    requires
        decoded.0 > 0,
        decoded.1 > 0,
        decoded.2.len() > 0,
        forall|k: int| 0 <= k < decoded.2.len() ==> (#[trigger] decoded.2[k]).2 > 0,
        forall|k: int|
            0 <= k < decoded.2.len() ==> (#[trigger] decoded.2[k]).0.len() == decoded.0 * decoded.1
                * 4,
        forall|k: int|
            0 <= k < decoded.2.len() - 1 ==> (#[trigger] decoded.2[k]).1 as int / decoded.2[k].2 as int
                >= 1,
        prefix_sum(frame_delays_ms(decoded.2), decoded.2.len() as int) <= i32::MAX,
    ensures
        gif_encodable(decoded),
        !gif_refused(decoded),
        gif_refused((decoded.0, decoded.1, Seq::<(Seq<u8>, u32, u32)>::empty())),
{
    let fd = frame_delays_ms(decoded.2);
    let n = decoded.2.len() as int;
    assert forall|k: int| 0 <= k < fd.len() implies #[trigger] fd[k] >= 0 by {
        frame_delays_are_gif_delays(decoded.2, k);
    }
    assert forall|k: int| 0 <= k <= fd.len() implies i32::MIN <= #[trigger] prefix_sum(fd, k)
        <= i32::MAX by {
        timestamps_never_decrease(fd, 0, k);
        timestamps_never_decrease(fd, k, n);
    }
    assert forall|k: int| 1 <= k < n implies #[trigger] fd[k - 1] > 0 by {
        frame_delays_are_gif_delays(decoded.2, k - 1);
        assert(decoded.2[k - 1].1 as int / decoded.2[k - 1].2 as int >= 1);
    }
}

/// Whether libwebp accepts an animation of these frames on a canvas of this
/// size, ending at `end`: the encoder is made, each frame is taken after
/// the ones before it, and the whole is assembled.
pub open spec fn animation_accepted(width: u32, height: u32, frames: Seq<(Seq<u8>, i32)>, end: i32) -> bool {
    &&& animation_started(width, height)
    &&& forall|k: int|
        0 <= k < frames.len() ==> #[trigger] animation_frame_accepted(
            width,
            height,
            frames.take(k),
            frames[k].0,
            frames[k].1,
        )
    &&& animated_webp(width, height, frames, end) is Some
}

/// Converts a GIF to an animated WebP: every frame is added at the sum of
/// the delays before it, and the animation ends at the sum of all delays;
/// the result is the animation `webp_animation` assembles from them. A GIF
/// that does not decode is a decoder error; a canvas with a zero side,
/// running sums of delays beyond `i32`, a GIF the encoder refuses, or any
/// other failure of the animation encoder is an animation error. Every other
/// GIF whose animation libwebp accepts is converted.
pub fn gif_to_webp(bytes: &[u8]) -> (r: Result<Vec<u8>, ConversionError>)
    ensures
        gif_decoding(bytes@) is None ==> r == Err::<Vec<u8>, ConversionError>(
            ConversionError::Decoder,
        ),
        gif_decoding(bytes@) is Some ==> (r is Ok || r == Err::<Vec<u8>, ConversionError>(
            ConversionError::AWebPEncoder,
        )),
        gif_decoding(bytes@) matches Some(d) && (!gif_encodable(d) || gif_refused(d)) ==> r
            == Err::<Vec<u8>, ConversionError>(ConversionError::AWebPEncoder),
        r is Ok <==> (gif_decoding(bytes@) matches Some(d) && gif_encodable(d) && !gif_refused(d)
            && animation_accepted(d.0, d.1, timed_frames(d), animation_end(d))),
        r matches Ok(b) ==> (gif_decoding(bytes@) matches Some(d) && animated_webp(
            d.0,
            d.1,
            timed_frames(d),
            animation_end(d),
        ) == Some(b@)),
{
    let (w, h, frames) = match decode_gif(bytes) {
        Ok(decoded) => decoded,
        Err(_) => return Err(ConversionError::Decoder),
    };
    let ghost decoded = (w, h, frames@.map_values(|f: GifFrame| frame_values(f)));
    let mut encoder = match animation_encoder(w, h) {
        Ok(e) => e,
        Err(_) => return Err(ConversionError::AWebPEncoder),
    };
    let mut delays: Vec<i32> = Vec::new();
    let mut i: usize = 0;
    while i < frames.len()
        invariant
            i <= frames.len(),
            delays@ == frame_delays_ms(decoded.2).take(i as int),
            decoded.2.len() == frames@.len(),
            forall|k: int| 0 <= k < frames@.len() ==> #[trigger] decoded.2[k] == frame_values(frames@[k]),
            forall|k: int| 0 <= k < frames@.len() ==> #[trigger] frames@[k].delay_denom > 0,
        decreases frames.len() - i,
    {
        let ms = delay_to_ms(frames[i].delay_numer, frames[i].delay_denom);
        delays.push(ms);
        i = i + 1;
        assert(delays@ =~= frame_delays_ms(decoded.2).take(i as int));
    }
    assert(delays@ =~= frame_delays_ms(decoded.2));
    let (stamps, end) = match frame_timestamps(&delays) {
        Some(s) => s,
        None => return Err(ConversionError::AWebPEncoder),
    };
    let mut k: usize = 0;
    while k < frames.len()
        invariant
            k <= frames.len(),
            stamps@.len() == frames@.len(),
            decoded.2.len() == frames@.len(),
            decoded.0 == w && decoded.1 == h && w <= 65535 && h <= 65535,
            forall|j: int| 0 <= j < frames@.len() ==> #[trigger] decoded.2[j] == frame_values(frames@[j]),
            forall|j: int| 0 <= j < stamps@.len() ==> #[trigger] stamps@[j] == prefix_sum(delays@, j),
            delays@ == frame_delays_ms(decoded.2),
            gif_decoding(bytes@) == Some(decoded),
            gif_encodable(decoded),
            animation_canvas(encoder) == (w, h),
            animation_frames(encoder) == timed_frames(decoded).take(k as int),
            forall|j: int| 0 <= j < k ==> (#[trigger] decoded.2[j]).0.len() == w * h * 4,
            forall|j: int| 1 <= j < k ==> #[trigger] delays@[j - 1] > 0,
            animation_started(w, h),
            forall|j: int|
                0 <= j < k ==> #[trigger] animation_frame_accepted(
                    w,
                    h,
                    timed_frames(decoded).take(j),
                    timed_frames(decoded)[j].0,
                    timed_frames(decoded)[j].1,
                ),
        decreases frames.len() - k,
    {
        let ghost before = animation_frames(encoder);
        proof {
            assert(timed_frames(decoded)[k as int] == (frames@[k as int].pixels@, stamps@[k as int]));
            if k > 0 {
                assert(before.last() == timed_frames(decoded)[k - 1]);
                assert(stamps@[k as int] == stamps@[k - 1] + delays@[k - 1]);
            }
        }
        if animation_add_frame(&mut encoder, frames[k].pixels.as_slice(), stamps[k]).is_err() {
            proof {
                if !gif_refused(decoded) && animation_accepted(
                    w,
                    h,
                    timed_frames(decoded),
                    animation_end(decoded),
                ) {
                    assert(decoded.2[k as int].0.len() == w * h * 4);
                    if k > 0 {
                        assert(frame_delays_ms(decoded.2)[k - 1] > 0);
                    }
                    assert(animation_frame_accepted(
                        w,
                        h,
                        timed_frames(decoded).take(k as int),
                        timed_frames(decoded)[k as int].0,
                        timed_frames(decoded)[k as int].1,
                    ));
                    assert(false);
                }
            }
            return Err(ConversionError::AWebPEncoder);
        }
        proof {
            assert(animation_frames(encoder) =~= timed_frames(decoded).take(k + 1));
        }
        k = k + 1;
    }
    proof {
        assert(timed_frames(decoded).take(frames@.len() as int) =~= timed_frames(decoded));
    }
    let r = animation_finalize(encoder, end);
    match r {
        Ok(data) => {
            proof {
                assert(!gif_refused(decoded));
            }
            Ok(data)
        },
        Err(_) => {
            proof {
                if !gif_refused(decoded) && animation_accepted(
                    w,
                    h,
                    timed_frames(decoded),
                    animation_end(decoded),
                ) {
                    let n = frames@.len() as int;
                    assert(n > 0);
                    assert(delays@[n - 1] >= 0);
                    assert(prefix_sum(delays@, n) == prefix_sum(delays@, n - 1) + delays@[n - 1]);
                    assert(timed_frames(decoded)[n - 1].1 == stamps@[n - 1]);
                    assert(false);
                }
            }
            Err(ConversionError::AWebPEncoder)
        },
    }
}

} // verus!
