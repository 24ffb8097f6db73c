//! Encoding composited frames as still or animated byte streams, and the
//! two render operations the library exposes.

use vstd::prelude::*;
use crate::assets::Assets;
use crate::board::BoardState;
use crate::compose::{compose, composed_pixels};
use crate::raster::Image;

verus! {

/// Upper bound on pages that the calling boundary should accept for an
/// animation. `render_animation` itself takes any number of pages; the
/// bound is the caller's policy, enforced before rendering starts.
pub const MAX_ANIMATION_PAGES: usize = 30;

/// Display time of each animation frame, in milliseconds.
pub const FRAME_DELAY_MS: u32 = 500;

/// The caller-boundary policy on animation length.
pub fn animation_allowed(page_count: usize) -> (allowed: bool)
    ensures
        allowed == (page_count <= MAX_ANIMATION_PAGES),
{
    page_count <= MAX_ANIMATION_PAGES
}

/// Which container format an encoded image uses.
#[derive(Clone, Copy, Debug, PartialEq, Eq, Structural)]
pub enum OutputFormat {
    /// A single compressed frame.
    Still,
    /// A looping animated stream, one frame per page.
    Animated,
}

/// An encoded image: opaque bytes plus their container format.
pub struct EncodedImage {
    pub bytes: Vec<u8>,
    pub format: OutputFormat,
}

/// Why a render call failed.
#[derive(Clone, Copy, Debug, PartialEq, Eq, Structural)]
pub enum RenderError {
    /// The requested page index is outside the board.
    OutOfRange,
    /// The codec refused to serialize a composited frame.
    Encoding,
}

/// Frame sizes the still encoder accepts: the lossless WebP writer takes
/// sides between 1 and 16384 pixels and refuses anything else.
pub open spec fn webp_encodable(width: int, height: int) -> bool {
    1 <= width <= 16384 && 1 <= height <= 16384
}

/// Frame sizes the animated encoder accepts: the GIF container stores
/// sides as 16-bit values and refuses anything larger.
pub open spec fn gif_encodable(width: int, height: int) -> bool {
    width <= 0xffff && height <= 0xffff
}

/// The still-image byte stream that encoding a frame of the given size and
/// RGBA contents yields. Encoding is a function of the pixels alone.
pub uninterp spec fn webp_of(width: int, height: int, pixels: Seq<u8>) -> Seq<u8>;

/// The looping animated byte stream, with one frame per entry and the
/// given delay between frames, that encoding the given frame buffers at
/// the given common size yields. Encoding is a function of the frames
/// alone.
pub uninterp spec fn gif_of(width: int, height: int, delay_ms: int, frames: Seq<Seq<u8>>) -> Seq<
    u8,
>;

/// Relies on DynamicImage::write_to with ImageFormat::WebP, the lossless
/// WebP writer: the byte stream depends only on the frame's size and RGBA
/// contents, and encoding into the in-memory buffer succeeds exactly when
/// both sides are between 1 and 16384 pixels (outside that range the
/// writer returns its invalid-dimensions error).
#[verifier::external_body]
fn encode_webp_frame(frame: &Image) -> (r: Result<Vec<u8>, image::ImageError>)
    requires
        frame.wf(),
        frame.width < 0x1_0000_0000,
        frame.height < 0x1_0000_0000,
    ensures
        r is Ok <==> webp_encodable(frame.width as int, frame.height as int),
        r matches Ok(b) ==> b@ == webp_of(frame.width as int, frame.height as int, frame.pixels@),
{
    let buf = image::RgbaImage::from_raw(frame.width as u32, frame.height as u32, frame.pixels.clone()).unwrap();
    let img = image::DynamicImage::ImageRgba8(buf);
    let mut bytes: Vec<u8> = Vec::new();
    match img.write_to(std::io::Cursor::new(&mut bytes), image::ImageFormat::WebP) {
        Ok(()) => Ok(bytes),
        Err(e) => Err(e),
    }
}

/// Relies on image's GIF encoder: GifEncoder::new_with_speed at speed 30,
/// with Repeat::Infinite and the given per-frame delay attached via
/// Frame::from_parts, writes a byte stream that depends only on the frame
/// buffers, their common size and the delay. Writing into the in-memory
/// buffer succeeds exactly when every frame's sides fit in 16 bits (the
/// encoder refuses larger dimensions; with no frames nothing is written).
#[verifier::external_body]
fn encode_gif_frames(width: usize, height: usize, delay_ms: u32, frames: &Vec<Image>) -> (r:
    Result<Vec<u8>, image::ImageError>)
    requires
        0 < width < 0x1_0000_0000,
        0 < height < 0x1_0000_0000,
        forall|i: int|
            0 <= i < frames@.len() ==> (#[trigger] frames@[i]).wf() && frames@[i].width == width
                && frames@[i].height == height,
    ensures
        r is Ok <==> frames@.len() == 0 || gif_encodable(width as int, height as int),
        r matches Ok(b) ==> b@ == gif_of(
            width as int,
            height as int,
            delay_ms as int,
            frames@.map(|i: int, f: Image| f.pixels@),
        ),
{
    let mut cursor = std::io::Cursor::new(Vec::new());
    let mut encoder = image::codecs::gif::GifEncoder::new_with_speed(&mut cursor, 30);
    encoder.set_repeat(image::codecs::gif::Repeat::Infinite)?;
    let delay = image::Delay::from_saturating_duration(std::time::Duration::from_millis(
        delay_ms as u64,
    ));
    let mut gif_frames: Vec<image::Frame> = Vec::new();
    for f in frames.iter() {
        let buf = image::RgbaImage::from_raw(f.width as u32, f.height as u32, f.pixels.clone()).unwrap();
        gif_frames.push(image::Frame::from_parts(buf, 0, 0, delay));
    }
    encoder.encode_frames(gif_frames)?;
    drop(encoder);
    Ok(cursor.into_inner())
}

/// What `render_still` promises: an out-of-range page index is rejected as
/// such; for an in-range index the render succeeds exactly when the
/// background's size is one the still encoder accepts, and then carries
/// the still encoding of exactly the composited page.
pub open spec fn render_still_post(
    assets: Assets,
    board: BoardState,
    page_index: int,
    r: Result<EncodedImage, RenderError>,
) -> bool {
    &&& page_index >= board.pages@.len() <==> r == Err::<EncodedImage, RenderError>(
        RenderError::OutOfRange,
    )
    &&& (page_index < board.pages@.len() ==> (r is Ok <==> webp_encodable(
        assets.background.width as int,
        assets.background.height as int,
    )))
    &&& (r matches Ok(img) ==> img.format is Still)
    &&& (r matches Ok(img) ==> img.bytes@ == webp_of(
        assets.background.width as int,
        assets.background.height as int,
        composed_pixels(assets, board.pages@[page_index].grid@),
    ))
    &&& (page_index < board.pages@.len() && r is Err ==> r == Err::<EncodedImage, RenderError>(
        RenderError::Encoding,
    ))
}

/// Render one page of the board as a compressed still image.
pub fn render_still(assets: &Assets, board: &BoardState, page_index: usize) -> (r: Result<
    EncodedImage,
    RenderError,
>)
    requires
        assets.wf(),
        board.wf(),
    ensures
        render_still_post(*assets, *board, page_index as int, r),
{
    if page_index >= board.pages.len() {
        return Err(RenderError::OutOfRange);
    }
    let frame = compose(assets, board, page_index);
    match encode_webp_frame(&frame) {
        Ok(bytes) => Ok(EncodedImage { bytes, format: OutputFormat::Still }),
        Err(_) => Err(RenderError::Encoding),
    }
}

/// Rendering a still is deterministic: two renders of the same page of
/// the same board have the same outcome — both succeed with byte-identical
/// encodings, or both fail with the same error.
pub proof fn lemma_render_still_deterministic(
    assets: Assets,
    board: BoardState,
    page_index: int,
    r1: Result<EncodedImage, RenderError>,
    r2: Result<EncodedImage, RenderError>,
)
    requires
        render_still_post(assets, board, page_index, r1),
        render_still_post(assets, board, page_index, r2),
    ensures
        r1 is Ok <==> r2 is Ok,
        r1 is Ok ==> r1->Ok_0.bytes@ == r2->Ok_0.bytes@ && r1->Ok_0.format == r2->Ok_0.format,
        r1 is Err ==> r1 == r2,
{
}

/// The composited frame buffers of every page of the board, in page order.
pub open spec fn board_frames(assets: Assets, board: BoardState) -> Seq<Seq<u8>> {
    Seq::new(board.pages@.len(), |i: int| composed_pixels(assets, board.pages@[i].grid@))
}

/// What `render_animation` promises: the render succeeds exactly when the
/// background's size is one the animated encoder accepts, and then carries
/// the looping animated encoding of exactly the composited pages, in
/// order, at the fixed per-frame delay.
pub open spec fn render_animation_post(
    assets: Assets,
    board: BoardState,
    r: Result<EncodedImage, RenderError>,
) -> bool {
    &&& (r is Ok <==> gif_encodable(
        assets.background.width as int,
        assets.background.height as int,
    ))
    &&& (r matches Ok(img) ==> img.format is Animated)
    &&& (r matches Ok(img) ==> img.bytes@ == gif_of(
        assets.background.width as int,
        assets.background.height as int,
        FRAME_DELAY_MS as int,
        board_frames(assets, board),
    ))
    &&& (r is Err ==> r == Err::<EncodedImage, RenderError>(RenderError::Encoding))
}

/// Render every page of the board as one looping animated image with a
/// fixed 500 ms delay between pages. The page-count policy bound is the
/// caller's to enforce; this operation encodes however many pages the
/// board holds.
#[verifier::loop_isolation(false)]
pub fn render_animation(assets: &Assets, board: &BoardState) -> (r: Result<
    EncodedImage,
    RenderError,
>)
    requires
        assets.wf(),
        board.wf(),
    ensures
        render_animation_post(*assets, *board, r),
{
    let mut frames: Vec<Image> = Vec::new();
    let mut i: usize = 0;
    let n = board.pages.len();
    while i < n
        invariant
            i <= n,
            n == board.pages@.len(),
            frames@.len() == i,
            forall|j: int|
                0 <= j < i ==> (#[trigger] frames@[j]).wf() && frames@[j].width
                    == assets.background.width && frames@[j].height == assets.background.height,
            forall|j: int|
                0 <= j < i ==> (#[trigger] frames@[j]).pixels@ == composed_pixels(
                    *assets,
                    board.pages@[j].grid@,
                ),
        decreases n - i,
    {
        let frame = compose(assets, board, i);
        frames.push(frame);
        i += 1;
    }
    proof {
        assert(frames@.map(|j: int, f: Image| f.pixels@) =~= board_frames(*assets, *board));
    }
    match encode_gif_frames(assets.background.width, assets.background.height, FRAME_DELAY_MS, &frames) {
        Ok(bytes) => Ok(EncodedImage { bytes, format: OutputFormat::Animated }),
        Err(_) => Err(RenderError::Encoding),
    }
}

/// Rendering an animation is deterministic: two renders of the same board
/// have the same outcome — both succeed with byte-identical encodings, or
/// both fail with the same error.
pub proof fn lemma_render_animation_deterministic(
    assets: Assets,
    board: BoardState,
    r1: Result<EncodedImage, RenderError>,
    r2: Result<EncodedImage, RenderError>,
)
    requires
        render_animation_post(assets, board, r1),
        render_animation_post(assets, board, r2),
    ensures
        r1 is Ok <==> r2 is Ok,
        r1 is Ok ==> r1->Ok_0.bytes@ == r2->Ok_0.bytes@ && r1->Ok_0.format == r2->Ok_0.format,
        r1 is Err ==> r1 == r2,
{
}

/// An animation of an N-page board hands the encoder exactly N frames, in
/// page order; the 500 ms inter-frame delay and the indefinite looping are
/// fixed by the encoder configuration.
pub proof fn lemma_animation_frame_count(assets: Assets, board: BoardState)
    ensures
        board_frames(assets, board).len() == board.pages@.len(),
        forall|i: int|
            0 <= i < board.pages@.len() ==> board_frames(assets, board)[i] == composed_pixels(
                assets,
                board.pages@[i].grid@,
            ),
{
}

} // verus!
