//! The two fixed visual assets: the board background and the sprite set,
//! together with the preparation of sprite tiles from the raw sheet.

use vstd::prelude::*;
use crate::raster::{get_pix, lemma_pix_offset_bounds, Image};

verus! {

/// Edge length, in pixels, of one tile inside the raw sprite sheet.
pub const TILE_SRC_SIZE: usize = 48;
/// Edge length, in pixels, of one rendered tile.
pub const TILE_SIZE: usize = 23;
/// Number of tiles in the sprite set, one per non-empty cell kind.
pub const SPRITE_COUNT: usize = 8;
/// Least background width that the fixed board geometry needs:
/// the board's left edge (124) plus ten 23-pixel columns.
pub const MIN_BACKGROUND_WIDTH: usize = 354;
/// Least background height that the fixed board geometry needs:
/// the board's top edge (75) plus twenty 23-pixel rows.
pub const MIN_BACKGROUND_HEIGHT: usize = 535;

/// The process-lifetime render assets: one background image and the eight
/// sprite tiles, all read-only once built.
pub struct Assets {
    pub background: Image,
    pub sprites: Vec<Image>,
}

impl Assets {
    /// Well-formed assets: the background is large enough for the fixed
    /// board geometry, and there are exactly eight square sprite tiles at
    /// the rendered tile size.
    pub open spec fn wf(self) -> bool {
        &&& self.background.wf()
        &&& self.background.width >= MIN_BACKGROUND_WIDTH
        &&& self.background.height >= MIN_BACKGROUND_HEIGHT
        &&& self.background.width < 0x1_0000_0000
        &&& self.background.height < 0x1_0000_0000
        &&& self.sprites@.len() == SPRITE_COUNT
        &&& forall|i: int|
            0 <= i < SPRITE_COUNT ==> (#[trigger] self.sprites@[i]).wf()
                && self.sprites@[i].width == TILE_SIZE && self.sprites@[i].height == TILE_SIZE
    }
}

/// The raw bytes of tile `i` of a sprite sheet of width `w` and pixel
/// buffer `pixels`: the square sub-image of edge 48 at horizontal offset
/// `48 * i`.
pub open spec fn sheet_tile_pixels(w: int, pixels: Seq<u8>, i: int) -> Seq<u8> {
    Seq::new(
        (4 * 48 * 48) as nat,
        |j: int| pixels[4 * (((j / 4) / 48) * w + 48 * i + (j / 4) % 48) + j % 4],
    )
}

/// Copy tile `i` out of the raw sprite sheet, pixel by pixel.
#[verifier::loop_isolation(false)]
pub fn extract_tile(sheet: &Image, i: usize) -> (tile: Image)
    requires
        sheet.wf(),
        i < SPRITE_COUNT,
        sheet.width >= TILE_SRC_SIZE * SPRITE_COUNT,
        sheet.height >= TILE_SRC_SIZE,
    ensures
        tile.wf(),
        tile.width == TILE_SRC_SIZE,
        tile.height == TILE_SRC_SIZE,
        tile.pixels@ == sheet_tile_pixels(sheet.width as int, sheet.pixels@, i as int),
{
    let mut tile = Image {
        width: TILE_SRC_SIZE,
        height: TILE_SRC_SIZE,
        pixels: Vec::new(),
    };
    let mut k: usize = 0;
    while k < 4 * 48 * 48
        invariant
            k <= 4 * 48 * 48,
            tile.width == TILE_SRC_SIZE,
            tile.height == TILE_SRC_SIZE,
            tile.pixels@.len() == k,
            forall|j: int|
                0 <= j < k ==> tile.pixels@[j] == sheet_tile_pixels(
                    sheet.width as int,
                    sheet.pixels@,
                    i as int,
                )[j],
        decreases 4 * 48 * 48 - k,
    {
        let q = k / 4;
        let x = i * 48 + q % 48;
        let y = q / 48;
        proof {
            vstd::arithmetic::div_mod::lemma_fundamental_div_mod(k as int, 4);
            vstd::arithmetic::div_mod::lemma_mod_bound(k as int, 4);
            vstd::arithmetic::div_mod::lemma_fundamental_div_mod(k as int / 4, 48);
            vstd::arithmetic::div_mod::lemma_mod_bound(k as int / 4, 48);
            lemma_pix_offset_bounds(sheet.width as int, sheet.height as int, x as int, y as int);
        }
        let p = get_pix(sheet, x, y);
        let b: u8 = match k % 4 {
            0 => p.0,
            1 => p.1,
            2 => p.2,
            _ => p.3,
        };
        tile.pixels.push(b);
        k += 1;
    }
    proof {
        assert(tile.pixels@ =~= sheet_tile_pixels(sheet.width as int, sheet.pixels@, i as int));
        assert(tile.wf());
    }
    tile
}

/// The error type of the image codecs, opaque to the library.
#[verifier::external_type_specification]
#[verifier::external_body]
pub struct ExImageError(image::ImageError);

/// The image that a byte stream decodes to, as width, height and RGBA
/// bytes; `None` for a stream that decodes to no image. Whether and to
/// what a stream decodes is a function of the input bytes alone.
pub uninterp spec fn decoded_rgba(bytes: Seq<u8>) -> Option<(int, int, Seq<u8>)>;

/// Whether a byte stream decodes to an image at all.
pub open spec fn decodable(bytes: Seq<u8>) -> bool {
    decoded_rgba(bytes) is Some
}

/// Width of the image a decodable byte stream holds.
pub open spec fn decoded_width(bytes: Seq<u8>) -> int {
    decoded_rgba(bytes)->Some_0.0
}

/// Height of the image a decodable byte stream holds.
pub open spec fn decoded_height(bytes: Seq<u8>) -> int {
    decoded_rgba(bytes)->Some_0.1
}

/// RGBA pixel bytes of the image a decodable byte stream holds.
pub open spec fn decoded_pixels(bytes: Seq<u8>) -> Seq<u8> {
    decoded_rgba(bytes)->Some_0.2
}

/// The 23 x 23 tile that Gaussian downsampling of a 48 x 48 tile yields.
/// The kernel computes in floating point, so the bytes are a function of
/// the source pixels within any one build of the codec; bit-identity
/// across platforms is not promised.
pub uninterp spec fn gaussian_tile_of(src: Seq<u8>) -> Seq<u8>;

/// Relies on image::load_from_memory and DynamicImage::to_rgba8: which
/// image a byte stream decodes to, and whether it decodes at all, depends
/// on the bytes alone; the returned RGBA buffer holds exactly four bytes
/// per pixel, with sizes that fit in 32 bits.
#[verifier::external_body]
fn decode_image_bytes(bytes: &Vec<u8>) -> (r: Result<Image, image::ImageError>)
    ensures
        r is Ok <==> decodable(bytes@),
        r matches Ok(img) ==> img.wf(),
        r matches Ok(img) ==> img.width < 0x1_0000_0000 && img.height < 0x1_0000_0000,
        r matches Ok(img) ==> (img.width as int, img.height as int, img.pixels@) == decoded_rgba(
            bytes@,
        )->Some_0,
{
    let decoded = image::load_from_memory(bytes.as_slice())?;
    let rgba = decoded.to_rgba8();
    let width = rgba.width() as usize;
    let height = rgba.height() as usize;
    Ok(Image { width, height, pixels: rgba.into_raw() })
}

/// Relies on image::imageops::resize with FilterType::Gaussian, applied to
/// the red, green and blue channels (alpha set to full, as the tiles are
/// opaque): the output depends only on the source pixels, and has exactly
/// 23 x 23 pixels.
#[verifier::external_body]
fn resize_tile(src: &Image) -> (r: Image)
    requires
        src.wf(),
        src.width == TILE_SRC_SIZE,
        src.height == TILE_SRC_SIZE,
    ensures
        r.wf(),
        r.width == TILE_SIZE,
        r.height == TILE_SIZE,
        r.pixels@ == gaussian_tile_of(src.pixels@),
{
    let buf = image::RgbaImage::from_raw(48, 48, src.pixels.clone()).unwrap();
    let rgb = image::DynamicImage::ImageRgba8(buf).to_rgb8();
    let resized = image::imageops::resize(&rgb, 23, 23, image::imageops::FilterType::Gaussian);
    let rgba = image::DynamicImage::ImageRgb8(resized).to_rgba8();
    Image { width: TILE_SIZE, height: TILE_SIZE, pixels: rgba.into_raw() }
}

/// Why building the render assets failed.
#[derive(Clone, Copy, Debug, PartialEq, Eq, Structural)]
pub enum AssetLoadError {
    /// The background bytes do not decode to an image.
    BackgroundUndecodable,
    /// The background is too small for the fixed board geometry.
    BackgroundGeometry,
    /// The sprite-sheet bytes do not decode to an image.
    SheetUndecodable,
    /// The sprite sheet is too small for eight 48-pixel tiles in a row.
    SheetGeometry,
}

/// Whether a decoded background is large enough for the board geometry.
pub open spec fn background_fits(width: int, height: int) -> bool {
    width >= MIN_BACKGROUND_WIDTH && height >= MIN_BACKGROUND_HEIGHT
}

/// Whether a decoded sprite sheet holds eight 48-pixel tiles in a row.
pub open spec fn sheet_fits(width: int, height: int) -> bool {
    width >= TILE_SRC_SIZE * SPRITE_COUNT && height >= TILE_SRC_SIZE
}

/// Validate the two decoded assets and derive the sprite set from the
/// sheet: tile `i` of the sheet, downsampled to the rendered tile size,
/// becomes sprite `i`.
#[verifier::loop_isolation(false)]
pub fn build_assets(background: Image, sheet: Image) -> (r: Result<Assets, AssetLoadError>)
    requires
        background.wf(),
        background.width < 0x1_0000_0000,
        background.height < 0x1_0000_0000,
        sheet.wf(),
    ensures
        r is Ok <==> background_fits(background.width as int, background.height as int)
            && sheet_fits(sheet.width as int, sheet.height as int),
        !background_fits(background.width as int, background.height as int) ==> r == Err::<
            Assets,
            AssetLoadError,
        >(AssetLoadError::BackgroundGeometry),
        background_fits(background.width as int, background.height as int) && !sheet_fits(
            sheet.width as int,
            sheet.height as int,
        ) ==> r == Err::<Assets, AssetLoadError>(AssetLoadError::SheetGeometry),
        r matches Ok(a) ==> a.wf(),
        r matches Ok(a) ==> a.background == background,
        r matches Ok(a) ==> forall|i: int|
            0 <= i < SPRITE_COUNT ==> (#[trigger] a.sprites@[i]).pixels@ == gaussian_tile_of(
                sheet_tile_pixels(sheet.width as int, sheet.pixels@, i),
            ),
{
    if !(background.width >= MIN_BACKGROUND_WIDTH && background.height >= MIN_BACKGROUND_HEIGHT) {
        return Err(AssetLoadError::BackgroundGeometry);
    }
    if !(sheet.width >= TILE_SRC_SIZE * SPRITE_COUNT && sheet.height >= TILE_SRC_SIZE) {
        return Err(AssetLoadError::SheetGeometry);
    }
    let mut sprites: Vec<Image> = Vec::new();
    let mut i: usize = 0;
    while i < SPRITE_COUNT
        invariant
            i <= SPRITE_COUNT,
            sprites@.len() == i,
            forall|j: int|
                0 <= j < i ==> (#[trigger] sprites@[j]).wf() && sprites@[j].width == TILE_SIZE
                    && sprites@[j].height == TILE_SIZE,
            forall|j: int|
                0 <= j < i ==> (#[trigger] sprites@[j]).pixels@ == gaussian_tile_of(
                    sheet_tile_pixels(sheet.width as int, sheet.pixels@, j),
                ),
        decreases SPRITE_COUNT - i,
    {
        let tile = extract_tile(&sheet, i);
        let sprite = resize_tile(&tile);
        sprites.push(sprite);
        i += 1;
    }
    Ok(Assets { background, sprites })
}

/// Decode the two raw asset files and build the render assets from them.
/// Succeeds exactly when both streams decode and both decoded images meet
/// the fixed geometry; each error variant names the first check that
/// failed, in the order background decode, sheet decode, background
/// geometry, sheet geometry.
pub fn load_assets(background_bytes: &Vec<u8>, sheet_bytes: &Vec<u8>) -> (r: Result<
    Assets,
    AssetLoadError,
>)
    ensures
        r is Ok <==> decodable(background_bytes@) && decodable(sheet_bytes@) && background_fits(
            decoded_width(background_bytes@),
            decoded_height(background_bytes@),
        ) && sheet_fits(decoded_width(sheet_bytes@), decoded_height(sheet_bytes@)),
        r == Err::<Assets, AssetLoadError>(AssetLoadError::BackgroundUndecodable) <==> !decodable(
            background_bytes@,
        ),
        r == Err::<Assets, AssetLoadError>(AssetLoadError::SheetUndecodable) <==> decodable(
            background_bytes@,
        ) && !decodable(sheet_bytes@),
        r == Err::<Assets, AssetLoadError>(AssetLoadError::BackgroundGeometry) <==> decodable(
            background_bytes@,
        ) && decodable(sheet_bytes@) && !background_fits(
            decoded_width(background_bytes@),
            decoded_height(background_bytes@),
        ),
        r == Err::<Assets, AssetLoadError>(AssetLoadError::SheetGeometry) <==> decodable(
            background_bytes@,
        ) && decodable(sheet_bytes@) && background_fits(
            decoded_width(background_bytes@),
            decoded_height(background_bytes@),
        ) && !sheet_fits(decoded_width(sheet_bytes@), decoded_height(sheet_bytes@)),
        r matches Ok(a) ==> a.wf(),
        r matches Ok(a) ==> (a.background.width as int, a.background.height as int,
        a.background.pixels@) == decoded_rgba(background_bytes@)->Some_0,
        r matches Ok(a) ==> forall|i: int|
            0 <= i < SPRITE_COUNT ==> (#[trigger] a.sprites@[i]).pixels@ == gaussian_tile_of(
                sheet_tile_pixels(
                    decoded_width(sheet_bytes@),
                    decoded_pixels(sheet_bytes@),
                    i,
                ),
            ),
{
    let background = match decode_image_bytes(background_bytes) {
        Ok(img) => img,
        Err(_) => {
            return Err(AssetLoadError::BackgroundUndecodable);
        },
    };
    let sheet = match decode_image_bytes(sheet_bytes) {
        Ok(img) => img,
        Err(_) => {
            return Err(AssetLoadError::SheetUndecodable);
        },
    };
    build_assets(background, sheet)
}

} // verus!
