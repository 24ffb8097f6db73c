use fumen_render::assets::{build_assets, load_assets, Assets, AssetLoadError};
use fumen_render::board::{BlockKind, BoardState, Page};
use fumen_render::compose::compose;
use fumen_render::encode::{
    animation_allowed, render_animation, render_still, OutputFormat, RenderError, FRAME_DELAY_MS,
};
use fumen_render::raster::Image;
use image::AnimationDecoder;

fn solid_image(width: usize, height: usize, rgba: [u8; 4]) -> Image {
    let mut pixels = Vec::new();
    for _ in 0..width * height {
        pixels.extend_from_slice(&rgba);
    }
    Image { width, height, pixels }
}

fn patterned_background() -> Image {
    let width = 400usize;
    let height = 600usize;
    let mut pixels = Vec::new();
    for y in 0..height {
        for x in 0..width {
            pixels.push((x % 251) as u8);
            pixels.push((y % 241) as u8);
            pixels.push(((x + y) % 253) as u8);
            pixels.push(255);
        }
    }
    Image { width, height, pixels }
}

fn test_assets() -> Assets {
    let mut sprites = Vec::new();
    for i in 0..8u8 {
        sprites.push(solid_image(23, 23, [i * 30, 255 - i * 30, i * 7, 255]));
    }
    Assets { background: patterned_background(), sprites }
}

fn empty_page() -> Page {
    Page { grid: vec![BlockKind::Empty; 230], comment: String::new() }
}

fn one_page_board(page: Page) -> BoardState {
    BoardState { pages: vec![page] }
}

fn pixel_at(img: &Image, x: usize, y: usize) -> [u8; 4] {
    let base = 4 * (y * img.width + x);
    [img.pixels[base], img.pixels[base + 1], img.pixels[base + 2], img.pixels[base + 3]]
}

#[test]
fn empty_page_renders_background() {
    let assets = test_assets();
    let board = one_page_board(empty_page());
    let frame = compose(&assets, &board, 0);
    assert_eq!(frame.width, assets.background.width);
    assert_eq!(frame.height, assets.background.height);
    assert_eq!(frame.pixels, assets.background.pixels);
}

#[test]
fn single_cell_scenario() {
    // One page, all cells empty except grid position (0, 3) — the first
    // visible cell — set to the first non-empty kind.
    let assets = test_assets();
    let mut page = empty_page();
    page.grid[0 + 3 * 10] = BlockKind::Z;
    let board = one_page_board(page);
    let frame = compose(&assets, &board, 0);
    for y in 0..frame.height {
        for x in 0..frame.width {
            let expected = if (124..124 + 23).contains(&x) && (75..75 + 23).contains(&y) {
                pixel_at(&assets.sprites[0], x - 124, y - 75)
            } else {
                pixel_at(&assets.background, x, y)
            };
            assert_eq!(pixel_at(&frame, x, y), expected);
        }
    }
}

#[test]
fn full_grid_covers_board_area() {
    let assets = test_assets();
    let mut page = empty_page();
    for x in 0..10 {
        for y in 0..20 {
            page.grid[x + (y + 3) * 10] = BlockKind::T;
        }
    }
    let board = one_page_board(page);
    let frame = compose(&assets, &board, 0);
    let sprite = &assets.sprites[6];
    // every tile placement sits at offset (124 + 23x, 75 + 23y)
    for cx in 0..10 {
        for cy in 0..20 {
            for &(tx, ty) in &[(0usize, 0usize), (22, 0), (0, 22), (22, 22), (11, 11)] {
                assert_eq!(
                    pixel_at(&frame, 124 + 23 * cx + tx, 75 + 23 * cy + ty),
                    pixel_at(sprite, tx, ty)
                );
            }
        }
    }
    // pixels just outside the board area keep the background
    assert_eq!(pixel_at(&frame, 123, 75), pixel_at(&assets.background, 123, 75));
    assert_eq!(pixel_at(&frame, 124 + 230, 75), pixel_at(&assets.background, 124 + 230, 75));
    assert_eq!(pixel_at(&frame, 124, 74), pixel_at(&assets.background, 124, 74));
    assert_eq!(pixel_at(&frame, 124, 75 + 460), pixel_at(&assets.background, 124, 75 + 460));
}

#[test]
fn hidden_rows_do_not_affect_output() {
    let assets = test_assets();
    let mut hidden_filled = empty_page();
    for x in 0..10 {
        for y in 0..3 {
            hidden_filled.grid[x + y * 10] = BlockKind::Gray;
        }
    }
    let board_a = one_page_board(empty_page());
    let board_b = one_page_board(hidden_filled);
    let frame_a = compose(&assets, &board_a, 0);
    let frame_b = compose(&assets, &board_b, 0);
    assert_eq!(frame_a.pixels, frame_b.pixels);
}

#[test]
fn still_render_is_deterministic() {
    let assets = test_assets();
    let mut page = empty_page();
    page.grid[5 + 10 * 10] = BlockKind::I;
    let board = one_page_board(page);
    let first = render_still(&assets, &board, 0).unwrap();
    let second = render_still(&assets, &board, 0).unwrap();
    assert_eq!(first.bytes, second.bytes);
    assert!(first.format == OutputFormat::Still);
}

#[test]
fn still_bytes_are_webp() {
    let assets = test_assets();
    let board = one_page_board(empty_page());
    let img = render_still(&assets, &board, 0).unwrap();
    assert_eq!(&img.bytes[0..4], b"RIFF");
    assert_eq!(&img.bytes[8..12], b"WEBP");
    assert_ne!(img.bytes, assets.background.pixels);
}

#[test]
fn out_of_range_page_index_is_rejected() {
    let assets = test_assets();
    let board = one_page_board(empty_page());
    assert!(matches!(render_still(&assets, &board, 1), Err(RenderError::OutOfRange)));
    assert!(matches!(render_still(&assets, &board, usize::MAX), Err(RenderError::OutOfRange)));
}

#[test]
fn animation_has_one_frame_per_page() {
    let assets = test_assets();
    let mut pages = Vec::new();
    for i in 0..3 {
        let mut page = empty_page();
        page.grid[i + 5 * 10] = BlockKind::O;
        pages.push(page);
    }
    let board = BoardState { pages };
    let img = render_animation(&assets, &board).unwrap();
    assert!(img.format == OutputFormat::Animated);
    assert_eq!(&img.bytes[0..4], b"GIF8");

    let decoder =
        image::codecs::gif::GifDecoder::new(std::io::Cursor::new(img.bytes.clone())).unwrap();
    let frames = decoder.into_frames().collect_frames().unwrap();
    assert_eq!(frames.len(), 3);
    for frame in &frames {
        let (numerator, denominator) = frame.delay().numer_denom_ms();
        assert_eq!(numerator / denominator, FRAME_DELAY_MS);
    }
}

#[test]
fn animation_is_indifferent_to_the_page_cap() {
    // The 30-page bound is the calling boundary's policy; the encoder
    // itself happily renders 31 pages.
    assert!(animation_allowed(30));
    assert!(!animation_allowed(31));
    let assets = test_assets();
    let pages: Vec<Page> = (0..31).map(|_| empty_page()).collect();
    let board = BoardState { pages };
    let img = render_animation(&assets, &board).unwrap();

    let decoder =
        image::codecs::gif::GifDecoder::new(std::io::Cursor::new(img.bytes.clone())).unwrap();
    let frames = decoder.into_frames().collect_frames().unwrap();
    assert_eq!(frames.len(), 31);
}

#[test]
fn build_assets_checks_geometry() {
    let small_background = solid_image(353, 535, [0, 0, 0, 255]);
    let sheet = solid_image(384, 48, [9, 9, 9, 255]);
    assert!(matches!(
        build_assets(small_background, sheet.clone()),
        Err(AssetLoadError::BackgroundGeometry)
    ));
    let background = solid_image(354, 535, [0, 0, 0, 255]);
    let small_sheet = solid_image(383, 48, [9, 9, 9, 255]);
    assert!(matches!(
        build_assets(background.clone(), small_sheet),
        Err(AssetLoadError::SheetGeometry)
    ));
    let assets = build_assets(background, sheet).unwrap();
    assert_eq!(assets.sprites.len(), 8);
    for sprite in &assets.sprites {
        assert_eq!(sprite.width, 23);
        assert_eq!(sprite.height, 23);
        assert_eq!(sprite.pixels.len(), 4 * 23 * 23);
    }
}

#[test]
fn sprites_come_from_their_own_sheet_tiles() {
    // Each sheet tile gets its own solid colour; downsampling a solid tile
    // keeps the colour, so sprite i must show tile i's colour.
    let background = solid_image(354, 535, [1, 2, 3, 255]);
    let mut sheet_pixels = Vec::new();
    for _y in 0..48 {
        for x in 0..384 {
            let tile = (x / 48) as u8;
            sheet_pixels.extend_from_slice(&[tile * 25, 200 - tile * 25, 40 + tile, 255]);
        }
    }
    let sheet = Image { width: 384, height: 48, pixels: sheet_pixels };
    let assets = build_assets(background, sheet).unwrap();
    for i in 0..8u8 {
        let center = pixel_at(&assets.sprites[i as usize], 11, 11);
        assert_eq!(center, [i * 25, 200 - i * 25, 40 + i, 255]);
    }
}

fn png_bytes(img: &Image) -> Vec<u8> {
    let buf = image::RgbaImage::from_raw(img.width as u32, img.height as u32, img.pixels.clone())
        .unwrap();
    let mut bytes = Vec::new();
    image::DynamicImage::ImageRgba8(buf)
        .write_to(std::io::Cursor::new(&mut bytes), image::ImageFormat::Png)
        .unwrap();
    bytes
}

#[test]
fn load_assets_decodes_and_validates() {
    let background = patterned_background();
    let sheet = solid_image(384, 48, [10, 20, 30, 255]);
    let assets = load_assets(&png_bytes(&background), &png_bytes(&sheet)).unwrap();
    assert_eq!(assets.background.width, 400);
    assert_eq!(assets.background.height, 600);
    assert_eq!(assets.background.pixels, background.pixels);
    assert_eq!(assets.sprites.len(), 8);

    let garbage = vec![1u8, 2, 3, 4];
    assert!(matches!(
        load_assets(&garbage, &png_bytes(&sheet)),
        Err(AssetLoadError::BackgroundUndecodable)
    ));
    assert!(matches!(
        load_assets(&png_bytes(&background), &garbage),
        Err(AssetLoadError::SheetUndecodable)
    ));
    let small = solid_image(100, 100, [0, 0, 0, 255]);
    assert!(matches!(
        load_assets(&png_bytes(&small), &png_bytes(&sheet)),
        Err(AssetLoadError::BackgroundGeometry)
    ));
    assert!(matches!(
        load_assets(&png_bytes(&background), &png_bytes(&small)),
        Err(AssetLoadError::SheetGeometry)
    ));
}
