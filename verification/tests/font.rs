use webglee::draw::text::font::{ATLAS_HEIGHT, ATLAS_WIDTH};
use webglee::draw::text::{AtlasFullError, AtlasRect, Font, Glyph, GlyphAction, GlyphPosition, RasterKey};
use webglee::draw::{Batch, Quad, TextBatch};
use webglee::{AaRect, Color, Point2, Scalar};

fn s(value: f32) -> Scalar {
    Scalar::from_bits(value.to_bits())
}

fn key(glyph_index: u16) -> RasterKey {
    RasterKey { font_hash: 0x1234_5678, glyph_index, px_bits: 20.0f32.to_bits(), subpixel: 0 }
}

fn at(key: RasterKey, x: f32, width: usize, height: usize) -> GlyphPosition {
    GlyphPosition {
        key,
        x: Scalar::from_bits(x.to_bits()),
        y: Scalar::from_bits(3.0f32.to_bits()),
        width,
        height,
    }
}

fn glyph(x: usize, y: usize, width: usize, height: usize) -> Glyph {
    Glyph { rect: AtlasRect { x, y, width, height } }
}

/// Walks a run as a caller does, with a rasterizer that counts its calls and
/// gives every glyph a bitmap of its own size. Returns the records drawn.
fn run(font: &mut Font, glyphs: &[GlyphPosition], rasterized: &mut usize) -> Vec<Glyph> {
    let mut drawn = Vec::new();
    for g in glyphs {
        match font.write(g) {
            GlyphAction::Skip => {}
            GlyphAction::Draw(cached) => drawn.push(cached),
            GlyphAction::Rasterize => {
                *rasterized += 1;
                let alpha = vec![0x80; g.width * g.height];
                drawn.push(font.cache_glyph(g.key, g.width, g.height, &alpha).unwrap());
            }
        }
    }
    drawn
}

#[test]
fn new_font_has_an_empty_atlas_of_fixed_size() {
    let font = Font::new();
    assert_eq!((ATLAS_WIDTH, ATLAS_HEIGHT), (512, 256));
    assert_eq!(font.packer().width(), 512);
    assert_eq!(font.packer().height(), 256);
    assert_eq!(font.packer().used_height(), 0);
    assert!(font.bitmap().is_empty());
}

#[test]
fn alpha_becomes_all_four_channels() {
    let mut out = vec![1, 2, 3];
    Font::alpha_to_rgba(&[0, 7, 255], &mut out);
    assert_eq!(out, vec![0, 0, 0, 0, 7, 7, 7, 7, 255, 255, 255, 255]);
    Font::alpha_to_rgba(&[], &mut out);
    assert!(out.is_empty());
}

#[test]
fn unknown_glyph_is_to_be_rasterized() {
    let font = Font::new();
    assert_eq!(font.write(&at(key(1), 0.0, 5, 7)), GlyphAction::Rasterize);
}

#[test]
fn glyph_without_area_is_skipped() {
    let mut font = Font::new();
    assert_eq!(font.write(&at(key(1), 0.0, 0, 7)), GlyphAction::Skip);
    assert_eq!(font.write(&at(key(1), 0.0, 5, 0)), GlyphAction::Skip);
    assert_eq!(font.write(&at(key(1), 0.0, 0, 0)), GlyphAction::Skip);
    // Also when its key is cached.
    font.cache_glyph(key(1), 5, 7, &[9; 35]).unwrap();
    assert_eq!(font.write(&at(key(1), 0.0, 0, 7)), GlyphAction::Skip);
}

#[test]
fn a_space_in_the_middle_adds_no_geometry() {
    let mut font = Font::new();
    let glyphs = [at(key(68), 0.0, 9, 11), at(key(3), 10.0, 0, 0), at(key(69), 15.0, 10, 14)];
    let mut rasterized = 0;
    let drawn = run(&mut font, &glyphs, &mut rasterized);
    assert_eq!(drawn.len(), 2);
    assert_eq!(rasterized, 2);
    assert_eq!(drawn, vec![glyph(0, 0, 9, 11), glyph(9, 0, 10, 14)]);
}

#[test]
fn same_glyph_twice_is_rasterized_once() {
    let mut font = Font::new();
    let glyphs = [at(key(68), 0.0, 9, 11)];
    let mut rasterized = 0;
    let first = run(&mut font, &glyphs, &mut rasterized);
    let second = run(&mut font, &glyphs, &mut rasterized);
    assert_eq!(rasterized, 1);
    assert_eq!(first.len(), 1);
    assert_eq!(second.len(), 1);
    assert_eq!(first[0], second[0]);
    assert_eq!(first[0], glyph(0, 0, 9, 11));
}

#[test]
fn repeated_letters_share_one_atlas_entry() {
    let mut font = Font::new();
    let glyphs = [
        at(key(1), 0.0, 9, 11),
        at(key(2), 10.0, 8, 12),
        at(key(1), 20.0, 9, 11),
        at(key(2), 30.0, 8, 12),
        at(key(1), 40.0, 9, 11),
    ];
    let mut rasterized = 0;
    let drawn = run(&mut font, &glyphs, &mut rasterized);
    assert_eq!(rasterized, 2);
    assert_eq!(
        drawn,
        vec![
            glyph(0, 0, 9, 11),
            glyph(9, 0, 8, 12),
            glyph(0, 0, 9, 11),
            glyph(9, 0, 8, 12),
            glyph(0, 0, 9, 11),
        ]
    );
    assert_eq!(font.packer().used_height(), 12);
}

#[test]
fn caching_a_cached_key_changes_nothing() {
    let mut font = Font::new();
    assert_eq!(font.cache_glyph(key(1), 2, 2, &[1, 2, 3, 4]), Ok(glyph(0, 0, 2, 2)));
    let bitmap = font.bitmap().to_vec();
    assert_eq!(font.cache_glyph(key(1), 3, 3, &[5; 9]), Ok(glyph(0, 0, 2, 2)));
    assert_eq!(font.bitmap(), bitmap.as_slice());
    assert_eq!(font.cache_glyph(key(2), 3, 3, &[5; 9]), Ok(glyph(2, 0, 3, 3)));
}

#[test]
fn bitmap_holds_the_rgba_of_the_last_glyph() {
    let mut font = Font::new();
    font.cache_glyph(key(1), 2, 1, &[10, 20]).unwrap();
    assert_eq!(font.bitmap(), &[10, 10, 10, 10, 20, 20, 20, 20]);
    font.cache_glyph(key(2), 1, 1, &[30]).unwrap();
    assert_eq!(font.bitmap(), &[30, 30, 30, 30]);
}

#[test]
fn every_field_of_the_key_counts() {
    let mut font = Font::new();
    let base = key(1);
    let others = [
        RasterKey { font_hash: base.font_hash + 1, ..base },
        RasterKey { glyph_index: 2, ..base },
        RasterKey { px_bits: 21.0f32.to_bits(), ..base },
        RasterKey { subpixel: 1, ..base },
        RasterKey { font_hash: usize::MAX, glyph_index: u16::MAX, px_bits: u32::MAX, subpixel: u8::MAX },
        RasterKey { font_hash: 0, glyph_index: 0, px_bits: 0, subpixel: 0 },
        RasterKey { font_hash: 0, glyph_index: 1, px_bits: 0, subpixel: 0 },
        RasterKey { font_hash: 0, glyph_index: 0, px_bits: 0, subpixel: 1 },
        RasterKey { font_hash: 0, glyph_index: 0, px_bits: 1, subpixel: 0 },
        RasterKey { font_hash: 1, glyph_index: 0, px_bits: 0, subpixel: 0 },
    ];
    assert_eq!(font.cache_glyph(base, 1, 1, &[1]), Ok(glyph(0, 0, 1, 1)));
    for (i, other) in others.iter().enumerate() {
        assert_eq!(font.write(&at(*other, 0.0, 1, 1)), GlyphAction::Rasterize);
        assert_eq!(font.cache_glyph(*other, 1, 1, &[1]), Ok(glyph(i + 1, 0, 1, 1)));
    }
    assert_eq!(font.write(&at(base, 0.0, 1, 1)), GlyphAction::Draw(glyph(0, 0, 1, 1)));
    for (i, other) in others.iter().enumerate() {
        assert_eq!(font.write(&at(*other, 0.0, 1, 1)), GlyphAction::Draw(glyph(i + 1, 0, 1, 1)));
    }
}

#[test]
fn a_full_atlas_is_an_error_and_the_glyph_is_not_cached() {
    let mut font = Font::new();
    let big = vec![0xff; 512 * 128];
    assert_eq!(font.cache_glyph(key(1), 512, 128, &big), Ok(glyph(0, 0, 512, 128)));
    assert_eq!(font.cache_glyph(key(2), 512, 128, &big), Ok(glyph(0, 128, 512, 128)));
    assert_eq!(font.cache_glyph(key(3), 1, 1, &[1]), Err(AtlasFullError));
    assert_eq!(font.write(&at(key(3), 0.0, 1, 1)), GlyphAction::Rasterize);
    assert_eq!(font.packer().used_height(), 256);
    // What is cached stays cached.
    assert_eq!(font.write(&at(key(1), 0.0, 512, 128)), GlyphAction::Draw(glyph(0, 0, 512, 128)));
    assert_eq!(font.write(&at(key(2), 0.0, 512, 128)), GlyphAction::Draw(glyph(0, 128, 512, 128)));
}

#[test]
fn a_glyph_wider_than_the_atlas_is_an_error() {
    let mut font = Font::new();
    let wide = vec![0xff; 513];
    assert_eq!(font.cache_glyph(key(1), 513, 1, &wide), Err(AtlasFullError));
    assert_eq!(font.cache_glyph(key(1), 512, 1, &wide), Ok(glyph(0, 0, 512, 1)));
}

#[test]
fn text_size_goes_by_the_last_glyph() {
    assert_eq!(Font::text_size(&[]), None);
    let glyphs = [at(key(1), 0.0, 30, 40), at(key(2), 31.0, 5, 6)];
    assert_eq!(Font::text_size(&glyphs), Some(glyphs[1]));
    assert_eq!(Font::text_size(&glyphs[..1]), Some(glyphs[0]));
    // Also when the last glyph has no area.
    let with_space = [at(key(1), 0.0, 30, 40), at(key(3), 31.0, 0, 0)];
    assert_eq!(Font::text_size(&with_space), Some(with_space[1]));
}

#[test]
fn a_repeated_glyph_gives_two_quads_with_one_uv_rect() {
    let mut font = Font::new();
    let mut batch: TextBatch = Batch::new_triangles();
    let glyphs = [at(key(68), 2.0, 8, 16), at(key(3), 11.0, 0, 0), at(key(68), 16.0, 8, 16)];
    let mut rasterized = 0;
    let drawn = run(&mut font, &glyphs, &mut rasterized);
    assert_eq!(rasterized, 1);
    assert_eq!(drawn.len(), 2);

    let visible: Vec<&GlyphPosition> = glyphs.iter().filter(|g| g.width > 0 && g.height > 0).collect();
    for (g, cached) in visible.iter().zip(&drawn) {
        let (x, y) = (f32::from_bits(g.x.to_bits()), f32::from_bits(g.y.to_bits()));
        let (w, h) = (g.width as f32, g.height as f32);
        let quad = Quad::new(
            [
                Point2::new(s(x), s(y)),
                Point2::new(s(x + w), s(y)),
                Point2::new(s(x + w), s(y + h)),
                Point2::new(s(x), s(y + h)),
            ],
            s(0.0),
        );
        let r = cached.rect;
        let uv = AaRect {
            min: Point2::new(s(r.x as f32 / 512.0), s(r.y as f32 / 256.0)),
            max: Point2::new(s((r.x + r.width) as f32 / 512.0), s((r.y + r.height) as f32 / 256.0)),
        };
        batch.push_quad(&quad, uv, Color::white());
    }

    assert_eq!(batch.num_vertices(), 8);
    assert_eq!(batch.elements(), &[0, 1, 2, 2, 3, 0, 4, 5, 6, 6, 7, 4]);
    let words = batch.vertices();
    for corner in 0..4 {
        let first = &words[corner * 9..corner * 9 + 9];
        let second = &words[(corner + 4) * 9..(corner + 4) * 9 + 9];
        // Same place in the texture, another place on the screen.
        assert_eq!(first[3..5], second[3..5]);
        assert_eq!(f32::from_bits(second[0]) - f32::from_bits(first[0]), 14.0);
    }
    assert_eq!(f32::from_bits(words[3]), 0.0);
    assert_eq!(f32::from_bits(words[2 * 9 + 3]), 8.0 / 512.0);
    assert_eq!(f32::from_bits(words[2 * 9 + 4]), 16.0 / 256.0);
}
