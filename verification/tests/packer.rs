use webglee::draw::text::{AtlasFullError, AtlasRect, ShelfPacker};

fn rect(x: usize, y: usize, width: usize, height: usize) -> AtlasRect {
    AtlasRect { x, y, width, height }
}

fn pixels(width: usize, height: usize) -> Vec<u8> {
    vec![0xff; 4 * width * height]
}

fn overlap(a: &AtlasRect, b: &AtlasRect) -> bool {
    a.x < b.x + b.width && b.x < a.x + a.width && a.y < b.y + b.height && b.y < a.y + a.height
}

#[test]
fn new_packer_has_its_size_and_nothing_used() {
    let packer = ShelfPacker::new(512, 256);
    assert_eq!(packer.width(), 512);
    assert_eq!(packer.height(), 256);
    assert_eq!(packer.used_height(), 0);
}

#[test]
fn rectangles_fill_a_shelf_from_the_left() {
    let mut packer = ShelfPacker::new(100, 50);
    assert_eq!(packer.insert(&pixels(30, 10), 30, 10), Ok(rect(0, 0, 30, 10)));
    assert_eq!(packer.insert(&pixels(20, 5), 20, 5), Ok(rect(30, 0, 20, 5)));
    assert_eq!(packer.insert(&pixels(50, 12), 50, 12), Ok(rect(50, 0, 50, 12)));
    assert_eq!(packer.used_height(), 12);
}

#[test]
fn a_new_shelf_starts_below_the_tallest_rectangle() {
    let mut packer = ShelfPacker::new(100, 50);
    assert_eq!(packer.insert(&pixels(60, 10), 60, 10), Ok(rect(0, 0, 60, 10)));
    assert_eq!(packer.insert(&pixels(30, 15), 30, 15), Ok(rect(60, 0, 30, 15)));
    assert_eq!(packer.insert(&pixels(11, 4), 11, 4), Ok(rect(0, 15, 11, 4)));
    assert_eq!(packer.used_height(), 19);
    assert_eq!(packer.insert(&pixels(89, 3), 89, 3), Ok(rect(11, 15, 89, 3)));
    assert_eq!(packer.used_height(), 19);
    assert_eq!(packer.insert(&pixels(1, 1), 1, 1), Ok(rect(0, 19, 1, 1)));
    assert_eq!(packer.used_height(), 20);
}

#[test]
fn a_rectangle_wider_than_the_atlas_is_refused() {
    let mut packer = ShelfPacker::new(100, 50);
    assert_eq!(packer.insert(&pixels(101, 1), 101, 1), Err(AtlasFullError));
    assert_eq!(packer.used_height(), 0);
    assert_eq!(packer.insert(&pixels(100, 50), 100, 50), Ok(rect(0, 0, 100, 50)));
}

#[test]
fn a_rectangle_below_the_last_row_is_refused_and_nothing_changes() {
    let mut packer = ShelfPacker::new(100, 50);
    assert_eq!(packer.insert(&pixels(60, 40), 60, 40), Ok(rect(0, 0, 60, 40)));
    // Needs a new shelf at row 40, which has 10 rows left.
    assert_eq!(packer.insert(&pixels(50, 11), 50, 11), Err(AtlasFullError));
    assert_eq!(packer.used_height(), 40);
    // Fits the current shelf by width, but is taller than the atlas.
    assert_eq!(packer.insert(&pixels(10, 51), 10, 51), Err(AtlasFullError));
    assert_eq!(packer.used_height(), 40);
    // The shelf is where it was: the next rectangle goes right of the first.
    assert_eq!(packer.insert(&pixels(40, 40), 40, 40), Ok(rect(60, 0, 40, 40)));
    assert_eq!(packer.insert(&pixels(50, 10), 50, 10), Ok(rect(0, 40, 50, 10)));
    assert_eq!(packer.insert(&pixels(50, 11), 50, 11), Err(AtlasFullError));
    assert_eq!(packer.insert(&pixels(51, 1), 51, 1), Err(AtlasFullError));
    assert_eq!(packer.insert(&pixels(50, 10), 50, 10), Ok(rect(50, 40, 50, 10)));
    assert_eq!(packer.used_height(), 50);
}

#[test]
fn an_exact_fit_is_accepted() {
    let mut packer = ShelfPacker::new(8, 8);
    assert_eq!(packer.insert(&pixels(8, 8), 8, 8), Ok(rect(0, 0, 8, 8)));
    assert_eq!(packer.insert(&pixels(1, 1), 1, 1), Err(AtlasFullError));
}

#[test]
fn empty_rectangles_take_no_room() {
    let mut packer = ShelfPacker::new(8, 8);
    assert_eq!(packer.insert(&[], 0, 0), Ok(rect(0, 0, 0, 0)));
    assert_eq!(packer.insert(&pixels(8, 8), 8, 8), Ok(rect(0, 0, 8, 8)));
    assert_eq!(packer.insert(&[], 0, 3), Ok(rect(8, 0, 0, 3)));
    assert_eq!(packer.insert(&[], 3, 0), Ok(rect(0, 8, 3, 0)));
    assert_eq!(packer.insert(&pixels(1, 1), 1, 1), Err(AtlasFullError));
}

#[test]
fn an_atlas_without_area_is_always_full() {
    let mut packer = ShelfPacker::new(0, 0);
    assert_eq!(packer.insert(&pixels(1, 1), 1, 1), Err(AtlasFullError));
    assert_eq!(packer.insert(&[], 0, 0), Ok(rect(0, 0, 0, 0)));
}

#[test]
fn longer_pixel_data_is_accepted() {
    let mut packer = ShelfPacker::new(8, 8);
    assert_eq!(packer.insert(&pixels(4, 4), 2, 2), Ok(rect(0, 0, 2, 2)));
}

#[test]
fn returned_rectangles_are_disjoint_and_inside() {
    let mut packer = ShelfPacker::new(64, 48);
    let mut placed: Vec<AtlasRect> = Vec::new();
    let mut refused = 0;
    let mut seed: usize = 12345;
    for _ in 0..200 {
        seed = (seed * 1103515245 + 12345) % 2147483648;
        let width = 1 + (seed / 65536) % 20;
        seed = (seed * 1103515245 + 12345) % 2147483648;
        let height = 1 + (seed / 65536) % 12;
        match packer.insert(&pixels(width, height), width, height) {
            Ok(r) => {
                assert_eq!((r.width, r.height), (width, height));
                placed.push(r);
            }
            Err(AtlasFullError) => refused += 1,
        }
    }
    assert!(placed.len() > 10);
    assert!(refused > 0);
    for (i, a) in placed.iter().enumerate() {
        assert!(a.x + a.width <= 64);
        assert!(a.y + a.height <= 48);
        for b in &placed[i + 1..] {
            assert!(!overlap(a, b), "{:?} and {:?} overlap", a, b);
        }
    }
    assert!(packer.used_height() <= 48);
}
