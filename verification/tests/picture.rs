use photobooth::compositor::{crop_region, Region};
use photobooth::picture::Picture;

fn pixel(picture: &Picture, x: u32, y: u32) -> [u8; 4] {
    let at = 4 * (y as usize * picture.width() as usize + x as usize);
    let raw = picture.as_raw();
    [raw[at], raw[at + 1], raw[at + 2], raw[at + 3]]
}

/// A picture in which every pixel tells its own position.
fn numbered(width: u32, height: u32) -> Picture {
    let mut bytes = Vec::new();
    for y in 0..height {
        for x in 0..width {
            bytes.extend_from_slice(&[x as u8, y as u8, 7, 255]);
        }
    }
    Picture::from_raw(width, height, bytes).unwrap()
}

#[test]
fn from_raw_takes_a_buffer_of_the_right_length() {
    let picture = Picture::from_raw(2, 3, vec![0; 24]).unwrap();
    assert_eq!(picture.width(), 2);
    assert_eq!(picture.height(), 3);
    assert_eq!(picture.as_raw().len(), 24);
    assert_eq!(picture.into_raw(), vec![0; 24]);
}

#[test]
fn from_raw_refuses_other_lengths() {
    assert!(Picture::from_raw(2, 3, vec![0; 23]).is_none());
    assert!(Picture::from_raw(2, 3, vec![0; 25]).is_none());
    assert!(Picture::from_raw(0, 3, vec![0; 4]).is_none());
    assert!(Picture::from_raw(u32::MAX, u32::MAX, vec![0; 4]).is_none());
}

#[test]
fn empty_pictures_exist() {
    let picture = Picture::from_raw(0, 5, Vec::new()).unwrap();
    assert_eq!(picture.width(), 0);
    assert_eq!(picture.height(), 5);
}

#[test]
fn duplicate_is_equal() {
    let picture = numbered(3, 2);
    assert_eq!(picture.duplicate(), picture);
}

#[test]
fn crop_takes_the_window() {
    let picture = numbered(5, 4);
    let window = picture.crop(1, 2, 3, 2).unwrap();
    assert_eq!(window.width(), 3);
    assert_eq!(window.height(), 2);
    for y in 0..2 {
        for x in 0..3 {
            assert_eq!(pixel(&window, x, y), [x as u8 + 1, y as u8 + 2, 7, 255]);
        }
    }
}

#[test]
fn crop_of_the_whole_picture_is_the_picture() {
    let picture = numbered(5, 4);
    assert_eq!(picture.crop(0, 0, 5, 4).unwrap(), picture);
}

#[test]
fn crop_refuses_a_window_that_leaves_the_picture() {
    let picture = numbered(5, 4);
    assert!(picture.crop(3, 0, 3, 1).is_none());
    assert!(picture.crop(0, 4, 1, 1).is_none());
    assert!(picture.crop(u32::MAX, 0, 2, 1).is_none());
    assert!(picture.crop(5, 4, 0, 0).is_some());
}

#[test]
fn flip_reverses_every_row() {
    let flipped = numbered(4, 2).flip_horizontal();
    assert_eq!(flipped.width(), 4);
    assert_eq!(flipped.height(), 2);
    for y in 0..2 {
        for x in 0..4 {
            assert_eq!(pixel(&flipped, x, y), [3 - x as u8, y as u8, 7, 255]);
        }
    }
}

#[test]
fn flipping_twice_gives_the_picture_back() {
    let picture = numbered(5, 3);
    assert_eq!(picture.duplicate().flip_horizontal().flip_horizontal(), picture);
}

#[test]
fn scale_gives_the_asked_size() {
    let scaled = numbered(6, 4).scale(3, 2).unwrap();
    assert_eq!(scaled.width(), 3);
    assert_eq!(scaled.height(), 2);
    assert_eq!(scaled.as_raw().len(), 24);
    let grown = numbered(2, 2).scale(7, 5).unwrap();
    assert_eq!((grown.width(), grown.height()), (7, 5));
}

#[test]
fn scale_to_the_same_size_copies() {
    let picture = numbered(4, 3);
    assert_eq!(picture.scale(4, 3).unwrap(), picture);
}

#[test]
fn scale_of_a_flat_colour_keeps_the_colour() {
    let flat = Picture::from_raw(8, 8, [10, 20, 30, 255].repeat(64)).unwrap();
    let scaled = flat.scale(3, 5).unwrap();
    for y in 0..5 {
        for x in 0..3 {
            assert_eq!(pixel(&scaled, x, y), [10, 20, 30, 255]);
        }
    }
}

#[test]
fn scale_to_nothing_gives_an_empty_picture() {
    for (width, height) in [(0, 9), (9, 0), (0, 0)] {
        let scaled = numbered(4, 3).scale(width, height).unwrap();
        assert_eq!((scaled.width(), scaled.height()), (width, height));
        assert!(scaled.as_raw().is_empty());
        let empty = Picture::from_raw(0, 0, Vec::new()).unwrap();
        let from_nothing = empty.scale(width, height).unwrap();
        assert_eq!((from_nothing.width(), from_nothing.height()), (width, height));
        assert!(from_nothing.as_raw().is_empty());
    }
}

#[test]
fn scale_of_an_empty_source_is_transparent() {
    for (width, height) in [(0, 4), (4, 0), (0, 0)] {
        let empty = Picture::from_raw(width, height, Vec::new()).unwrap();
        let scaled = empty.scale(2, 3).unwrap();
        assert_eq!((scaled.width(), scaled.height()), (2, 3));
        assert_eq!(scaled.as_raw(), &vec![0; 24]);
        let wide = empty.scale(100, 1).unwrap();
        assert_eq!(wide.as_raw(), &vec![0; 400]);
    }
}

#[test]
fn scale_of_an_empty_source_to_its_own_size_copies() {
    let empty = Picture::from_raw(0, 4, Vec::new()).unwrap();
    assert_eq!(empty.scale(0, 4).unwrap(), empty);
}

#[test]
fn scale_refuses_what_memory_cannot_hold() {
    assert!(numbered(2, 2).scale(u32::MAX, u32::MAX).is_none());
    let wide = Picture::from_raw(u32::MAX, 0, Vec::new()).unwrap();
    assert!(wide.scale(1, u32::MAX).is_none());
}

#[test]
fn overlay_of_an_opaque_picture_replaces_the_pixels() {
    let canvas = Picture::from_raw(4, 4, vec![0; 64]).unwrap();
    let patch = Picture::from_raw(2, 2, [200, 10, 10, 255].repeat(4)).unwrap();
    let result = canvas.overlay(&patch, 1, 2);
    assert_eq!((result.width(), result.height()), (4, 4));
    for y in 0..4u32 {
        for x in 0..4u32 {
            let inside = (1..3).contains(&x) && (2..4).contains(&y);
            let expected = if inside { [200, 10, 10, 255] } else { [0, 0, 0, 0] };
            assert_eq!(pixel(&result, x, y), expected);
        }
    }
}

#[test]
fn overlay_of_a_transparent_picture_changes_nothing() {
    let canvas = numbered(4, 4);
    let patch = Picture::from_raw(2, 2, [200, 10, 10, 0].repeat(4)).unwrap();
    assert_eq!(canvas.duplicate().overlay(&patch, 1, 1), canvas);
}

#[test]
fn overlay_clips_what_falls_outside() {
    let canvas = Picture::from_raw(3, 3, vec![0; 36]).unwrap();
    let patch = Picture::from_raw(2, 2, [1, 2, 3, 255].repeat(4)).unwrap();
    let result = canvas.overlay(&patch, -1, 2);
    assert_eq!(pixel(&result, 0, 2), [1, 2, 3, 255]);
    assert_eq!(pixel(&result, 1, 2), [0, 0, 0, 0]);
    assert_eq!(pixel(&result, 0, 1), [0, 0, 0, 0]);
    let canvas = Picture::from_raw(3, 3, vec![0; 36]).unwrap();
    let far = canvas.duplicate().overlay(&patch, i64::MAX, i64::MIN);
    assert_eq!(far, canvas);
}

#[test]
fn overlay_blends_half_transparent_pixels() {
    let canvas = Picture::from_raw(1, 1, vec![0, 0, 0, 255]).unwrap();
    let patch = Picture::from_raw(1, 1, vec![255, 255, 255, 128]).unwrap();
    let result = canvas.overlay(&patch, 0, 0);
    let [r, g, b, a] = pixel(&result, 0, 0);
    assert!(a >= 254);
    assert_eq!((r, g), (b, b));
    assert!((126..=129).contains(&r));
}

#[test]
fn round_corners_with_zero_radius_changes_nothing() {
    let picture = numbered(6, 6);
    assert_eq!(picture.duplicate().round_corners(0), picture);
}

#[test]
fn round_corners_cuts_the_corner_pixels_only() {
    let rounded = numbered(6, 5).round_corners(2);
    for y in 0..5u32 {
        for x in 0..6u32 {
            let corner = (x == 0 || x == 5) && (y == 0 || y == 4);
            let alpha = if corner { 0 } else { 255 };
            assert_eq!(pixel(&rounded, x, y), [x as u8, y as u8, 7, alpha]);
        }
    }
}

#[test]
fn round_corners_follows_the_circle() {
    let rounded = numbered(20, 20).round_corners(4);
    let cut: Vec<(u32, u32)> = (0..4)
        .flat_map(|y| (0..4).map(move |x| (x, y)))
        .filter(|&(x, y)| pixel(&rounded, x, y)[3] == 0)
        .collect();
    assert_eq!(cut, vec![(0, 0), (1, 0), (0, 1)]);
    for &(x, y) in &cut {
        assert_eq!(pixel(&rounded, 19 - x, y)[3], 0);
        assert_eq!(pixel(&rounded, x, 19 - y)[3], 0);
        assert_eq!(pixel(&rounded, 19 - x, 19 - y)[3], 0);
    }
    assert_eq!(pixel(&rounded, 10, 0)[3], 255);
    assert_eq!(pixel(&rounded, 0, 10)[3], 255);
    assert_eq!(pixel(&rounded, 10, 10)[3], 255);
}

#[test]
fn round_corners_with_radius_one_cuts_nothing() {
    let picture = numbered(4, 4);
    assert_eq!(picture.duplicate().round_corners(1), picture);
}

#[test]
fn round_corners_of_an_empty_picture() {
    let empty = Picture::from_raw(0, 3, Vec::new()).unwrap().round_corners(5);
    assert_eq!((empty.width(), empty.height()), (0, 3));
}

#[test]
fn png_starts_with_the_signature() {
    let file = numbered(3, 2).to_png().unwrap();
    assert_eq!(&file[..8], &[0x89, b'P', b'N', b'G', 0x0d, 0x0a, 0x1a, 0x0a]);
}

#[test]
fn png_decodes_to_the_picture() {
    let picture = numbered(5, 4);
    let file = picture.to_png().unwrap();
    let decoded = image::load_from_memory(&file).unwrap().into_rgba8();
    assert_eq!(decoded.width(), 5);
    assert_eq!(decoded.height(), 4);
    assert_eq!(&decoded.into_raw(), picture.as_raw());
}

#[test]
fn png_of_an_empty_picture_is_refused() {
    assert!(Picture::from_raw(0, 0, Vec::new()).unwrap().to_png().is_none());
}

#[test]
fn crop_region_trims_left_and_right() {
    assert_eq!(
        crop_region(1920, 1080, 600, 400),
        Region { left: 150, top: 0, width: 1620, height: 1080 }
    );
}

#[test]
fn crop_region_trims_top_and_bottom() {
    assert_eq!(
        crop_region(1000, 2000, 100, 100),
        Region { left: 0, top: 500, width: 1000, height: 1000 }
    );
}

#[test]
fn crop_region_keeps_a_frame_of_the_same_ratio() {
    assert_eq!(
        crop_region(1920, 1080, 640, 360),
        Region { left: 0, top: 0, width: 1920, height: 1080 }
    );
    assert_eq!(crop_region(7, 7, 1, 1), Region { left: 0, top: 0, width: 7, height: 7 });
}

#[test]
fn crop_region_rounds_down() {
    assert_eq!(crop_region(10, 10, 1, 3), Region { left: 3, top: 0, width: 3, height: 10 });
    assert_eq!(crop_region(10, 10, 3, 1), Region { left: 0, top: 3, width: 10, height: 3 });
}

#[test]
fn crop_region_of_degenerate_sizes() {
    assert_eq!(crop_region(10, 10, 0, 0), Region { left: 0, top: 0, width: 10, height: 10 });
    assert_eq!(crop_region(10, 10, 0, 5), Region { left: 5, top: 0, width: 0, height: 10 });
    assert_eq!(crop_region(10, 10, 5, 0), Region { left: 0, top: 5, width: 10, height: 0 });
    assert_eq!(crop_region(0, 0, 5, 5), Region { left: 0, top: 0, width: 0, height: 0 });
    assert_eq!(crop_region(1000, 1, 1, 1000), Region { left: 500, top: 0, width: 0, height: 1 });
}

#[test]
fn crop_region_of_the_largest_sizes() {
    let m = u32::MAX;
    assert_eq!(crop_region(m, m, m, m), Region { left: 0, top: 0, width: m, height: m });
    assert_eq!(crop_region(m, m, 1, m), Region { left: (m - 1) / 2, top: 0, width: 1, height: m });
}

/// A picture whose pixels are opaque, fully transparent or half
/// transparent in turn, each with a colour of its own.
fn patchwork(width: u32, height: u32) -> Picture {
    let mut bytes = Vec::new();
    for y in 0..height {
        for x in 0..width {
            let alpha = [255, 0, 128][((x + 2 * y) % 3) as usize];
            bytes.extend_from_slice(&[100 + x as u8, 150 + y as u8, 200, alpha]);
        }
    }
    Picture::from_raw(width, height, bytes).unwrap()
}

#[test]
fn overlay_settles_opaque_transparent_and_uncovered_pixels() {
    let top = patchwork(4, 3);
    let positions: [(i64, i64); 12] = [
        (0, 0),
        (2, 1),
        (-1, 0),
        (0, -2),
        (-3, -2),
        (4, 3),
        (5, 4),
        (6, 0),
        (0, 5),
        (-4, 0),
        (i64::MIN, 0),
        (3, i64::MAX),
    ];
    for (x, y) in positions {
        let bottom = numbered(6, 5);
        let result = numbered(6, 5).overlay(&top, x, y);
        assert_eq!((result.width(), result.height()), (6, 5));
        for by in 0..5i64 {
            for bx in 0..6i64 {
                let (dx, dy) = (bx as i128 - x as i128, by as i128 - y as i128);
                let under = (0..4).contains(&dx) && (0..3).contains(&dy);
                let below = pixel(&bottom, bx as u32, by as u32);
                let after = pixel(&result, bx as u32, by as u32);
                if !under {
                    assert_eq!(after, below, "({bx}, {by}) with the top at ({x}, {y})");
                    continue;
                }
                let over = pixel(&top, dx as u32, dy as u32);
                match over[3] {
                    255 => assert_eq!(after, over),
                    0 => assert_eq!(after, below),
                    _ => assert_ne!(after, below),
                }
            }
        }
    }
}

#[test]
fn overlay_of_an_empty_picture_changes_nothing() {
    for (width, height) in [(0, 0), (0, 3), (3, 0)] {
        let empty = Picture::from_raw(width, height, Vec::new()).unwrap();
        assert_eq!(numbered(4, 4).overlay(&empty, 1, 1), numbered(4, 4));
        let onto_nothing = Picture::from_raw(width, height, Vec::new()).unwrap();
        assert_eq!(onto_nothing.overlay(&numbered(2, 2), 0, 0).as_raw().len(), 0);
    }
}
