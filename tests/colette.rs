use colette::{color_256to16, color_256torgb, color_rgbto256, join_rgb, split_rgb};

fn split(c: i32) -> (u8, u8, u8) {
    let mut r: u8 = 0;
    let mut g: u8 = 0;
    let mut b: u8 = 0;
    split_rgb(c, &mut r, &mut g, &mut b);
    (r, g, b)
}

const LEVELS: [u8; 6] = [0x00, 0x5f, 0x87, 0xaf, 0xd7, 0xff];

#[test]
fn test_color_rgbto256() {
    assert_eq!(16, color_rgbto256(0, 0, 0)); // Black (0 / 16)
    assert_eq!(231, color_rgbto256(255, 255, 255)); // White (15 / 231)
    assert_eq!(196, color_rgbto256(255, 0, 0)); // Red (196)
    assert_eq!(46, color_rgbto256(0, 255, 0)); // Green (46)
    assert_eq!(21, color_rgbto256(0, 0, 255)); // Blue (21)
    assert_eq!(251, color_rgbto256(200, 200, 200)); // Grey (232 - 255)
    assert_eq!(251, color_rgbto256(201, 201, 201)); // Fuzzy match
    assert_eq!(188, color_rgbto256(215, 215, 215)); // Exact match
}

#[test]
fn test_join_rgb() {
    assert_eq!(0x000000, join_rgb(0, 0, 0));
    assert_eq!(0xffffff, join_rgb(255, 255, 255));
    assert_eq!(0xff0000, join_rgb(255, 0, 0));
    assert_eq!(0x00ff00, join_rgb(0, 255, 0));
    assert_eq!(0x0000ff, join_rgb(0, 0, 255));
    assert_eq!(0xc8c8c8, join_rgb(200, 200, 200));
}

#[test]
fn test_split_rgb() {
    let mut r: u8 = 0;
    let mut g: u8 = 0;
    let mut b: u8 = 0;
    split_rgb(0xc8c8c8, &mut r, &mut g, &mut b);
    assert_eq!(200, r);
    assert_eq!(200, g);
    assert_eq!(200, b);
}

#[test]
fn test_color_256torgb() {
    assert_eq!(join_rgb(135, 255, 135), color_256torgb(120));
    assert_eq!(join_rgb(215, 255, 0), color_256torgb(190));
}

#[test]
fn test_color_256to16() {
    assert_eq!(12, color_256to16(21));
    assert_eq!(1, color_256to16(52));
    assert_eq!(9, color_256to16(196));
    assert_eq!(7, color_256to16(244));
    assert_eq!(15, color_256to16(253));
}

#[test]
fn split_after_join_gives_back_channels() {
    for r in 0..=255u8 {
        for g in (0..=255u8).step_by(5) {
            for b in 0..=255u8 {
                assert_eq!((r, g, b), split(join_rgb(r, g, b)));
            }
        }
    }
}

#[test]
fn join_after_split_gives_back_24_bit_colour() {
    for c in (0..=0xffffffi32).step_by(997) {
        let (r, g, b) = split(c);
        assert_eq!(c, join_rgb(r, g, b));
    }
    let (r, g, b) = split(0xffffff);
    assert_eq!(0xffffff, join_rgb(r, g, b));
}

#[test]
fn split_ignores_bits_above_23() {
    assert_eq!((0x12, 0x34, 0x56), split(0x7f123456));
    assert_eq!((0xab, 0xcd, 0xef), split(0x01abcdef));
    assert_eq!((255, 255, 255), split(-1));
}

#[test]
fn join_places_each_channel() {
    assert_eq!(0x010203, join_rgb(1, 2, 3));
    assert_eq!(0x5f87af, join_rgb(0x5f, 0x87, 0xaf));
}

#[test]
fn exact_cube_cells_map_to_their_index() {
    for qr in 0..6usize {
        for qg in 0..6usize {
            for qb in 0..6usize {
                let expected = (16 + 36 * qr + 6 * qg + qb) as i32;
                let got = color_rgbto256(LEVELS[qr], LEVELS[qg], LEVELS[qb]);
                assert_eq!(expected, got);
            }
        }
    }
}

#[test]
fn near_colours_pick_the_nearer_candidate() {
    // Light greys above the last break point pick the last grey step.
    assert_eq!(255, color_rgbto256(240, 240, 240));
    // Near white stays on the cube where the cube is nearer.
    assert_eq!(231, color_rgbto256(250, 250, 250));
    // Near black: the cube's black is nearer than the first grey.
    assert_eq!(16, color_rgbto256(1, 1, 1));
    assert_eq!(244, color_rgbto256(128, 128, 128));
    assert_eq!(68, color_rgbto256(100, 150, 200));
}

#[test]
fn rgbto256_is_total_and_never_ansi() {
    let mut samples: Vec<u8> = (0..=255u8).step_by(3).collect();
    samples.push(255);
    for &r in &samples {
        for &g in &samples {
            for &b in &samples {
                let idx = color_rgbto256(r, g, b);
                assert!((16..=255).contains(&idx));
            }
        }
    }
}

#[test]
fn palette_table_follows_cube_and_grey_ramp() {
    assert_eq!(0x000000, color_256torgb(0));
    assert_eq!(0xc0c0c0, color_256torgb(7));
    assert_eq!(0xffffff, color_256torgb(15));
    for i in 16..232usize {
        let k = i - 16;
        let expected = join_rgb(LEVELS[k / 36], LEVELS[(k / 6) % 6], LEVELS[k % 6]);
        assert_eq!(expected, color_256torgb(i as u8));
    }
    for i in 232..256usize {
        let v = (8 + 10 * (i - 232)) as u8;
        assert_eq!(join_rgb(v, v, v), color_256torgb(i as u8));
    }
    assert_eq!(0x080808, color_256torgb(232));
    assert_eq!(0xeeeeee, color_256torgb(255));
}

#[test]
fn ansi16_table_is_total_and_keeps_ansi_colours() {
    for i in 0..=255u8 {
        let c = color_256to16(i);
        assert!((0..16).contains(&c));
        if i < 16 {
            assert_eq!(i as i32, c);
        }
    }
    assert_eq!(0, color_256to16(16));
    assert_eq!(15, color_256to16(231));
    assert_eq!(0, color_256to16(232));
    assert_eq!(15, color_256to16(255));
}
