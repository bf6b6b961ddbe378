use metaballs::field::{pixel_offset, shade, PixelBuffer, LIT, OPAQUE, THRESHOLD};

/// Clamped field level of pixel `(x, y)` for balls given as `(px, py, size)`,
/// summed the way the renderer sums them.
fn level_at(balls: &[(f32, f32, f32)], x: usize, y: usize) -> u8 {
    let mut d: f32 = 0.0;
    for &(px, py, size) in balls {
        let dx = px - x as f32;
        let dy = py - y as f32;
        let s = dx * dx + dy * dy;
        let inf = if s == 0.0 { 0.0 } else { size / s.sqrt() };
        d += inf * 50.0;
    }
    d.clamp(0.0, 255.0) as u8
}

fn levels_for(balls: &[(f32, f32, f32)], width: usize, height: usize) -> Vec<u8> {
    let mut v = Vec::new();
    for y in 0..height {
        for x in 0..width {
            v.push(level_at(balls, x, y));
        }
    }
    v
}

#[test]
fn shade_threshold_boundary() {
    assert_eq!(shade(0), 0);
    assert_eq!(shade(THRESHOLD - 1), 0);
    assert_eq!(shade(THRESHOLD), LIT);
    assert_eq!(shade(255), 200);
}

#[test]
fn pixel_offset_is_row_major() {
    assert_eq!(pixel_offset(10, 10, 0, 0), 0);
    assert_eq!(pixel_offset(10, 10, 3, 0), 12);
    assert_eq!(pixel_offset(10, 10, 0, 1), 40);
    assert_eq!(pixel_offset(800, 600, 799, 599), 4 * (599 * 800 + 799));
}

#[test]
fn new_buffer_is_opaque_black() {
    let b = PixelBuffer::new(3, 2);
    assert_eq!(b.width(), 3);
    assert_eq!(b.height(), 2);
    assert_eq!(b.bytes().len(), 24);
    for y in 0..2 {
        for x in 0..3 {
            assert_eq!(b.pixel(x, y), (0, 0, 0, 255));
        }
    }
}

#[test]
fn empty_raster_has_no_bytes() {
    let mut b = PixelBuffer::new(0, 7);
    b.shade_levels(&Vec::new());
    assert_eq!(b.bytes().len(), 0);
}

#[test]
fn no_balls_gives_black_buffer_of_full_size() {
    let mut b = PixelBuffer::new(8, 5);
    b.shade_levels(&vec![255; 40]);
    let levels = levels_for(&[], 8, 5);
    b.shade_levels(&levels);
    assert_eq!(b.bytes().len(), 8 * 5 * 4);
    for (j, byte) in b.bytes().iter().enumerate() {
        let want = if j % 4 == 3 { OPAQUE } else { 0 };
        assert_eq!(*byte, want);
    }
}

#[test]
fn shade_levels_writes_each_pixel_at_its_offset() {
    let mut b = PixelBuffer::new(2, 2);
    b.shade_levels(&vec![0, 99, 100, 250]);
    assert_eq!(b.bytes(), &[0, 0, 0, 255, 0, 0, 0, 255, 200, 200, 200, 255, 200, 200, 200, 255][..]);
    assert_eq!(b.pixel(0, 1), (200, 200, 200, 255));
    assert_eq!(b.pixel(1, 0), (0, 0, 0, 255));
}

#[test]
fn centred_ball_lights_all_but_its_centre() {
    let balls = [(5.0, 5.0, 50.0)];
    let mut b = PixelBuffer::new(10, 10);
    b.shade_levels(&levels_for(&balls, 10, 10));
    // The exact centre has zero influence.
    assert_eq!(b.pixel(5, 5), (0, 0, 0, 255));
    // Every other pixel is within d2 <= 625 of the centre.
    assert_eq!(b.pixel(0, 0), (200, 200, 200, 255));
    assert_eq!(b.pixel(9, 9), (200, 200, 200, 255));
    assert_eq!(b.pixel(5, 4), (200, 200, 200, 255));
    for y in 0..10 {
        for x in 0..10 {
            let want = if (x, y) == (5, 5) { 0 } else { 200 };
            assert_eq!(b.pixel(x, y).0, want);
        }
    }
}

#[test]
fn threshold_boundary_at_distance_twenty_five() {
    // A ball of size 50 at the origin: 50 / sqrt(d2) * 50 >= 100 exactly when d2 <= 625.
    let balls = [(0.0, 0.0, 50.0)];
    let mut b = PixelBuffer::new(40, 1);
    b.shade_levels(&levels_for(&balls, 40, 1));
    assert_eq!(b.pixel(25, 0), (200, 200, 200, 255));
    assert_eq!(b.pixel(26, 0), (0, 0, 0, 255));
    assert_eq!(b.pixel(1, 0), (200, 200, 200, 255));
    assert_eq!(b.pixel(39, 0), (0, 0, 0, 255));
}

#[test]
fn shading_twice_gives_identical_bytes() {
    let balls = [(3.5, 2.0, 12.0), (7.0, 6.0, 20.0)];
    let levels = levels_for(&balls, 12, 9);
    let mut b = PixelBuffer::new(12, 9);
    b.shade_levels(&levels);
    let first = b.bytes().to_vec();
    b.shade_levels(&levels);
    assert_eq!(b.bytes(), &first[..]);
}

#[test]
fn appended_ball_shows_on_next_shading() {
    let mut balls = vec![(2.0, 2.0, 10.0)];
    let mut b = PixelBuffer::new(30, 30);
    b.shade_levels(&levels_for(&balls, 30, 30));
    assert_eq!(b.pixel(25, 25).0, 0);
    balls.push((25.0, 24.0, 40.0));
    b.shade_levels(&levels_for(&balls, 30, 30));
    assert_eq!(b.pixel(25, 25).0, 200);
}
