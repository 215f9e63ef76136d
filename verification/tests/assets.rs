use engine::assets::{ensure_square, invert_pixel, SquareLayout};

#[test]
fn invert_colors_flips_rgb_only() {
    assert_eq!(invert_pixel([10, 20, 30, 200]), [245, 235, 225, 200]);
}

#[test]
fn ensure_square_adds_padding() {
    let layout = ensure_square(10, 20);
    assert!(layout.size >= 20);
    assert_eq!(layout, SquareLayout { size: 20, offset_x: 5, offset_y: 0 });
}

#[test]
fn inverting_twice_gives_the_pixel_back() {
    for pixel in [[0, 0, 0, 0], [255, 255, 255, 255], [1, 128, 254, 7]] {
        assert_eq!(invert_pixel(invert_pixel(pixel)), pixel);
    }
    assert_eq!(invert_pixel([0, 255, 0, 255]), [255, 0, 255, 255]);
}

#[test]
fn the_square_canvas_centres_the_image() {
    assert_eq!(ensure_square(20, 10), SquareLayout { size: 20, offset_x: 0, offset_y: 5 });
    assert_eq!(ensure_square(7, 7), SquareLayout { size: 7, offset_x: 0, offset_y: 0 });
    assert_eq!(ensure_square(0, 0), SquareLayout { size: 0, offset_x: 0, offset_y: 0 });
    assert_eq!(ensure_square(3, 8), SquareLayout { size: 8, offset_x: 2, offset_y: 0 });
    assert_eq!(ensure_square(u32::MAX, 1), SquareLayout { size: u32::MAX, offset_x: 0, offset_y: 2147483647 });
}
