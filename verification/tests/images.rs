use vpx::ColorSpace;
use vpx::Format;
use vpx::Image;
use vpx::Rect;

#[test]
fn a_new_image_covers_its_whole_area() {
    let img = Image::new(Format::I420 { hi_bit_depth: false }, ColorSpace::BT709, 640, 480, 640);
    assert_eq!(img.get_format(), Format::I420 { hi_bit_depth: false });
    assert_eq!(img.color_space, ColorSpace::BT709);
    assert_eq!(img.width, 640);
    assert_eq!(img.height, 480);
    assert_eq!(img.stride, 640);
    assert_eq!(img.rect, Rect { x: 0, y: 0, w: 640, h: 480 });
    assert!(!img.flipped);
}

#[test]
fn set_rect_accepts_a_contained_rectangle() {
    let mut img = Image::new(Format::YV12, ColorSpace::BT601, 320, 240, 320);
    let rect = Rect { x: 16, y: 8, w: 100, h: 100 };
    assert_eq!(img.set_rect(rect), Ok(()));
    assert_eq!(img.rect, rect);
}

#[test]
fn set_rect_rejects_a_rectangle_that_leaves_the_image() {
    let mut img = Image::new(Format::YV12, ColorSpace::BT601, 320, 240, 320);
    let before = img.rect;
    assert_eq!(img.set_rect(Rect { x: 300, y: 0, w: 21, h: 10 }), Err(()));
    assert_eq!(img.rect, before);
    assert_eq!(img.set_rect(Rect { x: 0, y: 240, w: 1, h: 1 }), Err(()));
    assert_eq!(img.rect, before);
}

#[test]
fn set_rect_survives_extreme_coordinates() {
    let mut img = Image::new(Format::YV12, ColorSpace::BT601, 320, 240, 320);
    assert_eq!(
        img.set_rect(Rect { x: u32::MAX, y: 0, w: u32::MAX, h: 1 }),
        Err(())
    );
    assert_eq!(img.rect, Rect { x: 0, y: 0, w: 320, h: 240 });
}

#[test]
fn flip_toggles_orientation() {
    let mut img = Image::new(Format::YV12, ColorSpace::BT601, 16, 16, 16);
    assert!(!img.flipped);
    img.flip();
    assert!(img.flipped);
    img.flip();
    assert!(!img.flipped);
}
