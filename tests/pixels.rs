use path_tracer::camera::plane_offset;
use path_tracer::colour::{build_diffuse_colour, clamp_channel, DiffuseColour};
use path_tracer::framebuffer::{pixel_index, pixel_position, Framebuffer};
use path_tracer::{HEIGHT, WIDTH};

#[test]
fn black_is_all_zero() {
    let c = build_diffuse_colour();
    assert_eq!(c, DiffuseColour { r: 0, g: 0, b: 0 });
}

#[test]
fn clamp_keeps_levels_in_range() {
    assert_eq!(clamp_channel(0), 0);
    assert_eq!(clamp_channel(17), 17);
    assert_eq!(clamp_channel(255), 255);
}

#[test]
fn clamp_never_wraps() {
    assert_eq!(clamp_channel(256), 255);
    assert_eq!(clamp_channel(300), 255);
    assert_eq!(clamp_channel(u64::MAX), 255);
}

#[test]
fn from_levels_clamps_each_channel() {
    let c = DiffuseColour::from_levels(12, 1000, 255);
    assert_eq!(c, DiffuseColour { r: 12, g: 255, b: 255 });
    assert_eq!(c.channel(0), 12);
    assert_eq!(c.channel(1), 255);
    assert_eq!(c.channel(2), 255);
}

#[test]
fn index_is_column_major() {
    assert_eq!(pixel_index(0, 0, 4, 3), 0);
    assert_eq!(pixel_index(0, 2, 4, 3), 2);
    assert_eq!(pixel_index(1, 0, 4, 3), 3);
    assert_eq!(pixel_index(3, 2, 4, 3), 11);
}

#[test]
fn position_inverts_index() {
    let (w, h) = (WIDTH as usize, HEIGHT as usize);
    for &(column, row) in &[(0usize, 0usize), (5, 799), (799, 0), (799, 799), (123, 456)] {
        let i = pixel_index(column, row, w, h);
        assert_eq!(pixel_position(i, w, h), (column, row));
    }
    assert_eq!(pixel_position(11, 4, 3), (3, 2));
    assert_eq!(pixel_position(4, 4, 3), (1, 1));
}

#[test]
fn new_buffer_is_black() {
    let fb = Framebuffer::new(4, 3).unwrap();
    assert_eq!(fb.width(), 4);
    assert_eq!(fb.height(), 3);
    for column in 0..4 {
        for row in 0..3 {
            assert_eq!(fb.get(column, row), build_diffuse_colour());
        }
    }
}

#[test]
fn oversized_buffer_is_refused() {
    assert!(Framebuffer::new(usize::MAX, 2).is_none());
    assert!(Framebuffer::new(usize::MAX / 3 + 1, 1).is_none());
    assert!(Framebuffer::new(0, 0).is_some());
}

#[test]
fn set_changes_one_pixel() {
    let mut fb = Framebuffer::new(4, 3).unwrap();
    let red = DiffuseColour { r: 255, g: 0, b: 0 };
    fb.set(2, 1, red);
    assert_eq!(fb.get(2, 1), red);
    assert_eq!(fb.get(1, 2), build_diffuse_colour());
    assert_eq!(fb.get(2, 0), build_diffuse_colour());
}

#[test]
fn raster_is_row_major_rgb() {
    let mut fb = Framebuffer::new(3, 2).unwrap();
    fb.set(1, 0, DiffuseColour { r: 1, g: 2, b: 3 });
    fb.set(0, 1, DiffuseColour { r: 4, g: 5, b: 6 });
    fb.set(2, 1, DiffuseColour { r: 7, g: 8, b: 9 });
    let bytes = fb.to_raster();
    assert_eq!(
        bytes,
        vec![0, 0, 0, 1, 2, 3, 0, 0, 0, 4, 5, 6, 0, 0, 0, 7, 8, 9]
    );
}

#[test]
fn raster_of_empty_buffer_is_empty() {
    let fb = Framebuffer::new(0, 5).unwrap();
    assert!(fb.to_raster().is_empty());
}

#[test]
fn camera_offsets_span_the_view() {
    assert_eq!(plane_offset(0, WIDTH), -800);
    assert_eq!(plane_offset(400, WIDTH), 0);
    assert_eq!(plane_offset(WIDTH, WIDTH), 800);
    assert_eq!(plane_offset(100, 800), -plane_offset(700, 800));
    assert_eq!(plane_offset(3, 4), 2);
}

#[test]
fn png_holds_the_pixels() {
    let mut fb = Framebuffer::new(3, 2).unwrap();
    fb.set(1, 0, DiffuseColour { r: 1, g: 2, b: 3 });
    fb.set(0, 1, DiffuseColour { r: 250, g: 5, b: 6 });
    fb.set(2, 1, DiffuseColour::from_levels(7, 8, 900));
    let file = fb.to_png().unwrap();
    assert_eq!(&file[..8], &[0x89, b'P', b'N', b'G', 0x0D, 0x0A, 0x1A, 0x0A]);
    assert_ne!(file, fb.to_raster());
    let decoded = image::load_from_memory(&file).unwrap().to_rgb8();
    assert_eq!(decoded.width(), 3);
    assert_eq!(decoded.height(), 2);
    for column in 0..3u32 {
        for row in 0..2u32 {
            let c = fb.get(column as usize, row as usize);
            assert_eq!(decoded.get_pixel(column, row).0, [c.r, c.g, c.b]);
        }
    }
    assert_eq!(decoded.into_raw(), fb.to_raster());
}

#[test]
fn png_is_reproducible() {
    let mut fb = Framebuffer::new(4, 4).unwrap();
    fb.set(3, 3, DiffuseColour { r: 9, g: 9, b: 9 });
    assert_eq!(fb.to_png(), fb.to_png());
}

#[test]
fn png_of_empty_buffer_is_refused() {
    assert!(Framebuffer::new(0, 5).unwrap().to_png().is_none());
    assert!(Framebuffer::new(5, 0).unwrap().to_png().is_none());
    assert!(Framebuffer::new(1, 1).unwrap().to_png().is_some());
}
