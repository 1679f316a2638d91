use chadland::handle::{BufferHandle, Plane};
use chadland::import::{bind_offset, plan_image, ImageTiling};
use chadland::pixels::{read_pixel, write_pixel, Pixel};

const ABGR8888: u32 = 0x3432_4241;

#[test]
fn red_pixel_round_trips_through_a_256_square_buffer() {
    let plane = Plane { fd: 3, offset: 0, stride: 256 * 4 };
    let h = BufferHandle::new(256, 256, ABGR8888, 0, vec![plane]);
    let mut memory = vec![0u8; 256 * 256 * 4];
    let red = Pixel { r: 255, g: 0, b: 0, a: 255 };
    assert!(write_pixel(&mut memory, plane.offset as u64, plane.stride as u64, 0, 0, red));
    let d = plan_image(&h).unwrap();
    assert_eq!(d.tiling, ImageTiling::Linear);
    let at = bind_offset(&h);
    assert_eq!(read_pixel(&memory, at, plane.stride as u64, 0, 0), Some(red));
    assert_eq!(&memory[0..4], &[255, 0, 0, 255]);
}

#[test]
fn solid_pattern_round_trips_through_explicit_layouts() {
    let planes = vec![Plane { fd: 3, offset: 64, stride: 40 }, Plane { fd: 3, offset: 1024, stride: 48 }];
    let h = BufferHandle::new(10, 8, ABGR8888, 0, planes.clone());
    let d = plan_image(&h).unwrap();
    let mut memory = vec![0u8; 2048];
    let pattern = Pixel { r: 0x12, g: 0x34, b: 0x56, a: 0x78 };
    for (i, p) in planes.iter().enumerate() {
        for y in 0..8 {
            for x in 0..10 {
                assert!(write_pixel(&mut memory, p.offset as u64, p.stride as u64, x, y, pattern));
            }
        }
        let l = d.plane_layouts[i];
        for y in 0..8 {
            for x in 0..10 {
                assert_eq!(read_pixel(&memory, l.offset, l.row_pitch, x, y), Some(pattern));
            }
        }
    }
}

#[test]
fn pixels_beyond_the_buffer_are_refused() {
    let mut memory = vec![7u8; 16];
    let p = Pixel { r: 1, g: 2, b: 3, a: 4 };
    assert!(!write_pixel(&mut memory, 0, 8, 0, 2, p));
    assert_eq!(memory, vec![7u8; 16]);
    assert_eq!(read_pixel(&memory, 0, 8, 1, 1), Some(Pixel { r: 7, g: 7, b: 7, a: 7 }));
    assert_eq!(read_pixel(&memory, 0, 8, 2, 1), None);
    assert_eq!(read_pixel(&memory, u64::MAX, u64::MAX, u32::MAX, u32::MAX), None);
}
