//! Addressing pixels of a linear 32-bit layout: where pixel (x, y) of a
//! plane lies in the shared memory, and reading or writing it there. Both
//! sides of the bridge reach the same bytes through the same plane layout.

use vstd::prelude::*;
use crate::handle::HandleView;
use crate::import::{image_matches, implicit_layout, layout_supported, ImageDescriptor};

verus! {

/// One 32-bit RGBA pixel, in memory order.
#[derive(Clone, Copy, Debug, PartialEq, Eq, Structural)]
pub struct Pixel {
    pub r: u8,
    pub g: u8,
    pub b: u8,
    pub a: u8,
}

/// Bytes of one pixel.
pub const PIXEL_BYTES: u64 = 4;

/// The first byte of pixel (x, y) of a plane that starts at `offset` and
/// takes `stride` bytes a row.
pub open spec fn address(offset: u64, stride: u64, x: u32, y: u32) -> int {
    offset + y * stride + x * 4
}

/// The pixel whose first byte is at `at`.
pub open spec fn pixel_at(bytes: Seq<u8>, at: int) -> Pixel {
    Pixel { r: bytes[at], g: bytes[at + 1], b: bytes[at + 2], a: bytes[at + 3] }
}

/// The bytes with pixel `p` written at `at`.
pub open spec fn with_pixel(bytes: Seq<u8>, at: int, p: Pixel) -> Seq<u8> {
    bytes.update(at, p.r).update(at + 1, p.g).update(at + 2, p.b).update(at + 3, p.a)
}

fn address_of(offset: u64, stride: u64, x: u32, y: u32) -> (r: u128)
    ensures
        r == address(offset, stride, x, y),
        r + 4 <= u128::MAX,
{
    assert(0 <= y * stride <= u32::MAX * u64::MAX) by (nonlinear_arith)
        requires
            y <= u32::MAX,
            stride <= u64::MAX,
    ;
    offset as u128 + (y as u128) * (stride as u128) + (x as u128) * 4
}

/// Writes `p` as pixel (x, y) of the plane; `false`, with nothing written,
/// when the pixel lies beyond `buf`.
pub fn write_pixel(buf: &mut Vec<u8>, offset: u64, stride: u64, x: u32, y: u32, p: Pixel) -> (r:
    bool)
    ensures
        r == (address(offset, stride, x, y) + 4 <= old(buf)@.len()),
        r ==> final(buf)@ == with_pixel(old(buf)@, address(offset, stride, x, y), p),
        !r ==> final(buf)@ == old(buf)@,
{
    let at = address_of(offset, stride, x, y);
    if at + 4 > buf.len() as u128 {
        return false;
    }
    let i = at as usize;
    buf.set(i, p.r);
    buf.set(i + 1, p.g);
    buf.set(i + 2, p.b);
    buf.set(i + 3, p.a);
    true
}

/// Pixel (x, y) of the plane; none when it lies beyond `buf`.
pub fn read_pixel(buf: &Vec<u8>, offset: u64, stride: u64, x: u32, y: u32) -> (r: Option<Pixel>)
    ensures
        match r {
            Some(p) => address(offset, stride, x, y) + 4 <= buf@.len() && p == pixel_at(
                buf@,
                address(offset, stride, x, y),
            ),
            None => address(offset, stride, x, y) + 4 > buf@.len(),
        },
{
    let at = address_of(offset, stride, x, y);
    if at + 4 > buf.len() as u128 {
        return None;
    }
    let i = at as usize;
    Some(Pixel { r: buf[i], g: buf[i + 1], b: buf[i + 2], a: buf[i + 3] })
}

/// What is written through a plane of a handle is read back unchanged
/// through the matching plane layout of the image that the handle is
/// imported as: both address pixel (x, y) at the same byte.
pub proof fn lemma_round_trip(
    h: HandleView,
    d: ImageDescriptor,
    i: int,
    bytes: Seq<u8>,
    x: u32,
    y: u32,
    p: Pixel,
)
    requires
        layout_supported(h),
        image_matches(h, d),
        !implicit_layout(h),
        0 <= i < h.planes.len(),
        address(h.planes[i].offset as u64, h.planes[i].stride as u64, x, y) >= 0,
        address(h.planes[i].offset as u64, h.planes[i].stride as u64, x, y) + 4 <= bytes.len(),
    ensures
        pixel_at(
            with_pixel(
                bytes,
                address(h.planes[i].offset as u64, h.planes[i].stride as u64, x, y),
                p,
            ),
            address(d.plane_layouts@[i].offset, d.plane_layouts@[i].row_pitch, x, y),
        ) == p,
{
}

} // verus!
