//! Cross-process buffer handles: a kernel-shared buffer described by its size,
//! pixel-format code, layout modifier and up to four planes.

use vstd::prelude::*;

verus! {

/// Relies on `drm_fourcc::DrmModifier::Linear`, which converts to the `u64` 0.
#[verifier::external_body]
pub(crate) fn drm_modifier_linear() -> (r: u64)
    ensures
        r == 0,
{
    u64::from(drm_fourcc::DrmModifier::Linear)
}

/// Relies on `drm_fourcc::DrmModifier::Invalid`, which converts to `DRM_FOURCC_INVALID`
/// (0x00ff_ffff_ffff_ffff).
#[verifier::external_body]
pub(crate) fn drm_modifier_invalid() -> (r: u64)
    ensures
        r == 0x00ff_ffff_ffff_ffffu64,
{
    u64::from(drm_fourcc::DrmModifier::Invalid)
}

/// The linear (row-major, untiled) layout modifier.
pub open spec fn modifier_linear() -> u64 {
    0
}

/// The modifier that marks a layout as unknown.
pub open spec fn modifier_invalid() -> u64 {
    0x00ff_ffff_ffff_ffffu64
}

/// Most planes that a handle can describe.
pub const MAX_PLANES: usize = 4;

/// One plane of a buffer: the descriptor that holds its memory, where the
/// plane starts in that memory and how many bytes one row takes.
#[derive(Clone, Copy, Debug, PartialEq, Eq, Structural)]
pub struct Plane {
    pub fd: i32,
    pub offset: u32,
    pub stride: u32,
}

/// A cross-process buffer handle. It does not change once made.
#[derive(Clone, Debug)]
pub struct BufferHandle {
    pub(crate) width: u32,
    pub(crate) height: u32,
    pub(crate) fourcc: u32,
    pub(crate) modifier: u64,
    pub(crate) planes: Vec<Plane>,
}

/// What a handle describes, as plain values.
pub struct HandleView {
    pub width: u32,
    pub height: u32,
    pub fourcc: u32,
    pub modifier: u64,
    pub planes: Seq<Plane>,
}

impl View for BufferHandle {
    type V = HandleView;

    open(crate) spec fn view(&self) -> HandleView {
        HandleView {
            width: self.width,
            height: self.height,
            fourcc: self.fourcc,
            modifier: self.modifier,
            planes: self.planes@,
        }
    }
}

impl BufferHandle {
    pub fn new(width: u32, height: u32, fourcc: u32, modifier: u64, planes: Vec<Plane>) -> (r:
        BufferHandle)
        ensures
            r@ == (HandleView { width, height, fourcc, modifier, planes: planes@ }),
    {
        BufferHandle { width, height, fourcc, modifier, planes }
    }

    pub fn width(&self) -> (r: u32)
        ensures
            r == self@.width,
    {
        self.width
    }

    pub fn height(&self) -> (r: u32)
        ensures
            r == self@.height,
    {
        self.height
    }

    pub fn fourcc(&self) -> (r: u32)
        ensures
            r == self@.fourcc,
    {
        self.fourcc
    }

    pub fn modifier(&self) -> (r: u64)
        ensures
            r == self@.modifier,
    {
        self.modifier
    }

    pub fn planes(&self) -> (r: &Vec<Plane>)
        ensures
            r@ == self@.planes,
    {
        &self.planes
    }
}

} // verus!
