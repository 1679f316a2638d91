//! Allocation of cross-process buffers: binding to the GPU device that backs
//! the primary renderer, and the request made for each buffer.

use vstd::prelude::*;
use crate::format::spec_format_of_fourcc;
use crate::format::format_of_fourcc;
use crate::handle::{drm_modifier_linear, modifier_linear, BufferHandle, HandleView, MAX_PLANES};

verus! {

#[derive(Clone, Copy, Debug, PartialEq, Eq, Structural)]
pub enum AllocationError {
    /// Recoverable: the caller may retry with other parameters.
    OutOfMemory,
    /// Recoverable: the caller may retry with another format.
    UnsupportedFormat,
    /// Fatal: no buffer can ever be produced without a device.
    DeviceUnavailable,
}

/// No usable device at all; fatal at startup.
#[derive(Clone, Copy, Debug, PartialEq, Eq, Structural)]
pub enum PlatformError {
    /// The renderer's device reports no render node.
    NoRenderNode,
    /// The render node could not be opened.
    DeviceOpenFailed,
}

/// The DRM properties that the primary renderer's physical device reports.
#[derive(Clone, Copy, Debug, PartialEq, Eq, Structural)]
pub struct DrmProperties {
    pub has_render: bool,
    pub render_major: i64,
    pub render_minor: i64,
}

/// The Linux device number of a major and a minor number.
pub open spec fn spec_makedev(major: u32, minor: u32) -> u64 {
    (((major as u64) & 0xffff_f000u64) << 32u64) | (((major as u64) & 0x0000_0fffu64) << 8u64)
        | (((minor as u64) & 0xffff_ff00u64) << 12u64) | ((minor as u64) & 0x0000_00ffu64)
}

pub fn makedev(major: u32, minor: u32) -> (r: u64)
    ensures
        r == spec_makedev(major, minor),
{
    (((major as u64) & 0xffff_f000u64) << 32u64) | (((major as u64) & 0x0000_0fffu64) << 8u64) | (((
    minor as u64) & 0xffff_ff00u64) << 12u64) | ((minor as u64) & 0x0000_00ffu64)
}

/// The device number of the render node, when the device has one.
pub open spec fn render_node_of(p: DrmProperties) -> Option<u64> {
    if p.has_render && 0 <= p.render_major <= u32::MAX && 0 <= p.render_minor <= u32::MAX {
        Some(spec_makedev(p.render_major as u32, p.render_minor as u32))
    } else {
        None
    }
}

/// The device number of the render node that backs the primary renderer.
pub fn resolve_render_node(p: &DrmProperties) -> (r: Result<u64, PlatformError>)
    ensures
        r == match render_node_of(*p) {
            Some(dev) => Ok(dev),
            None => Err(PlatformError::NoRenderNode),
        },
{
    if p.has_render && 0 <= p.render_major && p.render_major <= u32::MAX as i64 && 0 <= p.render_minor
        && p.render_minor <= u32::MAX as i64 {
        Ok(makedev(p.render_major as u32, p.render_minor as u32))
    } else {
        Err(PlatformError::NoRenderNode)
    }
}

/// What to ask of the buffer allocator of device `device`.
#[derive(Clone, Copy, Debug, PartialEq, Eq, Structural)]
pub struct AllocationRequest {
    pub device: u64,
    pub width: u32,
    pub height: u32,
    pub fourcc: u32,
    /// The only modifier offered: the linear one, which any consumer imports.
    pub modifier: u64,
}

/// The allocator's binding to a device; unbound until its first use.
pub struct BufferAllocator {
    device: Option<u64>,
}

/// The request for a buffer of `width` by `height` in the format `fourcc`
/// on a device bound as `device`.
pub open spec fn spec_request(device: Option<u64>, width: u32, height: u32, fourcc: u32) -> Result<
    AllocationRequest,
    AllocationError,
> {
    match device {
        None => Err(AllocationError::DeviceUnavailable),
        Some(dev) => if spec_format_of_fourcc(fourcc) is None {
            Err(AllocationError::UnsupportedFormat)
        } else {
            Ok(AllocationRequest { device: dev, width, height, fourcc, modifier: modifier_linear() })
        },
    }
}

/// The exported handle is what `req` asked for.
pub open spec fn export_matches(req: AllocationRequest, h: HandleView) -> bool {
    &&& h.width == req.width
    &&& h.height == req.height
    &&& h.fourcc == req.fourcc
    &&& h.modifier == req.modifier
    &&& 1 <= h.planes.len() <= MAX_PLANES
}

impl BufferAllocator {
    pub fn new() -> (r: Self)
        ensures
            r.device() is None,
    {
        BufferAllocator { device: None }
    }

    /// The device number that the allocator is bound to.
    pub closed spec fn device(&self) -> Option<u64> {
        self.device
    }

    pub fn bound_device(&self) -> (r: Option<u64>)
        ensures
            r == self.device(),
    {
        self.device
    }

    /// Binds the allocator to the render node of the primary renderer's
    /// device, on first use. Once bound, it stays bound to that device.
    pub fn bind(&mut self, p: &DrmProperties) -> (r: Result<u64, PlatformError>)
        ensures
            old(self).device() is Some ==> r == Ok::<u64, PlatformError>(old(self).device()->Some_0)
                && final(self).device() == old(self).device(),
            old(self).device() is None ==> r == match render_node_of(*p) {
                Some(dev) => Ok(dev),
                None => Err(PlatformError::NoRenderNode),
            } && final(self).device() == match r {
                Ok(dev) => Some(dev),
                Err(_) => None,
            },
    {
        match self.device {
            Some(dev) => Ok(dev),
            None => {
                let r = resolve_render_node(p);
                if let Ok(dev) = r {
                    self.device = Some(dev);
                }
                r
            },
        }
    }

    /// The request for a buffer of `width` by `height` in format `fourcc`,
    /// always with the linear modifier.
    pub fn request(&self, width: u32, height: u32, fourcc: u32) -> (r: Result<
        AllocationRequest,
        AllocationError,
    >)
        ensures
            r == spec_request(self.device(), width, height, fourcc),
    {
        match self.device {
            None => Err(AllocationError::DeviceUnavailable),
            Some(dev) => match format_of_fourcc(fourcc) {
                None => Err(AllocationError::UnsupportedFormat),
                Some(_) => Ok(
                    AllocationRequest {
                        device: dev,
                        width,
                        height,
                        fourcc,
                        modifier: drm_modifier_linear(),
                    },
                ),
            },
        }
    }
}

/// Accepts the handle that the allocator exported for `req`, or refuses one
/// that is not what was asked for (another layout than the linear one
/// cannot be imported everywhere).
pub fn accept_export(req: &AllocationRequest, h: BufferHandle) -> (r: Result<
    BufferHandle,
    AllocationError,
>)
    ensures
        match r {
            Ok(out) => export_matches(*req, h@) && out@ == h@,
            Err(e) => !export_matches(*req, h@) && e == AllocationError::UnsupportedFormat,
        },
{
    let n = h.planes().len();
    if h.width() == req.width && h.height() == req.height && h.fourcc() == req.fourcc
        && h.modifier() == req.modifier && 1 <= n && n <= MAX_PLANES {
        Ok(h)
    } else {
        Err(AllocationError::UnsupportedFormat)
    }
}

/// `ENOMEM`.
pub const ENOMEM: i32 = 12;

/// `ENXIO`.
pub const ENXIO: i32 = 6;

/// `EBADF`.
pub const EBADF: i32 = 9;

/// `ENODEV`.
pub const ENODEV: i32 = 19;

/// The allocation error of an OS error number that the buffer allocator
/// reported: no memory, no device, or a buffer that it cannot make.
pub fn allocation_error_of_errno(errno: i32) -> (r: AllocationError)
    ensures
        r == if errno == ENOMEM {
            AllocationError::OutOfMemory
        } else if errno == ENODEV || errno == ENXIO || errno == EBADF {
            AllocationError::DeviceUnavailable
        } else {
            AllocationError::UnsupportedFormat
        },
{
    if errno == ENOMEM {
        AllocationError::OutOfMemory
    } else if errno == ENODEV || errno == ENXIO || errno == EBADF {
        AllocationError::DeviceUnavailable
    } else {
        AllocationError::UnsupportedFormat
    }
}

} // verus!
