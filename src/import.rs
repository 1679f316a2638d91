//! Planning the import of a cross-process buffer into the target graphics
//! API as a native texture: the image to create, the memory type to import
//! into and where to bind it.

use vstd::prelude::*;
use crate::format::{
    bytes_per_pixel, descriptor, format_of_fourcc, spec_descriptor, spec_format_of_fourcc,
    FormatDescriptor, TargetFormat, TargetUsage,
};
use crate::handle::{
    drm_modifier_invalid, drm_modifier_linear, modifier_invalid, modifier_linear, BufferHandle,
    HandleView, Plane, MAX_PLANES,
};

verus! {

/// Relies on `ash::vk::MemoryPropertyFlags::DEVICE_LOCAL`, whose raw bits are 0b1.
#[verifier::external_body]
fn vk_memory_device_local() -> (r: u32)
    ensures
        r == 1,
{
    ash::vk::MemoryPropertyFlags::DEVICE_LOCAL.as_raw()
}

/// Relies on `ash::vk::ExternalMemoryHandleTypeFlags::DMA_BUF_EXT`, whose raw bits are
/// 0b10_0000_0000.
#[verifier::external_body]
fn vk_handle_type_dma_buf() -> (r: u32)
    ensures
        r == 512,
{
    ash::vk::ExternalMemoryHandleTypeFlags::DMA_BUF_EXT.as_raw()
}

/// Why an import did not produce a texture. Every one of them is recoverable
/// for the next frame.
#[derive(Clone, Copy, Debug, PartialEq, Eq, Structural)]
pub enum ImportError {
    NoCompatibleMemoryType,
    DriverRejectedImport,
    InvalidPlaneLayout,
}

/// How the pixels of the native image are arranged in memory.
#[derive(Clone, Copy, Debug, PartialEq, Eq, Structural)]
pub enum ImageTiling {
    /// Row-major, with the layout left to the driver.
    Linear,
    /// The layout given by a format modifier and explicit plane layouts.
    DrmFormatModifier { modifier: u64 },
}

/// Where a plane starts in the imported memory and the bytes of one row.
#[derive(Clone, Copy, Debug, PartialEq, Eq, Structural)]
pub struct SubresourceLayout {
    pub offset: u64,
    pub row_pitch: u64,
}

/// The native image to create for an import: one mip level, one array
/// layer, one sample, created for external memory import.
#[derive(Clone, Debug)]
pub struct ImageDescriptor {
    pub width: u32,
    pub height: u32,
    pub depth: u32,
    pub vk_format: i32,
    pub target_format: TargetFormat,
    pub mip_levels: u32,
    pub array_layers: u32,
    pub samples: u32,
    /// Raw `VkExternalMemoryHandleTypeFlags` that the image is created for.
    pub external_handle_types: u32,
    pub vk_usage: u32,
    pub target_usage: TargetUsage,
    pub tiling: ImageTiling,
    /// One entry per plane for an explicit layout; empty for an implicit one.
    pub plane_layouts: Vec<SubresourceLayout>,
}

/// Raw handle type bit of a dma-buf descriptor.
pub open spec fn handle_type_dma_buf() -> u32 {
    512
}

/// The format row of a handle's pixel-format code, if the table has one.
pub open spec fn handle_format(h: HandleView) -> Option<FormatDescriptor> {
    match spec_format_of_fourcc(h.fourcc) {
        Some(f) => Some(spec_descriptor(f)),
        None => None,
    }
}

/// A handle whose layout can be imported: one to four planes, a non-empty
/// size, a format of the table, a known modifier, and rows that hold the
/// pixels of a line.
pub open spec fn layout_supported(h: HandleView) -> bool {
    &&& 1 <= h.planes.len() <= MAX_PLANES
    &&& h.width > 0
    &&& h.height > 0
    &&& handle_format(h) is Some
    &&& h.modifier != modifier_invalid()
    &&& forall|i: int|
        0 <= i < h.planes.len() ==> #[trigger] h.planes[i].stride >= h.width * bytes_per_pixel(
            handle_format(h)->Some_0,
        )
}

/// The layout is left to the driver: a single plane with the linear modifier.
pub open spec fn implicit_layout(h: HandleView) -> bool {
    h.planes.len() == 1 && h.modifier == modifier_linear()
}

/// The explicit layout of each plane.
pub open spec fn explicit_layouts(planes: Seq<Plane>) -> Seq<SubresourceLayout> {
    planes.map_values(|p: Plane| SubresourceLayout { offset: p.offset as u64, row_pitch: p.stride as u64 })
}

/// The image that a supported handle is imported as.
pub open spec fn image_matches(h: HandleView, d: ImageDescriptor) -> bool {
    let f = handle_format(h)->Some_0;
    &&& d.width == h.width
    &&& d.height == h.height
    &&& d.depth == 1
    &&& d.vk_format == f.vk_format
    &&& d.target_format == f.target_format
    &&& d.mip_levels == 1
    &&& d.array_layers == 1
    &&& d.samples == 1
    &&& d.external_handle_types == handle_type_dma_buf()
    &&& d.vk_usage == f.vk_usage
    &&& d.target_usage == f.target_usage
    &&& if implicit_layout(h) {
        d.tiling == ImageTiling::Linear && d.plane_layouts@ == Seq::<SubresourceLayout>::empty()
    } else {
        d.tiling == (ImageTiling::DrmFormatModifier { modifier: h.modifier })
            && d.plane_layouts@ == explicit_layouts(h.planes)
    }
}

/// Checks a handle's layout and describes the native image to import it as.
pub fn plan_image(h: &BufferHandle) -> (r: Result<ImageDescriptor, ImportError>)
    ensures
        match r {
            Ok(d) => layout_supported(h@) && image_matches(h@, d),
            Err(e) => !layout_supported(h@) && e == ImportError::InvalidPlaneLayout,
        },
{
    let n = h.planes.len();
    if n == 0 || n > MAX_PLANES || h.width == 0 || h.height == 0 {
        return Err(ImportError::InvalidPlaneLayout);
    }
    if h.modifier == drm_modifier_invalid() {
        return Err(ImportError::InvalidPlaneLayout);
    }
    let f = match format_of_fourcc(h.fourcc) {
        Some(f) => f,
        None => return Err(ImportError::InvalidPlaneLayout),
    };
    let d = descriptor(f);
    let bpp: u64 = (d.bits_per_pixel / 8) as u64;
    assert(bpp == 4);
    let row: u64 = h.width as u64 * bpp;
    let mut layouts: Vec<SubresourceLayout> = Vec::new();
    let mut i: usize = 0;
    while i < n
        invariant
            n == h.planes@.len(),
            i <= n,
            row == h@.width * bytes_per_pixel(d),
            d == handle_format(h@)->Some_0,
            handle_format(h@) is Some,
            forall|j: int| 0 <= j < i ==> #[trigger] h@.planes[j].stride >= row,
            layouts@ == explicit_layouts(h@.planes.take(i as int)),
        decreases n - i,
    {
        let p = h.planes[i];
        if (p.stride as u64) < row {
            return Err(ImportError::InvalidPlaneLayout);
        }
        layouts.push(SubresourceLayout { offset: p.offset as u64, row_pitch: p.stride as u64 });
        proof {
            assert(h@.planes.take(i as int + 1) =~= h@.planes.take(i as int).push(p));
            assert(explicit_layouts(h@.planes.take(i as int + 1)) =~= explicit_layouts(
                h@.planes.take(i as int),
            ).push(SubresourceLayout { offset: p.offset as u64, row_pitch: p.stride as u64 }));
        }
        i = i + 1;
    }
    assert(h@.planes.take(n as int) =~= h@.planes);
    let implicit = n == 1 && h.modifier == drm_modifier_linear();
    let (tiling, plane_layouts) = if implicit {
        (ImageTiling::Linear, Vec::new())
    } else {
        (ImageTiling::DrmFormatModifier { modifier: h.modifier }, layouts)
    };
    Ok(
        ImageDescriptor {
            width: h.width,
            height: h.height,
            depth: 1,
            vk_format: d.vk_format,
            target_format: d.target_format,
            mip_levels: 1,
            array_layers: 1,
            samples: 1,
            external_handle_types: vk_handle_type_dma_buf(),
            vk_usage: d.vk_usage,
            target_usage: d.target_usage,
            tiling,
            plane_layouts,
        },
    )
}

/// How a memory type is picked for an import.
#[derive(Clone, Copy, Debug, PartialEq, Eq, Structural)]
pub enum MemoryTypeStrategy {
    /// The first type that the image's requirement bits admit.
    FirstMatching,
    /// The first admitted type that is device-local; the first admitted
    /// type when none is.
    PreferDeviceLocal,
}

/// Memory type `i` exists (`flags` lists the property flags of each type)
/// and the requirement bits admit it.
pub open spec fn type_allowed(bits: u32, flags: Seq<u32>, i: int) -> bool {
    &&& 0 <= i < 32
    &&& i < flags.len()
    &&& (bits >> (i as u32)) & 1u32 == 1u32
}

/// Memory type `i` lives on the device.
pub open spec fn type_device_local(flags: Seq<u32>, i: int) -> bool {
    flags[i] & 1u32 == 1u32
}

/// Memory type `i` is admitted, and device-local where `local` asks for it.
pub open spec fn type_fits(bits: u32, flags: Seq<u32>, local: bool, i: int) -> bool {
    type_allowed(bits, flags, i) && (local ==> type_device_local(flags, i))
}

/// `i` is the first type that fits.
pub open spec fn first_fit(bits: u32, flags: Seq<u32>, local: bool, i: int) -> bool {
    type_fits(bits, flags, local, i) && forall|j: int| 0 <= j < i ==> !type_fits(bits, flags, local, j)
}

/// No type fits.
pub open spec fn none_fits(bits: u32, flags: Seq<u32>, local: bool) -> bool {
    forall|j: int| !type_fits(bits, flags, local, j)
}

/// The index that a strategy picks.
pub open spec fn selected(strategy: MemoryTypeStrategy, bits: u32, flags: Seq<u32>, i: int) -> bool {
    match strategy {
        MemoryTypeStrategy::FirstMatching => first_fit(bits, flags, false, i),
        MemoryTypeStrategy::PreferDeviceLocal => first_fit(bits, flags, true, i) || (none_fits(
            bits,
            flags,
            true,
        ) && first_fit(bits, flags, false, i)),
    }
}

fn first_fitting_type(bits: u32, flags: &Vec<u32>, local: bool) -> (r: Option<u32>)
    ensures
        match r {
            Some(i) => first_fit(bits, flags@, local, i as int),
            None => none_fits(bits, flags@, local),
        },
{
    let dl = vk_memory_device_local();
    let n: u32 = if flags.len() < 32 {
        flags.len() as u32
    } else {
        32
    };
    let mut i: u32 = 0;
    while i < n
        invariant
            dl == 1,
            n as int == if flags@.len() < 32 {
                flags@.len() as int
            } else {
                32
            },
            i <= n,
            forall|j: int| 0 <= j < i ==> !type_fits(bits, flags@, local, j),
        decreases n - i,
    {
        if (bits >> i) & 1u32 == 1u32 && (!local || flags[i as usize] & dl == dl) {
            return Some(i);
        }
        i = i + 1;
    }
    None
}

/// Picks the memory type to import into from the image's requirement bits
/// and the property flags of each of the device's memory types.
pub fn select_memory_type(strategy: MemoryTypeStrategy, bits: u32, flags: &Vec<u32>) -> (r: Result<
    u32,
    ImportError,
>)
    ensures
        match r {
            Ok(i) => selected(strategy, bits, flags@, i as int),
            Err(e) => e == ImportError::NoCompatibleMemoryType && none_fits(bits, flags@, false),
        },
{
    match strategy {
        MemoryTypeStrategy::FirstMatching => match first_fitting_type(bits, flags, false) {
            Some(i) => Ok(i),
            None => Err(ImportError::NoCompatibleMemoryType),
        },
        MemoryTypeStrategy::PreferDeviceLocal => match first_fitting_type(bits, flags, true) {
            Some(i) => Ok(i),
            None => match first_fitting_type(bits, flags, false) {
                Some(i) => Ok(i),
                None => Err(ImportError::NoCompatibleMemoryType),
            },
        },
    }
}

/// The planes live in more than one memory object.
pub open spec fn disjoint(h: HandleView) -> bool {
    h.planes.len() > 1 && exists|i: int| 0 <= i < h.planes.len() && #[trigger] h.planes[i].fd != h.planes[0].fd
}

/// Where the imported memory is bound to the image: the first plane's offset
/// for a disjoint multi-plane layout, zero for a combined one.
pub open spec fn spec_bind_offset(h: HandleView) -> u64 {
    if disjoint(h) {
        h.planes[0].offset as u64
    } else {
        0
    }
}

/// The descriptor that an import duplicates: the last plane's.
pub open spec fn spec_source_fd(h: HandleView) -> i32 {
    h.planes.last().fd
}

pub fn bind_offset(h: &BufferHandle) -> (r: u64)
    requires
        h@.planes.len() >= 1,
    ensures
        r == spec_bind_offset(h@),
{
    let n = h.planes.len();
    let first = h.planes[0];
    let mut i: usize = 1;
    while i < n
        invariant
            n == h@.planes.len(),
            1 <= i <= n,
            first == h@.planes[0],
            forall|j: int| 0 <= j < i ==> #[trigger] h@.planes[j].fd == first.fd,
        decreases n - i,
    {
        if h.planes[i].fd != first.fd {
            return first.offset as u64;
        }
        i = i + 1;
    }
    0
}

pub fn source_fd(h: &BufferHandle) -> (r: i32)
    requires
        h@.planes.len() >= 1,
    ensures
        r == spec_source_fd(h@),
{
    h.planes[h.planes.len() - 1].fd
}

} // verus!
