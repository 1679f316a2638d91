//! The table that ties together the three identifiers of each supported
//! pixel layout: the native driver format, the target graphics API format
//! and the cross-process interchange code.

use vstd::prelude::*;

verus! {

/// Relies on `ash::vk::Format::R8G8B8A8_UNORM`, whose raw value is 37.
#[verifier::external_body]
fn vk_format_r8g8b8a8_unorm() -> (r: i32)
    ensures
        r == 37,
{
    ash::vk::Format::R8G8B8A8_UNORM.as_raw()
}

/// Relies on `ash::vk::ImageUsageFlags::COLOR_ATTACHMENT`, whose raw bits are 0b1_0000.
#[verifier::external_body]
fn vk_usage_color_attachment() -> (r: u32)
    ensures
        r == 16,
{
    ash::vk::ImageUsageFlags::COLOR_ATTACHMENT.as_raw()
}

/// Relies on `drm_fourcc::DrmFourcc::Abgr8888`, whose code is `DRM_FOURCC_ABGR8888` (875708993).
#[verifier::external_body]
fn drm_fourcc_abgr8888() -> (r: u32)
    ensures
        r == 875708993,
{
    drm_fourcc::DrmFourcc::Abgr8888 as u32
}

/// A pixel layout that the bridge can share between the two graphics stacks.
#[derive(Clone, Copy, Debug, PartialEq, Eq, Structural)]
pub enum LogicalFormat {
    /// 32-bit RGBA, 8 bits per channel, normalised.
    Rgba8,
}

/// Texture format of the target graphics API (the UI renderer's).
#[derive(Clone, Copy, Debug, PartialEq, Eq, Structural)]
pub enum TargetFormat {
    Rgba8Unorm,
}

/// Texture usage of the target graphics API.
#[derive(Clone, Copy, Debug, PartialEq, Eq, Structural)]
pub enum TargetUsage {
    RenderAttachment,
}

/// One row of the format table.
#[derive(Clone, Copy, Debug, PartialEq, Eq, Structural)]
pub struct FormatDescriptor {
    pub format: LogicalFormat,
    /// Raw native driver format (`VkFormat`).
    pub vk_format: i32,
    /// Format of the same pixels in the target graphics API.
    pub target_format: TargetFormat,
    /// Cross-process interchange code (DRM fourcc).
    pub fourcc: u32,
    pub bits_per_pixel: u32,
    /// Raw native image usage bits (`VkImageUsageFlags`).
    pub vk_usage: u32,
    pub target_usage: TargetUsage,
}

/// Raw `VkFormat` of `VK_FORMAT_R8G8B8A8_UNORM`.
pub open spec fn vk_r8g8b8a8_unorm() -> i32 {
    37
}

/// DRM fourcc code of `ABGR8888` ("AB24"): bytes R, G, B, A in memory order.
pub open spec fn fourcc_abgr8888() -> u32 {
    875708993
}

/// The row of the table for a logical format.
pub open spec fn spec_descriptor(f: LogicalFormat) -> FormatDescriptor {
    match f {
        LogicalFormat::Rgba8 => FormatDescriptor {
            format: LogicalFormat::Rgba8,
            vk_format: vk_r8g8b8a8_unorm(),
            target_format: TargetFormat::Rgba8Unorm,
            fourcc: fourcc_abgr8888(),
            bits_per_pixel: 32,
            vk_usage: 16,
            target_usage: TargetUsage::RenderAttachment,
        },
    }
}

/// Every row of the table, in order.
pub open spec fn spec_table() -> Seq<FormatDescriptor> {
    seq![spec_descriptor(LogicalFormat::Rgba8)]
}

/// The logical format whose interchange code is `code`, if the table has one.
pub open spec fn spec_format_of_fourcc(code: u32) -> Option<LogicalFormat> {
    if code == fourcc_abgr8888() {
        Some(LogicalFormat::Rgba8)
    } else {
        None
    }
}

/// Bytes that one pixel of a row occupies.
pub open spec fn bytes_per_pixel(d: FormatDescriptor) -> nat {
    (d.bits_per_pixel / 8) as nat
}

/// The table's row for `format`.
pub fn descriptor(format: LogicalFormat) -> (d: FormatDescriptor)
    ensures
        d == spec_descriptor(format),
{
    match format {
        LogicalFormat::Rgba8 => FormatDescriptor {
            format: LogicalFormat::Rgba8,
            vk_format: vk_format_r8g8b8a8_unorm(),
            target_format: TargetFormat::Rgba8Unorm,
            fourcc: drm_fourcc_abgr8888(),
            bits_per_pixel: 32,
            vk_usage: vk_usage_color_attachment(),
            target_usage: TargetUsage::RenderAttachment,
        },
    }
}

/// Every row of the table.
pub fn format_table() -> (t: Vec<FormatDescriptor>)
    ensures
        t@ == spec_table(),
{
    let mut t: Vec<FormatDescriptor> = Vec::new();
    t.push(descriptor(LogicalFormat::Rgba8));
    proof {
        assert(t@ =~= spec_table());
    }
    t
}

/// The logical format whose interchange code is `code`.
pub fn format_of_fourcc(code: u32) -> (r: Option<LogicalFormat>)
    ensures
        r == spec_format_of_fourcc(code),
{
    if code == drm_fourcc_abgr8888() {
        Some(LogicalFormat::Rgba8)
    } else {
        None
    }
}

/// The row whose interchange code is `code`.
pub fn descriptor_of_fourcc(code: u32) -> (r: Option<FormatDescriptor>)
    ensures
        r == (match spec_format_of_fourcc(code) {
            Some(f) => Some(spec_descriptor(f)),
            None => None,
        }),
{
    match format_of_fourcc(code) {
        Some(f) => Some(descriptor(f)),
        None => None,
    }
}

/// The table holds exactly one row per logical format, each row is the one
/// that its format keys, and no two rows share an identifier of any of the
/// three spaces; a row's interchange code leads back to its own format.
pub proof fn lemma_one_row_per_layout()
    ensures
        forall|f: LogicalFormat| spec_table().contains(#[trigger] spec_descriptor(f)),
        forall|i: int|
            0 <= i < spec_table().len() ==> #[trigger] spec_table()[i] == spec_descriptor(
                spec_table()[i].format,
            ),
        forall|i: int, j: int|
            0 <= i < spec_table().len() && 0 <= j < spec_table().len() && i != j ==> {
                &&& #[trigger] spec_table()[i].format != #[trigger] spec_table()[j].format
                &&& spec_table()[i].vk_format != spec_table()[j].vk_format
                &&& spec_table()[i].target_format != spec_table()[j].target_format
                &&& spec_table()[i].fourcc != spec_table()[j].fourcc
            },
        forall|f: LogicalFormat|
            spec_format_of_fourcc(#[trigger] spec_descriptor(f).fourcc) == Some(f),
{
    assert forall|f: LogicalFormat| spec_table().contains(#[trigger] spec_descriptor(f)) by {
        assert(spec_table()[0] == spec_descriptor(f));
    }
}

} // verus!
