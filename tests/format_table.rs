use chadland::format::{
    descriptor, descriptor_of_fourcc, format_of_fourcc, format_table, LogicalFormat, TargetFormat,
    TargetUsage,
};

#[test]
fn rgba8_row_has_matching_identifiers() {
    let d = descriptor(LogicalFormat::Rgba8);
    assert_eq!(d.vk_format, 37);
    assert_eq!(d.target_format, TargetFormat::Rgba8Unorm);
    assert_eq!(d.fourcc, 0x3432_4241);
    assert_eq!(d.bits_per_pixel, 32);
    assert_eq!(d.vk_usage, 16);
    assert_eq!(d.target_usage, TargetUsage::RenderAttachment);
}

#[test]
fn table_has_one_row_per_layout() {
    let t = format_table();
    assert_eq!(t.len(), 1);
    assert_eq!(t[0], descriptor(LogicalFormat::Rgba8));
}

#[test]
fn fourcc_lookup() {
    assert_eq!(format_of_fourcc(0x3432_4241), Some(LogicalFormat::Rgba8));
    assert_eq!(format_of_fourcc(0x3432_5258), None);
    assert_eq!(descriptor_of_fourcc(0x3432_4241), Some(descriptor(LogicalFormat::Rgba8)));
    assert_eq!(descriptor_of_fourcc(0), None);
}
