use chadland::handle::{BufferHandle, Plane};
use chadland::import::{
    bind_offset, plan_image, select_memory_type, source_fd, ImageTiling, ImportError,
    MemoryTypeStrategy, SubresourceLayout,
};

const ABGR8888: u32 = 0x3432_4241;
const LINEAR: u64 = 0;
const INVALID: u64 = 0x00ff_ffff_ffff_ffff;

fn plane(fd: i32, offset: u32, stride: u32) -> Plane {
    Plane { fd, offset, stride }
}

#[test]
fn single_linear_plane_gets_implicit_layout() {
    let h = BufferHandle::new(500, 500, ABGR8888, LINEAR, vec![plane(7, 0, 2000)]);
    let d = plan_image(&h).unwrap();
    assert_eq!((d.width, d.height, d.depth), (500, 500, 1));
    assert_eq!(d.vk_format, 37);
    assert_eq!((d.mip_levels, d.array_layers, d.samples), (1, 1, 1));
    assert_eq!(d.external_handle_types, 512);
    assert_eq!(d.vk_usage, 16);
    assert_eq!(d.tiling, ImageTiling::Linear);
    assert!(d.plane_layouts.is_empty());
}

#[test]
fn several_planes_get_explicit_layout() {
    let h = BufferHandle::new(
        64,
        32,
        ABGR8888,
        LINEAR,
        vec![plane(3, 0, 256), plane(3, 8192, 512)],
    );
    let d = plan_image(&h).unwrap();
    assert_eq!(d.tiling, ImageTiling::DrmFormatModifier { modifier: LINEAR });
    assert_eq!(
        d.plane_layouts,
        vec![
            SubresourceLayout { offset: 0, row_pitch: 256 },
            SubresourceLayout { offset: 8192, row_pitch: 512 },
        ]
    );
}

#[test]
fn tiled_modifier_gets_explicit_layout() {
    let modifier = 0x0100_0000_0000_0001;
    let h = BufferHandle::new(16, 16, ABGR8888, modifier, vec![plane(4, 128, 64)]);
    let d = plan_image(&h).unwrap();
    assert_eq!(d.tiling, ImageTiling::DrmFormatModifier { modifier });
    assert_eq!(d.plane_layouts, vec![SubresourceLayout { offset: 128, row_pitch: 64 }]);
}

#[test]
fn unsupported_layouts_are_rejected() {
    let bad = [
        BufferHandle::new(16, 16, ABGR8888, LINEAR, vec![]),
        BufferHandle::new(16, 16, ABGR8888, LINEAR, vec![plane(1, 0, 64); 5]),
        BufferHandle::new(0, 16, ABGR8888, LINEAR, vec![plane(1, 0, 64)]),
        BufferHandle::new(16, 0, ABGR8888, LINEAR, vec![plane(1, 0, 64)]),
        BufferHandle::new(16, 16, 0x3432_5258, LINEAR, vec![plane(1, 0, 64)]),
        BufferHandle::new(16, 16, ABGR8888, INVALID, vec![plane(1, 0, 64)]),
        BufferHandle::new(16, 16, ABGR8888, LINEAR, vec![plane(1, 0, 63)]),
    ];
    for h in bad.iter() {
        assert_eq!(plan_image(h).unwrap_err(), ImportError::InvalidPlaneLayout);
    }
}

#[test]
fn four_planes_are_accepted() {
    let h = BufferHandle::new(16, 16, ABGR8888, LINEAR, vec![plane(1, 0, 64); 4]);
    assert_eq!(plan_image(&h).unwrap().plane_layouts.len(), 4);
}

#[test]
fn first_matching_memory_type() {
    let flags = vec![0, 0, 1, 6];
    assert_eq!(select_memory_type(MemoryTypeStrategy::FirstMatching, 0b1010, &flags), Ok(1));
    assert_eq!(select_memory_type(MemoryTypeStrategy::FirstMatching, 0b0001, &flags), Ok(0));
    assert_eq!(
        select_memory_type(MemoryTypeStrategy::FirstMatching, 0, &flags),
        Err(ImportError::NoCompatibleMemoryType)
    );
    // bits beyond the device's memory types do not count
    assert_eq!(
        select_memory_type(MemoryTypeStrategy::FirstMatching, 0b1_0000, &flags),
        Err(ImportError::NoCompatibleMemoryType)
    );
}

#[test]
fn device_local_memory_type_is_preferred() {
    let flags = vec![6, 0, 1, 7];
    assert_eq!(select_memory_type(MemoryTypeStrategy::PreferDeviceLocal, 0b1111, &flags), Ok(2));
    assert_eq!(select_memory_type(MemoryTypeStrategy::PreferDeviceLocal, 0b1011, &flags), Ok(3));
    // no admitted type is device-local: the first admitted one
    assert_eq!(select_memory_type(MemoryTypeStrategy::PreferDeviceLocal, 0b0011, &flags), Ok(0));
    assert_eq!(
        select_memory_type(MemoryTypeStrategy::PreferDeviceLocal, 0, &flags),
        Err(ImportError::NoCompatibleMemoryType)
    );
}

#[test]
fn bind_offset_of_disjoint_and_combined_layouts() {
    let combined = BufferHandle::new(8, 8, ABGR8888, LINEAR, vec![plane(5, 64, 32), plane(5, 512, 32)]);
    assert_eq!(bind_offset(&combined), 0);
    let disjoint = BufferHandle::new(8, 8, ABGR8888, LINEAR, vec![plane(5, 64, 32), plane(6, 512, 32)]);
    assert_eq!(bind_offset(&disjoint), 64);
    let single = BufferHandle::new(8, 8, ABGR8888, LINEAR, vec![plane(5, 64, 32)]);
    assert_eq!(bind_offset(&single), 0);
}

#[test]
fn last_plane_descriptor_is_duplicated() {
    let h = BufferHandle::new(8, 8, ABGR8888, LINEAR, vec![plane(5, 0, 32), plane(9, 256, 32)]);
    assert_eq!(source_fd(&h), 9);
}
