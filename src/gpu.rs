//! The UI renderer's graphics objects, carried as they are.

use vstd::prelude::*;

verus! {

#[verifier::external_type_specification]
#[verifier::external_body]
pub struct ExInstance(iced_wgpu::wgpu::Instance);

#[verifier::external_type_specification]
#[verifier::external_body]
pub struct ExAdapter(iced_wgpu::wgpu::Adapter);

#[verifier::external_type_specification]
#[verifier::external_body]
pub struct ExDevice(iced_wgpu::wgpu::Device);

#[verifier::external_type_specification]
#[verifier::external_body]
pub struct ExQueue(iced_wgpu::wgpu::Queue);

/// The instance, adapter, device and queue that the UI renderer draws with.
pub struct Objects {
    pub instance: iced_wgpu::wgpu::Instance,
    pub adapter: iced_wgpu::wgpu::Adapter,
    pub device: iced_wgpu::wgpu::Device,
    pub queue: iced_wgpu::wgpu::Queue,
}

} // verus!
