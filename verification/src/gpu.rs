//! The wgpu items that the library's own types and functions name.
use vstd::prelude::*;

verus! {

/// Which graphics backends wgpu may use; handed through to wgpu untouched.
#[verifier::external_type_specification]
#[verifier::external_body]
pub struct ExBackends(wgpu::Backends);

/// Adapter power preference; handed through to wgpu untouched.
#[verifier::external_type_specification]
#[verifier::external_body]
pub struct ExPowerPreference(wgpu::PowerPreference);

/// Memory allocation hints; handed through to wgpu untouched.
#[verifier::external_type_specification]
#[verifier::external_body]
pub struct ExMemoryHints(wgpu::MemoryHints);

/// Presentation mode of the surface; handed through to wgpu untouched.
#[verifier::external_type_specification]
#[verifier::external_body]
pub struct ExPresentMode(wgpu::PresentMode);

/// The logical GPU device.
#[verifier::external_type_specification]
#[verifier::external_body]
pub struct ExDevice(wgpu::Device);

/// The GPU command queue.
#[verifier::external_type_specification]
#[verifier::external_body]
pub struct ExQueue(wgpu::Queue);

/// A render pass being recorded.
#[verifier::external_type_specification]
#[verifier::external_body]
pub struct ExRenderPass<'a>(wgpu::RenderPass<'a>);

/// Calls `Backends::default()`. Nothing is stated of the result: the value
/// is handed to wgpu untouched.
#[verifier::external_body]
pub(crate) fn default_backends() -> wgpu::Backends {
    wgpu::Backends::default()
}

/// Calls `PowerPreference::default()`. Nothing is stated of the result: the
/// value is handed to wgpu untouched.
#[verifier::external_body]
pub(crate) fn default_power_preference() -> wgpu::PowerPreference {
    wgpu::PowerPreference::default()
}

/// Calls `MemoryHints::default()`. Nothing is stated of the result: the
/// value is handed to wgpu untouched.
#[verifier::external_body]
pub(crate) fn default_memory_hints() -> wgpu::MemoryHints {
    wgpu::MemoryHints::default()
}

/// Calls `PresentMode::default()`. Nothing is stated of the result: the
/// value is handed to wgpu untouched.
#[verifier::external_body]
pub(crate) fn default_present_mode() -> wgpu::PresentMode {
    wgpu::PresentMode::default()
}

/// Whether a set of texture format feature bits allows four samples per
/// pixel: the `MULTISAMPLE_X4` flag of wgpu's `TextureFormatFeatureFlags`
/// is the bit of value 4.
pub open spec fn allows_multisample_x4(feature_bits: u32) -> bool {
    feature_bits & 4u32 == 4u32
}

/// Calls `TextureFormatFeatureFlags::contains` with `MULTISAMPLE_X4` on the
/// flags whose bits are given. bitflags defines `contains` as "every bit of
/// the argument is set in `self`", and wgpu-types defines `MULTISAMPLE_X4`
/// as `1 << 2`; the contract states exactly that.
#[verifier::external_body]
pub(crate) fn format_allows_multisample_x4(feature_bits: u32) -> (allowed: bool)
    ensures
        allowed == allows_multisample_x4(feature_bits),
{
    wgpu::TextureFormatFeatureFlags::from_bits_retain(feature_bits).contains(
        wgpu::TextureFormatFeatureFlags::MULTISAMPLE_X4,
    )
}

} // verus!
