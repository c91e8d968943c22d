//! Device context acquisition.
//!
//! A [`DeviceContext`] owns the adapter, the logical device and the command
//! queue; it is the long-lived handle that shader compilation and dispatch
//! are performed through. Acquisition resolves the two configuration values
//! first and refuses to touch the driver at all when either is unrecognized,
//! so a configuration error never leaves a partial context behind.

use vstd::prelude::*;
use crate::config::{Backend, BackendChoice, ConfigError, PowerChoice};
use crate::config::{opt_chars, parse_backend, parse_power_preference, spec_parse_backend, spec_parse_power};

verus! {

#[verifier::external_type_specification]
#[verifier::external_body]
pub struct ExBackends(wgpu::Backends);

#[verifier::external_type_specification]
#[verifier::external_body]
pub struct ExInstance(wgpu::Instance);

#[verifier::external_type_specification]
#[verifier::external_body]
pub struct ExAdapter(wgpu::Adapter);

#[verifier::external_type_specification]
#[verifier::external_body]
pub struct ExDevice(wgpu::Device);

#[verifier::external_type_specification]
#[verifier::external_body]
pub struct ExQueue(wgpu::Queue);

/// Why no device context could be produced.
#[derive(Clone, Copy, Debug, PartialEq, Eq, Structural)]
pub enum AcquireError {
    /// A configuration value was present but unrecognized; nothing was
    /// requested from any driver.
    Config(ConfigError),
    /// No adapter matched the resolved backend set and power preference.
    AdapterUnavailable,
    /// The adapter refused the device request (resource exhaustion or
    /// driver rejection).
    DeviceRequestFailed,
}

/// The adapter, logical device and command queue that one acquisition
/// produced. All buffers, programs and pipelines made through it are only
/// valid while it is alive.
pub struct DeviceContext {
    pub adapter: wgpu::Adapter,
    pub device: wgpu::Device,
    pub queue: wgpu::Queue,
}

/// Relies on the `wgpu::Backends` flag constants: turns the resolved choice
/// into the backend set handed to instance creation. `Primary` selects
/// wgpu's platform-default primary set.
#[verifier::external_body]
fn backends_of(choice: &BackendChoice) -> wgpu::Backends {
    match choice {
        BackendChoice::Primary => wgpu::Backends::PRIMARY,
        BackendChoice::Specific(Backend::Noop) => wgpu::Backends::NOOP,
        BackendChoice::Specific(Backend::Vulkan) => wgpu::Backends::VULKAN,
        BackendChoice::Specific(Backend::Metal) => wgpu::Backends::METAL,
        BackendChoice::Specific(Backend::Dx12) => wgpu::Backends::DX12,
        BackendChoice::Specific(Backend::Gl) => wgpu::Backends::GL,
        BackendChoice::Specific(Backend::BrowserWebgpu) => wgpu::Backends::BROWSER_WEBGPU,
    }
}

/// Relies on `wgpu::Instance::new`: creates the backend connection instance
/// for the given backend set. The stub testing backend is only offered by
/// wgpu when explicitly enabled, which `enable_noop` does.
#[verifier::external_body]
fn new_instance(backends: wgpu::Backends, enable_noop: bool) -> wgpu::Instance {
    let noop = if enable_noop {
        wgpu::NoopBackendOptions::enabled()
    } else {
        wgpu::NoopBackendOptions::default()
    };
    let backend_options = wgpu::BackendOptions { noop, ..wgpu::BackendOptions::default() };
    wgpu::Instance::new(wgpu::InstanceDescriptor {
        backends,
        backend_options,
        ..wgpu::InstanceDescriptor::new_without_display_handle()
    })
}

/// Relies on `wgpu::Instance::request_adapter` (driven to completion by
/// `pollster::block_on`): yields an adapter compatible with no presentation
/// surface, matching the power preference, or nothing when none matches.
#[verifier::external_body]
fn request_adapter_blocking(instance: &wgpu::Instance, power: &PowerChoice) -> Option<
    wgpu::Adapter,
> {
    let power_preference = match power {
        PowerChoice::Unspecified => wgpu::PowerPreference::None,
        PowerChoice::LowPower => wgpu::PowerPreference::LowPower,
        PowerChoice::HighPerformance => wgpu::PowerPreference::HighPerformance,
    };
    let options = wgpu::RequestAdapterOptions {
        power_preference,
        ..wgpu::RequestAdapterOptions::default()
    };
    pollster::block_on(instance.request_adapter(&options)).ok()
}

/// Relies on `wgpu::Adapter::request_device` (driven to completion by
/// `pollster::block_on`): yields the logical device and its queue, requested
/// with default feature and limit requirements, or nothing when the driver
/// refuses.
#[verifier::external_body]
fn request_device_blocking(adapter: &wgpu::Adapter) -> Option<(wgpu::Device, wgpu::Queue)> {
    pollster::block_on(adapter.request_device(&wgpu::DeviceDescriptor::default())).ok()
}

/// The backend an adapter runs on: a fixed property of the adapter value,
/// reported by `wgpu::Adapter::get_info`.
pub uninterp spec fn backend_of(adapter: wgpu::Adapter) -> Backend;

/// Relies on `wgpu::Adapter::get_info`: reports which backend the adapter
/// runs on, a property fixed when the adapter was requested.
#[verifier::external_body]
pub(crate) fn adapter_backend(adapter: &wgpu::Adapter) -> (r: Backend)
    ensures
        r == backend_of(*adapter),
{
    match adapter.get_info().backend {
        wgpu::Backend::Noop => Backend::Noop,
        wgpu::Backend::Vulkan => Backend::Vulkan,
        wgpu::Backend::Metal => Backend::Metal,
        wgpu::Backend::Dx12 => Backend::Dx12,
        wgpu::Backend::Gl => Backend::Gl,
        wgpu::Backend::BrowserWebGpu => Backend::BrowserWebgpu,
    }
}

/// Establishes the live driver connection for an already resolved
/// configuration: instance, adapter, device and queue, in that order.
/// Whether an adapter or device can actually be had depends on the machine,
/// so only the error taxonomy is pinned.
fn acquire_resolved(choice: BackendChoice, pref: PowerChoice) -> (r: Result<
    DeviceContext,
    AcquireError,
>)
    ensures
        r is Err ==> r->Err_0 is AdapterUnavailable || r->Err_0 is DeviceRequestFailed,
{
    let enable_noop = match choice {
        BackendChoice::Specific(Backend::Noop) => true,
        _ => false,
    };
    let backends = backends_of(&choice);
    let instance = new_instance(backends, enable_noop);
    let adapter = match request_adapter_blocking(&instance, &pref) {
        Some(a) => a,
        None => {
            return Err(AcquireError::AdapterUnavailable);
        },
    };
    match request_device_blocking(&adapter) {
        Some((device, queue)) => Ok(DeviceContext { adapter, device, queue }),
        None => Err(AcquireError::DeviceRequestFailed),
    }
}

/// Resolves the configuration and establishes the live driver connection.
///
/// An unrecognized configuration value is refused before any adapter request
/// is attempted, so no partial context is ever left live. Whether an adapter
/// or device can actually be had depends on the machine, so for a valid
/// configuration only the error taxonomy is pinned: the result is the
/// context, `AdapterUnavailable`, or `DeviceRequestFailed`.
pub fn acquire_context(backend: Option<&str>, power: Option<&str>) -> (r: Result<
    DeviceContext,
    AcquireError,
>)
    ensures
        spec_parse_backend(opt_chars(backend)) is Err ==> r == Err::<DeviceContext, AcquireError>(
            AcquireError::Config(ConfigError::UnknownBackend),
        ),
        spec_parse_backend(opt_chars(backend)) is Ok && spec_parse_power(opt_chars(power)) is Err
            ==> r == Err::<DeviceContext, AcquireError>(
            AcquireError::Config(ConfigError::UnknownPowerPreference),
        ),
        r is Err && r->Err_0 is Config ==> spec_parse_backend(opt_chars(backend)) is Err
            || spec_parse_power(opt_chars(power)) is Err,
        r is Ok ==> spec_parse_backend(opt_chars(backend)) is Ok && spec_parse_power(
            opt_chars(power),
        ) is Ok,
{
    let choice = match parse_backend(backend) {
        Ok(c) => c,
        Err(e) => {
            return Err(AcquireError::Config(e));
        },
    };
    let pref = match parse_power_preference(power) {
        Ok(p) => p,
        Err(e) => {
            return Err(AcquireError::Config(e));
        },
    };
    acquire_resolved(choice, pref)
}

/// Acquires a context on wgpu's stub testing backend, on which buffers,
/// copies and mapping behave normally while passes execute nothing.
///
/// This is a testing seam: no configuration value selects the stub backend,
/// so a deployment can never reach it by mistake; tests and development
/// harnesses call this constructor instead.
pub fn acquire_test_context() -> (r: Result<DeviceContext, AcquireError>)
    ensures
        r is Err ==> r->Err_0 is AdapterUnavailable || r->Err_0 is DeviceRequestFailed,
{
    acquire_resolved(BackendChoice::Specific(Backend::Noop), PowerChoice::Unspecified)
}

} // verus!
