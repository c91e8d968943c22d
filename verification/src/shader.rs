//! Shader compilation.
//!
//! Kernel source text is compiled into an executable program object bound to
//! the device context that compiled it. Shader-level validation is always
//! enabled; on the backends whose native shading language differs from the
//! kernel's source language an additional translation-layer flag is
//! recorded. A validation failure (malformed source) is propagated as a
//! typed error, never masked: a program is produced exactly when the
//! driver's validator accepts the source.

use vstd::prelude::*;
use crate::config::Backend;
use crate::context::{DeviceContext, adapter_backend, backend_of};

verus! {

#[verifier::external_type_specification]
#[verifier::external_body]
pub struct ExShaderModule(wgpu::ShaderModule);

/// The driver's validator rejected the kernel source.
#[derive(Clone, Copy, Debug, PartialEq, Eq, Structural)]
pub struct ShaderCompilationError;

/// The compilation flags applied to a program: validation, and for a subset
/// of backends an experimental translation layer.
#[derive(Clone, Copy, Debug, PartialEq, Eq, Structural)]
pub struct ShaderFlags {
    pub validation: bool,
    pub experimental_translation: bool,
}

/// The flags owed for a backend: validation always; the translation-layer
/// flag exactly on the backends whose native shading language differs from
/// the kernel source language.
pub open spec fn spec_shader_flags(backend: Backend) -> ShaderFlags {
    ShaderFlags {
        validation: true,
        experimental_translation: backend is Vulkan || backend is Metal || backend is Gl,
    }
}

/// The compilation flags for the given backend.
pub fn shader_flags(backend: Backend) -> (r: ShaderFlags)
    ensures
        r == spec_shader_flags(backend),
{
    let experimental_translation = match backend {
        Backend::Vulkan | Backend::Metal | Backend::Gl => true,
        _ => false,
    };
    ShaderFlags { validation: true, experimental_translation }
}

/// A compiled kernel, immutable after creation and only valid with the
/// device context that compiled it. `backend` is the backend the compiling
/// adapter reported; `flags` records the compilation flags that were owed
/// for that backend.
pub struct CompiledProgram {
    pub module: wgpu::ShaderModule,
    pub backend: Backend,
    pub flags: ShaderFlags,
}

impl CompiledProgram {
    /// The flags recorded on a program are exactly those owed for its
    /// backend.
    pub open spec fn wf(&self) -> bool {
        self.flags == spec_shader_flags(self.backend)
    }
}

/// Whether the driver's validator accepts this kernel source on this device:
/// deterministic in the device and the source text alone.
pub uninterp spec fn module_validates(device: wgpu::Device, source: Seq<char>) -> bool;

/// Relies on `wgpu::Device::push_error_scope` (validation filter),
/// `wgpu::Device::create_shader_module` and `wgpu::ErrorScopeGuard::pop`
/// (driven by `pollster::block_on`) as one operation: compiles the source,
/// in the portable shading language, with the validator's verdict captured
/// by the scope instead of reaching the fatal uncaptured-error handler.
/// Error scopes are per-thread, so the captured verdict is this call's own;
/// it yields a module exactly when the validator accepts the source.
#[verifier::external_body]
fn create_shader_module_checked(device: &wgpu::Device, source: &str) -> (r: Option<
    wgpu::ShaderModule,
>)
    ensures
        r is Some <==> module_validates(*device, source@),
{
    let scope = device.push_error_scope(wgpu::ErrorFilter::Validation);
    let module = device.create_shader_module(wgpu::ShaderModuleDescriptor {
        label: None,
        source: wgpu::ShaderSource::Wgsl(std::borrow::Cow::Borrowed(source)),
    });
    match pollster::block_on(scope.pop()) {
        None => Some(module),
        Some(_) => None,
    }
}

/// Compiles kernel source text into a program bound to this context.
///
/// Validation is always enabled; the translation-layer flag is recorded for
/// the backends that need it. A program is returned exactly when the
/// driver's validator accepts the source — a rejected source is the
/// compilation error, never a usable program — and the program records the
/// backend the compiling adapter reported, with exactly the flags owed for
/// it.
pub fn compile(ctx: &DeviceContext, source: &str) -> (r: Result<
    CompiledProgram,
    ShaderCompilationError,
>)
    ensures
        r is Ok <==> module_validates(ctx.device, source@),
        r is Ok ==> r->Ok_0.wf() && r->Ok_0.backend == backend_of(ctx.adapter),
        r is Err ==> r->Err_0 == ShaderCompilationError,
{
    let backend = adapter_backend(&ctx.adapter);
    let flags = shader_flags(backend);
    match create_shader_module_checked(&ctx.device, source) {
        Some(module) => Ok(CompiledProgram { module, backend, flags }),
        None => Err(ShaderCompilationError),
    }
}

} // verus!
