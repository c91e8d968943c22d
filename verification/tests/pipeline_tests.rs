//! End-to-end tests of the dispatch-and-readback pipeline on wgpu's stub
//! testing backend: buffers are created, written, mapped and copied for
//! real, while compute passes execute nothing — so every dispatch behaves
//! like one whose kernel makes no writes, and the copied-back bytes must
//! equal the input. Scenarios in which a kernel transforms the data (a
//! ChaCha quarter round, a full block) need a device that executes compute
//! and cannot run here; the round trip below reuses such a scenario's input
//! block with the kernel's effect absent.

use gpu_dispatch::buffers::BufferError;
use gpu_dispatch::config::ConfigError;
use gpu_dispatch::context::{acquire_context, acquire_test_context, AcquireError, DeviceContext};
use gpu_dispatch::dispatch::{dispatch, DispatchError};
use gpu_dispatch::shader::{compile, CompiledProgram};
use gpu_dispatch::words::le_bytes_from_words;

fn noop_context() -> DeviceContext {
    acquire_test_context().expect("the stub testing backend is always available")
}

fn copy_kernel(ctx: &DeviceContext) -> CompiledProgram {
    let source = "
        @group(0) @binding(0) var<storage, read_write> data_in: array<u32>;
        @group(0) @binding(1) var<storage, read_write> data_out: array<u32>;

        @compute @workgroup_size(1)
        fn main(@builtin(global_invocation_id) id: vec3<u32>) {
            data_out[id.x] = data_in[id.x];
        }
    ";
    compile(ctx, source).expect("a well-formed kernel compiles")
}

#[test]
fn unknown_backend_aborts_before_any_adapter_request() {
    let r = acquire_context(Some("quantum"), None);
    assert_eq!(r.err(), Some(AcquireError::Config(ConfigError::UnknownBackend)));
}

#[test]
fn unknown_power_preference_aborts_before_any_adapter_request() {
    let r = acquire_context(Some("vulkan"), Some("medium"));
    assert_eq!(
        r.err(),
        Some(AcquireError::Config(ConfigError::UnknownPowerPreference))
    );
}

#[test]
fn backend_string_for_the_testing_backend_is_refused() {
    let r = acquire_context(Some("noop"), None);
    assert_eq!(r.err(), Some(AcquireError::Config(ConfigError::UnknownBackend)));
}

#[test]
fn noop_context_is_acquired() {
    let ctx = noop_context();
    let _ = ctx;
}

#[test]
fn malformed_kernel_source_is_a_compilation_error() {
    let ctx = noop_context();
    assert!(compile(&ctx, "not a kernel at all").is_err());
}

#[test]
fn dispatch_returns_a_buffer_of_the_input_length() {
    let ctx = noop_context();
    let program = copy_kernel(&ctx);
    let input: Vec<u8> = (0u8..64).collect();
    let buffer = dispatch(&ctx, &program, &input, (1, 1, 1)).expect("dispatch succeeds");
    assert_eq!(buffer.len(), 64);
    let mut buffer = buffer;
    buffer.release().expect("first release succeeds");
}

#[test]
fn bytes_round_trip_through_upload_copy_and_map() {
    let ctx = noop_context();
    let program = copy_kernel(&ctx);
    let state: Vec<u32> = vec![
        0x879531e0, 0xc5ecf37d, 0x516461b1, 0xc9a62f8a, 0x44c20ef3, 0x3390af7f, 0xd9fc690b,
        0x2a5f714c, 0x53372767, 0xb00a5631, 0x974c541a, 0x359e9963, 0x5c971061, 0x3d631689,
        0x2098d9d6, 0x91dbd320,
    ];
    let input = le_bytes_from_words(&state);
    let mut buffer = dispatch(&ctx, &program, &input, (1, 1, 1)).expect("dispatch succeeds");
    let bytes = buffer.read().expect("a mapped buffer is readable");
    assert_eq!(bytes, input);
    buffer.release().expect("release succeeds");
}

#[test]
fn zero_workgroups_execute_without_error_and_leave_bytes_unchanged() {
    let ctx = noop_context();
    let program = copy_kernel(&ctx);
    let input: Vec<u8> = vec![7, 7, 7, 7, 9, 9, 9, 9];
    let mut buffer = dispatch(&ctx, &program, &input, (0, 3, 5)).expect("dispatch succeeds");
    let bytes = buffer.read().expect("a mapped buffer is readable");
    assert_eq!(bytes, input);
    buffer.release().expect("release succeeds");
}

#[test]
fn empty_input_is_refused() {
    let ctx = noop_context();
    let program = copy_kernel(&ctx);
    let r = dispatch(&ctx, &program, &[], (1, 1, 1));
    assert_eq!(r.err(), Some(DispatchError::EmptyInput));
}

#[test]
fn release_twice_fails_with_not_mapped() {
    let ctx = noop_context();
    let program = copy_kernel(&ctx);
    let input: Vec<u8> = vec![1, 2, 3, 4];
    let mut buffer = dispatch(&ctx, &program, &input, (1, 1, 1)).expect("dispatch succeeds");
    assert_eq!(buffer.release(), Ok(()));
    assert_eq!(buffer.release(), Err(BufferError::NotMapped));
}

#[test]
fn read_after_release_fails_with_not_mapped() {
    let ctx = noop_context();
    let program = copy_kernel(&ctx);
    let input: Vec<u8> = vec![1, 2, 3, 4];
    let mut buffer = dispatch(&ctx, &program, &input, (1, 1, 1)).expect("dispatch succeeds");
    assert_eq!(buffer.read().expect("readable while mapped"), input);
    assert_eq!(buffer.release(), Ok(()));
    assert_eq!(buffer.read(), Err(BufferError::NotMapped));
}

#[test]
fn reads_repeat_while_mapped() {
    let ctx = noop_context();
    let program = copy_kernel(&ctx);
    let input: Vec<u8> = vec![5, 6, 7, 8];
    let mut buffer = dispatch(&ctx, &program, &input, (1, 1, 1)).expect("dispatch succeeds");
    assert_eq!(buffer.read().expect("first read"), input);
    assert_eq!(buffer.read().expect("second read"), input);
    buffer.release().expect("release succeeds");
}

#[test]
fn maximal_workgroup_counts_are_accepted() {
    let ctx = noop_context();
    let program = copy_kernel(&ctx);
    let input: Vec<u8> = vec![0; 16];
    let mut buffer =
        dispatch(&ctx, &program, &input, (65535, 65535, 65535)).expect("dispatch succeeds");
    assert_eq!(buffer.read().expect("readable"), input);
    buffer.release().expect("release succeeds");
}

#[test]
fn kernel_without_main_entry_point_is_a_binding_mismatch() {
    let ctx = noop_context();
    let source = "
        @group(0) @binding(0) var<storage, read_write> data_in: array<u32>;
        @group(0) @binding(1) var<storage, read_write> data_out: array<u32>;

        @compute @workgroup_size(1)
        fn start(@builtin(global_invocation_id) id: vec3<u32>) {
            data_out[id.x] = data_in[id.x];
        }
    ";
    let program = compile(&ctx, source).expect("well-formed source compiles");
    let input: Vec<u8> = vec![1, 2, 3, 4];
    let r = dispatch(&ctx, &program, &input, (1, 1, 1));
    assert_eq!(r.err(), Some(DispatchError::BindingArityMismatch));
}

#[test]
fn kernel_with_one_binding_is_a_binding_mismatch() {
    let ctx = noop_context();
    let source = "
        @group(0) @binding(0) var<storage, read_write> data: array<u32>;

        @compute @workgroup_size(1)
        fn main(@builtin(global_invocation_id) id: vec3<u32>) {
            data[id.x] = data[id.x];
        }
    ";
    let program = compile(&ctx, source).expect("well-formed source compiles");
    let input: Vec<u8> = vec![1, 2, 3, 4];
    let r = dispatch(&ctx, &program, &input, (1, 1, 1));
    assert_eq!(r.err(), Some(DispatchError::BindingArityMismatch));
}
