//! The dispatch-and-readback pipeline.
//!
//! One dispatch allocates the staging/storage buffer pair, builds the
//! compute pipeline and its binding group, records the compute pass and the
//! device-to-host copy into a single command sequence, submits it, and
//! drives the asynchronous mapping protocol: request the read mapping, force
//! the device to make progress (completion callbacks are only delivered when
//! polled), then collect the mapping's outcome. Only after the mapping has
//! resolved is the staging buffer handed to the caller as a
//! [`ReadableBuffer`].

use vstd::prelude::*;
use wgpu::util::DeviceExt;
use crate::buffers::{ReadableBuffer, buffer_size};
use crate::context::DeviceContext;
use crate::shader::CompiledProgram;

verus! {

#[verifier::external_type_specification]
#[verifier::external_body]
pub struct ExComputePipeline(wgpu::ComputePipeline);

#[verifier::external_type_specification]
#[verifier::external_body]
pub struct ExBindGroup(wgpu::BindGroup);

#[verifier::external_type_specification]
#[verifier::external_body]
pub struct ExCommandEncoder(wgpu::CommandEncoder);

#[verifier::external_type_specification]
#[verifier::external_body]
pub struct ExCommandBuffer(wgpu::CommandBuffer);

#[verifier::external_type_specification]
#[verifier::external_body]
pub struct ExComputePass<'a>(wgpu::ComputePass<'a>);

#[verifier::external_type_specification]
#[verifier::external_body]
pub struct ExBufferAsyncError(wgpu::BufferAsyncError);

#[verifier::external_type_specification]
#[verifier::external_body]
#[verifier::reject_recursive_types(T)]
pub struct ExReceiver<T>(std::sync::mpsc::Receiver<T>);

/// The most workgroups one dispatch may name per grid dimension under the
/// default device limits; a larger count is refused by the driver.
pub const MAX_WORKGROUPS_PER_DIMENSION: u32 = 65535;

/// The largest storage-buffer binding the default device limits allow, in
/// bytes; a larger input is refused by the driver.
pub const MAX_INPUT_BYTES: usize = 134217728;

/// The buffer was created with the staging usage set: map-for-read and
/// copy-destination. A buffer's usage set is fixed at creation.
pub uninterp spec fn staging_usage(b: wgpu::Buffer) -> bool;

/// The buffer was created with the storage usage set: bindable storage,
/// copy-source and copy-destination. A buffer's usage set is fixed at
/// creation.
pub uninterp spec fn storage_usage(b: wgpu::Buffer) -> bool;

/// Whether a program fits the harness's binding contract on a device: a
/// compute pipeline with the given entry point whose binding group at
/// `group_index` is satisfied by two entries at the two given slots, both
/// one storage-usage buffer of the given size. Deterministic in these
/// alone: the verdict is validation over the module's reflected binding
/// layout, the device's limits, and the buffer's size and usage.
pub uninterp spec fn fits_binding_contract(
    device: wgpu::Device,
    module: wgpu::ShaderModule,
    entry: Seq<char>,
    group_index: u32,
    slot_a: u32,
    slot_b: u32,
    size: u64,
) -> bool;

/// Why a dispatch produced no readable buffer.
#[derive(Clone, Copy, Debug, PartialEq, Eq, Structural)]
pub enum DispatchError {
    /// The input was empty; zero-length device buffers are backend-defined,
    /// so they are refused up front.
    EmptyInput,
    /// The program does not fit the harness's binding contract: no `main`
    /// compute entry point, or declared bindings that cannot be laid out as
    /// binding group 0 with the two storage-buffer slots the harness binds.
    /// Reported at pipeline-creation time, before anything is submitted.
    BindingArityMismatch,
    /// The read mapping of the staging buffer failed to resolve (device
    /// lost, buffer already mapped, or allocation failure during mapping).
    MapFailed,
}

/// Relies on `wgpu::Device::create_buffer`: allocates a host-readable
/// staging buffer of exactly `size` bytes, tagged for map-for-read and as a
/// copy destination, not pre-populated and not yet mapped. The driver
/// refuses a buffer over the default size limit, so that is excluded here.
#[verifier::external_body]
fn create_staging_buffer(device: &wgpu::Device, size: u64) -> (r: wgpu::Buffer)
    requires
        size <= MAX_INPUT_BYTES as u64,
    ensures
        buffer_size(r) == size,
        staging_usage(r),
{
    device.create_buffer(&wgpu::BufferDescriptor {
        label: None,
        size,
        usage: wgpu::BufferUsages::MAP_READ | wgpu::BufferUsages::COPY_DST,
        mapped_at_creation: false,
    })
}

/// Relies on `wgpu::util::DeviceExt::create_buffer_init`: allocates a
/// device-resident storage buffer initialized with `contents`, tagged as
/// bindable storage, copy source and copy destination. wgpu pads the
/// allocation up to its copy alignment of four bytes, so the size equals the
/// content length exactly when that length is already aligned. The driver
/// refuses a buffer over the default size limit, so that is excluded here.
#[verifier::external_body]
fn create_storage_buffer(device: &wgpu::Device, contents: &[u8]) -> (r: wgpu::Buffer)
    requires
        contents@.len() % 4 == 0,
        contents@.len() <= MAX_INPUT_BYTES,
    ensures
        buffer_size(r) == contents@.len(),
        storage_usage(r),
{
    device.create_buffer_init(&wgpu::util::BufferInitDescriptor {
        label: None,
        contents,
        usage: wgpu::BufferUsages::STORAGE | wgpu::BufferUsages::COPY_DST
            | wgpu::BufferUsages::COPY_SRC,
    })
}

/// Relies on `wgpu::Device::push_error_scope` (validation filter),
/// `wgpu::Device::create_compute_pipeline`,
/// `wgpu::ComputePipeline::get_bind_group_layout`,
/// `wgpu::Device::create_bind_group` and `wgpu::ErrorScopeGuard::pop`
/// (driven by `pollster::block_on`) as one checked operation: builds the
/// compute pipeline with the given entry point and an automatically derived
/// binding layout, takes the layout of its binding group at `group_index`,
/// and builds a group with two entries at the two given slots, both the same
/// buffer's full extent. The verdict is validation over the module, the
/// device's limits and the buffer's size and usage, so it is the named
/// binding-contract test; a program that does not fit raises validation
/// errors that the scope captures (scopes are per-thread, so they are this
/// call's own) instead of reaching the fatal uncaptured-error handler.
#[verifier::external_body]
fn create_pipeline_and_bindings(
    device: &wgpu::Device,
    module: &wgpu::ShaderModule,
    entry: &str,
    group_index: u32,
    slot_a: u32,
    slot_b: u32,
    buffer: &wgpu::Buffer,
) -> (r: Option<(wgpu::ComputePipeline, wgpu::BindGroup)>)
    requires
        storage_usage(*buffer),
    ensures
        r is Some <==> fits_binding_contract(
            *device,
            *module,
            entry@,
            group_index,
            slot_a,
            slot_b,
            buffer_size(*buffer),
        ),
{
    let scope = device.push_error_scope(wgpu::ErrorFilter::Validation);
    let pipeline = device.create_compute_pipeline(&wgpu::ComputePipelineDescriptor {
        label: None, layout: None, module, entry_point: Some(entry),
        compilation_options: Default::default(), cache: None,
    });
    let layout = pipeline.get_bind_group_layout(group_index);
    let entries = [
        wgpu::BindGroupEntry { binding: slot_a, resource: buffer.as_entire_binding() },
        wgpu::BindGroupEntry { binding: slot_b, resource: buffer.as_entire_binding() },
    ];
    let group = device.create_bind_group(&wgpu::BindGroupDescriptor { label: None, layout: &layout, entries: &entries });
    match pollster::block_on(scope.pop()) {
        None => Some((pipeline, group)),
        Some(_) => None,
    }
}

/// Relies on `wgpu::Device::create_command_encoder`: an empty command
/// sequence to record into.
#[verifier::external_body]
fn create_command_encoder(device: &wgpu::Device) -> wgpu::CommandEncoder {
    device.create_command_encoder(&wgpu::CommandEncoderDescriptor { label: None })
}

/// Relies on `wgpu::CommandEncoder::begin_compute_pass`: opens a compute
/// pass on the encoder. Until the pass is ended the encoder must not record
/// anything else; the pass object returned here is the only handle recorded
/// through in the meantime.
#[verifier::external_body]
fn begin_compute_pass(encoder: &mut wgpu::CommandEncoder) -> wgpu::ComputePass<'static> {
    encoder.begin_compute_pass(&wgpu::ComputePassDescriptor { label: None, timestamp_writes: None })
        .forget_lifetime()
}

/// Relies on `wgpu::ComputePass::set_pipeline`: binds the pipeline for the
/// dispatches recorded after it.
#[verifier::external_body]
fn pass_set_pipeline(pass: &mut wgpu::ComputePass<'static>, pipeline: &wgpu::ComputePipeline) {
    pass.set_pipeline(pipeline);
}

/// Relies on `wgpu::ComputePass::set_bind_group`: binds the group at the
/// given group index with no dynamic offsets.
#[verifier::external_body]
fn pass_set_bind_group(pass: &mut wgpu::ComputePass<'static>, index: u32, group: &wgpu::BindGroup) {
    pass.set_bind_group(index, group, &[]);
}

/// Relies on `wgpu::ComputePass::insert_debug_marker`: a named marker for
/// graphics debuggers, with no effect on execution.
#[verifier::external_body]
fn pass_insert_debug_marker(pass: &mut wgpu::ComputePass<'static>, label: &str) {
    pass.insert_debug_marker(label);
}

/// Relies on `wgpu::ComputePass::dispatch_workgroups`: records a dispatch of
/// the given 3-D workgroup count. A count of zero in a dimension dispatches
/// no invocations and is not an error; a count over the device limit is
/// refused by the driver, so it is excluded here.
#[verifier::external_body]
fn pass_dispatch_workgroups(pass: &mut wgpu::ComputePass<'static>, x: u32, y: u32, z: u32)
    requires
        x <= MAX_WORKGROUPS_PER_DIMENSION,
        y <= MAX_WORKGROUPS_PER_DIMENSION,
        z <= MAX_WORKGROUPS_PER_DIMENSION,
{
    pass.dispatch_workgroups(x, y, z);
}

/// Relies on `wgpu::ComputePass`'s drop: recording of the pass ends when the
/// pass object is dropped, after which the encoder may record again.
#[verifier::external_body]
fn end_compute_pass(pass: wgpu::ComputePass<'static>) {
    drop(pass);
}

/// Relies on `wgpu::CommandEncoder::copy_buffer_to_buffer`: records a copy
/// of `size` bytes from the start of `src` to the start of `dst`, ordered
/// after everything recorded before it. The driver refuses a copy that is
/// not 4-byte aligned, would overrun either buffer, or uses a source
/// without copy-source usage or a destination without copy-destination
/// usage; all of those are excluded here (the storage set carries
/// copy-source, the staging set copy-destination).
#[verifier::external_body]
fn copy_buffer_to_buffer(
    encoder: &mut wgpu::CommandEncoder,
    src: &wgpu::Buffer,
    dst: &wgpu::Buffer,
    size: u64,
)
    requires
        size % 4 == 0,
        size <= buffer_size(*src),
        size <= buffer_size(*dst),
        storage_usage(*src),
        staging_usage(*dst),
{
    encoder.copy_buffer_to_buffer(src, 0, dst, 0, size);
}

/// Relies on `wgpu::CommandEncoder::finish`: closes the recording and
/// yields the command buffer to submit.
#[verifier::external_body]
fn finish_encoder(encoder: wgpu::CommandEncoder) -> wgpu::CommandBuffer {
    encoder.finish()
}

/// Relies on `wgpu::Queue::submit`: hands one recorded command sequence to
/// the queue for asynchronous execution; commands within it execute in
/// recorded order on the device.
#[verifier::external_body]
fn submit_one(queue: &wgpu::Queue, commands: wgpu::CommandBuffer) {
    queue.submit([commands]);
}

/// Relies on `wgpu::BufferSlice::map_async` over the buffer's full extent:
/// requests a read mapping that resolves only once the device has executed
/// all previously submitted work touching the buffer and the mapping itself
/// completes; the outcome is delivered through the returned channel. The
/// call panics on a buffer whose usage does not allow a read mapping and
/// refuses an empty or unaligned extent, so those are excluded here; a
/// buffer that is already mapped is delivered as a failure through the
/// callback, not a panic.
#[verifier::external_body]
fn request_read_mapping(buffer: &wgpu::Buffer) -> std::sync::mpsc::Receiver<
    Result<(), wgpu::BufferAsyncError>,
>
    requires
        staging_usage(*buffer),
        buffer_size(*buffer) > 0,
        buffer_size(*buffer) % 4 == 0,
{
    let (tx, rx) = std::sync::mpsc::channel();
    buffer.slice(..).map_async(wgpu::MapMode::Read, move |outcome| {
        let _ = tx.send(outcome);
    });
    rx
}

/// Relies on `wgpu::Device::poll` waiting indefinitely: blocks until the
/// most recent submission has completed and its completion callbacks,
/// including mapping callbacks, have been delivered. Without this call a
/// mapping never resolves on its own.
#[verifier::external_body]
fn poll_device_wait(device: &wgpu::Device) {
    let _ = device.poll(wgpu::PollType::wait_indefinitely());
}

/// Relies on `std::sync::mpsc::Receiver::try_recv`: collects the mapping
/// outcome that the callback delivered. Anything but a delivered success —
/// a mapping error, or no callback despite the device having been driven to
/// completion — counts as failure.
#[verifier::external_body]
fn receive_map_outcome(
    mapping: std::sync::mpsc::Receiver<Result<(), wgpu::BufferAsyncError>>,
) -> bool {
    match mapping.try_recv() {
        Ok(Ok(())) => true,
        _ => false,
    }
}

/// Executes one compute dispatch and returns the host-readable result.
///
/// The staging and storage buffers are both `input.len()` bytes; the storage
/// buffer starts as a copy of `input`, is bound to binding slots 0 and 1 of
/// the program's binding group 0 (both slots alias the one buffer — the
/// kernel contract), the given workgroup grid is dispatched against it, and
/// its full extent is then copied into the staging buffer within the same
/// submission. A workgroup count of zero in any dimension is legal and
/// dispatches no invocations.
///
/// The input length must respect the driver's copy alignment of four bytes,
/// and the input and the workgroup counts must fit the default device
/// limits; the driver refuses anything beyond them.
///
/// Empty input is refused as `EmptyInput`; a program that does not fit the
/// binding contract — and exactly such a program — is refused as
/// `BindingArityMismatch` at pipeline-creation time, before anything is
/// submitted. Whether the mapping resolves is the device's decision, so for
/// non-empty input and a fitting program only this much is pinned: the
/// result is either a mapped buffer of exactly `input.len()` bytes or
/// `MapFailed`.
pub fn dispatch(
    ctx: &DeviceContext,
    program: &CompiledProgram,
    input: &[u8],
    workgroups: (u32, u32, u32),
) -> (r: Result<ReadableBuffer, DispatchError>)
    requires
        input@.len() % 4 == 0,
        input@.len() <= MAX_INPUT_BYTES,
        workgroups.0 <= MAX_WORKGROUPS_PER_DIMENSION,
        workgroups.1 <= MAX_WORKGROUPS_PER_DIMENSION,
        workgroups.2 <= MAX_WORKGROUPS_PER_DIMENSION,
    ensures
        input@.len() == 0 <==> r == Err::<ReadableBuffer, DispatchError>(
            DispatchError::EmptyInput,
        ),
        input@.len() != 0 ==> (r == Err::<ReadableBuffer, DispatchError>(
            DispatchError::BindingArityMismatch,
        ) <==> !fits_binding_contract(
            ctx.device,
            program.module,
            "main"@,
            0,
            0,
            1,
            input@.len() as u64,
        )),
        r is Err ==> r->Err_0 is EmptyInput || r->Err_0 is BindingArityMismatch
            || r->Err_0 is MapFailed,
        r is Ok ==> r->Ok_0.state() is Mapped && r->Ok_0.spec_len() == input@.len(),
{
    let size = input.len();
    if size == 0 {
        return Err(DispatchError::EmptyInput);
    }
    let staging = create_staging_buffer(&ctx.device, size as u64);
    let storage = create_storage_buffer(&ctx.device, input);

    let (pipeline, group) = match create_pipeline_and_bindings(
        &ctx.device,
        &program.module,
        "main",
        0,
        0,
        1,
        &storage,
    ) {
        Some(pair) => pair,
        None => {
            return Err(DispatchError::BindingArityMismatch);
        },
    };

    let mut encoder = create_command_encoder(&ctx.device);
    let mut pass = begin_compute_pass(&mut encoder);
    pass_set_pipeline(&mut pass, &pipeline);
    pass_set_bind_group(&mut pass, 0, &group);
    pass_insert_debug_marker(&mut pass, "dispatch");
    let (x, y, z) = workgroups;
    pass_dispatch_workgroups(&mut pass, x, y, z);
    end_compute_pass(pass);
    copy_buffer_to_buffer(&mut encoder, &storage, &staging, size as u64);
    let commands = finish_encoder(encoder);
    submit_one(&ctx.queue, commands);

    let mapping = request_read_mapping(&staging);
    poll_device_wait(&ctx.device);
    if receive_map_outcome(mapping) {
        Ok(ReadableBuffer::from_mapped(staging, size))
    } else {
        Err(DispatchError::MapFailed)
    }
}

} // verus!
