//! Staging-buffer lifecycle: the map / read / release cycle after a
//! dispatch completes.
//!
//! A [`ReadableBuffer`] is handed out by a dispatch only once the device has
//! executed all submitted work touching it and the asynchronous mapping has
//! resolved, so a caller can never observe the buffer before that point.
//! Reading yields a copy of the mapped bytes; releasing unmaps the buffer
//! exactly once. Reading after a release, or releasing twice, is a contract
//! violation reported as [`BufferError::NotMapped`].

use vstd::prelude::*;

verus! {

#[verifier::external_type_specification]
#[verifier::external_body]
pub struct ExBuffer(wgpu::Buffer);

/// The byte length a buffer was created with; wgpu fixes it at creation and
/// never resizes a buffer.
pub uninterp spec fn buffer_size(b: wgpu::Buffer) -> u64;

/// Where a staging buffer stands in its map / read / release cycle.
#[derive(Clone, Copy, Debug, PartialEq, Eq, Structural)]
pub enum MapState {
    /// The mapping has resolved; the bytes are host-readable.
    Mapped,
    /// The buffer was released (unmapped); its bytes are gone for good.
    Released,
}

/// A buffer-lifecycle contract violation.
#[derive(Clone, Copy, Debug, PartialEq, Eq, Structural)]
pub enum BufferError {
    /// The buffer is not mapped: it was read or released after a release.
    NotMapped,
}

/// Whether the lifecycle state permits reading.
pub open spec fn read_permitted(s: MapState) -> bool {
    s is Mapped
}

/// The state transition and outcome of one release request.
pub open spec fn spec_release(s: MapState) -> (MapState, Result<(), BufferError>) {
    match s {
        MapState::Mapped => (MapState::Released, Ok(())),
        MapState::Released => (MapState::Released, Err(BufferError::NotMapped)),
    }
}

/// Once a buffer has been released, every further read and every further
/// release is refused with `NotMapped`: a release is permitted exactly once,
/// and nothing is readable afterwards.
pub proof fn lemma_released_rejects(s: MapState)
    requires
        s is Released,
    ensures
        !read_permitted(s),
        spec_release(s).1 == Err::<(), BufferError>(BufferError::NotMapped),
        spec_release(s).0 is Released,
{
}

/// A host-readable staging buffer, produced by a dispatch after its mapping
/// future resolved. The caller owns it and must release it exactly once.
pub struct ReadableBuffer {
    raw: wgpu::Buffer,
    len: usize,
    state: MapState,
}

impl ReadableBuffer {
    /// Relies on `wgpu::Buffer::get_mapped_range` over the buffer's full
    /// extent: on a mapped, non-empty buffer it succeeds deterministically —
    /// the mapping is client-side bookkeeping, not a device decision — and
    /// yields exactly the buffer's bytes, copied out so that no view
    /// outlives the call. The `state` field records exactly when the buffer
    /// is mapped: it is set to `Mapped` only right after a mapping resolves,
    /// and to `Released` only by `release`, which unmaps.
    #[verifier::external_body]
    fn raw_read(&self) -> (r: Vec<u8>)
        requires
            self.state() is Mapped,
        ensures
            r@.len() == buffer_size(self.raw),
    {
        let view = self.raw.slice(..).get_mapped_range();
        view.expect("the tracked state says the buffer is mapped").to_vec()
    }

    /// Relies on `wgpu::Buffer::unmap`: invalidates the host mapping. wgpu
    /// raises a device error when the buffer is not mapped, so this asks to
    /// be called only while it is. The `state` field records exactly that:
    /// it is set to `Mapped` only right after a mapping resolves, and to
    /// `Released` only by `release` below, which unmaps first.
    #[verifier::external_body]
    fn raw_unmap(&self)
        requires
            self.state() is Mapped,
    {
        self.raw.unmap();
    }

    /// The recorded length is the length the buffer was created with, and a
    /// mapped buffer is never empty: only a dispatch constructs one, and
    /// only with non-empty input.
    #[verifier::type_invariant]
    pub closed spec fn wf(&self) -> bool {
        self.len as u64 == buffer_size(self.raw) && (self.state is Mapped ==> self.len > 0)
    }

    /// Where the buffer stands in its map / read / release cycle.
    pub closed spec fn state(&self) -> MapState {
        self.state
    }

    /// The buffer's byte length.
    pub closed spec fn spec_len(&self) -> usize {
        self.len
    }

    /// Wraps a buffer whose read mapping has just resolved.
    pub(crate) fn from_mapped(raw: wgpu::Buffer, len: usize) -> (r: ReadableBuffer)
        requires
            len as u64 == buffer_size(raw),
            len > 0,
        ensures
            r.state() is Mapped,
            r.spec_len() == len,
    {
        ReadableBuffer { raw, len, state: MapState::Mapped }
    }

    /// The buffer's byte length, fixed at creation.
    pub fn len(&self) -> (r: usize)
        ensures
            r == self.spec_len(),
    {
        self.len
    }

    /// Copies the mapped bytes out of the buffer.
    ///
    /// Succeeds exactly while the buffer is mapped, with a copy of the
    /// buffer's full extent; after a release this is a contract violation
    /// and fails with `NotMapped`.
    pub fn read(&self) -> (r: Result<Vec<u8>, BufferError>)
        ensures
            r is Ok <==> read_permitted(self.state()),
            r is Err ==> r == Err::<Vec<u8>, BufferError>(BufferError::NotMapped),
            r is Ok ==> r->Ok_0@.len() == self.spec_len(),
    {
        proof {
            use_type_invariant(self);
        }
        match self.state {
            MapState::Released => Err(BufferError::NotMapped),
            MapState::Mapped => Ok(self.raw_read()),
        }
    }

    /// Unmaps the buffer, invalidating its bytes and permitting destruction.
    ///
    /// Owed exactly once per successful dispatch. A second release is a
    /// contract violation and fails with `NotMapped`, leaving the buffer as
    /// it was.
    pub fn release(&mut self) -> (r: Result<(), BufferError>)
        ensures
            (final(self).state(), r) == spec_release(old(self).state()),
            final(self).spec_len() == old(self).spec_len(),
    {
        proof {
            use_type_invariant(&*self);
        }
        match self.state {
            MapState::Released => Err(BufferError::NotMapped),
            MapState::Mapped => {
                self.raw_unmap();
                self.state = MapState::Released;
                Ok(())
            },
        }
    }
}

} // verus!
