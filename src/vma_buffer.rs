use vstd::prelude::*;
use vstd::string::StringExecFns;
use gpu_allocator::vulkan::Allocation;
use crate::error::Error;

verus! {

/// Buffer usage bits of the graphics API, as the library uses them.
pub const BUFFER_USAGE_TRANSFER_SRC: u32 = 0x1;
pub const BUFFER_USAGE_TRANSFER_DST: u32 = 0x2;
pub const BUFFER_USAGE_STORAGE_BUFFER: u32 = 0x20;

/// The allocation class of a buffer, each with a fixed intent.
#[derive(Debug, Clone, Copy, PartialEq, Eq, Structural)]
pub enum MemoryClass {
    /// Not mapped; fastest device access; written only by copy commands.
    DeviceLocal,
    /// Host to device: mapped for sequential host writes, read by the device.
    Upload,
    /// Device to host: mapped for host reads after device writes.
    Readback,
}

pub open spec fn is_host_mapped(class: MemoryClass) -> bool {
    class != MemoryClass::DeviceLocal
}

/// What a buffer creation asks of the device and of the allocator: an
/// exclusive buffer of `size` bytes with `usage`, in linear memory of
/// `class`, named `name` in the allocator's reports.
#[derive(Debug, Clone, PartialEq, Eq)]
pub struct BufferRequest {
    pub size: u64,
    pub usage: u32,
    pub class: MemoryClass,
    pub name: String,
    pub linear: bool,
}

pub open spec fn allocation_name(class: MemoryClass) -> Seq<char> {
    match class {
        MemoryClass::DeviceLocal => "Local_Buffer_Memory"@,
        MemoryClass::Upload => "Upload_Buffer_Memory"@,
        MemoryClass::Readback => "Readback_Buffer_Memory"@,
    }
}

/// The bytes of an allocation's host mapping: `None` when its memory is not
/// host-mapped.
pub uninterp spec fn mapped_bytes(a: Allocation) -> Option<Seq<u8>>;

/// Relies on gpu_allocator's `Allocation::mapped_slice`: `None` when the
/// memory is not host-mapped, else the mapped bytes, as many as the
/// allocation holds.
#[verifier::external_body]
fn mapped_len(allocation: &Allocation) -> (r: Option<usize>)
    ensures
        match mapped_bytes(*allocation) {
            Some(b) => b.len() <= usize::MAX && r == Some(b.len() as usize),
            None => r is None,
        },
{
    match allocation.mapped_slice() {
        Some(mapped) => Some(mapped.len()),
        None => None,
    }
}

/// Relies on gpu_allocator's `Allocation::mapped_slice_mut`: the mapped bytes
/// of a host-mapped allocation, for change; `data` is copied over those from
/// `offset` to `end`.
#[verifier::external_body]
fn copy_to_mapped(allocation: &mut Allocation, offset: usize, end: usize, data: &[u8])
    requires
        mapped_bytes(*old(allocation)) is Some,
        end == offset + data@.len(),
        end <= mapped_bytes(*old(allocation))->Some_0.len(),
    ensures
        mapped_bytes(*final(allocation)) == Some(
            overwrite(mapped_bytes(*old(allocation))->Some_0, offset as int, data@),
        ),
{
    if let Some(mapped) = allocation.mapped_slice_mut() {
        mapped[offset..end].copy_from_slice(data);
    }
}

/// `b` with `data` written over it from `offset` on.
pub open spec fn overwrite(b: Seq<u8>, offset: int, data: Seq<u8>) -> Seq<u8> {
    b.subrange(0, offset) + data + b.subrange(offset + data.len(), b.len() as int)
}

/// The result of writing `data` at `offset` into a buffer of class `class`
/// whose mapping holds `mapped`, and the mapped bytes afterwards. A
/// device-local or unmapped buffer is not written; a write that does not fit
/// in the mapping, which callers must not attempt, is refused and writes
/// nothing.
pub open spec fn write_outcome(class: MemoryClass, mapped: Option<Seq<u8>>, offset: int, data: Seq<u8>) -> (
    Result<(), Error>,
    Option<Seq<u8>>,
) {
    if class == MemoryClass::DeviceLocal {
        (Err(Error::WriteAttemptToUnmappedBuffer), mapped)
    } else {
        match mapped {
            None => (Err(Error::WriteAttemptToUnmappedBuffer), mapped),
            Some(b) => if offset + data.len() <= b.len() {
                (Ok(()), Some(overwrite(b, offset, data)))
            } else {
                (Err(Error::WriteOutOfMappedRange), mapped)
            },
        }
    }
}

/// A buffer with its allocation.
///
/// `buffer` is the raw handle of the native buffer, `size` its size in bytes
/// as it was requested.
pub struct VMABuffer {
    pub buffer: u64,
    pub allocation: Allocation,
    pub class: MemoryClass,
    pub size: u64,
}

/// A region of a buffer-to-buffer copy, in bytes.
#[derive(Debug, Clone, Copy, PartialEq, Eq, Structural)]
pub struct BufferCopy {
    pub src_offset: u64,
    pub dst_offset: u64,
    pub size: u64,
}

/// The region of a copy from a buffer of `buffer_size` bytes, with the
/// defaults filled in.
pub open spec fn copy_region_of(
    buffer_size: u64,
    src_offset: Option<u64>,
    dst_offset: Option<u64>,
    size: Option<u64>,
) -> BufferCopy {
    let src = match src_offset {
        Some(o) => o,
        None => 0,
    };
    BufferCopy {
        src_offset: src,
        dst_offset: match dst_offset {
            Some(o) => o,
            None => 0,
        },
        size: match size {
            Some(s) => s,
            None => (buffer_size - src) as u64,
        },
    }
}

/// A copy with every default out of a buffer requested with `n` bytes moves
/// exactly those `n` bytes, from its start to the start of the destination.
pub proof fn lemma_default_copy_covers_buffer(n: usize, req: BufferRequest)
    requires
        req.size == n as u64,
    ensures
        copy_region_of(req.size, None, None, None) == (BufferCopy { src_offset: 0, dst_offset: 0, size: n as u64 }),
{
}

/// A buffer memory barrier over a whole buffer or a prefix of it.
#[derive(Debug, Clone, Copy, PartialEq, Eq, Structural)]
pub struct BufferBarrier {
    pub buffer: u64,
    pub src_stage_mask: u64,
    pub dst_stage_mask: u64,
    pub src_access_mask: u64,
    pub dst_access_mask: u64,
    pub src_queue_family_index: u32,
    pub dst_queue_family_index: u32,
    pub offset: u64,
    pub size: u64,
}

impl VMABuffer {
    /// The request for a buffer of `size` bytes and allocation class `class`.
    pub fn request(size: usize, usage: u32, class: MemoryClass) -> (r: BufferRequest)
        ensures
            r.size == size as u64,
            r.usage == usage,
            r.class == class,
            r.name@ == allocation_name(class),
            r.linear,
    {
        let name = match class {
            MemoryClass::DeviceLocal => String::from_str("Local_Buffer_Memory"),
            MemoryClass::Upload => String::from_str("Upload_Buffer_Memory"),
            MemoryClass::Readback => String::from_str("Readback_Buffer_Memory"),
        };
        BufferRequest { size: size as u64, usage, class, name, linear: true }
    }

    /// Takes ownership of a native buffer and the allocation bound to it.
    pub fn new(buffer: u64, allocation: Allocation, class: MemoryClass, size: u64) -> (r: Self)
        ensures
            r.buffer == buffer,
            r.allocation == allocation,
            r.class == class,
            r.size == size,
    {
        VMABuffer { buffer, allocation, class, size }
    }

    /// Copies `data` into the mapped memory, starting `offset` bytes in.
    ///
    /// A device-local buffer is never written: the call fails with
    /// `WriteAttemptToUnmappedBuffer`, as it does on memory that is not
    /// host-mapped. A write that fits succeeds and leaves every other mapped
    /// byte as it was; one that would end past the mapped region fails with
    /// `WriteOutOfMappedRange` and writes nothing.
    pub fn set_data(&mut self, offset: usize, data: &[u8]) -> (r: Result<(), Error>)
        ensures
            (r, mapped_bytes(final(self).allocation)) == write_outcome(
                old(self).class,
                mapped_bytes(old(self).allocation),
                offset as int,
                data@,
            ),
            r is Err ==> *final(self) == *old(self),
            final(self).buffer == old(self).buffer,
            final(self).class == old(self).class,
            final(self).size == old(self).size,
    {
        if self.class == MemoryClass::DeviceLocal {
            return Err(Error::WriteAttemptToUnmappedBuffer);
        }
        let len = match mapped_len(&self.allocation) {
            Some(n) => n,
            None => return Err(Error::WriteAttemptToUnmappedBuffer),
        };
        if offset > len || data.len() > len - offset {
            return Err(Error::WriteOutOfMappedRange);
        }
        let end = offset + data.len();
        copy_to_mapped(&mut self.allocation, offset, end, data);
        Ok(())
    }

    /// Copies `start_data` to the start of the mapped memory and `data` right
    /// after it. Both parts are checked before anything is written: on any
    /// failure nothing is written.
    pub fn set_data_with_start_data(&mut self, start_data: &[u8], data: &[u8]) -> (r: Result<(), Error>)
        ensures
            (r, mapped_bytes(final(self).allocation)) == write_outcome(
                old(self).class,
                mapped_bytes(old(self).allocation),
                0,
                start_data@ + data@,
            ),
            r is Err ==> *final(self) == *old(self),
            final(self).buffer == old(self).buffer,
            final(self).class == old(self).class,
            final(self).size == old(self).size,
    {
        if self.class == MemoryClass::DeviceLocal {
            return Err(Error::WriteAttemptToUnmappedBuffer);
        }
        let len = match mapped_len(&self.allocation) {
            Some(n) => n,
            None => return Err(Error::WriteAttemptToUnmappedBuffer),
        };
        if start_data.len() > len || data.len() > len - start_data.len() {
            return Err(Error::WriteOutOfMappedRange);
        }
        let ghost b = mapped_bytes(self.allocation)->Some_0;
        let s = start_data.len();
        copy_to_mapped(&mut self.allocation, 0, s, start_data);
        let ghost b1 = overwrite(b, 0, start_data@);
        assert(b1.len() == b.len());
        copy_to_mapped(&mut self.allocation, s, s + data.len(), data);
        assert(overwrite(b1, s as int, data@) =~= overwrite(b, 0, start_data@ + data@));
        Ok(())
    }

    /// The region of a copy from this buffer. Offsets default to 0, the size
    /// to the rest of this buffer after the source offset.
    pub fn copy_region(&self, src_offset: Option<u64>, dst_offset: Option<u64>, size: Option<u64>) -> (r: BufferCopy)
        requires
            size is None ==> match src_offset { Some(o) => o <= self.size, None => true },
        ensures
            r == copy_region_of(self.size, src_offset, dst_offset, size),
    {
        let src: u64 = match src_offset {
            Some(o) => o,
            None => 0,
        };
        let dst: u64 = match dst_offset {
            Some(o) => o,
            None => 0,
        };
        let n: u64 = match size {
            Some(s) => s,
            None => self.size - src,
        };
        BufferCopy { src_offset: src, dst_offset: dst, size: n }
    }

    /// A barrier for this buffer. Omitted queue family indices default to 0,
    /// an omitted size to the buffer's whole size.
    pub fn get_barrier2(
        &self,
        src_stage: u64,
        dst_stage: u64,
        src_access: u64,
        dst_access: u64,
        src_queue: Option<u32>,
        dst_queue: Option<u32>,
        size: Option<u64>,
    ) -> (r: BufferBarrier)
        ensures
            r == (BufferBarrier {
                buffer: self.buffer,
                src_stage_mask: src_stage,
                dst_stage_mask: dst_stage,
                src_access_mask: src_access,
                dst_access_mask: dst_access,
                src_queue_family_index: match src_queue { Some(q) => q, None => 0 },
                dst_queue_family_index: match dst_queue { Some(q) => q, None => 0 },
                offset: 0,
                size: match size { Some(s) => s, None => self.size },
            }),
    {
        let src_queue_family_index: u32 = match src_queue {
            Some(q) => q,
            None => 0,
        };
        let dst_queue_family_index: u32 = match dst_queue {
            Some(q) => q,
            None => 0,
        };
        let size: u64 = match size {
            Some(s) => s,
            None => self.size,
        };
        BufferBarrier {
            buffer: self.buffer,
            src_stage_mask: src_stage,
            dst_stage_mask: dst_stage,
            src_access_mask: src_access,
            dst_access_mask: dst_access,
            src_queue_family_index,
            dst_queue_family_index,
            offset: 0,
            size,
        }
    }
}

} // verus!
