//! Buffers in memory that the host can map, and the choice of a memory type.

use vstd::prelude::*;
use ash::vk;

verus! {

/// `VK_MEMORY_PROPERTY_DEVICE_LOCAL_BIT`.
pub const MEMORY_DEVICE_LOCAL: u32 = 0x1;

/// `VK_MEMORY_PROPERTY_HOST_VISIBLE_BIT`.
pub const MEMORY_HOST_VISIBLE: u32 = 0x2;

/// `VK_MEMORY_PROPERTY_HOST_COHERENT_BIT`.
pub const MEMORY_HOST_COHERENT: u32 = 0x4;

/// `VK_BUFFER_USAGE_TRANSFER_SRC_BIT`.
pub const USAGE_TRANSFER_SRC: u32 = 0x1;

/// `VK_BUFFER_USAGE_TRANSFER_DST_BIT`.
pub const USAGE_TRANSFER_DST: u32 = 0x2;

/// `VK_BUFFER_USAGE_VERTEX_BUFFER_BIT`.
pub const USAGE_VERTEX_BUFFER: u32 = 0x80;

/// The most memory types a device reports.
pub const MAX_MEMORY_TYPES: usize = 32;

/// One of the memory types of a device.
#[derive(Clone, Copy, Debug, PartialEq, Eq, Structural)]
pub struct MemoryType {
    pub property_flags: u32,
    pub heap_index: u32,
}

/// What a buffer needs of the memory bound to it.
#[derive(Clone, Copy, Debug, PartialEq, Eq, Structural)]
pub struct MemoryRequirements {
    pub size: u64,
    /// Bit `i` is set when memory type `i` can back the buffer.
    pub memory_type_bits: u32,
}

/// A buffer to create, with the properties asked of its memory.
#[derive(Clone, Copy, Debug, PartialEq, Eq, Structural)]
pub struct BufferRequest {
    pub size: u64,
    pub usage: u32,
    pub memory_properties: u32,
    /// The buffer is used by one queue family only.
    pub exclusive: bool,
}

/// The allocation that backs a buffer.
#[derive(Clone, Copy, Debug, PartialEq, Eq, Structural)]
pub struct Allocation {
    pub size: u64,
    pub memory_type_index: u32,
}

/// A range of bytes of a buffer's memory.
#[derive(Clone, Copy, Debug, PartialEq, Eq, Structural)]
pub struct MemoryRange {
    pub offset: usize,
    pub size: usize,
}

/// One step of releasing a buffer.
#[derive(Clone, Copy, Debug, PartialEq, Eq)]
pub enum ReleaseCommand {
    DestroyBuffer(vk::Buffer),
    FreeMemory(vk::DeviceMemory),
}

/// A buffer with the memory bound to it.
#[derive(Clone, Copy, Debug, PartialEq, Eq)]
pub struct RawBuffer {
    pub buffer: vk::Buffer,
    pub memory: vk::DeviceMemory,
}

/// Whether `flags` has every bit of `required`.
pub open spec fn contains_flags(flags: u32, required: u32) -> bool {
    flags & required == required
}

/// Whether memory type `index` can back a buffer with the given type bits
/// and has all the required properties.
pub open spec fn memory_type_suits(
    type_bits: u32,
    required: u32,
    memory_types: Seq<MemoryType>,
    index: int,
) -> bool {
    &&& 0 <= index < memory_types.len()
    &&& index < 32
    &&& type_bits & (1u32 << (index as u32)) != 0
    &&& contains_flags(memory_types[index].property_flags, required)
}

/// The first memory type that suits, if any does.
pub open spec fn first_suitable_memory_type(
    type_bits: u32,
    required: u32,
    memory_types: Seq<MemoryType>,
    found: Option<u32>,
) -> bool {
    match found {
        Some(index) => {
            &&& memory_type_suits(type_bits, required, memory_types, index as int)
            &&& forall|j: int|
                0 <= j < index ==> !memory_type_suits(type_bits, required, memory_types, j)
        },
        None => forall|j: int|
            0 <= j < memory_types.len() ==> !memory_type_suits(
                type_bits,
                required,
                memory_types,
                j,
            ),
    }
}

/// Memory after `data` has been written at byte `at`.
pub open spec fn uploaded(memory: Seq<u8>, at: int, data: Seq<u8>) -> Seq<u8> {
    memory.subrange(0, at) + data + memory.subrange(at + data.len(), memory.len() as int)
}

/// Whether `flags` has every bit of `required`.
pub fn flags_contain(flags: u32, required: u32) -> (r: bool)
    ensures
        r == contains_flags(flags, required),
{
    flags & required == required
}

/// Finds the first memory type that the buffer accepts and that has all the
/// required properties.
pub fn find_memory_type(type_bits: u32, required: u32, memory_types: &Vec<MemoryType>) -> (found:
    Option<u32>)
    requires
        memory_types@.len() <= MAX_MEMORY_TYPES,
    ensures
        first_suitable_memory_type(type_bits, required, memory_types@, found),
{
    let mut i: u32 = 0;
    while (i as usize) < memory_types.len()
        invariant
            i <= memory_types@.len() <= 32,
            forall|j: int| 0 <= j < i ==> !memory_type_suits(type_bits, required, memory_types@, j),
        decreases memory_types@.len() - i,
    {
        let mask: u32 = 1u32 << i;
        if type_bits & mask != 0 && flags_contain(memory_types[i as usize].property_flags, required)
        {
            return Some(i);
        }
        i = i + 1;
    }
    None
}

/// Decides the allocation for a buffer: as large as the buffer requires, of
/// the first memory type that suits. There is none to fall back on.
pub fn plan_allocation(
    requirements: MemoryRequirements,
    required: u32,
    memory_types: &Vec<MemoryType>,
) -> (plan: Option<Allocation>)
    requires
        memory_types@.len() <= MAX_MEMORY_TYPES,
    ensures
        first_suitable_memory_type(
            requirements.memory_type_bits,
            required,
            memory_types@,
            match plan {
                Some(allocation) => Some(allocation.memory_type_index),
                None => None,
            },
        ),
        plan matches Some(allocation) ==> allocation.size == requirements.size,
{
    match find_memory_type(requirements.memory_type_bits, required, memory_types) {
        Some(index) => Some(Allocation { size: requirements.size, memory_type_index: index }),
        None => None,
    }
}

/// A buffer whose memory the host can map and write, with the memory it owns.
pub struct HostVisibleBuffer {
    pub name: String,
    pub vk_buffer: vk::Buffer,
    pub memory: vk::DeviceMemory,
    pub size: usize,
}

impl HostVisibleBuffer {
    /// The properties asked of the memory of such a buffer: the host can map
    /// it, and its writes reach the device without a flush.
    pub open spec fn memory_properties() -> u32 {
        MEMORY_HOST_VISIBLE | MEMORY_HOST_COHERENT
    }

    /// What to create for a buffer of `size` bytes with the given usage.
    pub fn request(size: usize, usage: u32) -> (r: BufferRequest)
        ensures
            r.size == size,
            r.usage == usage,
            r.memory_properties == Self::memory_properties(),
            r.exclusive,
    {
        BufferRequest {
            size: size as u64,
            usage,
            memory_properties: MEMORY_HOST_VISIBLE | MEMORY_HOST_COHERENT,
            exclusive: true,
        }
    }

    /// Takes ownership of a created buffer and of the memory bound to it.
    pub fn new(name: &str, size: usize, raw: RawBuffer) -> (buffer: HostVisibleBuffer)
        ensures
            buffer.name@ == name@,
            buffer.size == size,
            buffer.vk_buffer == raw.buffer,
            buffer.memory == raw.memory,
    {
        HostVisibleBuffer { name: name.to_owned(), vk_buffer: raw.buffer, memory: raw.memory, size }
    }

    /// The bytes that an upload maps: exactly those it writes.
    pub fn upload_range(&self, data_size: usize, offset: usize) -> (range: MemoryRange)
        requires
            offset + data_size <= self.size,
        ensures
            range.offset == offset,
            range.size == data_size,
    {
        MemoryRange { offset, size: data_size }
    }

    /// Copies `data` to byte `offset` of the buffer, through `mapped`, the
    /// mapping of the buffer's bytes from `mapped_from` on. The bytes written
    /// become equal to `data`; every other mapped byte keeps its value.
    pub fn upload_data(&self, mapped: &mut [u8], mapped_from: usize, data: &[u8], offset: usize)
        requires
            offset + data@.len() <= self.size,
            mapped_from <= offset,
            offset + data@.len() <= mapped_from + old(mapped)@.len(),
            mapped_from + old(mapped)@.len() <= self.size,
        ensures
            final(mapped)@ == uploaded(old(mapped)@, offset - mapped_from, data@),
    {
        let start = offset - mapped_from;
        let mapped_size = mapped.len();
        let mut i: usize = 0;
        while i < data.len()
            invariant
                i <= data@.len(),
                start + data@.len() <= mapped@.len() == mapped_size,
                mapped@.len() == old(mapped)@.len(),
                forall|k: int| 0 <= k < start ==> mapped@[k] == old(mapped)@[k],
                forall|k: int| start <= k < start + i ==> mapped@[k] == data@[k - start],
                forall|k: int| start + i <= k < mapped@.len() ==> mapped@[k] == old(mapped)@[k],
            decreases data@.len() - i,
        {
            mapped[start + i] = data[i];
            i = i + 1;
        }
        assert(mapped@ =~= uploaded(old(mapped)@, start as int, data@));
    }

    /// Lists what releases the buffer: the buffer first, since it refers to
    /// its memory, then the memory.
    pub fn release(&self) -> (commands: Vec<ReleaseCommand>)
        ensures
            commands@ == seq![
                ReleaseCommand::DestroyBuffer(self.vk_buffer),
                ReleaseCommand::FreeMemory(self.memory),
            ],
    {
        let mut commands: Vec<ReleaseCommand> = Vec::new();
        commands.push(ReleaseCommand::DestroyBuffer(self.vk_buffer));
        commands.push(ReleaseCommand::FreeMemory(self.memory));
        commands
    }
}

/// An upload changes the bytes it is given to write and no others: within the
/// written range the memory equals the data, outside it the memory is as
/// before, and its size is unchanged.
pub proof fn lemma_upload_writes_exactly_its_range(memory: Seq<u8>, at: int, data: Seq<u8>)
    requires
        0 <= at,
        at + data.len() <= memory.len(),
    ensures
        uploaded(memory, at, data).len() == memory.len(),
        forall|i: int| at <= i < at + data.len() ==> uploaded(memory, at, data)[i] == data[i - at],
        forall|i: int|
            0 <= i < at || at + data.len() <= i < memory.len() ==> uploaded(memory, at, data)[i]
                == memory[i],
{
}

/// A memory type is chosen exactly when one suits, and then it is the first
/// of those that do.
pub proof fn lemma_memory_type_found_iff_one_suits(
    type_bits: u32,
    required: u32,
    memory_types: Seq<MemoryType>,
    found: Option<u32>,
)
    requires
        first_suitable_memory_type(type_bits, required, memory_types, found),
    ensures
        found is Some <==> exists|j: int|
            0 <= j < memory_types.len() && memory_type_suits(type_bits, required, memory_types, j),
{
    if let Some(index) = found {
        assert(memory_type_suits(type_bits, required, memory_types, index as int));
    }
}

} // verus!
