//! Storage for the DMA system's base and write-back descriptor memory.
//!
//! The DMA system requires two parallel blocks of memory, one holding the
//! first descriptor and one the write-back descriptor of each channel, both
//! 16-byte aligned and registered with the controller exactly once. A
//! [`DescriptorStorage`] models such a pair of blocks: it holds the
//! descriptor records themselves together with the two base addresses the
//! blocks are placed at, and descriptor `i` of a block lives 16 bytes per
//! channel above its base address.

use vstd::prelude::*;

use crate::descriptors::TransferDescriptor;
use crate::descriptors::empty_descriptor_view;

verus! {

/// The maximum number of channels a storage unit can serve.
pub const MAX_CHANNELS: u8 = 32;

/// Size in bytes of one transfer descriptor record.
pub const DESCRIPTOR_SIZE: u32 = 16;

/// The pair of descriptor memory blocks backing a DMA controller: the base
/// block holding each channel's first descriptor and the write-back block
/// the hardware updates while a channel runs.
pub struct DescriptorStorage {
    base: Vec<TransferDescriptor>,
    write_back: Vec<TransferDescriptor>,
    base_addr: u32,
    wb_addr: u32,
}

impl DescriptorStorage {
    /// The number of channels this storage unit serves.
    pub closed spec fn spec_len(self) -> u8 {
        self.base@.len() as u8
    }

    /// The address the base block is placed at.
    pub closed spec fn spec_base_addr(self) -> u32 {
        self.base_addr
    }

    /// The address the write-back block is placed at.
    pub closed spec fn spec_wb_addr(self) -> u32 {
        self.wb_addr
    }

    /// The first descriptors, one per channel.
    pub closed spec fn spec_base_descs(self) -> Seq<TransferDescriptor> {
        self.base@
    }

    /// The write-back descriptors, one per channel.
    pub closed spec fn spec_wb_descs(self) -> Seq<TransferDescriptor> {
        self.write_back@
    }

    /// Well-formedness: the two blocks are of equal length, one descriptor
    /// per channel for 1 to 32 channels; both are 16-byte aligned; and both
    /// fit below the top of the 32-bit address space.
    pub open spec fn wf(self) -> bool {
        &&& 1 <= self.spec_len() <= MAX_CHANNELS
        &&& self.spec_base_descs().len() == self.spec_len() as int
        &&& self.spec_wb_descs().len() == self.spec_len() as int
        &&& self.spec_base_addr() % DESCRIPTOR_SIZE == 0
        &&& self.spec_wb_addr() % DESCRIPTOR_SIZE == 0
        &&& self.spec_base_addr() + DESCRIPTOR_SIZE * self.spec_len() <= u32::MAX + 1
        &&& self.spec_wb_addr() + DESCRIPTOR_SIZE * self.spec_len() <= u32::MAX + 1
    }

    /// Allocate storage for `n` channels, placed at the given 16-byte
    /// aligned base and write-back addresses, with every descriptor empty.
    pub fn new(n: u8, base_addr: u32, wb_addr: u32) -> (r: DescriptorStorage)
        requires
            1 <= n <= MAX_CHANNELS,
            base_addr % DESCRIPTOR_SIZE == 0,
            wb_addr % DESCRIPTOR_SIZE == 0,
            base_addr + DESCRIPTOR_SIZE * n <= u32::MAX + 1,
            wb_addr + DESCRIPTOR_SIZE * n <= u32::MAX + 1,
        ensures
            r.wf(),
            r.spec_len() == n,
            r.spec_base_addr() == base_addr,
            r.spec_wb_addr() == wb_addr,
            forall|i: int|
                0 <= i < n ==> #[trigger] r.spec_base_descs()[i]@ == empty_descriptor_view()
                    && r.spec_base_descs()[i].wf(),
            forall|i: int|
                0 <= i < n ==> #[trigger] r.spec_wb_descs()[i]@ == empty_descriptor_view()
                    && r.spec_wb_descs()[i].wf(),
    {
        let mut base: Vec<TransferDescriptor> = Vec::new();
        let mut write_back: Vec<TransferDescriptor> = Vec::new();
        let mut i: u8 = 0;
        while i < n
            invariant
                i <= n,
                base@.len() == i,
                write_back@.len() == i,
                forall|j: int|
                    0 <= j < i ==> #[trigger] base@[j]@ == empty_descriptor_view()
                        && base@[j].wf(),
                forall|j: int|
                    0 <= j < i ==> #[trigger] write_back@[j]@ == empty_descriptor_view()
                        && write_back@[j].wf(),
            decreases n - i,
        {
            base.push(TransferDescriptor::new());
            write_back.push(TransferDescriptor::new());
            i += 1;
        }
        DescriptorStorage { base, write_back, base_addr, wb_addr }
    }

    /// The address of the base block, as registered with the controller.
    pub fn baseaddr(&self) -> (r: u32)
        ensures
            r == self.spec_base_addr(),
    {
        self.base_addr
    }

    /// The address of the write-back block, as registered with the
    /// controller.
    pub fn wbaddr(&self) -> (r: u32)
        ensures
            r == self.spec_wb_addr(),
    {
        self.wb_addr
    }

    /// The number of channels this storage unit serves.
    pub fn channel_count(&self) -> (r: u8)
        requires
            self.wf(),
        ensures
            r == self.spec_len(),
    {
        self.base.len() as u8
    }

    /// Take the storage apart, getting back the base and write-back
    /// descriptor blocks.
    pub fn into_inner(self) -> (r: (Vec<TransferDescriptor>, Vec<TransferDescriptor>))
        ensures
            r.0@ == self.spec_base_descs(),
            r.1@ == self.spec_wb_descs(),
    {
        (self.base, self.write_back)
    }

    /// A mutable reference to the first descriptor of the channel with the
    /// given identifier.
    pub(crate) fn first_descriptor_mut(&mut self, id: u8) -> (r: &mut TransferDescriptor)
        requires
            old(self).wf(),
            id < old(self).spec_len(),
        ensures
            *r == old(self).spec_base_descs()[id as int],
            final(self).spec_base_descs() == old(self).spec_base_descs().update(
                id as int,
                *final(r),
            ),
            final(self).spec_wb_descs() == old(self).spec_wb_descs(),
            final(self).spec_base_addr() == old(self).spec_base_addr(),
            final(self).spec_wb_addr() == old(self).spec_wb_addr(),
            final(self).spec_len() == old(self).spec_len(),
            final(self).wf(),
    {
        &mut self.base[id as usize]
    }
}

} // verus!
