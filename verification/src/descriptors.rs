//! The raw descriptor memory structure used by the DMA system to configure a
//! block transfer.
//!
//! A descriptor is the exact record the hardware fetches: a 16-bit control
//! word, a 16-bit beat count, the type-erased source and destination
//! addresses, and the address of the next descriptor in the chain (null for
//! the end of the chain). The control word packs the step size, the
//! step-selection, increment and validity flags, the beat size, the block
//! action and the event output selector at their hardware bit positions;
//! every accessor's contract is stated against the abstract
//! [`DescriptorView`] of that word.

use vstd::prelude::*;

use crate::types::BlockAction;
use crate::types::EventOutput;
use crate::types::StepSize;
use crate::types::lemma_block_action_round_trip;
use crate::types::lemma_event_output_round_trip;
use crate::types::lemma_step_size_round_trip;

verus! {

/// Validity bit of the control word.
pub const CTRL_VALID: u16 = 0x0001;

/// Event output selector field of the control word (two bits).
pub const CTRL_EVOSEL_MASK: u16 = 0x0006;

/// Block action field of the control word (two bits).
pub const CTRL_BLOCKACT_MASK: u16 = 0x0018;

/// Beat size field of the control word (two bits).
pub const CTRL_BEATSIZE_MASK: u16 = 0x0300;

/// Source address increment flag of the control word.
pub const CTRL_SRCINC: u16 = 0x0400;

/// Destination address increment flag of the control word.
pub const CTRL_DSTINC: u16 = 0x0800;

/// Step selection flag of the control word.
pub const CTRL_STEPSEL: u16 = 0x1000;

/// Step size field of the control word (three bits).
pub const CTRL_STEPSIZE_MASK: u16 = 0xE000;

/// The validity bit of a raw control word.
pub open spec fn ctrl_valid(b: u16) -> bool {
    b & CTRL_VALID != 0
}

/// The raw event output selector field of a control word.
pub open spec fn ctrl_evosel(b: u16) -> u16 {
    (b >> 1) & 3
}

/// The raw block action field of a control word.
pub open spec fn ctrl_blockact(b: u16) -> u16 {
    (b >> 3) & 3
}

/// The reserved bits of a control word, kept clear by this driver.
pub open spec fn ctrl_reserved(b: u16) -> u16 {
    (b >> 5) & 7
}

/// The raw beat size field of a control word.
pub open spec fn ctrl_beatsize(b: u16) -> u16 {
    (b >> 8) & 3
}

/// The source address increment flag of a raw control word.
pub open spec fn ctrl_srcinc(b: u16) -> bool {
    b & CTRL_SRCINC != 0
}

/// The destination address increment flag of a raw control word.
pub open spec fn ctrl_dstinc(b: u16) -> bool {
    b & CTRL_DSTINC != 0
}

/// The step selection flag of a raw control word.
pub open spec fn ctrl_stepsel(b: u16) -> bool {
    b & CTRL_STEPSEL != 0
}

/// The raw step size field of a control word.
pub open spec fn ctrl_stepsize(b: u16) -> u16 {
    (b >> 13) & 7
}

/// The abstract contents of a transfer descriptor: each packed field of the
/// control word by name, together with the count, address and link fields.
pub struct DescriptorView {
    /// Address advancement step applied on each beat.
    pub step_size: StepSize,
    /// True if the step size applies to the source address, false if it
    /// applies to the destination address.
    pub step_sel: bool,
    /// True if the destination address is incremented after each beat.
    pub dst_inc: bool,
    /// True if the source address is incremented after each beat.
    pub src_inc: bool,
    /// Raw beat size field; this driver leaves it at its reset value.
    pub beat_size: u16,
    /// Action taken when the block transfer completes.
    pub block_action: BlockAction,
    /// When EVSYS events are output during the transfer.
    pub event_output: EventOutput,
    /// Validity bit: the hardware only fetches valid descriptors.
    pub valid: bool,
    /// Number of beats in the block.
    pub count: u16,
    /// Type-erased source address.
    pub src: u32,
    /// Type-erased destination address.
    pub dst: u32,
    /// Address of the next descriptor of the chain, null for the end.
    pub link: u32,
}

/// The raw descriptor memory structure used by the DMA system to configure a
/// block transfer.
#[derive(Debug, Clone, Copy, PartialEq, Eq, Structural)]
pub struct TransferDescriptor {
    btctrl: u16,
    btcnt: u16,
    srcaddr: u32,
    dstaddr: u32,
    descaddr: u32,
}

impl View for TransferDescriptor {
    type V = DescriptorView;

    closed spec fn view(&self) -> DescriptorView {
        DescriptorView {
            step_size: StepSize::spec_from(ctrl_stepsize(self.btctrl)),
            step_sel: ctrl_stepsel(self.btctrl),
            dst_inc: ctrl_dstinc(self.btctrl),
            src_inc: ctrl_srcinc(self.btctrl),
            beat_size: ctrl_beatsize(self.btctrl),
            block_action: BlockAction::spec_from(ctrl_blockact(self.btctrl)),
            event_output: EventOutput::spec_from(ctrl_evosel(self.btctrl)),
            valid: ctrl_valid(self.btctrl),
            count: self.btcnt,
            src: self.srcaddr,
            dst: self.dstaddr,
            link: self.descaddr,
        }
    }
}

/// The view of an empty descriptor: every field zero or cleared, the link
/// null.
pub open spec fn empty_descriptor_view() -> DescriptorView {
    DescriptorView {
        step_size: StepSize::X1,
        step_sel: false,
        dst_inc: false,
        src_inc: false,
        beat_size: 0,
        block_action: BlockAction::NoAct,
        event_output: EventOutput::Disable,
        valid: false,
        count: 0,
        src: 0,
        dst: 0,
        link: 0,
    }
}

impl TransferDescriptor {
    /// Well-formedness of the control word: the reserved bits are clear and
    /// the event output selector holds one of its three defined encodings.
    /// The constructor establishes this and every accessor preserves it.
    pub closed spec fn wf(self) -> bool {
        ctrl_evosel(self.btctrl) != 2 && ctrl_reserved(self.btctrl) == 0
    }

    /// Create a new empty descriptor.
    pub fn new() -> (r: TransferDescriptor)
        ensures
            r@ == empty_descriptor_view(),
            r.wf(),
    {
        let r = TransferDescriptor { btctrl: 0, btcnt: 0, srcaddr: 0, dstaddr: 0, descaddr: 0 };
        proof {
            assert((0u16 >> 1) & 3 == 0 && (0u16 >> 3) & 3 == 0 && (0u16 >> 5) & 7 == 0
                && (0u16 >> 8) & 3 == 0 && (0u16 >> 13) & 7 == 0 && 0u16 & 0x0001u16 == 0
                && 0u16 & 0x0400u16 == 0 && 0u16 & 0x0800u16 == 0 && 0u16 & 0x1000u16 == 0)
                by (bit_vector);
        }
        r
    }

    /// Get the type-erased source address.
    pub fn get_src_addr(&self) -> (r: u32)
        ensures
            r == self@.src,
    {
        self.srcaddr
    }

    /// Get the type-erased destination address.
    pub fn get_dst_addr(&self) -> (r: u32)
        ensures
            r == self@.dst,
    {
        self.dstaddr
    }

    /// Get the address of the next linked descriptor, null if none.
    pub fn get_next_desc_addr(&self) -> (r: u32)
        ensures
            r == self@.link,
    {
        self.descaddr
    }

    /// Set the source address of the descriptor. This is a type-erased
    /// address.
    pub fn set_src_addr(&mut self, addr: u32)
        ensures
            final(self)@ == (DescriptorView { src: addr, ..old(self)@ }),
            final(self).wf() == old(self).wf(),
    {
        self.srcaddr = addr;
    }

    /// Set the destination address of the descriptor. This is a type-erased
    /// address.
    pub fn set_dst_addr(&mut self, addr: u32)
        ensures
            final(self)@ == (DescriptorView { dst: addr, ..old(self)@ }),
            final(self).wf() == old(self).wf(),
    {
        self.dstaddr = addr;
    }

    /// Mark the descriptor as valid.
    pub fn set_valid(&mut self)
        ensures
            final(self)@ == (DescriptorView { valid: true, ..old(self)@ }),
            final(self).wf() == old(self).wf(),
    {
        let ob = self.btctrl;
        self.btctrl = ob | CTRL_VALID;
        proof {
            let nb = self.btctrl;
            assert(nb & 0x0001u16 != 0 && (nb >> 1) & 3 == (ob >> 1) & 3
                && (nb >> 3) & 3 == (ob >> 3) & 3 && (nb >> 5) & 7 == (ob >> 5) & 7
                && (nb >> 8) & 3 == (ob >> 8) & 3 && nb & 0x0400u16 == ob & 0x0400u16
                && nb & 0x0800u16 == ob & 0x0800u16 && nb & 0x1000u16 == ob & 0x1000u16
                && (nb >> 13) & 7 == (ob >> 13) & 7)
                by (bit_vector)
                requires
                    nb == ob | 0x0001u16,
            ;
        }
    }

    /// Mark the descriptor as invalid.
    pub fn set_invalid(&mut self)
        ensures
            final(self)@ == (DescriptorView { valid: false, ..old(self)@ }),
            final(self).wf() == old(self).wf(),
    {
        let ob = self.btctrl;
        self.btctrl = ob & !CTRL_VALID;
        proof {
            let nb = self.btctrl;
            assert(nb & 0x0001u16 == 0 && (nb >> 1) & 3 == (ob >> 1) & 3
                && (nb >> 3) & 3 == (ob >> 3) & 3 && (nb >> 5) & 7 == (ob >> 5) & 7
                && (nb >> 8) & 3 == (ob >> 8) & 3 && nb & 0x0400u16 == ob & 0x0400u16
                && nb & 0x0800u16 == ob & 0x0800u16 && nb & 0x1000u16 == ob & 0x1000u16
                && (nb >> 13) & 7 == (ob >> 13) & 7)
                by (bit_vector)
                requires
                    nb == ob & !0x0001u16,
            ;
        }
    }

    /// Return the value of the valid bit.
    pub fn is_valid(&self) -> (r: bool)
        ensures
            r == self@.valid,
    {
        self.btctrl & CTRL_VALID != 0
    }

    /// Set the block count for the descriptor.
    pub fn set_block_count(&mut self, block_count: u16)
        ensures
            final(self)@ == (DescriptorView { count: block_count, ..old(self)@ }),
            final(self).wf() == old(self).wf(),
    {
        self.btcnt = block_count;
    }

    /// Get the configured block transfer count.
    pub fn get_block_transfer_count(&self) -> (r: u16)
        ensures
            r == self@.count,
    {
        self.btcnt
    }

    /// Get the step size of the descriptor.
    pub fn get_step_size(&self) -> (r: StepSize)
        ensures
            r == self@.step_size,
    {
        let raw = (self.btctrl >> 13) & 7;
        proof {
            let b = self.btctrl;
            assert((b >> 13) & 7 < 8) by (bit_vector);
        }
        StepSize::from(raw)
    }

    /// Set the step size for the descriptor.
    pub fn set_step_size(&mut self, step_size: StepSize)
        ensures
            final(self)@ == (DescriptorView { step_size: step_size, ..old(self)@ }),
            final(self).wf() == old(self).wf(),
    {
        let vb = step_size.bits();
        let ob = self.btctrl;
        self.btctrl = (ob & !CTRL_STEPSIZE_MASK) | ((vb as u16) << 13);
        proof {
            let nb = self.btctrl;
            assert((nb >> 13) & 7 == vb as u16 && nb & 0x0001u16 == ob & 0x0001u16
                && (nb >> 1) & 3 == (ob >> 1) & 3 && (nb >> 3) & 3 == (ob >> 3) & 3
                && (nb >> 5) & 7 == (ob >> 5) & 7 && (nb >> 8) & 3 == (ob >> 8) & 3
                && nb & 0x0400u16 == ob & 0x0400u16 && nb & 0x0800u16 == ob & 0x0800u16
                && nb & 0x1000u16 == ob & 0x1000u16)
                by (bit_vector)
                requires
                    nb == (ob & !0xE000u16) | ((vb as u16) << 13),
                    vb < 8,
            ;
            lemma_step_size_round_trip(step_size);
        }
    }

    /// Get which address is incremented with the descriptor's step size, if
    /// enabled.
    ///
    /// Returns `true` if the source address is incremented, `false` if the
    /// destination address is incremented.
    pub fn get_step_selection(&self) -> (r: bool)
        ensures
            r == self@.step_sel,
    {
        self.btctrl & CTRL_STEPSEL != 0
    }

    /// Set which address is incremented with the descriptor's step size, if
    /// enabled.
    ///
    /// `true` will increment the source address by the step size, `false`
    /// will increment the destination address by the step size.
    pub fn set_step_selection(&mut self, step_sel: bool)
        ensures
            final(self)@ == (DescriptorView { step_sel: step_sel, ..old(self)@ }),
            final(self).wf() == old(self).wf(),
    {
        let ob = self.btctrl;
        if step_sel {
            self.btctrl = ob | CTRL_STEPSEL;
            proof {
                let nb = self.btctrl;
                assert(nb & 0x1000u16 != 0 && nb & 0x0001u16 == ob & 0x0001u16
                    && (nb >> 1) & 3 == (ob >> 1) & 3 && (nb >> 3) & 3 == (ob >> 3) & 3
                    && (nb >> 5) & 7 == (ob >> 5) & 7 && (nb >> 8) & 3 == (ob >> 8) & 3
                    && nb & 0x0400u16 == ob & 0x0400u16 && nb & 0x0800u16 == ob & 0x0800u16
                    && (nb >> 13) & 7 == (ob >> 13) & 7)
                    by (bit_vector)
                    requires
                        nb == ob | 0x1000u16,
                ;
            }
        } else {
            self.btctrl = ob & !CTRL_STEPSEL;
            proof {
                let nb = self.btctrl;
                assert(nb & 0x1000u16 == 0 && nb & 0x0001u16 == ob & 0x0001u16
                    && (nb >> 1) & 3 == (ob >> 1) & 3 && (nb >> 3) & 3 == (ob >> 3) & 3
                    && (nb >> 5) & 7 == (ob >> 5) & 7 && (nb >> 8) & 3 == (ob >> 8) & 3
                    && nb & 0x0400u16 == ob & 0x0400u16 && nb & 0x0800u16 == ob & 0x0800u16
                    && (nb >> 13) & 7 == (ob >> 13) & 7)
                    by (bit_vector)
                    requires
                        nb == ob & !0x1000u16,
                ;
            }
        }
    }

    /// Get whether the destination address is incremented after each beat
    /// transfer.
    pub fn get_dest_addr_increment(&self) -> (r: bool)
        ensures
            r == self@.dst_inc,
    {
        self.btctrl & CTRL_DSTINC != 0
    }

    /// Set whether the destination address is incremented after each beat
    /// transfer.
    pub fn set_dest_addr_increment(&mut self, increment: bool)
        ensures
            final(self)@ == (DescriptorView { dst_inc: increment, ..old(self)@ }),
            final(self).wf() == old(self).wf(),
    {
        let ob = self.btctrl;
        if increment {
            self.btctrl = ob | CTRL_DSTINC;
            proof {
                let nb = self.btctrl;
                assert(nb & 0x0800u16 != 0 && nb & 0x0001u16 == ob & 0x0001u16
                    && (nb >> 1) & 3 == (ob >> 1) & 3 && (nb >> 3) & 3 == (ob >> 3) & 3
                    && (nb >> 5) & 7 == (ob >> 5) & 7 && (nb >> 8) & 3 == (ob >> 8) & 3
                    && nb & 0x0400u16 == ob & 0x0400u16 && nb & 0x1000u16 == ob & 0x1000u16
                    && (nb >> 13) & 7 == (ob >> 13) & 7)
                    by (bit_vector)
                    requires
                        nb == ob | 0x0800u16,
                ;
            }
        } else {
            self.btctrl = ob & !CTRL_DSTINC;
            proof {
                let nb = self.btctrl;
                assert(nb & 0x0800u16 == 0 && nb & 0x0001u16 == ob & 0x0001u16
                    && (nb >> 1) & 3 == (ob >> 1) & 3 && (nb >> 3) & 3 == (ob >> 3) & 3
                    && (nb >> 5) & 7 == (ob >> 5) & 7 && (nb >> 8) & 3 == (ob >> 8) & 3
                    && nb & 0x0400u16 == ob & 0x0400u16 && nb & 0x1000u16 == ob & 0x1000u16
                    && (nb >> 13) & 7 == (ob >> 13) & 7)
                    by (bit_vector)
                    requires
                        nb == ob & !0x0800u16,
                ;
            }
        }
    }

    /// Get whether the source address is incremented after each beat
    /// transfer.
    pub fn get_src_addr_increment(&self) -> (r: bool)
        ensures
            r == self@.src_inc,
    {
        self.btctrl & CTRL_SRCINC != 0
    }

    /// Set whether the source address is incremented after each beat
    /// transfer.
    pub fn set_src_addr_increment(&mut self, increment: bool)
        ensures
            final(self)@ == (DescriptorView { src_inc: increment, ..old(self)@ }),
            final(self).wf() == old(self).wf(),
    {
        let ob = self.btctrl;
        if increment {
            self.btctrl = ob | CTRL_SRCINC;
            proof {
                let nb = self.btctrl;
                assert(nb & 0x0400u16 != 0 && nb & 0x0001u16 == ob & 0x0001u16
                    && (nb >> 1) & 3 == (ob >> 1) & 3 && (nb >> 3) & 3 == (ob >> 3) & 3
                    && (nb >> 5) & 7 == (ob >> 5) & 7 && (nb >> 8) & 3 == (ob >> 8) & 3
                    && nb & 0x0800u16 == ob & 0x0800u16 && nb & 0x1000u16 == ob & 0x1000u16
                    && (nb >> 13) & 7 == (ob >> 13) & 7)
                    by (bit_vector)
                    requires
                        nb == ob | 0x0400u16,
                ;
            }
        } else {
            self.btctrl = ob & !CTRL_SRCINC;
            proof {
                let nb = self.btctrl;
                assert(nb & 0x0400u16 == 0 && nb & 0x0001u16 == ob & 0x0001u16
                    && (nb >> 1) & 3 == (ob >> 1) & 3 && (nb >> 3) & 3 == (ob >> 3) & 3
                    && (nb >> 5) & 7 == (ob >> 5) & 7 && (nb >> 8) & 3 == (ob >> 8) & 3
                    && nb & 0x0800u16 == ob & 0x0800u16 && nb & 0x1000u16 == ob & 0x1000u16
                    && (nb >> 13) & 7 == (ob >> 13) & 7)
                    by (bit_vector)
                    requires
                        nb == ob & !0x0400u16,
                ;
            }
        }
    }

    /// Get the action taken after this block transfer completes.
    pub fn get_block_action(&self) -> (r: BlockAction)
        ensures
            r == self@.block_action,
    {
        let raw = (self.btctrl >> 3) & 3;
        proof {
            let b = self.btctrl;
            assert((b >> 3) & 3 < 4) by (bit_vector);
        }
        BlockAction::from(raw)
    }

    /// Set the action taken after this block transfer completes.
    pub fn set_block_action(&mut self, block_action: BlockAction)
        ensures
            final(self)@ == (DescriptorView { block_action: block_action, ..old(self)@ }),
            final(self).wf() == old(self).wf(),
    {
        let vb = block_action.bits();
        let ob = self.btctrl;
        self.btctrl = (ob & !CTRL_BLOCKACT_MASK) | ((vb as u16) << 3);
        proof {
            let nb = self.btctrl;
            assert((nb >> 3) & 3 == vb as u16 && nb & 0x0001u16 == ob & 0x0001u16
                && (nb >> 1) & 3 == (ob >> 1) & 3 && (nb >> 5) & 7 == (ob >> 5) & 7
                && (nb >> 8) & 3 == (ob >> 8) & 3 && nb & 0x0400u16 == ob & 0x0400u16
                && nb & 0x0800u16 == ob & 0x0800u16 && nb & 0x1000u16 == ob & 0x1000u16
                && (nb >> 13) & 7 == (ob >> 13) & 7)
                by (bit_vector)
                requires
                    nb == (ob & !0x0018u16) | ((vb as u16) << 3),
                    vb < 4,
            ;
            lemma_block_action_round_trip(block_action);
        }
    }

    /// Get the trigger that causes the transfer to output an event.
    pub fn get_event_output(&self) -> (r: EventOutput)
        requires
            self.wf(),
        ensures
            r == self@.event_output,
    {
        let raw = (self.btctrl >> 1) & 3;
        proof {
            let b = self.btctrl;
            assert((b >> 1) & 3 < 4) by (bit_vector);
        }
        EventOutput::from(raw)
    }

    /// Set the trigger that causes the transfer to output an event.
    pub fn set_event_output(&mut self, event_output: EventOutput)
        ensures
            final(self)@ == (DescriptorView { event_output: event_output, ..old(self)@ }),
            old(self).wf() ==> final(self).wf(),
    {
        let vb = event_output.bits();
        let ob = self.btctrl;
        self.btctrl = (ob & !CTRL_EVOSEL_MASK) | ((vb as u16) << 1);
        proof {
            let nb = self.btctrl;
            assert((nb >> 1) & 3 == vb as u16 && nb & 0x0001u16 == ob & 0x0001u16
                && (nb >> 3) & 3 == (ob >> 3) & 3 && (nb >> 5) & 7 == (ob >> 5) & 7
                && (nb >> 8) & 3 == (ob >> 8) & 3 && nb & 0x0400u16 == ob & 0x0400u16
                && nb & 0x0800u16 == ob & 0x0800u16 && nb & 0x1000u16 == ob & 0x1000u16
                && (nb >> 13) & 7 == (ob >> 13) & 7)
                by (bit_vector)
                requires
                    nb == (ob & !0x0006u16) | ((vb as u16) << 1),
                    vb < 4,
            ;
            lemma_event_output_round_trip(event_output);
        }
    }

    /// Link a transfer descriptor to execute after this descriptor, by its
    /// address. The link takes no ownership: the caller must guarantee the
    /// linked descriptor's memory outlives the hardware's traversal.
    pub fn link_descriptor(&mut self, next: u32)
        ensures
            final(self)@ == (DescriptorView { link: next, ..old(self)@ }),
            final(self).wf() == old(self).wf(),
    {
        self.descaddr = next;
    }

    /// Unlink the next transfer descriptor, returning its address (which may
    /// be null) and leaving this descriptor's link null.
    pub fn unlink_descriptor(&mut self) -> (r: u32)
        ensures
            r == old(self)@.link,
            final(self)@ == (DescriptorView { link: 0, ..old(self)@ }),
            final(self).wf() == old(self).wf(),
    {
        let next = self.descaddr;
        self.descaddr = 0;
        next
    }
}

impl Default for TransferDescriptor {
    /// An empty descriptor: every field zero, the validity bit clear, the
    /// link null.
    fn default() -> (r: TransferDescriptor)
        ensures
            r@ == empty_descriptor_view(),
            r.wf(),
    {
        TransferDescriptor::new()
    }
}

/// The validity bit is independent of every other field: a descriptor whose
/// view differs from another's in a single field other than `valid` reads
/// back the same validity bit.
pub proof fn lemma_valid_bit_independent(pre: DescriptorView, post: DescriptorView)
    requires
        post == (DescriptorView { step_size: post.step_size, ..pre })
            || post == (DescriptorView { step_sel: post.step_sel, ..pre })
            || post == (DescriptorView { dst_inc: post.dst_inc, ..pre })
            || post == (DescriptorView { src_inc: post.src_inc, ..pre })
            || post == (DescriptorView { block_action: post.block_action, ..pre })
            || post == (DescriptorView { event_output: post.event_output, ..pre })
            || post == (DescriptorView { count: post.count, ..pre })
            || post == (DescriptorView { src: post.src, ..pre })
            || post == (DescriptorView { dst: post.dst, ..pre })
            || post == (DescriptorView { link: post.link, ..pre }),
    ensures
        post.valid == pre.valid,
{
}

/// Linking a descriptor and then unlinking returns the linked address and
/// leaves the link null, whatever else the descriptor holds.
pub proof fn lemma_link_then_unlink(w: DescriptorView, next: u32)
    ensures
        (DescriptorView { link: next, ..w }).link == next,
        (DescriptorView { link: 0, ..(DescriptorView { link: next, ..w }) }) == (DescriptorView {
            link: 0,
            ..w
        }),
{
}

} // verus!
