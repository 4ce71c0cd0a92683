//! Driver model for the descriptor-based DMA engine of the SAM family of
//! micro-controllers.
//!
//! The driver is organised around four pieces: the [`TransferDescriptor`]
//! record that the hardware fetches to learn about one block transfer, the
//! [`DescriptorStorage`] arena holding the per-channel first and write-back
//! descriptors, the [`Channel`] operations on one channel's register bank,
//! and the [`DMAController`] that owns the storage and hands out channels
//! from a bitmask of available identifiers.
//!
//! The memory-mapped register block is modelled by [`DmacRegisters`], a
//! record of plain register values that every operation takes explicitly: it
//! stands for the hardware the driver talks to, and each operation's
//! contract states exactly which registers it reads and writes.
//!
//! The driver serialises nothing: per-channel command registers and the
//! shared software-trigger register are hardware-shared resources, and
//! calling channel-mutating operations from execution contexts that can
//! preempt one another is the caller's responsibility to avoid.

use vstd::prelude::*;

pub mod channel;
pub mod descriptors;
pub mod registers;
pub mod storage;
pub mod types;

pub use channel::Channel;
pub use channel::TransactionError;
pub use channel::WaitResult;
pub use descriptors::TransferDescriptor;
pub use registers::DmacRegisters;
pub use storage::DescriptorStorage;

use crate::registers::ACTIVE_ABUSY;
use crate::registers::CTRL_DMAENABLE;
use crate::registers::CTRL_LVLEN0;
use crate::registers::DBGCTRL_DBGRUN;
use crate::registers::INTPEND_BUSY;
use crate::registers::INTPEND_CRCERR;
use crate::registers::INTPEND_FERR;
use crate::registers::INTPEND_ID_MASK;
use crate::registers::INTPEND_PEND;
use crate::registers::reset_channel_registers;
use crate::registers::same_global_registers;
use crate::storage::DESCRIPTOR_SIZE;
use crate::storage::MAX_CHANNELS;
use crate::types::Channels;
use crate::types::Interrupts;
use crate::types::Priority;
use crate::types::QoS;
use crate::types::Status;

verus! {

/// Bitmask with the low `n` bits set: the availability mask right after the
/// controller is initialised with `n` channels.
pub open spec fn all_available_mask(n: u8) -> u32
    recommends
        1 <= n <= 32,
{
    0xFFFF_FFFFu32 >> ((32 - n) as u32)
}

/// True if the availability mask marks the channel with the given
/// identifier as free to take.
pub open spec fn channel_available(mask: u32, id: u8) -> bool {
    mask & (1u32 << (id as u32)) != 0
}

/// The availability mask after the channel with the given identifier is
/// taken: its bit cleared.
pub open spec fn mask_take(mask: u32, id: u8) -> u32 {
    mask & !(1u32 << (id as u32))
}

/// The availability mask after the channel with the given identifier is
/// returned: its bit set.
pub open spec fn mask_give(mask: u32, id: u8) -> u32 {
    mask | (1u32 << (id as u32))
}

/// Every channel identifier below the channel count is available right after
/// initialisation, and every identifier at or above it is not: the initial
/// mask has exactly the low `n` bits set.
pub proof fn lemma_init_mask_low_bits(n: u8, id: u8)
    requires
        1 <= n <= 32,
        id < 32,
    ensures
        id < n ==> channel_available(all_available_mask(n), id),
        id >= n ==> !channel_available(all_available_mask(n), id),
{
    assert(id < n ==> (0xFFFF_FFFFu32 >> ((32 - n) as u32)) & (1u32 << (id as u32)) != 0)
        by (bit_vector)
        requires
            1 <= n <= 32,
            id < 32,
    ;
    assert(id >= n ==> (0xFFFF_FFFFu32 >> ((32 - n) as u32)) & (1u32 << (id as u32)) == 0)
        by (bit_vector)
        requires
            1 <= n <= 32,
            id < 32,
    ;
}

/// Taking a channel clears its availability bit, so a second take of the
/// same identifier before any return finds the channel unavailable.
pub proof fn lemma_take_twice_unavailable(mask: u32, id: u8)
    requires
        id < 32,
    ensures
        !channel_available(mask_take(mask, id), id),
{
    assert((mask & !(1u32 << (id as u32))) & (1u32 << (id as u32)) == 0) by (bit_vector);
}

/// Returning a channel sets its availability bit, so a take of the same
/// identifier right after a return succeeds.
pub proof fn lemma_return_then_take_available(mask: u32, id: u8)
    requires
        id < 32,
    ensures
        channel_available(mask_give(mask, id), id),
{
    assert((mask | (1u32 << (id as u32))) & (1u32 << (id as u32)) != 0) by (bit_vector)
        requires
            id < 32,
    ;
}

/// The descriptor addresses of a taken channel are a function of the
/// storage placement and the identifier alone: any two channels allocated
/// for the same identifier out of the same storage reference the same first
/// and write-back descriptor addresses. Taking and returning channels never
/// moves the storage, so a channel taken again after a return references
/// the addresses originally allocated for its identifier.
pub proof fn lemma_retaken_channel_same_addresses(
    c1: Channel,
    c2: Channel,
    storage: DescriptorStorage,
    id: u8,
)
    requires
        c1.spec_id() == id,
        c2.spec_id() == id,
        c1.spec_first_desc_addr() == storage.spec_base_addr() + DESCRIPTOR_SIZE * (id as u32),
        c2.spec_first_desc_addr() == storage.spec_base_addr() + DESCRIPTOR_SIZE * (id as u32),
        c1.spec_writeback_addr() == storage.spec_wb_addr() + DESCRIPTOR_SIZE * (id as u32),
        c2.spec_writeback_addr() == storage.spec_wb_addr() + DESCRIPTOR_SIZE * (id as u32),
    ensures
        c1.spec_first_desc_addr() == c2.spec_first_desc_addr(),
        c1.spec_writeback_addr() == c2.spec_writeback_addr(),
{
}

/// The channel identifier field of the interrupt-pending register.
pub open spec fn intpend_id(r: u16) -> u8 {
    (r & INTPEND_ID_MASK) as u8
}

/// The three interrupt flags of the interrupt-pending register.
pub open spec fn intpend_flags(r: u16) -> u8 {
    ((r >> 8) & 7) as u8
}

/// The channel status the interrupt-pending register's composed status bits
/// decode to, in the hardware's priority order: pending before busy before
/// fetch error before CRC error; none of them means no reportable status.
pub open spec fn spec_pending_status(r: u16) -> Option<Status> {
    if r & INTPEND_PEND != 0 {
        Some(Status::Pending)
    } else if r & INTPEND_BUSY != 0 {
        Some(Status::Busy)
    } else if r & INTPEND_FERR != 0 {
        Some(Status::FetchError)
    } else if r & INTPEND_CRCERR != 0 {
        Some(Status::CRCError)
    } else {
        None
    }
}

/// The enable bit of the given priority level in the global control
/// register.
pub open spec fn lvlen_mask(level: Priority) -> u16 {
    CTRL_LVLEN0 << level.spec_bits()
}

/// The bit of the given priority level in the active channel and levels
/// register.
pub open spec fn lvlex_mask(level: Priority) -> u32 {
    1u32 << level.spec_bits()
}

/// Position of the given priority level's QoS field in the priority control
/// register.
pub open spec fn qos_shift(level: Priority) -> u32 {
    (8 * level.spec_bits() + 5) as u32
}

/// The raw QoS field of the given priority level in the priority control
/// register.
pub open spec fn prictrl0_qos(r: u32, level: Priority) -> u8 {
    ((r >> qos_shift(level)) & 3) as u8
}

/// The round-robin scheduling bit of the given priority level in the
/// priority control register.
pub open spec fn rr_mask(level: Priority) -> u32 {
    1u32 << ((8 * level.spec_bits() + 7) as u32)
}

/// The data transfer QoS field of the QoS control register.
pub open spec fn qosctrl_dqos(r: u8) -> u8 {
    (r >> 4) & 3
}

/// The descriptor fetch QoS field of the QoS control register.
pub open spec fn qosctrl_fqos(r: u8) -> u8 {
    (r >> 2) & 3
}

/// The write-back QoS field of the QoS control register.
pub open spec fn qosctrl_wrbqos(r: u8) -> u8 {
    r & 3
}

/// The identifier field of the active channel and levels register.
pub open spec fn active_id(r: u32) -> u8 {
    ((r >> 8) & 0x1F) as u8
}

/// The block transfer count field of the active channel and levels
/// register.
pub open spec fn active_btcnt(r: u32) -> u16 {
    (r >> 16) as u16
}

/// DMA system controller.
///
/// Owns the descriptor storage and the bitmask of available channel
/// identifiers, distributes channels, and drives the higher-level operations
/// of the DMA system. A set bit of the availability mask means the channel
/// is currently free to take; the controller hands out at most one live
/// [`Channel`] per identifier, which is the system's one mutual-exclusion
/// invariant.
pub struct DMAController {
    channels: u32,
    n_channels: u8,
    storage: DescriptorStorage,
}

impl DMAController {
    /// The availability mask: bit set means the channel is free to take.
    pub closed spec fn spec_available_mask(self) -> u32 {
        self.channels
    }

    /// The number of channels the controller manages.
    pub closed spec fn spec_n_channels(self) -> u8 {
        self.n_channels
    }

    /// The descriptor storage the controller owns.
    pub closed spec fn spec_storage(self) -> DescriptorStorage {
        self.storage
    }

    /// Well-formedness: the storage is well-formed and serves exactly the
    /// managed channels.
    pub open spec fn wf(self) -> bool {
        &&& 1 <= self.spec_n_channels() <= MAX_CHANNELS
        &&& self.spec_storage().wf()
        &&& self.spec_storage().spec_len() == self.spec_n_channels()
    }

    /// Initialise the DMA controller with the given storage: the storage's
    /// base and write-back addresses are bound into the global address
    /// registers, and every channel the storage serves starts out
    /// available.
    pub fn init(dmac: &mut DmacRegisters, storage: DescriptorStorage) -> (c: DMAController)
        requires
            old(dmac).wf(),
            storage.wf(),
        ensures
            c.wf(),
            c.spec_n_channels() == storage.spec_len(),
            c.spec_available_mask() == all_available_mask(storage.spec_len()),
            c.spec_storage() == storage,
            final(dmac).wf(),
            *final(dmac) == (DmacRegisters {
                baseaddr: storage.spec_base_addr(),
                wrbaddr: storage.spec_wb_addr(),
                ..*old(dmac)
            }),
    {
        let n = storage.channel_count();
        dmac.baseaddr = storage.baseaddr();
        dmac.wrbaddr = storage.wbaddr();
        let mask = 0xFFFF_FFFFu32 >> ((32 - n) as u32);
        DMAController { channels: mask, n_channels: n, storage }
    }

    /// Disable the DMA system. This aborts any ongoing DMA transactions;
    /// the system is not fully disabled until any ongoing burst transfer
    /// completes.
    pub fn disable(&mut self, dmac: &mut DmacRegisters)
        requires
            old(dmac).wf(),
        ensures
            final(dmac).wf(),
            *final(dmac) == (DmacRegisters {
                ctrl: old(dmac).ctrl & !CTRL_DMAENABLE,
                ..*old(dmac)
            }),
            *final(self) == *old(self),
    {
        dmac.ctrl = dmac.ctrl & !CTRL_DMAENABLE;
    }

    /// Enable the DMA system.
    pub fn enable(&mut self, dmac: &mut DmacRegisters)
        requires
            old(dmac).wf(),
        ensures
            final(dmac).wf(),
            *final(dmac) == (DmacRegisters {
                ctrl: old(dmac).ctrl | CTRL_DMAENABLE,
                ..*old(dmac)
            }),
            *final(self) == *old(self),
    {
        dmac.ctrl = dmac.ctrl | CTRL_DMAENABLE;
    }

    /// Returns true if the DMA system is enabled.
    pub fn is_enabled(&self, dmac: &DmacRegisters) -> (r: bool)
        ensures
            r == (dmac.ctrl & CTRL_DMAENABLE != 0),
    {
        dmac.ctrl & CTRL_DMAENABLE != 0
    }

    /// Get the value of the "Run While Debug" setting.
    pub fn get_run_while_debug(&self, dmac: &DmacRegisters) -> (r: bool)
        ensures
            r == (dmac.dbgctrl & DBGCTRL_DBGRUN != 0),
    {
        dmac.dbgctrl & DBGCTRL_DBGRUN != 0
    }

    /// Set the value of the "Run While Debug" setting.
    pub fn set_run_while_debug(&mut self, dmac: &mut DmacRegisters, val: bool)
        requires
            old(dmac).wf(),
        ensures
            final(dmac).wf(),
            *final(dmac) == (DmacRegisters {
                dbgctrl: if val {
                    DBGCTRL_DBGRUN
                } else {
                    0u8
                },
                ..*old(dmac)
            }),
            *final(self) == *old(self),
    {
        dmac.dbgctrl = if val {
            DBGCTRL_DBGRUN
        } else {
            0
        };
    }

    /// Take a DMA channel. If the channel has already been taken, `None` is
    /// returned; otherwise the channel's availability bit is cleared and a
    /// handle referencing the channel's first and write-back descriptor
    /// addresses is handed out. Without a later `return_channel`, the
    /// channel can never be taken again.
    pub fn take_channel(&mut self, id: u8) -> (r: Option<Channel>)
        requires
            old(self).wf(),
            id < old(self).spec_n_channels(),
        ensures
            final(self).wf(),
            final(self).spec_n_channels() == old(self).spec_n_channels(),
            final(self).spec_storage() == old(self).spec_storage(),
            r is Some <==> channel_available(old(self).spec_available_mask(), id),
            r is Some ==> final(self).spec_available_mask() == mask_take(
                old(self).spec_available_mask(),
                id,
            ),
            r is None ==> *final(self) == *old(self),
            r matches Some(ch) ==> ch.spec_id() == id && ch.spec_first_desc_addr() == old(
                self,
            ).spec_storage().spec_base_addr() + DESCRIPTOR_SIZE * (id as u32)
                && ch.spec_writeback_addr() == old(self).spec_storage().spec_wb_addr()
                + DESCRIPTOR_SIZE * (id as u32),
    {
        if self.channels & (1u32 << (id as u32)) == 0 {
            None
        } else {
            self.channels = self.channels & !(1u32 << (id as u32));
            let first = self.storage.baseaddr() + DESCRIPTOR_SIZE * (id as u32);
            let wb = self.storage.wbaddr() + DESCRIPTOR_SIZE * (id as u32);
            Some(Channel::new(id, first, wb))
        }
    }

    /// Return a channel to the controller. The channel is disabled, its
    /// register bank reset to power-on values, and its availability bit set,
    /// restoring it to the pool. The caller must not retain any address
    /// derived from the returned channel's descriptors afterwards.
    pub fn return_channel(&mut self, dmac: &mut DmacRegisters, channel: Channel)
        requires
            old(self).wf(),
            old(dmac).wf(),
            channel.spec_id() < old(self).spec_n_channels(),
        ensures
            final(self).wf(),
            final(self).spec_n_channels() == old(self).spec_n_channels(),
            final(self).spec_storage() == old(self).spec_storage(),
            final(self).spec_available_mask() == mask_give(
                old(self).spec_available_mask(),
                channel.spec_id(),
            ),
            final(dmac).wf(),
            same_global_registers(*old(dmac), *final(dmac)),
            final(dmac).channels@ == old(dmac).channels@.update(
                channel.spec_id() as int,
                reset_channel_registers(),
            ),
    {
        channel.disable(dmac);
        proof {
            let a = old(dmac).spec_channel(channel.spec_id()).chctrla;
            assert((a & !0x2u32) & 0x2u32 == 0) by (bit_vector);
        }
        channel.reset(dmac);
        proof {
            assert(dmac.channels@ =~= old(dmac).channels@.update(
                channel.spec_id() as int,
                reset_channel_registers(),
            ));
        }
        self.channels = self.channels | (1u32 << (channel.id() as u32));
    }

    /// Allow channels with the corresponding priority level to be part of
    /// arbitration.
    pub fn enable_priority_level(&mut self, dmac: &mut DmacRegisters, level: Priority)
        requires
            old(dmac).wf(),
        ensures
            final(dmac).wf(),
            *final(dmac) == (DmacRegisters {
                ctrl: old(dmac).ctrl | lvlen_mask(level),
                ..*old(dmac)
            }),
            *final(self) == *old(self),
    {
        self.set_priority_level(dmac, level, true);
    }

    /// Deny channels with the corresponding priority level to be a part of
    /// arbitration.
    pub fn diable_priority_level(&mut self, dmac: &mut DmacRegisters, level: Priority)
        requires
            old(dmac).wf(),
        ensures
            final(dmac).wf(),
            *final(dmac) == (DmacRegisters {
                ctrl: old(dmac).ctrl & !lvlen_mask(level),
                ..*old(dmac)
            }),
            *final(self) == *old(self),
    {
        self.set_priority_level(dmac, level, false);
    }

    fn set_priority_level(&mut self, dmac: &mut DmacRegisters, level: Priority, value: bool)
        requires
            old(dmac).wf(),
        ensures
            final(dmac).wf(),
            *final(dmac) == (DmacRegisters {
                ctrl: if value {
                    old(dmac).ctrl | lvlen_mask(level)
                } else {
                    old(dmac).ctrl & !lvlen_mask(level)
                },
                ..*old(dmac)
            }),
            *final(self) == *old(self),
    {
        let mask = CTRL_LVLEN0 << level.bits();
        if value {
            dmac.ctrl = dmac.ctrl | mask;
        } else {
            dmac.ctrl = dmac.ctrl & !mask;
        }
    }

    /// Return true if the priority level is enabled.
    pub fn priority_level_enabled(&self, dmac: &DmacRegisters, level: Priority) -> (r: bool)
        ensures
            r == (dmac.ctrl & lvlen_mask(level) != 0),
    {
        dmac.ctrl & (CTRL_LVLEN0 << level.bits()) != 0
    }

    /// Get the Quality of Service guarantee for the specified priority
    /// level.
    pub fn get_priority_qos(&self, dmac: &DmacRegisters, level: Priority) -> (r: QoS)
        ensures
            r == QoS::spec_from(prictrl0_qos(dmac.prictrl0, level)),
    {
        let sh = (8 * level.bits() + 5) as u32;
        let x = dmac.prictrl0;
        let raw = ((x >> sh) & 3) as u8;
        proof {
            assert((((x >> sh) & 3) as u8) < 4) by (bit_vector);
        }
        QoS::from(raw)
    }

    /// Set the Quality of Service guarantee for the specified priority
    /// level.
    pub fn set_piority_qos(&mut self, dmac: &mut DmacRegisters, level: Priority, qos: QoS)
        requires
            old(dmac).wf(),
        ensures
            final(dmac).wf(),
            *final(dmac) == (DmacRegisters {
                prictrl0: (old(dmac).prictrl0 & !(3u32 << qos_shift(level))) | ((qos.spec_bits()
                    as u32) << qos_shift(level)),
                ..*old(dmac)
            }),
            *final(self) == *old(self),
    {
        let sh = (8 * level.bits() + 5) as u32;
        dmac.prictrl0 = (dmac.prictrl0 & !(3u32 << sh)) | ((qos.bits() as u32) << sh);
    }

    /// Get the Quality of Service guarantee for data transfer.
    pub fn get_data_transfer_qos(&self, dmac: &DmacRegisters) -> (r: QoS)
        ensures
            r == QoS::spec_from(qosctrl_dqos(dmac.qosctrl)),
    {
        let b = dmac.qosctrl;
        let raw = (b >> 4) & 3;
        proof {
            assert((b >> 4) & 3 < 4) by (bit_vector);
        }
        QoS::from(raw)
    }

    /// Get the Quality of Service guarantee for fetching transfer
    /// descriptors.
    pub fn get_fetch_qos(&self, dmac: &DmacRegisters) -> (r: QoS)
        ensures
            r == QoS::spec_from(qosctrl_fqos(dmac.qosctrl)),
    {
        let b = dmac.qosctrl;
        let raw = (b >> 2) & 3;
        proof {
            assert((b >> 2) & 3 < 4) by (bit_vector);
        }
        QoS::from(raw)
    }

    /// Get the Quality of Service guarantee for writing transfer
    /// descriptors to the write-back section.
    pub fn get_write_back_qos(&self, dmac: &DmacRegisters) -> (r: QoS)
        ensures
            r == QoS::spec_from(qosctrl_wrbqos(dmac.qosctrl)),
    {
        let b = dmac.qosctrl;
        let raw = b & 3;
        proof {
            assert(b & 3 < 4) by (bit_vector);
        }
        QoS::from(raw)
    }

    /// Set the Quality of Service guarantee for data transfer.
    pub fn set_data_transfer_qos(&mut self, dmac: &mut DmacRegisters, qos: QoS)
        requires
            old(dmac).wf(),
        ensures
            final(dmac).wf(),
            *final(dmac) == (DmacRegisters {
                qosctrl: (old(dmac).qosctrl & !0x30u8) | (qos.spec_bits() << 4),
                ..*old(dmac)
            }),
            *final(self) == *old(self),
    {
        dmac.qosctrl = (dmac.qosctrl & !0x30u8) | (qos.bits() << 4);
    }

    /// Set the Quality of Service guarantee for fetching transfer
    /// descriptors.
    pub fn set_fetch_qos(&mut self, dmac: &mut DmacRegisters, qos: QoS)
        requires
            old(dmac).wf(),
        ensures
            final(dmac).wf(),
            *final(dmac) == (DmacRegisters {
                qosctrl: (old(dmac).qosctrl & !0x0Cu8) | (qos.spec_bits() << 2),
                ..*old(dmac)
            }),
            *final(self) == *old(self),
    {
        dmac.qosctrl = (dmac.qosctrl & !0x0Cu8) | (qos.bits() << 2);
    }

    /// Set the Quality of Service guarantee for writing transfer
    /// descriptors to the write-back section.
    pub fn set_write_back_qos(&mut self, dmac: &mut DmacRegisters, qos: QoS)
        requires
            old(dmac).wf(),
        ensures
            final(dmac).wf(),
            *final(dmac) == (DmacRegisters {
                qosctrl: (old(dmac).qosctrl & !0x03u8) | qos.spec_bits(),
                ..*old(dmac)
            }),
            *final(self) == *old(self),
    {
        dmac.qosctrl = (dmac.qosctrl & !0x03u8) | qos.bits();
    }

    /// Enable or disable the round-robin scheduling method for channels of
    /// the given priority level. Disabling round-robin scheduling enables
    /// static scheduling.
    pub fn set_priority_level_scheduling(
        &mut self,
        dmac: &mut DmacRegisters,
        level: Priority,
        enable: bool,
    )
        requires
            old(dmac).wf(),
        ensures
            final(dmac).wf(),
            *final(dmac) == (DmacRegisters {
                prictrl0: if enable {
                    old(dmac).prictrl0 | rr_mask(level)
                } else {
                    old(dmac).prictrl0 & !rr_mask(level)
                },
                ..*old(dmac)
            }),
            *final(self) == *old(self),
    {
        let mask = 1u32 << ((8 * level.bits() + 7) as u32);
        if enable {
            dmac.prictrl0 = dmac.prictrl0 | mask;
        } else {
            dmac.prictrl0 = dmac.prictrl0 & !mask;
        }
    }

    /// Get the interrupt status of all channels.
    pub fn get_channel_interrupt_status(&self, dmac: &DmacRegisters) -> (r: Channels)
        ensures
            r.spec_bits() == dmac.intstatus,
    {
        Channels::from_bits_truncate(dmac.intstatus)
    }

    /// Get a bitfield of all pending channels.
    pub fn get_pending_channels(&self, dmac: &DmacRegisters) -> (r: Channels)
        ensures
            r.spec_bits() == dmac.pendch,
    {
        Channels::from_bits_truncate(dmac.pendch)
    }

    /// Get a bitfield of all busy channels.
    pub fn get_busy_channels(&self, dmac: &DmacRegisters) -> (r: Channels)
        ensures
            r.spec_bits() == dmac.busych,
    {
        Channels::from_bits_truncate(dmac.busych)
    }

    /// Get the ID of the last channel to be granted access to the DMA
    /// system.
    pub fn get_active_channel(&self, dmac: &DmacRegisters) -> (r: u8)
        ensures
            r == active_id(dmac.active),
    {
        ((dmac.active >> 8) & 0x1F) as u8
    }

    /// Send a trigger request to a channel.
    ///
    /// If the channel is not in a pending state, the hardware ignores the
    /// request.
    pub fn trigger_channel(&mut self, dmac: &mut DmacRegisters, id: u8)
        requires
            old(dmac).wf(),
            id < 32,
        ensures
            final(dmac).wf(),
            *final(dmac) == (DmacRegisters {
                swtrigctrl: old(dmac).swtrigctrl | (1u32 << (id as u32)),
                ..*old(dmac)
            }),
            *final(self) == *old(self),
    {
        dmac.swtrigctrl = dmac.swtrigctrl | (1u32 << (id as u32));
    }

    /// Get the block transfer count of the currently active channel, if
    /// there is one.
    pub fn get_active_block_transfer_count(&self, dmac: &DmacRegisters) -> (r: Option<u16>)
        ensures
            r == if dmac.active & ACTIVE_ABUSY != 0 {
                Some(active_btcnt(dmac.active))
            } else {
                None::<u16>
            },
    {
        if dmac.active & ACTIVE_ABUSY != 0 {
            Some((dmac.active >> 16) as u16)
        } else {
            None
        }
    }

    /// Return whether the selected priority level has an active request.
    pub fn priority_level_has_request(&self, dmac: &DmacRegisters, pri: Priority) -> (r: bool)
        ensures
            r == (dmac.active & lvlex_mask(pri) != 0),
    {
        dmac.active & (1u32 << (pri.bits() as u32)) != 0
    }

    /// Get the lowest pending interrupt channel's interrupt flags, if
    /// present.
    ///
    /// The ID and interrupt flags are returned.
    pub fn get_lowest_pending_channel_interrupts(&self, dmac: &DmacRegisters) -> (r: Option<
        (u8, Interrupts),
    >)
        ensures
            r is Some <==> intpend_flags(dmac.intpend) != 0,
            r matches Some((id, ints)) ==> id == intpend_id(dmac.intpend) && ints.spec_bits()
                == intpend_flags(dmac.intpend),
    {
        let v = dmac.intpend;
        let flags = ((v >> 8) & 7) as u8;
        proof {
            assert((((v >> 8) & 7) as u8) & 7 == ((v >> 8) & 7) as u8) by (bit_vector);
        }
        let flag_set = Interrupts::from_bits_truncate(flags);
        if !flag_set.is_empty() {
            Some(((v & INTPEND_ID_MASK) as u8, flag_set))
        } else {
            None
        }
    }

    /// Get the lowest pending interrupt channel's status, if present.
    ///
    /// The ID and status are returned.
    pub fn get_lowest_pending_channel_status(&self, dmac: &DmacRegisters) -> (r: Option<
        (u8, Option<Status>),
    >)
        ensures
            r is Some <==> intpend_flags(dmac.intpend) != 0,
            r matches Some((id, status)) ==> id == intpend_id(dmac.intpend) && status
                == spec_pending_status(dmac.intpend),
    {
        let v = dmac.intpend;
        let flags = ((v >> 8) & 7) as u8;
        if flags == 0 {
            return None;
        }
        let id = (v & INTPEND_ID_MASK) as u8;
        if v & INTPEND_PEND != 0 {
            return Some((id, Some(Status::Pending)));
        }
        if v & INTPEND_BUSY != 0 {
            return Some((id, Some(Status::Busy)));
        }
        if v & INTPEND_FERR != 0 {
            return Some((id, Some(Status::FetchError)));
        }
        if v & INTPEND_CRCERR != 0 {
            return Some((id, Some(Status::CRCError)));
        }
        Some((id, None))
    }

    /// Get the interrupt flags of a particular channel, by selecting the
    /// channel in the interrupt-pending register and reading the composed
    /// flags back. The write and the read are not atomic with respect to
    /// concurrent callers selecting a different channel.
    pub fn get_channel_pending_interrupts(&self, dmac: &mut DmacRegisters, id: u8) -> (r:
        Interrupts)
        requires
            old(dmac).wf(),
            id < 32,
        ensures
            final(dmac).wf(),
            *final(dmac) == (DmacRegisters {
                intpend: (old(dmac).intpend & !INTPEND_ID_MASK) | (id as u16),
                ..*old(dmac)
            }),
            r.spec_bits() == intpend_flags(old(dmac).intpend),
    {
        let v = dmac.intpend;
        dmac.intpend = (v & !INTPEND_ID_MASK) | (id as u16);
        let w = dmac.intpend;
        let flags = ((w >> 8) & 7) as u8;
        proof {
            assert(((((v & !0x001Fu16) | (id as u16)) >> 8) & 7) as u8 == ((v >> 8) & 7) as u8)
                by (bit_vector)
                requires
                    id < 32,
            ;
            assert((((v >> 8) & 7) as u8) & 7 == ((v >> 8) & 7) as u8) by (bit_vector);
        }
        Interrupts::from_bits_truncate(flags)
    }

    /// Set the interrupt flags of a particular channel, by writing the
    /// channel identifier and the flags into the interrupt-pending register
    /// in one write.
    pub fn set_channel_pending_interrupts(
        &mut self,
        dmac: &mut DmacRegisters,
        id: u8,
        flags: Interrupts,
    )
        requires
            old(dmac).wf(),
        ensures
            final(dmac).wf(),
            *final(dmac) == (DmacRegisters {
                intpend: ((flags.spec_bits() as u16) << 8) | (id as u16),
                ..*old(dmac)
            }),
            *final(self) == *old(self),
    {
        dmac.intpend = ((flags.bits() as u16) << 8) | (id as u16);
    }

    /// Get the status of a particular channel, by selecting the channel in
    /// the interrupt-pending register and reading the composed status bits
    /// back. The write and the read are not atomic with respect to
    /// concurrent callers selecting a different channel.
    pub fn get_channel_status(&self, dmac: &mut DmacRegisters, id: u8) -> (r: Option<Status>)
        requires
            old(dmac).wf(),
            id < 32,
        ensures
            final(dmac).wf(),
            *final(dmac) == (DmacRegisters {
                intpend: (old(dmac).intpend & !INTPEND_ID_MASK) | (id as u16),
                ..*old(dmac)
            }),
            r == spec_pending_status(old(dmac).intpend),
    {
        let v = dmac.intpend;
        dmac.intpend = (v & !INTPEND_ID_MASK) | (id as u16);
        let w = dmac.intpend;
        proof {
            let nv = (v & !0x001Fu16) | (id as u16);
            assert(nv & 0x8000u16 == v & 0x8000u16 && nv & 0x4000u16 == v & 0x4000u16 && nv
                & 0x2000u16 == v & 0x2000u16 && nv & 0x1000u16 == v & 0x1000u16)
                by (bit_vector)
                requires
                    id < 32,
                    nv == (v & !0x001Fu16) | (id as u16),
            ;
        }
        if w & INTPEND_PEND != 0 {
            return Some(Status::Pending);
        }
        if w & INTPEND_BUSY != 0 {
            return Some(Status::Busy);
        }
        if w & INTPEND_FERR != 0 {
            return Some(Status::FetchError);
        }
        if w & INTPEND_CRCERR != 0 {
            return Some(Status::CRCError);
        }
        None
    }
}


/// Writing a priority level's QoS field of the priority control register
/// and decoding it back yields the written QoS, for every level, every QoS
/// and any prior register value.
pub proof fn lemma_priority_qos_register_round_trip(r: u32, level: Priority, q: QoS)
    ensures
        QoS::spec_from(
            prictrl0_qos(
                (r & !(3u32 << qos_shift(level))) | ((q.spec_bits() as u32) << qos_shift(level)),
                level,
            ),
        ) == q,
{
    let b = q.spec_bits();
    let sh = qos_shift(level);
    assert(b < 4);
    assert(level.spec_bits() < 4);
    assert(sh == 5 || sh == 13 || sh == 21 || sh == 29);
    assert((((r & !(3u32 << sh)) | ((b as u32) << sh)) >> sh) & 3 == b as u32) by (bit_vector)
        requires
            b < 4,
            sh == 5 || sh == 13 || sh == 21 || sh == 29,
    ;
    crate::types::lemma_qos_round_trip(q);
}

/// Writing the data transfer QoS field of the QoS control register and
/// decoding it back yields the written QoS, for every QoS and any prior
/// register value.
pub proof fn lemma_data_transfer_qos_round_trip(r: u8, q: QoS)
    ensures
        QoS::spec_from(qosctrl_dqos((r & !0x30u8) | (q.spec_bits() << 4))) == q,
{
    let b = q.spec_bits();
    assert(b < 4);
    assert((((r & !0x30u8) | (b << 4)) >> 4) & 3 == b) by (bit_vector)
        requires
            b < 4,
    ;
    crate::types::lemma_qos_round_trip(q);
}

/// Writing the descriptor fetch QoS field of the QoS control register and
/// decoding it back yields the written QoS, for every QoS and any prior
/// register value.
pub proof fn lemma_fetch_qos_round_trip(r: u8, q: QoS)
    ensures
        QoS::spec_from(qosctrl_fqos((r & !0x0Cu8) | (q.spec_bits() << 2))) == q,
{
    let b = q.spec_bits();
    assert(b < 4);
    assert((((r & !0x0Cu8) | (b << 2)) >> 2) & 3 == b) by (bit_vector)
        requires
            b < 4,
    ;
    crate::types::lemma_qos_round_trip(q);
}

/// Writing the write-back QoS field of the QoS control register and
/// decoding it back yields the written QoS, for every QoS and any prior
/// register value.
pub proof fn lemma_write_back_qos_round_trip(r: u8, q: QoS)
    ensures
        QoS::spec_from(qosctrl_wrbqos((r & !0x03u8) | q.spec_bits())) == q,
{
    let b = q.spec_bits();
    assert(b < 4);
    assert(((r & !0x03u8) | b) & 3 == b) by (bit_vector)
        requires
            b < 4,
    ;
    crate::types::lemma_qos_round_trip(q);
}

impl Channel {
    /// A mutable reference to the first descriptor for the channel: the
    /// entry point of the chain the hardware (re)starts from on every
    /// trigger (not the currently executing one). The descriptor lives in
    /// the storage the controller owns.
    pub fn get_first_descriptor<'a>(&self, controller: &'a mut DMAController) -> (r:
        &'a mut TransferDescriptor)
        requires
            old(controller).wf(),
            self.spec_id() < old(controller).spec_n_channels(),
        ensures
            *r == old(controller).spec_storage().spec_base_descs()[self.spec_id() as int],
            final(controller).spec_storage().spec_base_descs() == old(
                controller,
            ).spec_storage().spec_base_descs().update(self.spec_id() as int, *final(r)),
            final(controller).spec_storage().spec_wb_descs() == old(
                controller,
            ).spec_storage().spec_wb_descs(),
            final(controller).spec_storage().spec_base_addr() == old(
                controller,
            ).spec_storage().spec_base_addr(),
            final(controller).spec_storage().spec_wb_addr() == old(
                controller,
            ).spec_storage().spec_wb_addr(),
            final(controller).spec_available_mask() == old(controller).spec_available_mask(),
            final(controller).spec_n_channels() == old(controller).spec_n_channels(),
            final(controller).wf(),
    {
        controller.storage.first_descriptor_mut(self.id())
    }
}

} // verus!
