//! Per-channel operations: configuration, enable/disable, suspend/resume,
//! software trigger and transaction-status polling.
//!
//! A [`Channel`] holds a channel identifier and the addresses of that
//! channel's first and write-back descriptors. Every operation takes the
//! register block explicitly and its contract states which registers of the
//! channel's bank it reads and writes.

use vstd::prelude::*;

use crate::registers::CHANNEL_COUNT;
use crate::registers::CHCTRLA_BURSTLEN_MASK;
use crate::registers::CHCTRLA_ENABLE;
use crate::registers::CHCTRLA_RUNSTDBY;
use crate::registers::CHCTRLA_THRESHOLD_MASK;
use crate::registers::CHCTRLA_TRIGACT_MASK;
use crate::registers::CHCTRLA_TRIGSRC_MASK;
use crate::registers::CHCTRLB_CMD_MASK;
use crate::registers::CHSTATUS_CRCERR;
use crate::registers::CHSTATUS_FERR;
use crate::registers::CMD_NOACT;
use crate::registers::CMD_RESUME;
use crate::registers::CMD_SUSPEND;
use crate::registers::CHSTATUS_BUSY;
use crate::registers::CHSTATUS_PEND;
use crate::registers::ChannelRegisters;
use crate::registers::DmacRegisters;
use crate::registers::INT_SUSP;
use crate::registers::INT_TERR;
use crate::registers::reset_channel_registers;
use crate::registers::same_global_registers;
use crate::types::BurstLength;
use crate::types::FifoThreshold;
use crate::types::Interrupts;
use crate::types::Priority;
use crate::types::TriggerAction;
use crate::types::TriggerSource;

verus! {

/// Error type for the kinds of errors that can occur during a transaction.
#[derive(Debug, Clone, Copy, PartialEq, Eq, Structural)]
pub enum TransactionError {
    /// An invalid descriptor was fetched from memory.
    InvalidDescriptor,
    /// A bus error was detected during a beat transfer.
    TransferError,
    /// The CRC module detected data corruption.
    CRCError,
}

impl TransactionError {
    /// A human-readable description of the error.
    pub fn description(&self) -> &'static str {
        match self {
            TransactionError::InvalidDescriptor => "An invalid descriptor was fetched from memory.",
            TransactionError::TransferError => "A bus error was detected during a beat transfer.",
            TransactionError::CRCError => "The CRC module detected data corruption.",
        }
    }
}

/// The transaction state reported by [`Channel::poll_status`] when no error
/// occurred.
#[derive(Debug, Clone, Copy, PartialEq, Eq, Structural)]
pub enum WaitResult {
    /// The transaction has ended or been aborted.
    Done,
    /// The transaction is suspended.
    Suspended,
    /// The transaction is still ongoing.
    Ongoing,
}

/// The enable bit of a channel's control register A.
pub open spec fn chctrla_enabled(r: u32) -> bool {
    r & CHCTRLA_ENABLE != 0
}

/// The run-in-standby bit of a channel's control register A.
pub open spec fn chctrla_runstdby(r: u32) -> bool {
    r & CHCTRLA_RUNSTDBY != 0
}

/// The raw trigger source field of a channel's control register A.
pub open spec fn chctrla_trigsrc(r: u32) -> u8 {
    ((r >> 8) & 0x7F) as u8
}

/// The raw trigger action field of a channel's control register A.
pub open spec fn chctrla_trigact(r: u32) -> u8 {
    ((r >> 20) & 3) as u8
}

/// The raw burst length field of a channel's control register A.
pub open spec fn chctrla_burstlen(r: u32) -> u8 {
    ((r >> 24) & 0xF) as u8
}

/// The raw FIFO threshold field of a channel's control register A.
pub open spec fn chctrla_threshold(r: u32) -> u8 {
    ((r >> 28) & 3) as u8
}

/// The command field of a channel's control register B.
pub open spec fn chctrlb_cmd(b: u8) -> u8 {
    b & CHCTRLB_CMD_MASK
}

/// The classification [`Channel::poll_status`] derives from a channel
/// register bank:
/// an enabled channel with the transfer-error flag reports a CRC error if
/// the CRC-error status bit accompanies it and a transfer error otherwise;
/// an enabled channel without the transfer-error flag has completed;
/// a disabled channel with the suspend flag reports an invalid descriptor
/// if the fetch-error status bit accompanies it and a suspension otherwise;
/// anything else is still ongoing.
pub open spec fn spec_poll_result(bank: ChannelRegisters) -> Result<WaitResult, TransactionError> {
    if chctrla_enabled(bank.chctrla) {
        if bank.chintflag & INT_TERR != 0 {
            if bank.chstatus & CHSTATUS_CRCERR != 0 {
                Err(TransactionError::CRCError)
            } else {
                Err(TransactionError::TransferError)
            }
        } else {
            Ok(WaitResult::Done)
        }
    } else if bank.chintflag & INT_SUSP != 0 {
        if bank.chstatus & CHSTATUS_FERR != 0 {
            Err(TransactionError::InvalidDescriptor)
        } else {
            Ok(WaitResult::Suspended)
        }
    } else {
        Ok(WaitResult::Ongoing)
    }
}

/// DMA channel.
///
/// This structure represents exclusive ownership of one DMA channel: the
/// controller hands out at most one live `Channel` per identifier. It holds
/// the addresses of the channel's first and write-back descriptors,
/// established when the channel is taken.
pub struct Channel {
    id: u8,
    first_desc: u32,
    write_back: u32,
}

impl Channel {
    /// The channel identifier.
    pub closed spec fn spec_id(self) -> u8 {
        self.id
    }

    /// The address of the channel's first descriptor.
    pub closed spec fn spec_first_desc_addr(self) -> u32 {
        self.first_desc
    }

    /// The address of the channel's write-back descriptor.
    pub closed spec fn spec_writeback_addr(self) -> u32 {
        self.write_back
    }

    pub(crate) fn new(id: u8, first_desc: u32, write_back: u32) -> (r: Channel)
        ensures
            r.spec_id() == id,
            r.spec_first_desc_addr() == first_desc,
            r.spec_writeback_addr() == write_back,
    {
        Channel { id, first_desc, write_back }
    }

    /// Return the channel ID.
    pub fn id(&self) -> (r: u8)
        ensures
            r == self.spec_id(),
    {
        self.id
    }

    /// Configure whether the channel continues to run in standby.
    pub fn set_run_standby(&self, dmac: &mut DmacRegisters, run_standby: bool)
        requires
            old(dmac).wf(),
            self.spec_id() < CHANNEL_COUNT as u8,
        ensures
            final(dmac).wf(),
            same_global_registers(*old(dmac), *final(dmac)),
            final(dmac).channels@ == old(dmac).channels@.update(
                self.spec_id() as int,
                (ChannelRegisters {
                    chctrla: if run_standby {
                        old(dmac).spec_channel(self.spec_id()).chctrla | CHCTRLA_RUNSTDBY
                    } else {
                        old(dmac).spec_channel(self.spec_id()).chctrla & !CHCTRLA_RUNSTDBY
                    },
                    ..old(dmac).spec_channel(self.spec_id())
                }),
            ),
    {
        let i = self.id as usize;
        let mut bank = dmac.channels[i];
        if run_standby {
            bank.chctrla = bank.chctrla | CHCTRLA_RUNSTDBY;
        } else {
            bank.chctrla = bank.chctrla & !CHCTRLA_RUNSTDBY;
        }
        dmac.channels.set(i, bank);
    }

    /// Return true if the channel continues to run in standby.
    pub fn get_run_standby(&self, dmac: &DmacRegisters) -> (r: bool)
        requires
            dmac.wf(),
            self.spec_id() < CHANNEL_COUNT as u8,
        ensures
            r == chctrla_runstdby(dmac.spec_channel(self.spec_id()).chctrla),
    {
        dmac.channels[self.id as usize].chctrla & CHCTRLA_RUNSTDBY != 0
    }

    /// Configure how many beats are in a burst.
    pub fn set_burst_length(&self, dmac: &mut DmacRegisters, burst_len: BurstLength)
        requires
            old(dmac).wf(),
            self.spec_id() < CHANNEL_COUNT as u8,
        ensures
            final(dmac).wf(),
            same_global_registers(*old(dmac), *final(dmac)),
            final(dmac).channels@ == old(dmac).channels@.update(
                self.spec_id() as int,
                (ChannelRegisters {
                    chctrla: (old(dmac).spec_channel(self.spec_id()).chctrla
                        & !CHCTRLA_BURSTLEN_MASK) | ((burst_len.spec_bits() as u32) << 24),
                    ..old(dmac).spec_channel(self.spec_id())
                }),
            ),
    {
        let i = self.id as usize;
        let mut bank = dmac.channels[i];
        bank.chctrla = (bank.chctrla & !CHCTRLA_BURSTLEN_MASK) | ((burst_len.bits() as u32) << 24);
        dmac.channels.set(i, bank);
    }

    /// Get the length of a burst in beats.
    pub fn get_burst_length(&self, dmac: &DmacRegisters) -> (r: BurstLength)
        requires
            dmac.wf(),
            self.spec_id() < CHANNEL_COUNT as u8,
        ensures
            r == BurstLength::spec_from(chctrla_burstlen(dmac.spec_channel(self.spec_id()).chctrla)),
    {
        let a = dmac.channels[self.id as usize].chctrla;
        let raw = ((a >> 24) & 0xF) as u8;
        proof {
            assert((((a >> 24) & 0xF) as u8) < 16) by (bit_vector);
        }
        BurstLength::from(raw)
    }

    /// Set the trigger action for the channel.
    pub fn set_trigger_action(&self, dmac: &mut DmacRegisters, trig_act: TriggerAction)
        requires
            old(dmac).wf(),
            self.spec_id() < CHANNEL_COUNT as u8,
        ensures
            final(dmac).wf(),
            same_global_registers(*old(dmac), *final(dmac)),
            final(dmac).channels@ == old(dmac).channels@.update(
                self.spec_id() as int,
                (ChannelRegisters {
                    chctrla: (old(dmac).spec_channel(self.spec_id()).chctrla
                        & !CHCTRLA_TRIGACT_MASK) | ((trig_act.spec_bits() as u32) << 20),
                    ..old(dmac).spec_channel(self.spec_id())
                }),
            ),
    {
        let i = self.id as usize;
        let mut bank = dmac.channels[i];
        bank.chctrla = (bank.chctrla & !CHCTRLA_TRIGACT_MASK) | ((trig_act.bits() as u32) << 20);
        dmac.channels.set(i, bank);
    }

    /// Get the trigger action for the channel.
    pub fn get_trigger_action(&self, dmac: &DmacRegisters) -> (r: TriggerAction)
        requires
            dmac.wf(),
            self.spec_id() < CHANNEL_COUNT as u8,
        ensures
            r == TriggerAction::spec_from(chctrla_trigact(dmac.spec_channel(self.spec_id()).chctrla)),
    {
        let a = dmac.channels[self.id as usize].chctrla;
        let raw = ((a >> 20) & 3) as u8;
        TriggerAction::from(raw)
    }

    /// Set threshold for when destination writes occur.
    pub fn set_fifo_threshold(&self, dmac: &mut DmacRegisters, fifo_threshold: FifoThreshold)
        requires
            old(dmac).wf(),
            self.spec_id() < CHANNEL_COUNT as u8,
        ensures
            final(dmac).wf(),
            same_global_registers(*old(dmac), *final(dmac)),
            final(dmac).channels@ == old(dmac).channels@.update(
                self.spec_id() as int,
                (ChannelRegisters {
                    chctrla: (old(dmac).spec_channel(self.spec_id()).chctrla
                        & !CHCTRLA_THRESHOLD_MASK) | ((fifo_threshold.spec_bits() as u32) << 28),
                    ..old(dmac).spec_channel(self.spec_id())
                }),
            ),
    {
        let i = self.id as usize;
        let mut bank = dmac.channels[i];
        bank.chctrla = (bank.chctrla & !CHCTRLA_THRESHOLD_MASK) | ((fifo_threshold.bits() as u32)
            << 28);
        dmac.channels.set(i, bank);
    }

    /// Get the threshold for when destination writes will occur.
    pub fn get_fifi_threshold(&self, dmac: &DmacRegisters) -> (r: FifoThreshold)
        requires
            dmac.wf(),
            self.spec_id() < CHANNEL_COUNT as u8,
        ensures
            r == FifoThreshold::spec_from(
                chctrla_threshold(dmac.spec_channel(self.spec_id()).chctrla),
            ),
    {
        let a = dmac.channels[self.id as usize].chctrla;
        let raw = ((a >> 28) & 3) as u8;
        proof {
            assert((((a >> 28) & 3) as u8) < 4) by (bit_vector);
        }
        FifoThreshold::from(raw)
    }

    /// Set the source trigger for the DMA channel.
    pub fn set_source(&self, dmac: &mut DmacRegisters, source: TriggerSource)
        requires
            old(dmac).wf(),
            self.spec_id() < CHANNEL_COUNT as u8,
        ensures
            final(dmac).wf(),
            same_global_registers(*old(dmac), *final(dmac)),
            final(dmac).channels@ == old(dmac).channels@.update(
                self.spec_id() as int,
                (ChannelRegisters {
                    chctrla: (old(dmac).spec_channel(self.spec_id()).chctrla
                        & !CHCTRLA_TRIGSRC_MASK) | ((source.spec_bits() as u32) << 8),
                    ..old(dmac).spec_channel(self.spec_id())
                }),
            ),
    {
        let i = self.id as usize;
        let mut bank = dmac.channels[i];
        bank.chctrla = (bank.chctrla & !CHCTRLA_TRIGSRC_MASK) | ((source.bits() as u32) << 8);
        dmac.channels.set(i, bank);
    }

    /// Get the trigger source for the channel.
    pub fn get_source(&self, dmac: &DmacRegisters) -> (r: TriggerSource)
        requires
            dmac.wf(),
            self.spec_id() < CHANNEL_COUNT as u8,
        ensures
            r == TriggerSource::spec_from(chctrla_trigsrc(dmac.spec_channel(self.spec_id()).chctrla)),
    {
        let a = dmac.channels[self.id as usize].chctrla;
        let raw = ((a >> 8) & 0x7F) as u8;
        TriggerSource::from(raw)
    }

    /// Set the priority level of the channel.
    pub fn set_priority(&self, dmac: &mut DmacRegisters, priority: Priority)
        requires
            old(dmac).wf(),
            self.spec_id() < CHANNEL_COUNT as u8,
        ensures
            final(dmac).wf(),
            same_global_registers(*old(dmac), *final(dmac)),
            final(dmac).channels@ == old(dmac).channels@.update(
                self.spec_id() as int,
                (ChannelRegisters {
                    chprilvl: priority.spec_bits(),
                    ..old(dmac).spec_channel(self.spec_id())
                }),
            ),
    {
        let i = self.id as usize;
        let mut bank = dmac.channels[i];
        bank.chprilvl = priority.bits();
        dmac.channels.set(i, bank);
    }

    /// Get channel priority level.
    pub fn get_priority(&self, dmac: &DmacRegisters) -> (r: Priority)
        requires
            dmac.wf(),
            self.spec_id() < CHANNEL_COUNT as u8,
        ensures
            r == Priority::spec_from((dmac.spec_channel(self.spec_id()).chprilvl & 3) as u8),
    {
        let b = dmac.channels[self.id as usize].chprilvl;
        let raw = b & 3;
        proof {
            assert(b & 3 < 4) by (bit_vector);
        }
        Priority::from(raw)
    }

    /// Get the channel's interrupt flags.
    pub fn get_interrupt_flags(&self, dmac: &DmacRegisters) -> (r: Interrupts)
        requires
            dmac.wf(),
            self.spec_id() < CHANNEL_COUNT as u8,
        ensures
            r.spec_bits() == dmac.spec_channel(self.spec_id()).chintflag & 7,
    {
        Interrupts::from_bits_truncate(dmac.channels[self.id as usize].chintflag)
    }

    /// Reset the channel's interrupt flags.
    pub fn clear_interrupt_flags(&self, dmac: &mut DmacRegisters)
        requires
            old(dmac).wf(),
            self.spec_id() < CHANNEL_COUNT as u8,
        ensures
            final(dmac).wf(),
            same_global_registers(*old(dmac), *final(dmac)),
            final(dmac).channels@ == old(dmac).channels@.update(
                self.spec_id() as int,
                (ChannelRegisters { chintflag: 0, ..old(dmac).spec_channel(self.spec_id()) }),
            ),
    {
        let i = self.id as usize;
        let mut bank = dmac.channels[i];
        bank.chintflag = 0;
        dmac.channels.set(i, bank);
    }

    /// Enable interrupts for the channel. Any interrupts that are not in the
    /// given set will be disabled.
    pub fn enable_interrupts(&self, dmac: &mut DmacRegisters, interrupts: Interrupts)
        requires
            old(dmac).wf(),
            self.spec_id() < CHANNEL_COUNT as u8,
        ensures
            final(dmac).wf(),
            same_global_registers(*old(dmac), *final(dmac)),
            final(dmac).channels@ == old(dmac).channels@.update(
                self.spec_id() as int,
                (ChannelRegisters {
                    chintenset: interrupts.spec_bits() & 7,
                    ..old(dmac).spec_channel(self.spec_id())
                }),
            ),
    {
        let i = self.id as usize;
        let mut bank = dmac.channels[i];
        bank.chintenset = interrupts.bits() & 7;
        dmac.channels.set(i, bank);
    }

    /// Get the set of enabled channel interrupts.
    pub fn get_enabled_interrupts(&self, dmac: &DmacRegisters) -> (r: Interrupts)
        requires
            dmac.wf(),
            self.spec_id() < CHANNEL_COUNT as u8,
        ensures
            r.spec_bits() == dmac.spec_channel(self.spec_id()).chintenset & 7,
    {
        Interrupts::from_bits_truncate(dmac.channels[self.id as usize].chintenset)
    }

    /// The address of the channel's write-back descriptor.
    ///
    /// The hardware updates the memory at this address asynchronously at any
    /// time while the channel runs: reads through it are subject to tearing
    /// and must not be cached.
    pub fn get_writeback_descriptor(&self) -> (r: u32)
        ensures
            r == self.spec_writeback_addr(),
    {
        self.write_back
    }

    /// Enable the DMA channel.
    ///
    /// After this call, this channel is part of the DMA arbitration scheme
    /// (if its corresponding priority level is active), and trigger events
    /// cause the transaction to start from the first descriptor.
    pub fn enable(&self, dmac: &mut DmacRegisters)
        requires
            old(dmac).wf(),
            self.spec_id() < CHANNEL_COUNT as u8,
        ensures
            final(dmac).wf(),
            same_global_registers(*old(dmac), *final(dmac)),
            final(dmac).channels@ == old(dmac).channels@.update(
                self.spec_id() as int,
                (ChannelRegisters {
                    chctrla: old(dmac).spec_channel(self.spec_id()).chctrla | CHCTRLA_ENABLE,
                    ..old(dmac).spec_channel(self.spec_id())
                }),
            ),
    {
        let i = self.id as usize;
        let mut bank = dmac.channels[i];
        bank.chctrla = bank.chctrla | CHCTRLA_ENABLE;
        dmac.channels.set(i, bank);
    }

    /// Return whether the channel is enabled or not.
    pub fn is_enabled(&self, dmac: &DmacRegisters) -> (r: bool)
        requires
            dmac.wf(),
            self.spec_id() < CHANNEL_COUNT as u8,
        ensures
            r == chctrla_enabled(dmac.spec_channel(self.spec_id()).chctrla),
    {
        dmac.channels[self.id as usize].chctrla & CHCTRLA_ENABLE != 0
    }

    /// Reset the DMA channel. This restores all channel registers to their
    /// power-on values.
    ///
    /// If the channel is still enabled (or is in the process of being
    /// disabled), the command is ignored by the hardware.
    pub fn reset(&self, dmac: &mut DmacRegisters)
        requires
            old(dmac).wf(),
            self.spec_id() < CHANNEL_COUNT as u8,
        ensures
            final(dmac).wf(),
            same_global_registers(*old(dmac), *final(dmac)),
            chctrla_enabled(old(dmac).spec_channel(self.spec_id()).chctrla) ==> final(dmac).channels@ == old(dmac).channels@,
            !chctrla_enabled(old(dmac).spec_channel(self.spec_id()).chctrla) ==> final(dmac).channels@ == old(dmac).channels@.update(
                self.spec_id() as int,
                reset_channel_registers(),
            ),
    {
        let i = self.id as usize;
        let bank = dmac.channels[i];
        if bank.chctrla & CHCTRLA_ENABLE == 0 {
            dmac.channels.set(
                i,
                ChannelRegisters {
                    chctrla: 0,
                    chctrlb: 0,
                    chprilvl: 0,
                    chintenset: 0,
                    chintflag: 0,
                    chstatus: 0,
                },
            );
        }
    }

    /// Manually trigger the channel by setting its bit of the software
    /// trigger register.
    ///
    /// This read-modify-write of a register shared by all channels is not
    /// interrupt-safe: the caller must ensure the call-site is in an
    /// interrupt-free section.
    pub fn trigger(&self, dmac: &mut DmacRegisters)
        requires
            old(dmac).wf(),
            self.spec_id() < CHANNEL_COUNT as u8,
        ensures
            final(dmac).wf(),
            *final(dmac) == (DmacRegisters {
                swtrigctrl: old(dmac).swtrigctrl | (1u32 << (self.spec_id() as u32)),
                ..*old(dmac)
            }),
    {
        dmac.swtrigctrl = dmac.swtrigctrl | (1u32 << (self.id as u32));
    }

    /// Suspend the ongoing transaction.
    ///
    /// The command is written only if no other command is pending on the
    /// channel. Returns `false` if the command was accepted and `true` if
    /// another command is ongoing, in which case nothing is written.
    ///
    /// This call returns immediately; the suspend operation completes only
    /// once the ongoing burst transfer does.
    pub fn suspend(&self, dmac: &mut DmacRegisters) -> (ongoing: bool)
        requires
            old(dmac).wf(),
            self.spec_id() < CHANNEL_COUNT as u8,
        ensures
            final(dmac).wf(),
            same_global_registers(*old(dmac), *final(dmac)),
            ongoing == (chctrlb_cmd(old(dmac).spec_channel(self.spec_id()).chctrlb) != CMD_NOACT),
            chctrlb_cmd(old(dmac).spec_channel(self.spec_id()).chctrlb) == CMD_NOACT ==> final(dmac).channels@ == old(dmac).channels@.update(
                self.spec_id() as int,
                (ChannelRegisters {
                    chctrlb: (old(dmac).spec_channel(self.spec_id()).chctrlb & !CHCTRLB_CMD_MASK)
                        | CMD_SUSPEND,
                    ..old(dmac).spec_channel(self.spec_id())
                }),
            ),
            chctrlb_cmd(old(dmac).spec_channel(self.spec_id()).chctrlb) != CMD_NOACT ==> final(dmac).channels@ == old(dmac).channels@,
    {
        let i = self.id as usize;
        let mut bank = dmac.channels[i];
        if bank.chctrlb & CHCTRLB_CMD_MASK == CMD_NOACT {
            bank.chctrlb = (bank.chctrlb & !CHCTRLB_CMD_MASK) | CMD_SUSPEND;
            dmac.channels.set(i, bank);
            false
        } else {
            true
        }
    }

    /// Resume the suspended transaction.
    ///
    /// The command is written only if no other command is pending on the
    /// channel. Returns `false` if the command was accepted and `true` if
    /// another command is ongoing, in which case nothing is written.
    pub fn resume(&self, dmac: &mut DmacRegisters) -> (ongoing: bool)
        requires
            old(dmac).wf(),
            self.spec_id() < CHANNEL_COUNT as u8,
        ensures
            final(dmac).wf(),
            same_global_registers(*old(dmac), *final(dmac)),
            ongoing == (chctrlb_cmd(old(dmac).spec_channel(self.spec_id()).chctrlb) != CMD_NOACT),
            chctrlb_cmd(old(dmac).spec_channel(self.spec_id()).chctrlb) == CMD_NOACT ==> final(dmac).channels@ == old(dmac).channels@.update(
                self.spec_id() as int,
                (ChannelRegisters {
                    chctrlb: (old(dmac).spec_channel(self.spec_id()).chctrlb & !CHCTRLB_CMD_MASK)
                        | CMD_RESUME,
                    ..old(dmac).spec_channel(self.spec_id())
                }),
            ),
            chctrlb_cmd(old(dmac).spec_channel(self.spec_id()).chctrlb) != CMD_NOACT ==> final(dmac).channels@ == old(dmac).channels@,
    {
        let i = self.id as usize;
        let mut bank = dmac.channels[i];
        if bank.chctrlb & CHCTRLB_CMD_MASK == CMD_NOACT {
            bank.chctrlb = (bank.chctrlb & !CHCTRLB_CMD_MASK) | CMD_RESUME;
            dmac.channels.set(i, bank);
            false
        } else {
            true
        }
    }

    /// Disable the channel. This aborts any ongoing transaction.
    ///
    /// This call returns immediately; the transaction is not aborted until
    /// the ongoing burst transfer completes.
    pub fn disable(&self, dmac: &mut DmacRegisters)
        requires
            old(dmac).wf(),
            self.spec_id() < CHANNEL_COUNT as u8,
        ensures
            final(dmac).wf(),
            same_global_registers(*old(dmac), *final(dmac)),
            final(dmac).channels@ == old(dmac).channels@.update(
                self.spec_id() as int,
                (ChannelRegisters {
                    chctrla: old(dmac).spec_channel(self.spec_id()).chctrla & !CHCTRLA_ENABLE,
                    ..old(dmac).spec_channel(self.spec_id())
                }),
            ),
    {
        let i = self.id as usize;
        let mut bank = dmac.channels[i];
        bank.chctrla = bank.chctrla & !CHCTRLA_ENABLE;
        dmac.channels.set(i, bank);
    }

    /// Returns `true` if a transfer is pending on the channel. Returns
    /// `false` if a channel trigger action is completed, a bus error is
    /// detected, or the channel is disabled.
    pub fn is_pending(&self, dmac: &DmacRegisters) -> (r: bool)
        requires
            dmac.wf(),
            self.spec_id() < CHANNEL_COUNT as u8,
        ensures
            r == (dmac.spec_channel(self.spec_id()).chstatus & CHSTATUS_PEND != 0),
    {
        dmac.channels[self.id as usize].chstatus & CHSTATUS_PEND != 0
    }

    /// Returns `true` if the channel has started a transfer. Returns `false`
    /// if a channel trigger action is started, a bus error is detected, or
    /// the channel is disabled.
    pub fn is_busy(&self, dmac: &DmacRegisters) -> (r: bool)
        requires
            dmac.wf(),
            self.spec_id() < CHANNEL_COUNT as u8,
        ensures
            r == (dmac.spec_channel(self.spec_id()).chstatus & CHSTATUS_BUSY != 0),
    {
        dmac.channels[self.id as usize].chstatus & CHSTATUS_BUSY != 0
    }

    /// Poll the channel to determine the status of the transaction.
    ///
    /// This reads the channel's interrupt flag and status registers,
    /// resets the interrupt flags, and classifies the transaction state as
    /// [`spec_poll_result`] describes. Because the flags are cleared on
    /// read, it is expected to be called once per interrupt event, from the
    /// corresponding interrupt vector.
    pub fn poll_status(&self, dmac: &mut DmacRegisters) -> (r: Result<
        WaitResult,
        TransactionError,
    >)
        requires
            old(dmac).wf(),
            self.spec_id() < CHANNEL_COUNT as u8,
        ensures
            final(dmac).wf(),
            same_global_registers(*old(dmac), *final(dmac)),
            final(dmac).channels@ == old(dmac).channels@.update(
                self.spec_id() as int,
                (ChannelRegisters { chintflag: 0, ..old(dmac).spec_channel(self.spec_id()) }),
            ),
            r == spec_poll_result(old(dmac).spec_channel(self.spec_id())),
    {
        let i = self.id as usize;
        let mut bank = dmac.channels[i];
        let intflag = bank.chintflag;
        let status = bank.chstatus;
        bank.chintflag = 0;
        dmac.channels.set(i, bank);

        if bank.chctrla & CHCTRLA_ENABLE != 0 {
            if intflag & INT_TERR != 0 {
                if status & CHSTATUS_CRCERR != 0 {
                    Err(TransactionError::CRCError)
                } else {
                    Err(TransactionError::TransferError)
                }
            } else {
                Ok(WaitResult::Done)
            }
        } else if intflag & INT_SUSP != 0 {
            if status & CHSTATUS_FERR != 0 {
                Err(TransactionError::InvalidDescriptor)
            } else {
                Ok(WaitResult::Suspended)
            }
        } else {
            Ok(WaitResult::Ongoing)
        }
    }
}

/// Issuing a command on an idle command field is accepted and leaves the
/// field non-idle, so a second command issued immediately after is
/// rejected: over the raw control register B value, writing the suspend
/// command to an idle field yields a field that reads back as suspend, not
/// as idle.
pub proof fn lemma_command_accepted_once(b: u8)
    requires
        chctrlb_cmd(b) == CMD_NOACT,
    ensures
        chctrlb_cmd((b & !CHCTRLB_CMD_MASK) | CMD_SUSPEND) == CMD_SUSPEND,
        chctrlb_cmd((b & !CHCTRLB_CMD_MASK) | CMD_SUSPEND) != CMD_NOACT,
{
    assert(((b & !0x03u8) | 0x01u8) & 0x03u8 == 0x01u8) by (bit_vector);
}


/// Writing the trigger source field of control register A and decoding it
/// back yields the written source, for every source and any prior register
/// value.
pub proof fn lemma_trigger_source_register_round_trip(a: u32, s: TriggerSource)
    ensures
        TriggerSource::spec_from(
            chctrla_trigsrc((a & !CHCTRLA_TRIGSRC_MASK) | ((s.spec_bits() as u32) << 8)),
        ) == s,
{
    let b = s.spec_bits();
    assert(b < 85);
    assert((((a & !0x7F00u32) | ((b as u32) << 8)) >> 8) & 0x7F == b as u32) by (bit_vector)
        requires
            b < 85,
    ;
    crate::types::lemma_trigger_source_round_trip(s);
}

/// Writing the trigger action field of control register A and decoding it
/// back yields the written action, for every action and any prior register
/// value.
pub proof fn lemma_trigger_action_register_round_trip(a: u32, t: TriggerAction)
    ensures
        TriggerAction::spec_from(
            chctrla_trigact((a & !CHCTRLA_TRIGACT_MASK) | ((t.spec_bits() as u32) << 20)),
        ) == t,
{
    let b = t.spec_bits();
    assert(b < 4);
    assert((((a & !0x0030_0000u32) | ((b as u32) << 20)) >> 20) & 3 == b as u32) by (bit_vector)
        requires
            b < 4,
    ;
    crate::types::lemma_trigger_action_round_trip(t);
}

/// Writing the burst length field of control register A and decoding it
/// back yields the written length, for every length and any prior register
/// value.
pub proof fn lemma_burst_length_register_round_trip(a: u32, l: BurstLength)
    ensures
        BurstLength::spec_from(
            chctrla_burstlen((a & !CHCTRLA_BURSTLEN_MASK) | ((l.spec_bits() as u32) << 24)),
        ) == l,
{
    let b = l.spec_bits();
    assert(b < 16);
    assert((((a & !0x0F00_0000u32) | ((b as u32) << 24)) >> 24) & 0xF == b as u32) by (bit_vector)
        requires
            b < 16,
    ;
    crate::types::lemma_burst_length_round_trip(l);
}

/// Writing the FIFO threshold field of control register A and decoding it
/// back yields the written threshold, for every threshold and any prior
/// register value.
pub proof fn lemma_fifo_threshold_register_round_trip(a: u32, f: FifoThreshold)
    ensures
        FifoThreshold::spec_from(
            chctrla_threshold((a & !CHCTRLA_THRESHOLD_MASK) | ((f.spec_bits() as u32) << 28)),
        ) == f,
{
    let b = f.spec_bits();
    assert(b < 4);
    assert((((a & !0x3000_0000u32) | ((b as u32) << 28)) >> 28) & 3 == b as u32) by (bit_vector)
        requires
            b < 4,
    ;
    crate::types::lemma_fifo_threshold_round_trip(f);
}

/// Writing a priority level into the channel priority register and decoding
/// it back yields the written level, for every level.
pub proof fn lemma_priority_register_round_trip(p: Priority)
    ensures
        Priority::spec_from(p.spec_bits() & 3) == p,
{
    let b = p.spec_bits();
    assert(b < 4);
    assert(b & 3 == b) by (bit_vector)
        requires
            b < 4,
    ;
    crate::types::lemma_priority_round_trip(p);
}

} // verus!
