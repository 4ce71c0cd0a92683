//! Model of the DMA system's memory-mapped register block.
//!
//! [`DmacRegisters`] records every control, status and address register of
//! the DMA system as a plain value, with one [`ChannelRegisters`] bank per
//! hardware channel. It stands for the hardware register block: the driver's
//! operations take it explicitly and their contracts state exactly which
//! registers each operation reads and writes. The fields are public so that
//! a caller (or a test) can stand up any register state the hardware could
//! present.

use vstd::prelude::*;

verus! {

/// Number of channel register banks in the register block.
pub const CHANNEL_COUNT: usize = 32;

/// Software reset bit of the global control register.
pub const CTRL_SWRST: u16 = 0x0001;

/// Global DMA enable bit of the control register.
pub const CTRL_DMAENABLE: u16 = 0x0002;

/// Priority level 0 enable bit of the control register; level `n` sits `n`
/// bits higher.
pub const CTRL_LVLEN0: u16 = 0x0100;

/// Run-while-debug bit of the debug control register.
pub const DBGCTRL_DBGRUN: u8 = 0x01;

/// Software reset bit of a channel's control register A.
pub const CHCTRLA_SWRST: u32 = 0x0000_0001;

/// Enable bit of a channel's control register A.
pub const CHCTRLA_ENABLE: u32 = 0x0000_0002;

/// Run-in-standby bit of a channel's control register A.
pub const CHCTRLA_RUNSTDBY: u32 = 0x0000_0040;

/// Trigger source field of a channel's control register A (seven bits).
pub const CHCTRLA_TRIGSRC_MASK: u32 = 0x0000_7F00;

/// Trigger action field of a channel's control register A (two bits).
pub const CHCTRLA_TRIGACT_MASK: u32 = 0x0030_0000;

/// Burst length field of a channel's control register A (four bits).
pub const CHCTRLA_BURSTLEN_MASK: u32 = 0x0F00_0000;

/// FIFO threshold field of a channel's control register A (two bits).
pub const CHCTRLA_THRESHOLD_MASK: u32 = 0x3000_0000;

/// Command field of a channel's control register B (two bits).
pub const CHCTRLB_CMD_MASK: u8 = 0x03;

/// Command encoding: no action pending.
pub const CMD_NOACT: u8 = 0;

/// Command encoding: suspend the ongoing transaction.
pub const CMD_SUSPEND: u8 = 1;

/// Command encoding: resume the suspended transaction.
pub const CMD_RESUME: u8 = 2;

/// Priority level field of a channel's priority level register (two bits).
pub const CHPRILVL_MASK: u8 = 0x03;

/// Transfer-error flag of a channel's interrupt registers.
pub const INT_TERR: u8 = 0x01;

/// Transfer-complete flag of a channel's interrupt registers.
pub const INT_TCMPL: u8 = 0x02;

/// Suspend flag of a channel's interrupt registers.
pub const INT_SUSP: u8 = 0x04;

/// Pending bit of a channel's status register.
pub const CHSTATUS_PEND: u8 = 0x01;

/// Busy bit of a channel's status register.
pub const CHSTATUS_BUSY: u8 = 0x02;

/// Fetch-error bit of a channel's status register.
pub const CHSTATUS_FERR: u8 = 0x04;

/// CRC-error bit of a channel's status register.
pub const CHSTATUS_CRCERR: u8 = 0x08;

/// Channel identifier field of the interrupt-pending register (five bits).
pub const INTPEND_ID_MASK: u16 = 0x001F;

/// Transfer-error flag of the interrupt-pending register.
pub const INTPEND_TERR: u16 = 0x0100;

/// Transfer-complete flag of the interrupt-pending register.
pub const INTPEND_TCMPL: u16 = 0x0200;

/// Suspend flag of the interrupt-pending register.
pub const INTPEND_SUSP: u16 = 0x0400;

/// CRC-error bit of the interrupt-pending register.
pub const INTPEND_CRCERR: u16 = 0x1000;

/// Fetch-error bit of the interrupt-pending register.
pub const INTPEND_FERR: u16 = 0x2000;

/// Busy bit of the interrupt-pending register.
pub const INTPEND_BUSY: u16 = 0x4000;

/// Pending bit of the interrupt-pending register.
pub const INTPEND_PEND: u16 = 0x8000;

/// Active-channel busy bit of the active channel and levels register.
pub const ACTIVE_ABUSY: u32 = 0x0000_8000;

/// The register bank of one DMA channel.
#[derive(Debug, Clone, Copy, PartialEq, Eq, Structural)]
pub struct ChannelRegisters {
    /// Control register A: software reset, enable, run-in-standby, trigger
    /// source and action, burst length and FIFO threshold.
    pub chctrla: u32,
    /// Control register B: the suspend/resume command field.
    pub chctrlb: u8,
    /// Priority level register.
    pub chprilvl: u8,
    /// Interrupt enable register: the set of enabled interrupts.
    pub chintenset: u8,
    /// Interrupt flag register.
    pub chintflag: u8,
    /// Status register: pending, busy, fetch error, CRC error.
    pub chstatus: u8,
}

/// The power-on value of a channel register bank: every register cleared.
pub open spec fn reset_channel_registers() -> ChannelRegisters {
    ChannelRegisters { chctrla: 0, chctrlb: 0, chprilvl: 0, chintenset: 0, chintflag: 0, chstatus: 0 }
}

/// The register block of the DMA system: the global registers and one
/// register bank per channel.
#[derive(Debug)]
pub struct DmacRegisters {
    /// Global control register: software reset, DMA enable, priority level
    /// enables.
    pub ctrl: u16,
    /// Debug control register.
    pub dbgctrl: u8,
    /// Software trigger register, one bit per channel.
    pub swtrigctrl: u32,
    /// Priority control register: per-level round-robin and QoS fields.
    pub prictrl0: u32,
    /// Quality of service control register: data transfer, fetch and
    /// write-back QoS fields.
    pub qosctrl: u8,
    /// Interrupt pending register: a channel identifier selector and the
    /// selected channel's composed interrupt and status bits.
    pub intpend: u16,
    /// Interrupt status register, one bit per channel.
    pub intstatus: u32,
    /// Busy channels register, one bit per channel.
    pub busych: u32,
    /// Pending channels register, one bit per channel.
    pub pendch: u32,
    /// Active channel and levels register.
    pub active: u32,
    /// Descriptor memory base address register.
    pub baseaddr: u32,
    /// Write-back memory base address register.
    pub wrbaddr: u32,
    /// The per-channel register banks.
    pub channels: Vec<ChannelRegisters>,
}

impl DmacRegisters {
    /// Well-formedness: the block holds one register bank per channel.
    pub open spec fn wf(self) -> bool {
        self.channels@.len() == CHANNEL_COUNT
    }

    /// The register bank of the channel with the given identifier.
    pub open spec fn spec_channel(self, id: u8) -> ChannelRegisters
        recommends
            (id as int) < self.channels@.len(),
    {
        self.channels@[id as int]
    }

    /// A register block in its power-on state: every register cleared.
    pub fn new() -> (r: DmacRegisters)
        ensures
            r.wf(),
            r.ctrl == 0,
            r.dbgctrl == 0,
            r.swtrigctrl == 0,
            r.prictrl0 == 0,
            r.qosctrl == 0,
            r.intpend == 0,
            r.intstatus == 0,
            r.busych == 0,
            r.pendch == 0,
            r.active == 0,
            r.baseaddr == 0,
            r.wrbaddr == 0,
            forall|i: int| 0 <= i < CHANNEL_COUNT ==> r.channels@[i] == reset_channel_registers(),
    {
        let mut channels: Vec<ChannelRegisters> = Vec::new();
        let mut i: usize = 0;
        while i < CHANNEL_COUNT
            invariant
                i <= CHANNEL_COUNT,
                channels@.len() == i,
                forall|j: int| 0 <= j < i ==> channels@[j] == reset_channel_registers(),
            decreases CHANNEL_COUNT - i,
        {
            channels.push(
                ChannelRegisters {
                    chctrla: 0,
                    chctrlb: 0,
                    chprilvl: 0,
                    chintenset: 0,
                    chintflag: 0,
                    chstatus: 0,
                },
            );
            i += 1;
        }
        DmacRegisters {
            ctrl: 0,
            dbgctrl: 0,
            swtrigctrl: 0,
            prictrl0: 0,
            qosctrl: 0,
            intpend: 0,
            intstatus: 0,
            busych: 0,
            pendch: 0,
            active: 0,
            baseaddr: 0,
            wrbaddr: 0,
            channels,
        }
    }
}

/// True if the twelve global registers of the two blocks agree: an
/// operation ensuring this touches only channel register banks.
pub open spec fn same_global_registers(a: DmacRegisters, b: DmacRegisters) -> bool {
    a.ctrl == b.ctrl && a.dbgctrl == b.dbgctrl && a.swtrigctrl == b.swtrigctrl && a.prictrl0
        == b.prictrl0 && a.qosctrl == b.qosctrl && a.intpend == b.intpend && a.intstatus
        == b.intstatus && a.busych == b.busych && a.pendch == b.pendch && a.active == b.active
        && a.baseaddr == b.baseaddr && a.wrbaddr == b.wrbaddr
}

} // verus!
