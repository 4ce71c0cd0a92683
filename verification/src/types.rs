//! The closed, hardware-defined value sets the driver reads from and writes
//! to registers: priority levels, quality-of-service levels, trigger sources
//! and actions, beat/step sizes, block actions, event output selectors, and
//! the interrupt and channel bitfields.
//!
//! Each enumeration comes with an encoding into the raw register field value
//! (`bits`) and a decoding back (`from`), together with proofs that decoding
//! inverts encoding on every legal value.

use vstd::prelude::*;

verus! {

/// Priority level of a channel.
#[derive(Debug, Clone, Copy, PartialEq, Eq, Structural)]
pub enum Priority {
    Level0,
    Level1,
    Level2,
    Level3,
}

impl Priority {
    /// The raw two-bit register encoding of this priority level.
    pub open spec fn spec_bits(self) -> u8 {
        match self {
            Priority::Level0 => 0,
            Priority::Level1 => 1,
            Priority::Level2 => 2,
            Priority::Level3 => 3,
        }
    }

    /// Encode the priority level as its raw register field value.
    pub fn bits(self) -> (r: u8)
        ensures
            r == self.spec_bits(),
            r < 4,
    {
        match self {
            Priority::Level0 => 0,
            Priority::Level1 => 1,
            Priority::Level2 => 2,
            Priority::Level3 => 3,
        }
    }

    /// The priority level a raw two-bit register field decodes to.
    pub open spec fn spec_from(value: u8) -> Priority {
        if value == 0 {
            Priority::Level0
        } else if value == 1 {
            Priority::Level1
        } else if value == 2 {
            Priority::Level2
        } else {
            Priority::Level3
        }
    }

    /// Decode a raw two-bit register field into a priority level.
    pub fn from(value: u8) -> (r: Priority)
        requires
            value < 4,
        ensures
            r == Priority::spec_from(value),
    {
        if value == 0 {
            Priority::Level0
        } else if value == 1 {
            Priority::Level1
        } else if value == 2 {
            Priority::Level2
        } else {
            Priority::Level3
        }
    }
}

/// Decoding a priority level's encoding yields the level back, for every
/// level.
pub proof fn lemma_priority_round_trip(p: Priority)
    ensures
        Priority::spec_from(p.spec_bits()) == p,
{
}

/// Quality of Service guarantee for the DMA system.
#[derive(Debug, Clone, Copy, PartialEq, Eq, Structural)]
pub enum QoS {
    Disable,
    Low,
    Medium,
    Critical,
}

impl QoS {
    /// The raw two-bit register encoding of this QoS level.
    pub open spec fn spec_bits(self) -> u8 {
        match self {
            QoS::Disable => 0,
            QoS::Low => 1,
            QoS::Medium => 2,
            QoS::Critical => 3,
        }
    }

    /// Encode the QoS level as its raw register field value.
    pub fn bits(self) -> (r: u8)
        ensures
            r == self.spec_bits(),
            r < 4,
    {
        match self {
            QoS::Disable => 0,
            QoS::Low => 1,
            QoS::Medium => 2,
            QoS::Critical => 3,
        }
    }

    /// The QoS level a raw two-bit register field decodes to.
    pub open spec fn spec_from(value: u8) -> QoS {
        if value == 0 {
            QoS::Disable
        } else if value == 1 {
            QoS::Low
        } else if value == 2 {
            QoS::Medium
        } else {
            QoS::Critical
        }
    }

    /// Decode a raw two-bit register field into a QoS level.
    pub fn from(value: u8) -> (r: QoS)
        requires
            value < 4,
        ensures
            r == QoS::spec_from(value),
    {
        if value == 0 {
            QoS::Disable
        } else if value == 1 {
            QoS::Low
        } else if value == 2 {
            QoS::Medium
        } else {
            QoS::Critical
        }
    }
}

/// Decoding a QoS level's encoding yields the level back, for every level.
pub proof fn lemma_qos_round_trip(q: QoS)
    ensures
        QoS::spec_from(q.spec_bits()) == q,
{
}

/// The status of a channel, as read through the interrupt-pending register.
#[derive(Debug, Clone, Copy, PartialEq, Eq, Structural)]
pub enum Status {
    Busy,
    Pending,
    FetchError,
    CRCError,
}

/// Length of a burst in beats.
#[derive(Debug, Clone, Copy, PartialEq, Eq, Structural)]
pub enum BurstLength {
    Single,
    TwoBeats,
    ThreeBeats,
    FourBeats,
    FiveBeats,
    SixBeats,
    SevenBeats,
    EightBeats,
    NineBeats,
    TenBeats,
    ElevenBeats,
    TwelveBeats,
    ThirteenBeats,
    FourteenBeats,
    FifteenBeats,
    SixteenBeats,
}

impl BurstLength {
    /// The raw four-bit register encoding of this burst length: one less
    /// than the number of beats in a burst.
    pub open spec fn spec_bits(self) -> u8 {
        match self {
            BurstLength::Single => 0,
            BurstLength::TwoBeats => 1,
            BurstLength::ThreeBeats => 2,
            BurstLength::FourBeats => 3,
            BurstLength::FiveBeats => 4,
            BurstLength::SixBeats => 5,
            BurstLength::SevenBeats => 6,
            BurstLength::EightBeats => 7,
            BurstLength::NineBeats => 8,
            BurstLength::TenBeats => 9,
            BurstLength::ElevenBeats => 10,
            BurstLength::TwelveBeats => 11,
            BurstLength::ThirteenBeats => 12,
            BurstLength::FourteenBeats => 13,
            BurstLength::FifteenBeats => 14,
            BurstLength::SixteenBeats => 15,
        }
    }

    /// Encode the burst length as its raw register field value.
    pub fn bits(self) -> (r: u8)
        ensures
            r == self.spec_bits(),
            r < 16,
    {
        match self {
            BurstLength::Single => 0,
            BurstLength::TwoBeats => 1,
            BurstLength::ThreeBeats => 2,
            BurstLength::FourBeats => 3,
            BurstLength::FiveBeats => 4,
            BurstLength::SixBeats => 5,
            BurstLength::SevenBeats => 6,
            BurstLength::EightBeats => 7,
            BurstLength::NineBeats => 8,
            BurstLength::TenBeats => 9,
            BurstLength::ElevenBeats => 10,
            BurstLength::TwelveBeats => 11,
            BurstLength::ThirteenBeats => 12,
            BurstLength::FourteenBeats => 13,
            BurstLength::FifteenBeats => 14,
            BurstLength::SixteenBeats => 15,
        }
    }

    /// The burst length a raw four-bit register field decodes to.
    pub open spec fn spec_from(value: u8) -> BurstLength {
        if value == 0 {
            BurstLength::Single
        } else if value == 1 {
            BurstLength::TwoBeats
        } else if value == 2 {
            BurstLength::ThreeBeats
        } else if value == 3 {
            BurstLength::FourBeats
        } else if value == 4 {
            BurstLength::FiveBeats
        } else if value == 5 {
            BurstLength::SixBeats
        } else if value == 6 {
            BurstLength::SevenBeats
        } else if value == 7 {
            BurstLength::EightBeats
        } else if value == 8 {
            BurstLength::NineBeats
        } else if value == 9 {
            BurstLength::TenBeats
        } else if value == 10 {
            BurstLength::ElevenBeats
        } else if value == 11 {
            BurstLength::TwelveBeats
        } else if value == 12 {
            BurstLength::ThirteenBeats
        } else if value == 13 {
            BurstLength::FourteenBeats
        } else if value == 14 {
            BurstLength::FifteenBeats
        } else {
            BurstLength::SixteenBeats
        }
    }

    /// Decode a raw four-bit register field into a burst length.
    pub fn from(value: u8) -> (r: BurstLength)
        requires
            value < 16,
        ensures
            r == BurstLength::spec_from(value),
    {
        match value {
            0 => BurstLength::Single,
            1 => BurstLength::TwoBeats,
            2 => BurstLength::ThreeBeats,
            3 => BurstLength::FourBeats,
            4 => BurstLength::FiveBeats,
            5 => BurstLength::SixBeats,
            6 => BurstLength::SevenBeats,
            7 => BurstLength::EightBeats,
            8 => BurstLength::NineBeats,
            9 => BurstLength::TenBeats,
            10 => BurstLength::ElevenBeats,
            11 => BurstLength::TwelveBeats,
            12 => BurstLength::ThirteenBeats,
            13 => BurstLength::FourteenBeats,
            14 => BurstLength::FifteenBeats,
            _ => BurstLength::SixteenBeats,
        }
    }
}

/// Decoding a burst length's encoding yields the length back, for every
/// length.
pub proof fn lemma_burst_length_round_trip(b: BurstLength)
    ensures
        BurstLength::spec_from(b.spec_bits()) == b,
{
}

/// What action occurs when a trigger is received.
#[derive(Debug, Clone, Copy, PartialEq, Eq, Structural)]
pub enum TriggerAction {
    /// Trigger starts a block transfer.
    Block,
    /// Trigger starts a burst transfer.
    Burst,
    /// Trigger starts a transaction transfer.
    Transaction,
}

impl TriggerAction {
    /// The raw two-bit register encoding of this trigger action.
    pub open spec fn spec_bits(self) -> u8 {
        match self {
            TriggerAction::Block => 0,
            TriggerAction::Burst => 2,
            TriggerAction::Transaction => 3,
        }
    }

    /// Encode the trigger action as its raw register field value.
    pub fn bits(self) -> (r: u8)
        ensures
            r == self.spec_bits(),
            r < 4,
    {
        match self {
            TriggerAction::Block => 0,
            TriggerAction::Burst => 2,
            TriggerAction::Transaction => 3,
        }
    }

    /// The trigger action a raw two-bit register field decodes to. The one
    /// reserved encoding reads back as `Block`.
    pub open spec fn spec_from(value: u8) -> TriggerAction {
        if value == 2 {
            TriggerAction::Burst
        } else if value == 3 {
            TriggerAction::Transaction
        } else {
            TriggerAction::Block
        }
    }

    /// Decode a raw two-bit register field into a trigger action.
    pub fn from(value: u8) -> (r: TriggerAction)
        ensures
            r == TriggerAction::spec_from(value),
    {
        if value == 2 {
            TriggerAction::Burst
        } else if value == 3 {
            TriggerAction::Transaction
        } else {
            TriggerAction::Block
        }
    }
}

/// Decoding a trigger action's encoding yields the action back, for every
/// action.
pub proof fn lemma_trigger_action_round_trip(t: TriggerAction)
    ensures
        TriggerAction::spec_from(t.spec_bits()) == t,
{
}

/// Number of beats before destination writes occur.
#[derive(Debug, Clone, Copy, PartialEq, Eq, Structural)]
pub enum FifoThreshold {
    OneBeat,
    TwoBeats,
    FourBeats,
    EightBeats,
}

impl FifoThreshold {
    /// The raw two-bit register encoding of this threshold.
    pub open spec fn spec_bits(self) -> u8 {
        match self {
            FifoThreshold::OneBeat => 0,
            FifoThreshold::TwoBeats => 1,
            FifoThreshold::FourBeats => 2,
            FifoThreshold::EightBeats => 3,
        }
    }

    /// Encode the threshold as its raw register field value.
    pub fn bits(self) -> (r: u8)
        ensures
            r == self.spec_bits(),
            r < 4,
    {
        match self {
            FifoThreshold::OneBeat => 0,
            FifoThreshold::TwoBeats => 1,
            FifoThreshold::FourBeats => 2,
            FifoThreshold::EightBeats => 3,
        }
    }

    /// The threshold a raw two-bit register field decodes to.
    pub open spec fn spec_from(value: u8) -> FifoThreshold {
        if value == 0 {
            FifoThreshold::OneBeat
        } else if value == 1 {
            FifoThreshold::TwoBeats
        } else if value == 2 {
            FifoThreshold::FourBeats
        } else {
            FifoThreshold::EightBeats
        }
    }

    /// Decode a raw two-bit register field into a threshold.
    pub fn from(value: u8) -> (r: FifoThreshold)
        requires
            value < 4,
        ensures
            r == FifoThreshold::spec_from(value),
    {
        if value == 0 {
            FifoThreshold::OneBeat
        } else if value == 1 {
            FifoThreshold::TwoBeats
        } else if value == 2 {
            FifoThreshold::FourBeats
        } else {
            FifoThreshold::EightBeats
        }
    }
}

/// Decoding a threshold's encoding yields the threshold back, for every
/// threshold.
pub proof fn lemma_fifo_threshold_round_trip(f: FifoThreshold)
    ensures
        FifoThreshold::spec_from(f.spec_bits()) == f,
{
}

/// When EVSYS events should be output.
#[derive(Debug, Clone, Copy, PartialEq, Eq, Structural)]
pub enum EventOutput {
    Disable,
    Block,
    Beat,
}

impl EventOutput {
    /// The raw two-bit register encoding of this selector. The encoding 2 is
    /// reserved by the hardware and never produced.
    pub open spec fn spec_bits(self) -> u8 {
        match self {
            EventOutput::Disable => 0,
            EventOutput::Block => 1,
            EventOutput::Beat => 3,
        }
    }

    /// Encode the selector as its raw register field value.
    pub fn bits(self) -> (r: u8)
        ensures
            r == self.spec_bits(),
            r < 4,
            r != 2,
    {
        match self {
            EventOutput::Disable => 0,
            EventOutput::Block => 1,
            EventOutput::Beat => 3,
        }
    }

    /// The selector a raw two-bit register field decodes to, for the three
    /// encodings the hardware defines.
    pub open spec fn spec_from(value: u16) -> EventOutput {
        if value == 1 {
            EventOutput::Block
        } else if value == 3 {
            EventOutput::Beat
        } else {
            EventOutput::Disable
        }
    }

    /// Decode a raw two-bit register field into a selector. The encoding 2
    /// is reserved by the hardware and not accepted.
    pub fn from(value: u16) -> (r: EventOutput)
        requires
            value == 0 || value == 1 || value == 3,
        ensures
            r == EventOutput::spec_from(value),
    {
        if value == 1 {
            EventOutput::Block
        } else if value == 3 {
            EventOutput::Beat
        } else {
            EventOutput::Disable
        }
    }
}

/// Decoding a selector's encoding yields the selector back, for every
/// selector.
pub proof fn lemma_event_output_round_trip(e: EventOutput)
    ensures
        EventOutput::spec_from(e.spec_bits() as u16) == e,
{
}

/// Define what happens when a block transfer completes.
#[derive(Debug, Clone, Copy, PartialEq, Eq, Structural)]
pub enum BlockAction {
    /// Channel will be disabled if this is the last block transfer.
    NoAct,
    /// Block interrupt will be generated, plus the action of NoAct.
    Int,
    /// Channel will be suspended.
    Suspend,
    /// Channel will be suspended and block interrupt will be generated.
    Both,
}

impl BlockAction {
    /// The raw two-bit register encoding of this block action.
    pub open spec fn spec_bits(self) -> u8 {
        match self {
            BlockAction::NoAct => 0,
            BlockAction::Int => 1,
            BlockAction::Suspend => 2,
            BlockAction::Both => 3,
        }
    }

    /// Encode the block action as its raw register field value.
    pub fn bits(self) -> (r: u8)
        ensures
            r == self.spec_bits(),
            r < 4,
    {
        match self {
            BlockAction::NoAct => 0,
            BlockAction::Int => 1,
            BlockAction::Suspend => 2,
            BlockAction::Both => 3,
        }
    }

    /// The block action a raw two-bit register field decodes to.
    pub open spec fn spec_from(value: u16) -> BlockAction {
        if value == 0 {
            BlockAction::NoAct
        } else if value == 1 {
            BlockAction::Int
        } else if value == 2 {
            BlockAction::Suspend
        } else {
            BlockAction::Both
        }
    }

    /// Decode a raw two-bit register field into a block action.
    pub fn from(value: u16) -> (r: BlockAction)
        requires
            value < 4,
        ensures
            r == BlockAction::spec_from(value),
    {
        if value == 0 {
            BlockAction::NoAct
        } else if value == 1 {
            BlockAction::Int
        } else if value == 2 {
            BlockAction::Suspend
        } else {
            BlockAction::Both
        }
    }
}

/// Decoding a block action's encoding yields the action back, for every
/// action.
pub proof fn lemma_block_action_round_trip(b: BlockAction)
    ensures
        BlockAction::spec_from(b.spec_bits() as u16) == b,
{
}

/// Size of a DMA beat transfer memory access.
#[derive(Debug, Clone, Copy, PartialEq, Eq, Structural)]
pub enum BeatSize {
    Byte,
    HWord,
    Word,
}

impl BeatSize {
    /// The raw two-bit register encoding of this beat size. The encoding 3
    /// is reserved by the hardware and never produced.
    pub open spec fn spec_bits(self) -> u8 {
        match self {
            BeatSize::Byte => 0,
            BeatSize::HWord => 1,
            BeatSize::Word => 2,
        }
    }

    /// Encode the beat size as its raw register field value.
    pub fn bits(self) -> (r: u8)
        ensures
            r == self.spec_bits(),
            r < 3,
    {
        match self {
            BeatSize::Byte => 0,
            BeatSize::HWord => 1,
            BeatSize::Word => 2,
        }
    }

    /// The beat size a raw two-bit register field decodes to, for the three
    /// encodings the hardware defines.
    pub open spec fn spec_from(value: u16) -> BeatSize {
        if value == 1 {
            BeatSize::HWord
        } else if value == 2 {
            BeatSize::Word
        } else {
            BeatSize::Byte
        }
    }

    /// Decode a raw two-bit register field into a beat size. The encoding 3
    /// is reserved by the hardware and not accepted.
    pub fn from(value: u16) -> (r: BeatSize)
        requires
            value < 3,
        ensures
            r == BeatSize::spec_from(value),
    {
        if value == 1 {
            BeatSize::HWord
        } else if value == 2 {
            BeatSize::Word
        } else {
            BeatSize::Byte
        }
    }
}

/// Decoding a beat size's encoding yields the size back, for every size.
pub proof fn lemma_beat_size_round_trip(b: BeatSize)
    ensures
        BeatSize::spec_from(b.spec_bits() as u16) == b,
{
}

/// Size of the address advancement step.
#[derive(Debug, Clone, Copy, PartialEq, Eq, Structural)]
pub enum StepSize {
    X1,
    X2,
    X4,
    X8,
    X16,
    X32,
    X64,
    X128,
}

impl StepSize {
    /// The raw three-bit register encoding of this step size: the power of
    /// two the address advances by.
    pub open spec fn spec_bits(self) -> u8 {
        match self {
            StepSize::X1 => 0,
            StepSize::X2 => 1,
            StepSize::X4 => 2,
            StepSize::X8 => 3,
            StepSize::X16 => 4,
            StepSize::X32 => 5,
            StepSize::X64 => 6,
            StepSize::X128 => 7,
        }
    }

    /// Encode the step size as its raw register field value.
    pub fn bits(self) -> (r: u8)
        ensures
            r == self.spec_bits(),
            r < 8,
    {
        match self {
            StepSize::X1 => 0,
            StepSize::X2 => 1,
            StepSize::X4 => 2,
            StepSize::X8 => 3,
            StepSize::X16 => 4,
            StepSize::X32 => 5,
            StepSize::X64 => 6,
            StepSize::X128 => 7,
        }
    }

    /// The step size a raw three-bit register field decodes to.
    pub open spec fn spec_from(value: u16) -> StepSize {
        if value == 0 {
            StepSize::X1
        } else if value == 1 {
            StepSize::X2
        } else if value == 2 {
            StepSize::X4
        } else if value == 3 {
            StepSize::X8
        } else if value == 4 {
            StepSize::X16
        } else if value == 5 {
            StepSize::X32
        } else if value == 6 {
            StepSize::X64
        } else {
            StepSize::X128
        }
    }

    /// Decode a raw three-bit register field into a step size.
    pub fn from(value: u16) -> (r: StepSize)
        requires
            value < 8,
        ensures
            r == StepSize::spec_from(value),
    {
        if value == 0 {
            StepSize::X1
        } else if value == 1 {
            StepSize::X2
        } else if value == 2 {
            StepSize::X4
        } else if value == 3 {
            StepSize::X8
        } else if value == 4 {
            StepSize::X16
        } else if value == 5 {
            StepSize::X32
        } else if value == 6 {
            StepSize::X64
        } else {
            StepSize::X128
        }
    }
}

/// Decoding a step size's encoding yields the size back, for every size.
pub proof fn lemma_step_size_round_trip(s: StepSize)
    ensures
        StepSize::spec_from(s.spec_bits() as u16) == s,
{
}

/// Trigger source for a channel.
#[derive(Debug, Clone, Copy, PartialEq, Eq, Structural)]
pub enum TriggerSource {
    Disable,
    RtcTimestamp,
    DsuDcc0,
    DsuDcc1,
    Sercom0Rx,
    Sercom0Tx,
    Sercom1Rx,
    Sercom1Tx,
    Sercom2Rx,
    Sercom2Tx,
    Sercom3Rx,
    Sercom3Tx,
    Sercom4Rx,
    Sercom4Tx,
    Sercom5Rx,
    Sercom5Tx,
    Sercom6Rx,
    Sercom6Tx,
    Sercom7Rx,
    Sercom7Tx,
    Can0Debug,
    Can1Debug,
    Tcc0Ovf,
    Tcc0Mc0,
    Tcc0Mc1,
    Tcc0Mc2,
    Tcc0Mc3,
    Tcc0Mc4,
    Tcc0Mc5,
    Tcc1Ovf,
    Tcc1Mc0,
    Tcc1Mc1,
    Tcc1Mc2,
    Tcc1Mc3,
    Tcc2Ovf,
    Tcc2Mc0,
    Tcc2Mc1,
    Tcc2Mc2,
    Tcc3Ovf,
    Tcc3Mc0,
    Tcc3Mc1,
    Tcc4Ovf,
    Tcc4Mc0,
    Tcc4Mc1,
    Tc0Ovf,
    Tc0Mc0,
    Tc0Mc1,
    Tc1Ovf,
    Tc1Mc0,
    Tc1Mc1,
    Tc2Ovf,
    Tc2Mc0,
    Tc2Mc1,
    Tc3Ovf,
    Tc3Mc0,
    Tc3Mc1,
    Tc4Ovf,
    Tc4Mc0,
    Tc4Mc1,
    Tc5Ovf,
    Tc5Mc0,
    Tc5Mc1,
    Tc6Ovf,
    Tc6Mc0,
    Tc6Mc1,
    Tc7Ovf,
    Tc7Mc0,
    Tc7Mc1,
    Adc0ResRdy,
    Adc0Seq,
    Adc1ResRdy,
    Adc1Seq,
    Dac0Empty,
    Dac1Empty,
    Dac0ResRdy,
    Dac1ResRdy,
    I2sRx0,
    I2sRx1,
    I2sTx0,
    I2sTx1,
    PccRx,
    AesWr,
    AesRd,
    QspiRx,
    QspiTx,
}

impl TriggerSource {
    /// The raw register encoding of this trigger source.
    pub open spec fn spec_bits(self) -> u8 {
        match self {
            TriggerSource::Disable => 0,
            TriggerSource::RtcTimestamp => 1,
            TriggerSource::DsuDcc0 => 2,
            TriggerSource::DsuDcc1 => 3,
            TriggerSource::Sercom0Rx => 4,
            TriggerSource::Sercom0Tx => 5,
            TriggerSource::Sercom1Rx => 6,
            TriggerSource::Sercom1Tx => 7,
            TriggerSource::Sercom2Rx => 8,
            TriggerSource::Sercom2Tx => 9,
            TriggerSource::Sercom3Rx => 10,
            TriggerSource::Sercom3Tx => 11,
            TriggerSource::Sercom4Rx => 12,
            TriggerSource::Sercom4Tx => 13,
            TriggerSource::Sercom5Rx => 14,
            TriggerSource::Sercom5Tx => 15,
            TriggerSource::Sercom6Rx => 16,
            TriggerSource::Sercom6Tx => 17,
            TriggerSource::Sercom7Rx => 18,
            TriggerSource::Sercom7Tx => 19,
            TriggerSource::Can0Debug => 20,
            TriggerSource::Can1Debug => 21,
            TriggerSource::Tcc0Ovf => 22,
            TriggerSource::Tcc0Mc0 => 23,
            TriggerSource::Tcc0Mc1 => 24,
            TriggerSource::Tcc0Mc2 => 25,
            TriggerSource::Tcc0Mc3 => 26,
            TriggerSource::Tcc0Mc4 => 27,
            TriggerSource::Tcc0Mc5 => 28,
            TriggerSource::Tcc1Ovf => 29,
            TriggerSource::Tcc1Mc0 => 30,
            TriggerSource::Tcc1Mc1 => 31,
            TriggerSource::Tcc1Mc2 => 32,
            TriggerSource::Tcc1Mc3 => 33,
            TriggerSource::Tcc2Ovf => 34,
            TriggerSource::Tcc2Mc0 => 35,
            TriggerSource::Tcc2Mc1 => 36,
            TriggerSource::Tcc2Mc2 => 37,
            TriggerSource::Tcc3Ovf => 38,
            TriggerSource::Tcc3Mc0 => 39,
            TriggerSource::Tcc3Mc1 => 40,
            TriggerSource::Tcc4Ovf => 41,
            TriggerSource::Tcc4Mc0 => 42,
            TriggerSource::Tcc4Mc1 => 43,
            TriggerSource::Tc0Ovf => 44,
            TriggerSource::Tc0Mc0 => 45,
            TriggerSource::Tc0Mc1 => 46,
            TriggerSource::Tc1Ovf => 47,
            TriggerSource::Tc1Mc0 => 48,
            TriggerSource::Tc1Mc1 => 49,
            TriggerSource::Tc2Ovf => 50,
            TriggerSource::Tc2Mc0 => 51,
            TriggerSource::Tc2Mc1 => 52,
            TriggerSource::Tc3Ovf => 53,
            TriggerSource::Tc3Mc0 => 54,
            TriggerSource::Tc3Mc1 => 55,
            TriggerSource::Tc4Ovf => 56,
            TriggerSource::Tc4Mc0 => 57,
            TriggerSource::Tc4Mc1 => 58,
            TriggerSource::Tc5Ovf => 59,
            TriggerSource::Tc5Mc0 => 60,
            TriggerSource::Tc5Mc1 => 61,
            TriggerSource::Tc6Ovf => 62,
            TriggerSource::Tc6Mc0 => 63,
            TriggerSource::Tc6Mc1 => 64,
            TriggerSource::Tc7Ovf => 65,
            TriggerSource::Tc7Mc0 => 66,
            TriggerSource::Tc7Mc1 => 67,
            TriggerSource::Adc0ResRdy => 68,
            TriggerSource::Adc0Seq => 69,
            TriggerSource::Adc1ResRdy => 70,
            TriggerSource::Adc1Seq => 71,
            TriggerSource::Dac0Empty => 72,
            TriggerSource::Dac1Empty => 73,
            TriggerSource::Dac0ResRdy => 74,
            TriggerSource::Dac1ResRdy => 75,
            TriggerSource::I2sRx0 => 76,
            TriggerSource::I2sRx1 => 77,
            TriggerSource::I2sTx0 => 78,
            TriggerSource::I2sTx1 => 79,
            TriggerSource::PccRx => 80,
            TriggerSource::AesWr => 81,
            TriggerSource::AesRd => 82,
            TriggerSource::QspiRx => 83,
            TriggerSource::QspiTx => 84,
        }
    }

    /// Encode the trigger source as its raw register field value.
    pub fn bits(self) -> (r: u8)
        ensures
            r == self.spec_bits(),
            r < 85,
    {
        match self {
            TriggerSource::Disable => 0,
            TriggerSource::RtcTimestamp => 1,
            TriggerSource::DsuDcc0 => 2,
            TriggerSource::DsuDcc1 => 3,
            TriggerSource::Sercom0Rx => 4,
            TriggerSource::Sercom0Tx => 5,
            TriggerSource::Sercom1Rx => 6,
            TriggerSource::Sercom1Tx => 7,
            TriggerSource::Sercom2Rx => 8,
            TriggerSource::Sercom2Tx => 9,
            TriggerSource::Sercom3Rx => 10,
            TriggerSource::Sercom3Tx => 11,
            TriggerSource::Sercom4Rx => 12,
            TriggerSource::Sercom4Tx => 13,
            TriggerSource::Sercom5Rx => 14,
            TriggerSource::Sercom5Tx => 15,
            TriggerSource::Sercom6Rx => 16,
            TriggerSource::Sercom6Tx => 17,
            TriggerSource::Sercom7Rx => 18,
            TriggerSource::Sercom7Tx => 19,
            TriggerSource::Can0Debug => 20,
            TriggerSource::Can1Debug => 21,
            TriggerSource::Tcc0Ovf => 22,
            TriggerSource::Tcc0Mc0 => 23,
            TriggerSource::Tcc0Mc1 => 24,
            TriggerSource::Tcc0Mc2 => 25,
            TriggerSource::Tcc0Mc3 => 26,
            TriggerSource::Tcc0Mc4 => 27,
            TriggerSource::Tcc0Mc5 => 28,
            TriggerSource::Tcc1Ovf => 29,
            TriggerSource::Tcc1Mc0 => 30,
            TriggerSource::Tcc1Mc1 => 31,
            TriggerSource::Tcc1Mc2 => 32,
            TriggerSource::Tcc1Mc3 => 33,
            TriggerSource::Tcc2Ovf => 34,
            TriggerSource::Tcc2Mc0 => 35,
            TriggerSource::Tcc2Mc1 => 36,
            TriggerSource::Tcc2Mc2 => 37,
            TriggerSource::Tcc3Ovf => 38,
            TriggerSource::Tcc3Mc0 => 39,
            TriggerSource::Tcc3Mc1 => 40,
            TriggerSource::Tcc4Ovf => 41,
            TriggerSource::Tcc4Mc0 => 42,
            TriggerSource::Tcc4Mc1 => 43,
            TriggerSource::Tc0Ovf => 44,
            TriggerSource::Tc0Mc0 => 45,
            TriggerSource::Tc0Mc1 => 46,
            TriggerSource::Tc1Ovf => 47,
            TriggerSource::Tc1Mc0 => 48,
            TriggerSource::Tc1Mc1 => 49,
            TriggerSource::Tc2Ovf => 50,
            TriggerSource::Tc2Mc0 => 51,
            TriggerSource::Tc2Mc1 => 52,
            TriggerSource::Tc3Ovf => 53,
            TriggerSource::Tc3Mc0 => 54,
            TriggerSource::Tc3Mc1 => 55,
            TriggerSource::Tc4Ovf => 56,
            TriggerSource::Tc4Mc0 => 57,
            TriggerSource::Tc4Mc1 => 58,
            TriggerSource::Tc5Ovf => 59,
            TriggerSource::Tc5Mc0 => 60,
            TriggerSource::Tc5Mc1 => 61,
            TriggerSource::Tc6Ovf => 62,
            TriggerSource::Tc6Mc0 => 63,
            TriggerSource::Tc6Mc1 => 64,
            TriggerSource::Tc7Ovf => 65,
            TriggerSource::Tc7Mc0 => 66,
            TriggerSource::Tc7Mc1 => 67,
            TriggerSource::Adc0ResRdy => 68,
            TriggerSource::Adc0Seq => 69,
            TriggerSource::Adc1ResRdy => 70,
            TriggerSource::Adc1Seq => 71,
            TriggerSource::Dac0Empty => 72,
            TriggerSource::Dac1Empty => 73,
            TriggerSource::Dac0ResRdy => 74,
            TriggerSource::Dac1ResRdy => 75,
            TriggerSource::I2sRx0 => 76,
            TriggerSource::I2sRx1 => 77,
            TriggerSource::I2sTx0 => 78,
            TriggerSource::I2sTx1 => 79,
            TriggerSource::PccRx => 80,
            TriggerSource::AesWr => 81,
            TriggerSource::AesRd => 82,
            TriggerSource::QspiRx => 83,
            TriggerSource::QspiTx => 84,
        }
    }

    /// The trigger source a raw register field decodes to. Every
    /// reserved encoding reads back as `Disable`.
    pub open spec fn spec_from(value: u8) -> TriggerSource {
        if value == 1 {
            TriggerSource::RtcTimestamp
        } else if value == 2 {
            TriggerSource::DsuDcc0
        } else if value == 3 {
            TriggerSource::DsuDcc1
        } else if value == 4 {
            TriggerSource::Sercom0Rx
        } else if value == 5 {
            TriggerSource::Sercom0Tx
        } else if value == 6 {
            TriggerSource::Sercom1Rx
        } else if value == 7 {
            TriggerSource::Sercom1Tx
        } else if value == 8 {
            TriggerSource::Sercom2Rx
        } else if value == 9 {
            TriggerSource::Sercom2Tx
        } else if value == 10 {
            TriggerSource::Sercom3Rx
        } else if value == 11 {
            TriggerSource::Sercom3Tx
        } else if value == 12 {
            TriggerSource::Sercom4Rx
        } else if value == 13 {
            TriggerSource::Sercom4Tx
        } else if value == 14 {
            TriggerSource::Sercom5Rx
        } else if value == 15 {
            TriggerSource::Sercom5Tx
        } else if value == 16 {
            TriggerSource::Sercom6Rx
        } else if value == 17 {
            TriggerSource::Sercom6Tx
        } else if value == 18 {
            TriggerSource::Sercom7Rx
        } else if value == 19 {
            TriggerSource::Sercom7Tx
        } else if value == 20 {
            TriggerSource::Can0Debug
        } else if value == 21 {
            TriggerSource::Can1Debug
        } else if value == 22 {
            TriggerSource::Tcc0Ovf
        } else if value == 23 {
            TriggerSource::Tcc0Mc0
        } else if value == 24 {
            TriggerSource::Tcc0Mc1
        } else if value == 25 {
            TriggerSource::Tcc0Mc2
        } else if value == 26 {
            TriggerSource::Tcc0Mc3
        } else if value == 27 {
            TriggerSource::Tcc0Mc4
        } else if value == 28 {
            TriggerSource::Tcc0Mc5
        } else if value == 29 {
            TriggerSource::Tcc1Ovf
        } else if value == 30 {
            TriggerSource::Tcc1Mc0
        } else if value == 31 {
            TriggerSource::Tcc1Mc1
        } else if value == 32 {
            TriggerSource::Tcc1Mc2
        } else if value == 33 {
            TriggerSource::Tcc1Mc3
        } else if value == 34 {
            TriggerSource::Tcc2Ovf
        } else if value == 35 {
            TriggerSource::Tcc2Mc0
        } else if value == 36 {
            TriggerSource::Tcc2Mc1
        } else if value == 37 {
            TriggerSource::Tcc2Mc2
        } else if value == 38 {
            TriggerSource::Tcc3Ovf
        } else if value == 39 {
            TriggerSource::Tcc3Mc0
        } else if value == 40 {
            TriggerSource::Tcc3Mc1
        } else if value == 41 {
            TriggerSource::Tcc4Ovf
        } else if value == 42 {
            TriggerSource::Tcc4Mc0
        } else if value == 43 {
            TriggerSource::Tcc4Mc1
        } else if value == 44 {
            TriggerSource::Tc0Ovf
        } else if value == 45 {
            TriggerSource::Tc0Mc0
        } else if value == 46 {
            TriggerSource::Tc0Mc1
        } else if value == 47 {
            TriggerSource::Tc1Ovf
        } else if value == 48 {
            TriggerSource::Tc1Mc0
        } else if value == 49 {
            TriggerSource::Tc1Mc1
        } else if value == 50 {
            TriggerSource::Tc2Ovf
        } else if value == 51 {
            TriggerSource::Tc2Mc0
        } else if value == 52 {
            TriggerSource::Tc2Mc1
        } else if value == 53 {
            TriggerSource::Tc3Ovf
        } else if value == 54 {
            TriggerSource::Tc3Mc0
        } else if value == 55 {
            TriggerSource::Tc3Mc1
        } else if value == 56 {
            TriggerSource::Tc4Ovf
        } else if value == 57 {
            TriggerSource::Tc4Mc0
        } else if value == 58 {
            TriggerSource::Tc4Mc1
        } else if value == 59 {
            TriggerSource::Tc5Ovf
        } else if value == 60 {
            TriggerSource::Tc5Mc0
        } else if value == 61 {
            TriggerSource::Tc5Mc1
        } else if value == 62 {
            TriggerSource::Tc6Ovf
        } else if value == 63 {
            TriggerSource::Tc6Mc0
        } else if value == 64 {
            TriggerSource::Tc6Mc1
        } else if value == 65 {
            TriggerSource::Tc7Ovf
        } else if value == 66 {
            TriggerSource::Tc7Mc0
        } else if value == 67 {
            TriggerSource::Tc7Mc1
        } else if value == 68 {
            TriggerSource::Adc0ResRdy
        } else if value == 69 {
            TriggerSource::Adc0Seq
        } else if value == 70 {
            TriggerSource::Adc1ResRdy
        } else if value == 71 {
            TriggerSource::Adc1Seq
        } else if value == 72 {
            TriggerSource::Dac0Empty
        } else if value == 73 {
            TriggerSource::Dac1Empty
        } else if value == 74 {
            TriggerSource::Dac0ResRdy
        } else if value == 75 {
            TriggerSource::Dac1ResRdy
        } else if value == 76 {
            TriggerSource::I2sRx0
        } else if value == 77 {
            TriggerSource::I2sRx1
        } else if value == 78 {
            TriggerSource::I2sTx0
        } else if value == 79 {
            TriggerSource::I2sTx1
        } else if value == 80 {
            TriggerSource::PccRx
        } else if value == 81 {
            TriggerSource::AesWr
        } else if value == 82 {
            TriggerSource::AesRd
        } else if value == 83 {
            TriggerSource::QspiRx
        } else if value == 84 {
            TriggerSource::QspiTx
        } else {
            TriggerSource::Disable
        }
    }

    /// Decode a raw register field into a trigger source.
    pub fn from(value: u8) -> (r: TriggerSource)
        ensures
            r == TriggerSource::spec_from(value),
    {
        match value {
            1 => TriggerSource::RtcTimestamp,
            2 => TriggerSource::DsuDcc0,
            3 => TriggerSource::DsuDcc1,
            4 => TriggerSource::Sercom0Rx,
            5 => TriggerSource::Sercom0Tx,
            6 => TriggerSource::Sercom1Rx,
            7 => TriggerSource::Sercom1Tx,
            8 => TriggerSource::Sercom2Rx,
            9 => TriggerSource::Sercom2Tx,
            10 => TriggerSource::Sercom3Rx,
            11 => TriggerSource::Sercom3Tx,
            12 => TriggerSource::Sercom4Rx,
            13 => TriggerSource::Sercom4Tx,
            14 => TriggerSource::Sercom5Rx,
            15 => TriggerSource::Sercom5Tx,
            16 => TriggerSource::Sercom6Rx,
            17 => TriggerSource::Sercom6Tx,
            18 => TriggerSource::Sercom7Rx,
            19 => TriggerSource::Sercom7Tx,
            20 => TriggerSource::Can0Debug,
            21 => TriggerSource::Can1Debug,
            22 => TriggerSource::Tcc0Ovf,
            23 => TriggerSource::Tcc0Mc0,
            24 => TriggerSource::Tcc0Mc1,
            25 => TriggerSource::Tcc0Mc2,
            26 => TriggerSource::Tcc0Mc3,
            27 => TriggerSource::Tcc0Mc4,
            28 => TriggerSource::Tcc0Mc5,
            29 => TriggerSource::Tcc1Ovf,
            30 => TriggerSource::Tcc1Mc0,
            31 => TriggerSource::Tcc1Mc1,
            32 => TriggerSource::Tcc1Mc2,
            33 => TriggerSource::Tcc1Mc3,
            34 => TriggerSource::Tcc2Ovf,
            35 => TriggerSource::Tcc2Mc0,
            36 => TriggerSource::Tcc2Mc1,
            37 => TriggerSource::Tcc2Mc2,
            38 => TriggerSource::Tcc3Ovf,
            39 => TriggerSource::Tcc3Mc0,
            40 => TriggerSource::Tcc3Mc1,
            41 => TriggerSource::Tcc4Ovf,
            42 => TriggerSource::Tcc4Mc0,
            43 => TriggerSource::Tcc4Mc1,
            44 => TriggerSource::Tc0Ovf,
            45 => TriggerSource::Tc0Mc0,
            46 => TriggerSource::Tc0Mc1,
            47 => TriggerSource::Tc1Ovf,
            48 => TriggerSource::Tc1Mc0,
            49 => TriggerSource::Tc1Mc1,
            50 => TriggerSource::Tc2Ovf,
            51 => TriggerSource::Tc2Mc0,
            52 => TriggerSource::Tc2Mc1,
            53 => TriggerSource::Tc3Ovf,
            54 => TriggerSource::Tc3Mc0,
            55 => TriggerSource::Tc3Mc1,
            56 => TriggerSource::Tc4Ovf,
            57 => TriggerSource::Tc4Mc0,
            58 => TriggerSource::Tc4Mc1,
            59 => TriggerSource::Tc5Ovf,
            60 => TriggerSource::Tc5Mc0,
            61 => TriggerSource::Tc5Mc1,
            62 => TriggerSource::Tc6Ovf,
            63 => TriggerSource::Tc6Mc0,
            64 => TriggerSource::Tc6Mc1,
            65 => TriggerSource::Tc7Ovf,
            66 => TriggerSource::Tc7Mc0,
            67 => TriggerSource::Tc7Mc1,
            68 => TriggerSource::Adc0ResRdy,
            69 => TriggerSource::Adc0Seq,
            70 => TriggerSource::Adc1ResRdy,
            71 => TriggerSource::Adc1Seq,
            72 => TriggerSource::Dac0Empty,
            73 => TriggerSource::Dac1Empty,
            74 => TriggerSource::Dac0ResRdy,
            75 => TriggerSource::Dac1ResRdy,
            76 => TriggerSource::I2sRx0,
            77 => TriggerSource::I2sRx1,
            78 => TriggerSource::I2sTx0,
            79 => TriggerSource::I2sTx1,
            80 => TriggerSource::PccRx,
            81 => TriggerSource::AesWr,
            82 => TriggerSource::AesRd,
            83 => TriggerSource::QspiRx,
            84 => TriggerSource::QspiTx,
            _ => TriggerSource::Disable,
        }
    }
}

/// Decoding a trigger source's encoding yields the source back, for
/// every source.
pub proof fn lemma_trigger_source_round_trip(t: TriggerSource)
    ensures
        TriggerSource::spec_from(t.spec_bits()) == t,
{
}


/// A bitfield of channel interrupt flags.
///
/// The three flags are transfer error, transfer complete and suspend; the
/// constructors of this type produce only those three bits.
#[derive(Debug, Clone, Copy, PartialEq, Eq, Structural)]
pub struct Interrupts {
    bits: u8,
}

impl Interrupts {
    /// The raw register value of this set of flags.
    pub closed spec fn spec_bits(self) -> u8 {
        self.bits
    }

    /// The empty set of flags.
    pub fn empty() -> (r: Interrupts)
        ensures
            r.spec_bits() == 0,
    {
        Interrupts { bits: 0 }
    }

    /// The transfer-error flag alone.
    pub fn terr() -> (r: Interrupts)
        ensures
            r.spec_bits() == 1,
    {
        Interrupts { bits: 1 }
    }

    /// The transfer-complete flag alone.
    pub fn tcmpl() -> (r: Interrupts)
        ensures
            r.spec_bits() == 2,
    {
        Interrupts { bits: 2 }
    }

    /// The suspend flag alone.
    pub fn susp() -> (r: Interrupts)
        ensures
            r.spec_bits() == 4,
    {
        Interrupts { bits: 4 }
    }

    /// Build a set of flags from a raw register value, dropping every bit
    /// outside the three defined flags.
    pub fn from_bits_truncate(bits: u8) -> (r: Interrupts)
        ensures
            r.spec_bits() == bits & 7,
    {
        proof {
            assert(bits & 7 < 8) by (bit_vector);
        }
        Interrupts { bits: bits & 7 }
    }

    /// The raw register value of this set of flags.
    pub fn bits(self) -> (r: u8)
        ensures
            r == self.spec_bits(),
    {
        self.bits
    }

    /// The union of two sets of flags.
    pub fn union(self, other: Interrupts) -> (r: Interrupts)
        ensures
            r.spec_bits() == self.spec_bits() | other.spec_bits(),
    {
        proof {
            let (a, b) = (self.bits, other.bits);
            assert(a < 8 && b < 8 ==> a | b < 8) by (bit_vector);
        }
        Interrupts { bits: self.bits | other.bits }
    }

    /// True if the two sets share at least one flag.
    pub fn intersects(self, other: Interrupts) -> (r: bool)
        ensures
            r == (self.spec_bits() & other.spec_bits() != 0),
    {
        self.bits & other.bits != 0
    }

    /// True if every flag of `other` is also in `self`.
    pub fn contains(self, other: Interrupts) -> (r: bool)
        ensures
            r == (self.spec_bits() & other.spec_bits() == other.spec_bits()),
    {
        self.bits & other.bits == other.bits
    }

    /// True if no flag is set.
    pub fn is_empty(self) -> (r: bool)
        ensures
            r == (self.spec_bits() == 0),
    {
        self.bits == 0
    }
}

/// A bitfield of channels, one bit per channel identifier.
#[derive(Debug, Clone, Copy, PartialEq, Eq, Structural)]
pub struct Channels {
    bits: u32,
}

impl Channels {
    /// The raw register value of this set of channels.
    pub closed spec fn spec_bits(self) -> u32 {
        self.bits
    }

    /// Build a set of channels from a raw register value.
    pub fn from_bits_truncate(bits: u32) -> (r: Channels)
        ensures
            r.spec_bits() == bits,
    {
        Channels { bits }
    }

    /// The raw register value of this set of channels.
    pub fn bits(self) -> (r: u32)
        ensures
            r == self.spec_bits(),
    {
        self.bits
    }

    /// True if the channel with the given identifier is in the set.
    pub fn contains(self, id: u8) -> (r: bool)
        requires
            id < 32,
        ensures
            r == (self.spec_bits() & (1u32 << (id as u32)) != 0),
    {
        self.bits & (1u32 << (id as u32)) != 0
    }

    /// True if no channel is in the set.
    pub fn is_empty(self) -> (r: bool)
        ensures
            r == (self.spec_bits() == 0),
    {
        self.bits == 0
    }
}

} // verus!
