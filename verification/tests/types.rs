use samd_dma::types::BeatSize;
use samd_dma::types::BlockAction;
use samd_dma::types::BurstLength;
use samd_dma::types::Channels;
use samd_dma::types::EventOutput;
use samd_dma::types::FifoThreshold;
use samd_dma::types::Interrupts;
use samd_dma::types::Priority;
use samd_dma::types::QoS;
use samd_dma::types::StepSize;
use samd_dma::types::TriggerAction;
use samd_dma::types::TriggerSource;

#[test]
fn priority_codec_round_trip() {
    for v in 0..4u8 {
        assert_eq!(Priority::from(v).bits(), v);
    }
    assert_eq!(Priority::from(0), Priority::Level0);
    assert_eq!(Priority::from(3), Priority::Level3);
}

#[test]
fn qos_codec_round_trip() {
    for v in 0..4u8 {
        assert_eq!(QoS::from(v).bits(), v);
    }
    assert_eq!(QoS::from(0), QoS::Disable);
    assert_eq!(QoS::from(1), QoS::Low);
    assert_eq!(QoS::from(2), QoS::Medium);
    assert_eq!(QoS::from(3), QoS::Critical);
}

#[test]
fn burst_length_codec_round_trip() {
    for v in 0..16u8 {
        assert_eq!(BurstLength::from(v).bits(), v);
    }
    assert_eq!(BurstLength::from(0), BurstLength::Single);
    assert_eq!(BurstLength::from(15), BurstLength::SixteenBeats);
}

#[test]
fn trigger_action_codec_round_trip() {
    assert_eq!(TriggerAction::from(0), TriggerAction::Block);
    assert_eq!(TriggerAction::from(2), TriggerAction::Burst);
    assert_eq!(TriggerAction::from(3), TriggerAction::Transaction);
    for a in [TriggerAction::Block, TriggerAction::Burst, TriggerAction::Transaction] {
        assert_eq!(TriggerAction::from(a.bits()), a);
    }
}

#[test]
fn trigger_action_reserved_encoding_reads_as_block() {
    assert_eq!(TriggerAction::from(1), TriggerAction::Block);
}

#[test]
fn trigger_source_codec_round_trip() {
    for v in 0..85u8 {
        assert_eq!(TriggerSource::from(v).bits(), v);
    }
    assert_eq!(TriggerSource::from(0), TriggerSource::Disable);
    assert_eq!(TriggerSource::from(4), TriggerSource::Sercom0Rx);
    assert_eq!(TriggerSource::from(84), TriggerSource::QspiTx);
}

#[test]
fn trigger_source_reserved_encodings_read_as_disable() {
    assert_eq!(TriggerSource::from(85), TriggerSource::Disable);
    assert_eq!(TriggerSource::from(127), TriggerSource::Disable);
    assert_eq!(TriggerSource::from(255), TriggerSource::Disable);
}

#[test]
fn fifo_threshold_codec_round_trip() {
    for v in 0..4u8 {
        assert_eq!(FifoThreshold::from(v).bits(), v);
    }
    assert_eq!(FifoThreshold::from(0), FifoThreshold::OneBeat);
    assert_eq!(FifoThreshold::from(3), FifoThreshold::EightBeats);
}

#[test]
fn event_output_codec_round_trip() {
    for v in [0u16, 1, 3] {
        assert_eq!(EventOutput::from(v).bits() as u16, v);
    }
    assert_eq!(EventOutput::from(0), EventOutput::Disable);
    assert_eq!(EventOutput::from(1), EventOutput::Block);
    assert_eq!(EventOutput::from(3), EventOutput::Beat);
}

#[test]
fn block_action_codec_round_trip() {
    for v in 0..4u16 {
        assert_eq!(BlockAction::from(v).bits() as u16, v);
    }
    assert_eq!(BlockAction::from(0), BlockAction::NoAct);
    assert_eq!(BlockAction::from(1), BlockAction::Int);
    assert_eq!(BlockAction::from(2), BlockAction::Suspend);
    assert_eq!(BlockAction::from(3), BlockAction::Both);
}

#[test]
fn beat_size_codec_round_trip() {
    for v in 0..3u16 {
        assert_eq!(BeatSize::from(v).bits() as u16, v);
    }
    assert_eq!(BeatSize::from(0), BeatSize::Byte);
    assert_eq!(BeatSize::from(1), BeatSize::HWord);
    assert_eq!(BeatSize::from(2), BeatSize::Word);
}

#[test]
fn step_size_codec_round_trip() {
    for v in 0..8u16 {
        assert_eq!(StepSize::from(v).bits() as u16, v);
    }
    assert_eq!(StepSize::from(0), StepSize::X1);
    assert_eq!(StepSize::from(7), StepSize::X128);
}

#[test]
fn interrupts_truncate_to_three_flags() {
    assert_eq!(Interrupts::from_bits_truncate(0xFF).bits(), 0x07);
    assert_eq!(Interrupts::from_bits_truncate(0x08).bits(), 0);
    assert_eq!(Interrupts::from_bits_truncate(0x05).bits(), 0x05);
}

#[test]
fn interrupts_flag_constructors() {
    assert_eq!(Interrupts::empty().bits(), 0);
    assert_eq!(Interrupts::terr().bits(), 1);
    assert_eq!(Interrupts::tcmpl().bits(), 2);
    assert_eq!(Interrupts::susp().bits(), 4);
}

#[test]
fn interrupts_set_operations() {
    let both = Interrupts::terr().union(Interrupts::susp());
    assert_eq!(both.bits(), 5);
    assert!(both.intersects(Interrupts::terr()));
    assert!(both.intersects(Interrupts::susp()));
    assert!(!both.intersects(Interrupts::tcmpl()));
    assert!(both.contains(Interrupts::terr()));
    assert!(!both.contains(Interrupts::tcmpl()));
    assert!(!both.is_empty());
    assert!(Interrupts::empty().is_empty());
}

#[test]
fn channels_bitfield_operations() {
    let set = Channels::from_bits_truncate(0x8000_0005);
    assert_eq!(set.bits(), 0x8000_0005);
    assert!(set.contains(0));
    assert!(!set.contains(1));
    assert!(set.contains(2));
    assert!(set.contains(31));
    assert!(!set.is_empty());
    assert!(Channels::from_bits_truncate(0).is_empty());
}
