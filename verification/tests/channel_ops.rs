use samd_dma::Channel;
use samd_dma::DMAController;
use samd_dma::DescriptorStorage;
use samd_dma::DmacRegisters;
use samd_dma::TransactionError;
use samd_dma::WaitResult;
use samd_dma::types::BurstLength;
use samd_dma::types::FifoThreshold;
use samd_dma::types::Interrupts;
use samd_dma::types::Priority;
use samd_dma::types::TriggerAction;
use samd_dma::types::TriggerSource;

fn setup() -> (DmacRegisters, DMAController, Channel) {
    let mut dmac = DmacRegisters::new();
    let storage = DescriptorStorage::new(8, 0x2000_0000, 0x2000_0400);
    let mut ctrl = DMAController::init(&mut dmac, storage);
    let ch = ctrl.take_channel(0).unwrap();
    (dmac, ctrl, ch)
}

#[test]
fn channel_enable_disable() {
    let (mut dmac, _ctrl, ch) = setup();
    assert!(!ch.is_enabled(&dmac));
    ch.enable(&mut dmac);
    assert!(ch.is_enabled(&dmac));
    assert_eq!(dmac.channels[0].chctrla & 0x2, 0x2);
    ch.disable(&mut dmac);
    assert!(!ch.is_enabled(&dmac));
}

#[test]
fn run_standby_round_trip() {
    let (mut dmac, _ctrl, ch) = setup();
    assert!(!ch.get_run_standby(&dmac));
    ch.set_run_standby(&mut dmac, true);
    assert!(ch.get_run_standby(&dmac));
    ch.set_run_standby(&mut dmac, false);
    assert!(!ch.get_run_standby(&dmac));
}

#[test]
fn burst_length_round_trip_every_value() {
    let (mut dmac, _ctrl, ch) = setup();
    let values = [
        BurstLength::Single,
        BurstLength::TwoBeats,
        BurstLength::ThreeBeats,
        BurstLength::FourBeats,
        BurstLength::FiveBeats,
        BurstLength::SixBeats,
        BurstLength::SevenBeats,
        BurstLength::EightBeats,
        BurstLength::NineBeats,
        BurstLength::TenBeats,
        BurstLength::ElevenBeats,
        BurstLength::TwelveBeats,
        BurstLength::ThirteenBeats,
        BurstLength::FourteenBeats,
        BurstLength::FifteenBeats,
        BurstLength::SixteenBeats,
    ];
    for v in values {
        ch.set_burst_length(&mut dmac, v);
        assert_eq!(ch.get_burst_length(&dmac), v);
    }
}

#[test]
fn trigger_action_round_trip_every_value() {
    let (mut dmac, _ctrl, ch) = setup();
    for v in [TriggerAction::Block, TriggerAction::Burst, TriggerAction::Transaction] {
        ch.set_trigger_action(&mut dmac, v);
        assert_eq!(ch.get_trigger_action(&dmac), v);
    }
}

#[test]
fn fifo_threshold_round_trip_every_value() {
    let (mut dmac, _ctrl, ch) = setup();
    let values = [
        FifoThreshold::OneBeat,
        FifoThreshold::TwoBeats,
        FifoThreshold::FourBeats,
        FifoThreshold::EightBeats,
    ];
    for v in values {
        ch.set_fifo_threshold(&mut dmac, v);
        assert_eq!(ch.get_fifi_threshold(&dmac), v);
    }
}

#[test]
fn trigger_source_round_trip() {
    let (mut dmac, _ctrl, ch) = setup();
    let values = [
        TriggerSource::Disable,
        TriggerSource::RtcTimestamp,
        TriggerSource::Sercom3Tx,
        TriggerSource::Tcc0Mc5,
        TriggerSource::Tc7Mc1,
        TriggerSource::AesRd,
        TriggerSource::QspiTx,
    ];
    for v in values {
        ch.set_source(&mut dmac, v);
        assert_eq!(ch.get_source(&dmac), v);
    }
}

#[test]
fn priority_round_trip_every_value() {
    let (mut dmac, _ctrl, ch) = setup();
    for v in [Priority::Level0, Priority::Level1, Priority::Level2, Priority::Level3] {
        ch.set_priority(&mut dmac, v);
        assert_eq!(ch.get_priority(&dmac), v);
    }
}

#[test]
fn config_fields_do_not_disturb_each_other() {
    let (mut dmac, _ctrl, ch) = setup();
    ch.set_source(&mut dmac, TriggerSource::Sercom1Rx);
    ch.set_trigger_action(&mut dmac, TriggerAction::Burst);
    ch.set_burst_length(&mut dmac, BurstLength::FourBeats);
    ch.set_fifo_threshold(&mut dmac, FifoThreshold::TwoBeats);
    ch.set_run_standby(&mut dmac, true);
    assert_eq!(ch.get_source(&dmac), TriggerSource::Sercom1Rx);
    assert_eq!(ch.get_trigger_action(&dmac), TriggerAction::Burst);
    assert_eq!(ch.get_burst_length(&dmac), BurstLength::FourBeats);
    assert_eq!(ch.get_fifi_threshold(&dmac), FifoThreshold::TwoBeats);
    assert!(ch.get_run_standby(&dmac));
    assert!(!ch.is_enabled(&dmac));
}

#[test]
fn reset_is_ignored_while_enabled() {
    let (mut dmac, _ctrl, ch) = setup();
    ch.set_priority(&mut dmac, Priority::Level3);
    ch.enable(&mut dmac);
    ch.reset(&mut dmac);
    assert!(ch.is_enabled(&dmac));
    assert_eq!(ch.get_priority(&dmac), Priority::Level3);
    ch.disable(&mut dmac);
    ch.reset(&mut dmac);
    assert_eq!(ch.get_priority(&dmac), Priority::Level0);
    assert_eq!(dmac.channels[0].chctrla, 0);
}

#[test]
fn trigger_sets_channel_bit_of_shared_register() {
    let mut dmac = DmacRegisters::new();
    let storage = DescriptorStorage::new(8, 0x2000_0000, 0x2000_0400);
    let mut ctrl = DMAController::init(&mut dmac, storage);
    let ch5 = ctrl.take_channel(5).unwrap();
    ch5.trigger(&mut dmac);
    assert_eq!(dmac.swtrigctrl, 1 << 5);
}

#[test]
fn suspend_accepted_then_rejected() {
    let (mut dmac, _ctrl, ch) = setup();
    assert_eq!(dmac.channels[0].chctrlb & 0x3, 0);
    let ongoing = ch.suspend(&mut dmac);
    assert!(!ongoing);
    assert_eq!(dmac.channels[0].chctrlb & 0x3, 0x1);
    let ongoing_again = ch.suspend(&mut dmac);
    assert!(ongoing_again);
    assert_eq!(dmac.channels[0].chctrlb & 0x3, 0x1);
}

#[test]
fn resume_accepted_then_rejected() {
    let (mut dmac, _ctrl, ch) = setup();
    let ongoing = ch.resume(&mut dmac);
    assert!(!ongoing);
    assert_eq!(dmac.channels[0].chctrlb & 0x3, 0x2);
    let ongoing_again = ch.resume(&mut dmac);
    assert!(ongoing_again);
    assert_eq!(dmac.channels[0].chctrlb & 0x3, 0x2);
}

#[test]
fn suspend_blocks_resume_until_command_clears() {
    let (mut dmac, _ctrl, ch) = setup();
    assert!(!ch.suspend(&mut dmac));
    assert!(ch.resume(&mut dmac));
    // The hardware clears the command field once it acts on it.
    dmac.channels[0].chctrlb = 0;
    assert!(!ch.resume(&mut dmac));
}

#[test]
fn interrupt_mask_round_trip() {
    let (mut dmac, _ctrl, ch) = setup();
    assert!(ch.get_enabled_interrupts(&dmac).is_empty());
    let wanted = Interrupts::terr().union(Interrupts::susp());
    ch.enable_interrupts(&mut dmac, wanted);
    assert_eq!(ch.get_enabled_interrupts(&dmac).bits(), 0x5);
    ch.enable_interrupts(&mut dmac, Interrupts::tcmpl());
    assert_eq!(ch.get_enabled_interrupts(&dmac).bits(), 0x2);
}

#[test]
fn interrupt_flags_read_and_clear() {
    let (mut dmac, _ctrl, ch) = setup();
    dmac.channels[0].chintflag = 0x5;
    assert_eq!(ch.get_interrupt_flags(&dmac).bits(), 0x5);
    ch.clear_interrupt_flags(&mut dmac);
    assert!(ch.get_interrupt_flags(&dmac).is_empty());
}

#[test]
fn pending_and_busy_read_status_register() {
    let (mut dmac, _ctrl, ch) = setup();
    assert!(!ch.is_pending(&dmac));
    assert!(!ch.is_busy(&dmac));
    dmac.channels[0].chstatus = 0x1;
    assert!(ch.is_pending(&dmac));
    assert!(!ch.is_busy(&dmac));
    dmac.channels[0].chstatus = 0x2;
    assert!(!ch.is_pending(&dmac));
    assert!(ch.is_busy(&dmac));
}

#[test]
fn poll_status_enabled_transfer_error_without_crc() {
    let (mut dmac, _ctrl, ch) = setup();
    dmac.channels[0].chctrla = 0x2;
    dmac.channels[0].chintflag = 0x1;
    assert_eq!(ch.poll_status(&mut dmac), Err(TransactionError::TransferError));
}

#[test]
fn poll_status_enabled_transfer_error_with_crc() {
    let (mut dmac, _ctrl, ch) = setup();
    dmac.channels[0].chctrla = 0x2;
    dmac.channels[0].chintflag = 0x1;
    dmac.channels[0].chstatus = 0x8;
    assert_eq!(ch.poll_status(&mut dmac), Err(TransactionError::CRCError));
}

#[test]
fn poll_status_enabled_other_flag_is_done() {
    let (mut dmac, _ctrl, ch) = setup();
    dmac.channels[0].chctrla = 0x2;
    dmac.channels[0].chintflag = 0x2;
    assert_eq!(ch.poll_status(&mut dmac), Ok(WaitResult::Done));
}

#[test]
fn poll_status_disabled_suspend_with_fetch_error() {
    let (mut dmac, _ctrl, ch) = setup();
    dmac.channels[0].chintflag = 0x4;
    dmac.channels[0].chstatus = 0x4;
    assert_eq!(ch.poll_status(&mut dmac), Err(TransactionError::InvalidDescriptor));
}

#[test]
fn poll_status_disabled_suspend_only() {
    let (mut dmac, _ctrl, ch) = setup();
    dmac.channels[0].chintflag = 0x4;
    assert_eq!(ch.poll_status(&mut dmac), Ok(WaitResult::Suspended));
}

#[test]
fn poll_status_nothing_actionable_is_ongoing() {
    let (mut dmac, _ctrl, ch) = setup();
    assert_eq!(ch.poll_status(&mut dmac), Ok(WaitResult::Ongoing));
    dmac.channels[0].chintflag = 0x2;
    assert_eq!(ch.poll_status(&mut dmac), Ok(WaitResult::Ongoing));
}

#[test]
fn poll_status_clears_interrupt_flags() {
    let (mut dmac, _ctrl, ch) = setup();
    dmac.channels[0].chctrla = 0x2;
    dmac.channels[0].chintflag = 0x7;
    let _ = ch.poll_status(&mut dmac);
    assert_eq!(dmac.channels[0].chintflag, 0);
    assert_eq!(ch.poll_status(&mut dmac), Ok(WaitResult::Done));
}

#[test]
fn error_descriptions() {
    assert_eq!(
        TransactionError::InvalidDescriptor.description(),
        "An invalid descriptor was fetched from memory."
    );
    assert_eq!(
        TransactionError::TransferError.description(),
        "A bus error was detected during a beat transfer."
    );
    assert_eq!(
        TransactionError::CRCError.description(),
        "The CRC module detected data corruption."
    );
}
