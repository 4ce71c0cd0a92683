use samd_dma::DMAController;
use samd_dma::DescriptorStorage;
use samd_dma::DmacRegisters;
use samd_dma::types::Priority;
use samd_dma::types::QoS;
use samd_dma::types::Status;

fn setup(n: u8) -> (DmacRegisters, DMAController) {
    let mut dmac = DmacRegisters::new();
    let storage = DescriptorStorage::new(n, 0x2000_0000, 0x2000_0400);
    let ctrl = DMAController::init(&mut dmac, storage);
    (dmac, ctrl)
}

#[test]
fn init_binds_storage_addresses() {
    let (dmac, _ctrl) = setup(4);
    assert_eq!(dmac.baseaddr, 0x2000_0000);
    assert_eq!(dmac.wrbaddr, 0x2000_0400);
}

#[test]
fn init_makes_exactly_the_low_channels_available() {
    let (_dmac, mut ctrl) = setup(4);
    for id in 0..4u8 {
        assert!(ctrl.take_channel(id).is_some());
    }
    for id in 0..4u8 {
        assert!(ctrl.take_channel(id).is_none());
    }
}

#[test]
fn init_with_one_channel() {
    let (_dmac, mut ctrl) = setup(1);
    assert!(ctrl.take_channel(0).is_some());
    assert!(ctrl.take_channel(0).is_none());
}

#[test]
fn init_with_all_channels() {
    let (_dmac, mut ctrl) = setup(32);
    for id in 0..32u8 {
        assert!(ctrl.take_channel(id).is_some());
    }
    for id in 0..32u8 {
        assert!(ctrl.take_channel(id).is_none());
    }
}

#[test]
fn take_channel_twice_yields_unavailable() {
    let (_dmac, mut ctrl) = setup(8);
    let first = ctrl.take_channel(3);
    assert!(first.is_some());
    assert_eq!(first.unwrap().id(), 3);
    assert!(ctrl.take_channel(3).is_none());
}

#[test]
fn take_channel_leaves_other_channels_available() {
    let (_dmac, mut ctrl) = setup(8);
    assert!(ctrl.take_channel(3).is_some());
    assert!(ctrl.take_channel(2).is_some());
    assert!(ctrl.take_channel(4).is_some());
}

#[test]
fn return_then_take_succeeds_with_same_addresses() {
    let (mut dmac, mut ctrl) = setup(8);
    let mut ch = ctrl.take_channel(5).unwrap();
    let wb_before = ch.get_writeback_descriptor();
    ch.get_first_descriptor(&mut ctrl).set_block_count(77);
    ctrl.return_channel(&mut dmac, ch);
    let ch2 = ctrl.take_channel(5).unwrap();
    assert_eq!(ch2.id(), 5);
    assert_eq!(ch2.get_writeback_descriptor(), wb_before);
    assert_eq!(ch2.get_first_descriptor(&mut ctrl).get_block_transfer_count(), 77);
}

#[test]
fn writeback_addresses_are_distinct_per_channel() {
    let (_dmac, mut ctrl) = setup(4);
    let ch0 = ctrl.take_channel(0).unwrap();
    let ch1 = ctrl.take_channel(1).unwrap();
    assert_eq!(ch0.get_writeback_descriptor(), 0x2000_0400);
    assert_eq!(ch1.get_writeback_descriptor(), 0x2000_0410);
}

#[test]
fn return_channel_resets_channel_registers() {
    let (mut dmac, mut ctrl) = setup(4);
    let ch = ctrl.take_channel(1).unwrap();
    ch.enable(&mut dmac);
    ch.set_priority(&mut dmac, Priority::Level2);
    assert_ne!(dmac.channels[1].chctrla, 0);
    ctrl.return_channel(&mut dmac, ch);
    assert_eq!(dmac.channels[1].chctrla, 0);
    assert_eq!(dmac.channels[1].chprilvl, 0);
}

#[test]
fn global_enable_disable() {
    let (mut dmac, mut ctrl) = setup(4);
    assert!(!ctrl.is_enabled(&dmac));
    ctrl.enable(&mut dmac);
    assert!(ctrl.is_enabled(&dmac));
    assert_eq!(dmac.ctrl & 0x2, 0x2);
    ctrl.disable(&mut dmac);
    assert!(!ctrl.is_enabled(&dmac));
}

#[test]
fn run_while_debug_round_trip() {
    let (mut dmac, mut ctrl) = setup(4);
    assert!(!ctrl.get_run_while_debug(&dmac));
    ctrl.set_run_while_debug(&mut dmac, true);
    assert!(ctrl.get_run_while_debug(&dmac));
    ctrl.set_run_while_debug(&mut dmac, false);
    assert!(!ctrl.get_run_while_debug(&dmac));
}

#[test]
fn priority_level_enable_round_trip() {
    let (mut dmac, mut ctrl) = setup(4);
    let levels = [Priority::Level0, Priority::Level1, Priority::Level2, Priority::Level3];
    for level in levels {
        assert!(!ctrl.priority_level_enabled(&dmac, level));
        ctrl.enable_priority_level(&mut dmac, level);
        assert!(ctrl.priority_level_enabled(&dmac, level));
    }
    ctrl.diable_priority_level(&mut dmac, Priority::Level1);
    assert!(!ctrl.priority_level_enabled(&dmac, Priority::Level1));
    assert!(ctrl.priority_level_enabled(&dmac, Priority::Level0));
    assert!(ctrl.priority_level_enabled(&dmac, Priority::Level2));
}

#[test]
fn priority_qos_round_trip_every_level_and_value() {
    let (mut dmac, mut ctrl) = setup(4);
    let levels = [Priority::Level0, Priority::Level1, Priority::Level2, Priority::Level3];
    let values = [QoS::Disable, QoS::Low, QoS::Medium, QoS::Critical];
    for level in levels {
        for qos in values {
            ctrl.set_piority_qos(&mut dmac, level, qos);
            assert_eq!(ctrl.get_priority_qos(&dmac, level), qos);
        }
    }
    ctrl.set_piority_qos(&mut dmac, Priority::Level0, QoS::Critical);
    ctrl.set_piority_qos(&mut dmac, Priority::Level3, QoS::Low);
    assert_eq!(ctrl.get_priority_qos(&dmac, Priority::Level0), QoS::Critical);
    assert_eq!(ctrl.get_priority_qos(&dmac, Priority::Level3), QoS::Low);
}

#[test]
fn transfer_qos_round_trips() {
    let (mut dmac, mut ctrl) = setup(4);
    let values = [QoS::Disable, QoS::Low, QoS::Medium, QoS::Critical];
    for qos in values {
        ctrl.set_data_transfer_qos(&mut dmac, qos);
        assert_eq!(ctrl.get_data_transfer_qos(&dmac), qos);
    }
    for qos in values {
        ctrl.set_fetch_qos(&mut dmac, qos);
        assert_eq!(ctrl.get_fetch_qos(&dmac), qos);
    }
    for qos in values {
        ctrl.set_write_back_qos(&mut dmac, qos);
        assert_eq!(ctrl.get_write_back_qos(&dmac), qos);
    }
    ctrl.set_data_transfer_qos(&mut dmac, QoS::Critical);
    ctrl.set_fetch_qos(&mut dmac, QoS::Low);
    ctrl.set_write_back_qos(&mut dmac, QoS::Medium);
    assert_eq!(ctrl.get_data_transfer_qos(&dmac), QoS::Critical);
    assert_eq!(ctrl.get_fetch_qos(&dmac), QoS::Low);
    assert_eq!(ctrl.get_write_back_qos(&dmac), QoS::Medium);
}

#[test]
fn round_robin_scheduling_sets_level_bit() {
    let (mut dmac, mut ctrl) = setup(4);
    ctrl.set_priority_level_scheduling(&mut dmac, Priority::Level1, true);
    assert_eq!(dmac.prictrl0 & (1 << 15), 1 << 15);
    ctrl.set_priority_level_scheduling(&mut dmac, Priority::Level1, false);
    assert_eq!(dmac.prictrl0 & (1 << 15), 0);
}

#[test]
fn trigger_channel_sets_software_trigger_bit() {
    let (mut dmac, mut ctrl) = setup(4);
    ctrl.trigger_channel(&mut dmac, 2);
    assert_eq!(dmac.swtrigctrl, 1 << 2);
    ctrl.trigger_channel(&mut dmac, 0);
    assert_eq!(dmac.swtrigctrl, (1 << 2) | 1);
}

#[test]
fn channel_bitfield_queries_read_registers() {
    let (mut dmac, ctrl) = setup(4);
    dmac.intstatus = 0x0000_0009;
    dmac.pendch = 0x0000_0006;
    dmac.busych = 0x0000_0001;
    assert_eq!(ctrl.get_channel_interrupt_status(&dmac).bits(), 0x09);
    assert_eq!(ctrl.get_pending_channels(&dmac).bits(), 0x06);
    assert_eq!(ctrl.get_busy_channels(&dmac).bits(), 0x01);
}

#[test]
fn active_channel_queries() {
    let (mut dmac, ctrl) = setup(4);
    // Level 2 has a request, channel 9 active and busy, 0x0123 beats left.
    dmac.active = (0x0123 << 16) | 0x8000 | (9 << 8) | 0x4;
    assert_eq!(ctrl.get_active_channel(&dmac), 9);
    assert_eq!(ctrl.get_active_block_transfer_count(&dmac), Some(0x0123));
    assert!(ctrl.priority_level_has_request(&dmac, Priority::Level2));
    assert!(!ctrl.priority_level_has_request(&dmac, Priority::Level0));
    dmac.active = 0x0123 << 16;
    assert_eq!(ctrl.get_active_block_transfer_count(&dmac), None);
}

#[test]
fn lowest_pending_channel_interrupts() {
    let (mut dmac, ctrl) = setup(4);
    assert!(ctrl.get_lowest_pending_channel_interrupts(&dmac).is_none());
    // Channel 7 selected with transfer-error and suspend flags set.
    dmac.intpend = 0x0500 | 7;
    let (id, flags) = ctrl.get_lowest_pending_channel_interrupts(&dmac).unwrap();
    assert_eq!(id, 7);
    assert_eq!(flags.bits(), 0x5);
}

#[test]
fn lowest_pending_channel_status() {
    let (mut dmac, ctrl) = setup(4);
    assert!(ctrl.get_lowest_pending_channel_status(&dmac).is_none());
    dmac.intpend = 0x8000 | 0x0200 | 3;
    assert_eq!(
        ctrl.get_lowest_pending_channel_status(&dmac),
        Some((3, Some(Status::Pending)))
    );
    dmac.intpend = 0x4000 | 0x0200 | 3;
    assert_eq!(ctrl.get_lowest_pending_channel_status(&dmac), Some((3, Some(Status::Busy))));
    dmac.intpend = 0x2000 | 0x0400 | 3;
    assert_eq!(
        ctrl.get_lowest_pending_channel_status(&dmac),
        Some((3, Some(Status::FetchError)))
    );
    dmac.intpend = 0x1000 | 0x0100 | 3;
    assert_eq!(
        ctrl.get_lowest_pending_channel_status(&dmac),
        Some((3, Some(Status::CRCError)))
    );
    dmac.intpend = 0x0200 | 3;
    assert_eq!(ctrl.get_lowest_pending_channel_status(&dmac), Some((3, None)));
}

#[test]
fn per_channel_pending_interrupt_queries() {
    let (mut dmac, ctrl) = setup(4);
    dmac.intpend = 0x0300;
    let flags = ctrl.get_channel_pending_interrupts(&mut dmac, 6);
    assert_eq!(flags.bits(), 0x3);
    assert_eq!(dmac.intpend & 0x1F, 6);
}

#[test]
fn set_channel_pending_interrupts_writes_id_and_flags() {
    let (mut dmac, mut ctrl) = setup(4);
    let flags = samd_dma::types::Interrupts::from_bits_truncate(0x5);
    ctrl.set_channel_pending_interrupts(&mut dmac, 9, flags);
    assert_eq!(dmac.intpend, 0x0500 | 9);
}

#[test]
fn channel_status_query_selects_and_classifies() {
    let (mut dmac, ctrl) = setup(4);
    dmac.intpend = 0x8000;
    assert_eq!(ctrl.get_channel_status(&mut dmac, 1), Some(Status::Pending));
    assert_eq!(dmac.intpend & 0x1F, 1);
    dmac.intpend = 0x4000;
    assert_eq!(ctrl.get_channel_status(&mut dmac, 2), Some(Status::Busy));
    dmac.intpend = 0x2000;
    assert_eq!(ctrl.get_channel_status(&mut dmac, 3), Some(Status::FetchError));
    dmac.intpend = 0x1000;
    assert_eq!(ctrl.get_channel_status(&mut dmac, 0), Some(Status::CRCError));
    dmac.intpend = 0;
    assert_eq!(ctrl.get_channel_status(&mut dmac, 0), None);
}

#[test]
fn first_descriptor_is_empty_after_init() {
    let (_dmac, mut ctrl) = setup(2);
    let ch = ctrl.take_channel(0).unwrap();
    let d = ch.get_first_descriptor(&mut ctrl);
    assert!(!d.is_valid());
    assert_eq!(d.get_block_transfer_count(), 0);
    assert_eq!(d.get_next_desc_addr(), 0);
}

#[test]
fn first_descriptors_are_independent_per_channel() {
    let (_dmac, mut ctrl) = setup(2);
    let ch0 = ctrl.take_channel(0).unwrap();
    let ch1 = ctrl.take_channel(1).unwrap();
    ch0.get_first_descriptor(&mut ctrl).set_block_count(11);
    ch1.get_first_descriptor(&mut ctrl).set_block_count(22);
    assert_eq!(ch0.get_first_descriptor(&mut ctrl).get_block_transfer_count(), 11);
    assert_eq!(ch1.get_first_descriptor(&mut ctrl).get_block_transfer_count(), 22);
}
