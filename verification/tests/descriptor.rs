use samd_dma::TransferDescriptor;
use samd_dma::types::BlockAction;
use samd_dma::types::EventOutput;
use samd_dma::types::StepSize;

#[test]
fn new_descriptor_is_empty() {
    let d = TransferDescriptor::new();
    assert!(!d.is_valid());
    assert_eq!(d.get_src_addr(), 0);
    assert_eq!(d.get_dst_addr(), 0);
    assert_eq!(d.get_next_desc_addr(), 0);
    assert_eq!(d.get_block_transfer_count(), 0);
    assert_eq!(d.get_step_size(), StepSize::X1);
    assert!(!d.get_step_selection());
    assert!(!d.get_dest_addr_increment());
    assert!(!d.get_src_addr_increment());
    assert_eq!(d.get_block_action(), BlockAction::NoAct);
    assert_eq!(d.get_event_output(), EventOutput::Disable);
}

#[test]
fn default_equals_new() {
    let d: TransferDescriptor = Default::default();
    assert_eq!(d, TransferDescriptor::new());
}

#[test]
fn address_fields_round_trip() {
    let mut d = TransferDescriptor::new();
    d.set_src_addr(0x2000_1234);
    d.set_dst_addr(0x4000_5678);
    assert_eq!(d.get_src_addr(), 0x2000_1234);
    assert_eq!(d.get_dst_addr(), 0x4000_5678);
}

#[test]
fn block_count_round_trip() {
    let mut d = TransferDescriptor::new();
    d.set_block_count(0xBEEF);
    assert_eq!(d.get_block_transfer_count(), 0xBEEF);
    d.set_block_count(0);
    assert_eq!(d.get_block_transfer_count(), 0);
}

#[test]
fn valid_bit_round_trip() {
    let mut d = TransferDescriptor::new();
    d.set_valid();
    assert!(d.is_valid());
    d.set_invalid();
    assert!(!d.is_valid());
}

#[test]
fn valid_bit_survives_other_mutations() {
    let mut d = TransferDescriptor::new();
    d.set_valid();
    d.set_src_addr(0x1000_0000);
    assert!(d.is_valid());
    d.set_dst_addr(0x1000_0010);
    assert!(d.is_valid());
    d.set_block_count(512);
    assert!(d.is_valid());
    d.set_step_size(StepSize::X64);
    assert!(d.is_valid());
    d.set_step_selection(true);
    assert!(d.is_valid());
    d.set_dest_addr_increment(true);
    assert!(d.is_valid());
    d.set_src_addr_increment(true);
    assert!(d.is_valid());
    d.set_block_action(BlockAction::Both);
    assert!(d.is_valid());
    d.set_event_output(EventOutput::Beat);
    assert!(d.is_valid());
    d.link_descriptor(0x2000_0040);
    assert!(d.is_valid());
    d.unlink_descriptor();
    assert!(d.is_valid());
    d.set_invalid();
    assert!(!d.is_valid());
}

#[test]
fn step_size_round_trip_every_value() {
    let values = [
        StepSize::X1,
        StepSize::X2,
        StepSize::X4,
        StepSize::X8,
        StepSize::X16,
        StepSize::X32,
        StepSize::X64,
        StepSize::X128,
    ];
    let mut d = TransferDescriptor::new();
    for v in values {
        d.set_step_size(v);
        assert_eq!(d.get_step_size(), v);
    }
}

#[test]
fn block_action_round_trip_every_value() {
    let values = [BlockAction::NoAct, BlockAction::Int, BlockAction::Suspend, BlockAction::Both];
    let mut d = TransferDescriptor::new();
    for v in values {
        d.set_block_action(v);
        assert_eq!(d.get_block_action(), v);
    }
}

#[test]
fn event_output_round_trip_every_value() {
    let values = [EventOutput::Disable, EventOutput::Block, EventOutput::Beat];
    let mut d = TransferDescriptor::new();
    for v in values {
        d.set_event_output(v);
        assert_eq!(d.get_event_output(), v);
    }
}

#[test]
fn step_selection_round_trip() {
    let mut d = TransferDescriptor::new();
    d.set_step_selection(true);
    assert!(d.get_step_selection());
    d.set_step_selection(false);
    assert!(!d.get_step_selection());
}

#[test]
fn increment_flags_are_independent() {
    let mut d = TransferDescriptor::new();
    d.set_src_addr_increment(true);
    assert!(d.get_src_addr_increment());
    assert!(!d.get_dest_addr_increment());
    d.set_dest_addr_increment(true);
    assert!(d.get_src_addr_increment());
    assert!(d.get_dest_addr_increment());
    d.set_src_addr_increment(false);
    assert!(!d.get_src_addr_increment());
    assert!(d.get_dest_addr_increment());
}

#[test]
fn link_then_unlink_returns_address_and_clears_link() {
    let mut d1 = TransferDescriptor::new();
    d1.link_descriptor(0x2000_0010);
    assert_eq!(d1.get_next_desc_addr(), 0x2000_0010);
    let next = d1.unlink_descriptor();
    assert_eq!(next, 0x2000_0010);
    assert_eq!(d1.get_next_desc_addr(), 0);
}

#[test]
fn unlink_on_unlinked_descriptor_returns_null() {
    let mut d = TransferDescriptor::new();
    assert_eq!(d.unlink_descriptor(), 0);
    assert_eq!(d.get_next_desc_addr(), 0);
}

#[test]
fn fields_do_not_bleed_into_each_other() {
    let mut d = TransferDescriptor::new();
    d.set_step_size(StepSize::X128);
    d.set_block_action(BlockAction::Suspend);
    d.set_event_output(EventOutput::Block);
    d.set_step_selection(true);
    assert_eq!(d.get_step_size(), StepSize::X128);
    assert_eq!(d.get_block_action(), BlockAction::Suspend);
    assert_eq!(d.get_event_output(), EventOutput::Block);
    assert!(d.get_step_selection());
    d.set_block_action(BlockAction::NoAct);
    assert_eq!(d.get_step_size(), StepSize::X128);
    assert_eq!(d.get_event_output(), EventOutput::Block);
}
