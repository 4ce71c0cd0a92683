use samd_dma::DescriptorStorage;

#[test]
fn storage_reports_its_placement_and_size() {
    let s = DescriptorStorage::new(3, 0x2000_0000, 0x2000_0100);
    assert_eq!(s.baseaddr(), 0x2000_0000);
    assert_eq!(s.wbaddr(), 0x2000_0100);
    assert_eq!(s.channel_count(), 3);
}

#[test]
fn storage_into_inner_yields_empty_descriptor_blocks() {
    let s = DescriptorStorage::new(5, 0x2000_0000, 0x2000_0100);
    let (base, write_back) = s.into_inner();
    assert_eq!(base.len(), 5);
    assert_eq!(write_back.len(), 5);
    for d in base.iter().chain(write_back.iter()) {
        assert!(!d.is_valid());
        assert_eq!(d.get_block_transfer_count(), 0);
        assert_eq!(d.get_next_desc_addr(), 0);
    }
}

#[test]
fn storage_of_maximum_size() {
    let s = DescriptorStorage::new(32, 0xFFFF_FC00, 0xFFFF_FE00);
    assert_eq!(s.channel_count(), 32);
    assert_eq!(s.baseaddr(), 0xFFFF_FC00);
}
