use mac_decode::cursor::Cursor;
use mac_decode::error::Error;
use mac_decode::types::{
    Address, AddressMode, AssociationStatus, DisassociateReason, ExtendedAddress,
    FHPIBAttributeId, KeyIdMode, KeySource, MACPIBAttributeId, MPMScan, MPMType, PermitJoin,
    PhyId, ScanType, SecurityLevel, SecurityPIBAttributeId, ShortAddress, Status, TxOption,
    WiSUNAsyncFrameType, WiSUNAsyncOperation,
};

#[test]
fn status_success_byte() {
    let buf: [u8; 1] = [0x00];
    let mut c = Cursor::new(&buf);
    assert_eq!(Status::try_from(&mut c), Ok(Status::Success));
    assert_eq!(c.position(), 1);
    assert_eq!(c.remaining(), 0);
}

#[test]
fn status_unsupported_byte() {
    let buf: [u8; 1] = [0x18];
    let mut c = Cursor::new(&buf);
    assert_eq!(Status::try_from(&mut c), Ok(Status::Unsupported));
    assert_eq!(c.position(), 1);
}

#[test]
fn status_invalid_byte_carries_raw_value() {
    let buf: [u8; 1] = [0x05];
    let mut c = Cursor::new(&buf);
    assert_eq!(Status::try_from(&mut c), Err(Error::InvalidStatus(5)));
    assert_eq!(c.position(), 1);
}

#[test]
fn status_table_members_decode() {
    let cases: [(u8, Status); 8] = [
        (0x19, Status::BadState),
        (0x25, Status::RPCCommandSubsystemError),
        (0x61, Status::FHAPIError),
        (0x6C, Status::FHAPIExpiredNode),
        (0xDB, Status::CounterError),
        (0xE8, Status::InvalidParameter),
        (0xFE, Status::AutoAckPendingAllOn),
        (0xFF, Status::AutoAckPendingAllOff),
    ];
    for (byte, expect) in cases {
        let buf: [u8; 1] = [byte];
        let mut c = Cursor::new(&buf);
        assert_eq!(Status::try_from(&mut c), Ok(expect));
        assert_eq!(c.position(), 1);
    }
}

#[test]
fn status_empty_buffer() {
    let buf: [u8; 0] = [];
    let mut c = Cursor::new(&buf);
    assert_eq!(Status::try_from(&mut c), Err(Error::NotEnoughBytes));
    assert_eq!(c.position(), 0);
}

#[test]
fn address_mode_codes() {
    let buf: [u8; 2] = [0x02, 0x03];
    let mut c = Cursor::new(&buf);
    assert_eq!(AddressMode::try_from(&mut c), Ok(AddressMode::Addr16Bit));
    assert_eq!(AddressMode::try_from(&mut c), Ok(AddressMode::Addr64Bit));
    assert_eq!(c.remaining(), 0);
}

#[test]
fn address_mode_invalid() {
    let buf: [u8; 1] = [0x01];
    let mut c = Cursor::new(&buf);
    assert_eq!(
        AddressMode::try_from(&mut c),
        Err(Error::InvalidAddressMode(0x01))
    );
}

#[test]
fn short_address_reverses_wire_bytes() {
    let buf: [u8; 2] = [0x34, 0x12];
    let mut c = Cursor::new(&buf);
    let a = ShortAddress::try_from(&mut c).unwrap();
    assert_eq!(a.address, [0x12, 0x34]);
    assert_eq!(c.position(), 2);
}

#[test]
fn short_address_one_byte_short() {
    let buf: [u8; 1] = [0x34];
    let mut c = Cursor::new(&buf);
    assert_eq!(ShortAddress::try_from(&mut c), Err(Error::NotEnoughBytes));
    assert_eq!(c.position(), 0);
}

#[test]
fn short_address_double_decode_restores_wire_bytes() {
    let buf: [u8; 2] = [0x34, 0x12];
    let mut c = Cursor::new(&buf);
    let once = ShortAddress::try_from(&mut c).unwrap();
    let mut c2 = Cursor::new(&once.address);
    let twice = ShortAddress::try_from(&mut c2).unwrap();
    assert_eq!(twice.address, buf);
}

#[test]
fn extended_address_reverses_wire_bytes() {
    let buf: [u8; 8] = [0x01, 0x02, 0x03, 0x04, 0x05, 0x06, 0x07, 0x08];
    let mut c = Cursor::new(&buf);
    let a = ExtendedAddress::try_from(&mut c).unwrap();
    assert_eq!(a.address, [0x08, 0x07, 0x06, 0x05, 0x04, 0x03, 0x02, 0x01]);
    assert_eq!(c.position(), 8);
}

#[test]
fn extended_address_double_decode_restores_wire_bytes() {
    let buf: [u8; 8] = [0xDE, 0xAD, 0xBE, 0xEF, 0x00, 0x11, 0x22, 0x33];
    let mut c = Cursor::new(&buf);
    let once = ExtendedAddress::try_from(&mut c).unwrap();
    let mut c2 = Cursor::new(&once.address);
    let twice = ExtendedAddress::try_from(&mut c2).unwrap();
    assert_eq!(twice.address, buf);
}

#[test]
fn extended_address_needs_eight_bytes() {
    let buf: [u8; 1] = [0xAA];
    let mut c = Cursor::new(&buf);
    assert_eq!(
        ExtendedAddress::try_from(&mut c),
        Err(Error::NotEnoughBytes)
    );
    // The failure consumed nothing: a fresh cursor over the same buffer
    // still reads the untouched byte.
    assert_eq!(c.position(), 0);
    let mut fresh = Cursor::new(&buf);
    assert_eq!(fresh.try_get_u8(), Ok(0xAA));
}

#[test]
fn address_short_variant_takes_last_two_reversed_bytes() {
    let buf: [u8; 9] = [0x02, 0x01, 0x02, 0x03, 0x04, 0x05, 0x06, 0x07, 0x08];
    let mut c = Cursor::new(&buf);
    let a = Address::try_from(&mut c).unwrap();
    assert_eq!(
        a,
        Address::Addr16Bit(ShortAddress {
            address: [0x02, 0x01],
        })
    );
    assert_eq!(c.position(), 9);
}

#[test]
fn address_extended_variant_takes_whole_reversed_field() {
    let buf: [u8; 9] = [0x03, 0x01, 0x02, 0x03, 0x04, 0x05, 0x06, 0x07, 0x08];
    let mut c = Cursor::new(&buf);
    let a = Address::try_from(&mut c).unwrap();
    assert_eq!(
        a,
        Address::Addr64Bit(ExtendedAddress {
            address: [0x08, 0x07, 0x06, 0x05, 0x04, 0x03, 0x02, 0x01],
        })
    );
    assert_eq!(c.position(), 9);
}

#[test]
fn address_invalid_mode_byte() {
    let buf: [u8; 9] = [0x07, 0x01, 0x02, 0x03, 0x04, 0x05, 0x06, 0x07, 0x08];
    let mut c = Cursor::new(&buf);
    assert_eq!(
        Address::try_from(&mut c),
        Err(Error::InvalidAddressMode(0x07))
    );
    assert_eq!(c.position(), 1);
}

#[test]
fn address_field_too_short() {
    let buf: [u8; 5] = [0x02, 0x01, 0x02, 0x03, 0x04];
    let mut c = Cursor::new(&buf);
    assert_eq!(Address::try_from(&mut c), Err(Error::NotEnoughBytes));
}

#[test]
fn address_empty_buffer() {
    let buf: [u8; 0] = [];
    let mut c = Cursor::new(&buf);
    assert_eq!(Address::try_from(&mut c), Err(Error::NotEnoughBytes));
    assert_eq!(c.position(), 0);
}

#[test]
fn tx_option_codes() {
    let cases: [(u8, TxOption); 9] = [
        (0x00, TxOption::NoAck),
        (0x01, TxOption::Ack),
        (0x02, TxOption::GTS),
        (0x04, TxOption::Indirect),
        (0x08, TxOption::PendBit),
        (0x10, TxOption::NoRetrans),
        (0x20, TxOption::NoCNF),
        (0x40, TxOption::AltBE),
        (0x80, TxOption::PwrChan),
    ];
    for (byte, expect) in cases {
        let buf: [u8; 1] = [byte];
        let mut c = Cursor::new(&buf);
        assert_eq!(TxOption::try_from(&mut c), Ok(expect));
        assert_eq!(c.position(), 1);
    }
}

#[test]
fn tx_option_invalid_combination_byte() {
    // 0x03 would be Ack | GTS as a bitmask, but this layer decodes single
    // named options only.
    let buf: [u8; 1] = [0x03];
    let mut c = Cursor::new(&buf);
    assert_eq!(TxOption::try_from(&mut c), Err(Error::InvalidTxOption(0x03)));
}

#[test]
fn security_level_codes() {
    let buf: [u8; 2] = [0x00, 0x07];
    let mut c = Cursor::new(&buf);
    assert_eq!(
        SecurityLevel::try_from(&mut c),
        Ok(SecurityLevel::NoSecurity)
    );
    assert_eq!(
        SecurityLevel::try_from(&mut c),
        Ok(SecurityLevel::AESEncryptionMIC128)
    );
}

#[test]
fn security_level_invalid() {
    let buf: [u8; 1] = [0x08];
    let mut c = Cursor::new(&buf);
    assert_eq!(
        SecurityLevel::try_from(&mut c),
        Err(Error::InvalidSecurityLevel(0x08))
    );
}

#[test]
fn key_id_mode_codes() {
    let buf: [u8; 2] = [0x00, 0x03];
    let mut c = Cursor::new(&buf);
    assert_eq!(KeyIdMode::try_from(&mut c), Ok(KeyIdMode::NotUsed));
    assert_eq!(KeyIdMode::try_from(&mut c), Ok(KeyIdMode::Key8ByteIndex));
}

#[test]
fn key_id_mode_invalid() {
    let buf: [u8; 1] = [0x04];
    let mut c = Cursor::new(&buf);
    assert_eq!(
        KeyIdMode::try_from(&mut c),
        Err(Error::InvalidKeyIdMode(0x04))
    );
}

#[test]
fn key_source_reverses_wire_bytes() {
    let buf: [u8; 8] = [0x11, 0x22, 0x33, 0x44, 0x55, 0x66, 0x77, 0x88];
    let mut c = Cursor::new(&buf);
    let k = KeySource::try_from(&mut c).unwrap();
    assert_eq!(k.key, [0x88, 0x77, 0x66, 0x55, 0x44, 0x33, 0x22, 0x11]);
    assert_eq!(c.position(), 8);
}

#[test]
fn key_source_double_decode_restores_wire_bytes() {
    let buf: [u8; 8] = [0x11, 0x22, 0x33, 0x44, 0x55, 0x66, 0x77, 0x88];
    let mut c = Cursor::new(&buf);
    let once = KeySource::try_from(&mut c).unwrap();
    let mut c2 = Cursor::new(&once.key);
    let twice = KeySource::try_from(&mut c2).unwrap();
    assert_eq!(twice.key, buf);
}

#[test]
fn key_source_too_short() {
    let buf: [u8; 7] = [0x11, 0x22, 0x33, 0x44, 0x55, 0x66, 0x77];
    let mut c = Cursor::new(&buf);
    assert_eq!(KeySource::try_from(&mut c), Err(Error::NotEnoughBytes));
    assert_eq!(c.position(), 0);
}

#[test]
fn wisun_async_frame_type_codes() {
    let cases: [(u8, WiSUNAsyncFrameType); 3] = [
        (0x00, WiSUNAsyncFrameType::PANAdvert),
        (0x06, WiSUNAsyncFrameType::EAPOL),
        (0xFF, WiSUNAsyncFrameType::Invalid),
    ];
    for (byte, expect) in cases {
        let buf: [u8; 1] = [byte];
        let mut c = Cursor::new(&buf);
        assert_eq!(WiSUNAsyncFrameType::try_from(&mut c), Ok(expect));
    }
}

#[test]
fn wisun_async_frame_type_invalid() {
    let buf: [u8; 1] = [0x07];
    let mut c = Cursor::new(&buf);
    assert_eq!(
        WiSUNAsyncFrameType::try_from(&mut c),
        Err(Error::InvalidFrameType(0x07))
    );
}

#[test]
fn association_status_codes() {
    let buf: [u8; 3] = [0x00, 0x01, 0x02];
    let mut c = Cursor::new(&buf);
    assert_eq!(
        AssociationStatus::try_from(&mut c),
        Ok(AssociationStatus::Successful)
    );
    assert_eq!(
        AssociationStatus::try_from(&mut c),
        Ok(AssociationStatus::PANAtCapacity)
    );
    assert_eq!(
        AssociationStatus::try_from(&mut c),
        Ok(AssociationStatus::PANAccessDenied)
    );
}

#[test]
fn association_status_invalid() {
    let buf: [u8; 1] = [0x03];
    let mut c = Cursor::new(&buf);
    assert_eq!(
        AssociationStatus::try_from(&mut c),
        Err(Error::InvalidAssociationStatus(0x03))
    );
}

#[test]
fn disassociate_reason_codes() {
    let buf: [u8; 3] = [0x00, 0x01, 0x02];
    let mut c = Cursor::new(&buf);
    assert_eq!(
        DisassociateReason::try_from(&mut c),
        Ok(DisassociateReason::Reserved)
    );
    assert_eq!(
        DisassociateReason::try_from(&mut c),
        Ok(DisassociateReason::CoorWishesDevLeave)
    );
    assert_eq!(
        DisassociateReason::try_from(&mut c),
        Ok(DisassociateReason::DevWishesLeave)
    );
}

#[test]
fn disassociate_reason_invalid() {
    let buf: [u8; 1] = [0x05];
    let mut c = Cursor::new(&buf);
    assert_eq!(
        DisassociateReason::try_from(&mut c),
        Err(Error::InvalidDisassociationReason(0x05))
    );
}

#[test]
fn mac_pib_attribute_codes() {
    let cases: [(u8, MACPIBAttributeId); 5] = [
        (0x40, MACPIBAttributeId::AckWaitDuration),
        (0x53, MACPIBAttributeId::ShortAddress),
        (0x64, MACPIBAttributeId::PhyMRFSKSFD),
        (0xE0, MACPIBAttributeId::PhyTransmitPowerSigned),
        (0xE9, MACPIBAttributeId::FCSType),
    ];
    for (byte, expect) in cases {
        let buf: [u8; 1] = [byte];
        let mut c = Cursor::new(&buf);
        assert_eq!(MACPIBAttributeId::try_from(&mut c), Ok(expect));
    }
}

#[test]
fn mac_pib_attribute_invalid_gap_byte() {
    // 0x65..0xDF is a gap between the two runs of the table.
    let buf: [u8; 1] = [0x65];
    let mut c = Cursor::new(&buf);
    assert_eq!(
        MACPIBAttributeId::try_from(&mut c),
        Err(Error::InvalidMACPIBAttributeId(0x65))
    );
}

#[test]
fn fh_pib_attribute_little_endian_code() {
    let buf: [u8; 2] = [0x00, 0x20];
    let mut c = Cursor::new(&buf);
    assert_eq!(
        FHPIBAttributeId::try_from(&mut c),
        Ok(FHPIBAttributeId::TrackParentEUI)
    );
    assert_eq!(c.position(), 2);
}

#[test]
fn fh_pib_attribute_more_codes() {
    let cases: [([u8; 2], FHPIBAttributeId); 3] = [
        ([0x0A, 0x20], FHPIBAttributeId::UseParentBSIE),
        ([0x13, 0x20], FHPIBAttributeId::NetName),
        ([0x19, 0x20], FHPIBAttributeId::NeighborValidTime),
    ];
    for (bytes, expect) in cases {
        let mut c = Cursor::new(&bytes);
        assert_eq!(FHPIBAttributeId::try_from(&mut c), Ok(expect));
        assert_eq!(c.position(), 2);
    }
}

#[test]
fn fh_pib_attribute_invalid_code() {
    let buf: [u8; 2] = [0xFF, 0xFF];
    let mut c = Cursor::new(&buf);
    assert_eq!(
        FHPIBAttributeId::try_from(&mut c),
        Err(Error::InvalidFHPIBAttributeId(0xFFFF))
    );
    assert_eq!(c.position(), 2);
}

#[test]
fn fh_pib_attribute_one_byte_short() {
    let buf: [u8; 1] = [0x00];
    let mut c = Cursor::new(&buf);
    assert_eq!(
        FHPIBAttributeId::try_from(&mut c),
        Err(Error::NotEnoughBytes)
    );
    assert_eq!(c.position(), 0);
}

#[test]
fn security_pib_attribute_codes() {
    let cases: [(u8, SecurityPIBAttributeId); 3] = [
        (0x71, SecurityPIBAttributeId::KeyTable),
        (0x8B, SecurityPIBAttributeId::PANCoordShortAddress),
        (0xD5, SecurityPIBAttributeId::SecurityLevelEntry),
    ];
    for (byte, expect) in cases {
        let buf: [u8; 1] = [byte];
        let mut c = Cursor::new(&buf);
        assert_eq!(SecurityPIBAttributeId::try_from(&mut c), Ok(expect));
    }
}

#[test]
fn security_pib_attribute_invalid() {
    let buf: [u8; 1] = [0x72];
    let mut c = Cursor::new(&buf);
    assert_eq!(
        SecurityPIBAttributeId::try_from(&mut c),
        Err(Error::InvalidSecurityPIBAttributeId(0x72))
    );
}

#[test]
fn scan_type_codes() {
    let cases: [(u8, ScanType); 5] = [
        (0x00, ScanType::EnergyDetect),
        (0x01, ScanType::Active),
        (0x02, ScanType::Passive),
        (0x03, ScanType::Orphan),
        (0x05, ScanType::Active2),
    ];
    for (byte, expect) in cases {
        let buf: [u8; 1] = [byte];
        let mut c = Cursor::new(&buf);
        assert_eq!(ScanType::try_from(&mut c), Ok(expect));
    }
}

#[test]
fn scan_type_invalid_hole_byte() {
    // 0x04 is a hole inside the table's range.
    let buf: [u8; 1] = [0x04];
    let mut c = Cursor::new(&buf);
    assert_eq!(ScanType::try_from(&mut c), Err(Error::InvalidScanType(0x04)));
}

#[test]
fn phy_id_codes() {
    let cases: [(u8, PhyId); 4] = [
        (0x01, PhyId::STD_US_915_PHY_1),
        (0x03, PhyId::STD_ETSI_863_PHY_3),
        (0x04, PhyId::MRFSK_GENERIC_PHY_ID_BEGIN),
        (0x06, PhyId::MRFSK_GENERIC_PHY_ID_END),
    ];
    for (byte, expect) in cases {
        let buf: [u8; 1] = [byte];
        let mut c = Cursor::new(&buf);
        assert_eq!(PhyId::try_from(&mut c), Ok(expect));
    }
}

#[test]
fn phy_id_invalid() {
    let buf: [u8; 1] = [0x02];
    let mut c = Cursor::new(&buf);
    assert_eq!(PhyId::try_from(&mut c), Err(Error::InvalidPhyId(0x02)));
}

#[test]
fn permit_join_codes() {
    let buf: [u8; 2] = [0x00, 0x01];
    let mut c = Cursor::new(&buf);
    assert_eq!(PermitJoin::try_from(&mut c), Ok(PermitJoin::AllBeaconRequests));
    assert_eq!(
        PermitJoin::try_from(&mut c),
        Ok(PermitJoin::OnlyIfPermitJoinIsEnabled)
    );
}

#[test]
fn permit_join_invalid_has_own_error_kind() {
    let buf: [u8; 1] = [0x02];
    let mut c = Cursor::new(&buf);
    assert_eq!(
        PermitJoin::try_from(&mut c),
        Err(Error::InvalidPermitJoin(0x02))
    );
}

#[test]
fn mpm_scan_codes() {
    let buf: [u8; 2] = [0x00, 0x01];
    let mut c = Cursor::new(&buf);
    assert_eq!(MPMScan::try_from(&mut c), Ok(MPMScan::Disabled));
    assert_eq!(MPMScan::try_from(&mut c), Ok(MPMScan::Enabled));
}

#[test]
fn mpm_scan_invalid_has_own_error_kind() {
    let buf: [u8; 1] = [0xAA];
    let mut c = Cursor::new(&buf);
    assert_eq!(MPMScan::try_from(&mut c), Err(Error::InvalidMPMScan(0xAA)));
}

#[test]
fn mpm_type_codes() {
    let buf: [u8; 2] = [0x01, 0x02];
    let mut c = Cursor::new(&buf);
    assert_eq!(MPMType::try_from(&mut c), Ok(MPMType::BPAN));
    assert_eq!(MPMType::try_from(&mut c), Ok(MPMType::NBPAN));
}

#[test]
fn mpm_type_invalid_has_own_error_kind() {
    let buf: [u8; 1] = [0x00];
    let mut c = Cursor::new(&buf);
    assert_eq!(MPMType::try_from(&mut c), Err(Error::InvalidMPMType(0x00)));
}

#[test]
fn wisun_async_operation_codes() {
    let buf: [u8; 2] = [0x00, 0x01];
    let mut c = Cursor::new(&buf);
    assert_eq!(
        WiSUNAsyncOperation::try_from(&mut c),
        Ok(WiSUNAsyncOperation::Start)
    );
    assert_eq!(
        WiSUNAsyncOperation::try_from(&mut c),
        Ok(WiSUNAsyncOperation::Stop)
    );
}

#[test]
fn wisun_async_operation_invalid_has_own_error_kind() {
    let buf: [u8; 1] = [0x02];
    let mut c = Cursor::new(&buf);
    assert_eq!(
        WiSUNAsyncOperation::try_from(&mut c),
        Err(Error::InvalidWiSUNAsyncOperation(0x02))
    );
}

#[test]
fn chained_decodes_consume_in_order() {
    // A composite record: a status, then an address record, then a key
    // source, decoded back to back from one cursor.
    let buf: [u8; 18] = [
        0x00, // Status::Success
        0x03, 0x01, 0x02, 0x03, 0x04, 0x05, 0x06, 0x07, 0x08, // 64-bit address
        0x11, 0x22, 0x33, 0x44, 0x55, 0x66, 0x77, 0x88, // key source
    ];
    let mut c = Cursor::new(&buf);
    assert_eq!(Status::try_from(&mut c), Ok(Status::Success));
    assert_eq!(c.position(), 1);
    let a = Address::try_from(&mut c).unwrap();
    assert_eq!(
        a,
        Address::Addr64Bit(ExtendedAddress {
            address: [0x08, 0x07, 0x06, 0x05, 0x04, 0x03, 0x02, 0x01],
        })
    );
    assert_eq!(c.position(), 10);
    let k = KeySource::try_from(&mut c).unwrap();
    assert_eq!(k.key, [0x88, 0x77, 0x66, 0x55, 0x44, 0x33, 0x22, 0x11]);
    assert_eq!(c.remaining(), 0);
}
