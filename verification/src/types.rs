use vstd::prelude::*;

use crate::cursor::Cursor;
use crate::error::Error;

verus! {

/// Status code returned by the device with a command response.
#[derive(Debug, PartialEq)]
pub enum Status {
    Success,
    Unsupported,
    BadState,
    NoResources,
    RPCCommandSubsystemError,
    RPCCommandIdError,
    RPCCommandLengthError,
    RPCCommandUnsupportedType,
    FHAPIError,
    FHAPINotSupportedIE,
    FHAPINotInAsync,
    FHAPINoEntryInTheNeighbor,
    FHAPIOutSlot,
    FHAPIInvalidAddress,
    FHAPIInvalidFormat,
    FHAPINotSupportedPIB,
    FHAPIReadOnlyPIB,
    FHAPIInvalidParamPIB,
    FHAPIInvalidFrameType,
    FHAPIExpiredNode,
    CounterError,
    ImproperKeyType,
    ImproperSecurityLevel,
    UnsupportedLegacy,
    UnsupportedSecurity,
    BeaconLoss,
    ChannelAccessFailure,
    Denied,
    DisableTRXFailure,
    SecurityError,
    FrameTooLong,
    InvalidGTS,
    InvalidHandle,
    InvalidParameter,
    NoAck,
    NoBeacon,
    NoData,
    NoShortAddress,
    OutOfCAP,
    PANIdConflict,
    Realignment,
    TransactionExpired,
    TransactionOverflow,
    TxActive,
    UnavailableKey,
    UnsupportedAttribute,
    InvalidAddress,
    OnTimeTooLong,
    PastTime,
    TrackingOff,
    InvalidIndex,
    LimitReached,
    ReadOnly,
    ScanInProgress,
    SuperframeOverlap,
    AutoAckPendingAllOn,
    AutoAckPendingAllOff,
}

impl Status {
    /// The closed wire-code table of this family: which status, if any, a
    /// raw byte stands for.
    pub open spec fn spec_from_code(v: u8) -> Option<Status> {
        match v {
            0x00 => Some(Status::Success),
            0x18 => Some(Status::Unsupported),
            0x19 => Some(Status::BadState),
            0x1A => Some(Status::NoResources),
            0x25 => Some(Status::RPCCommandSubsystemError),
            0x26 => Some(Status::RPCCommandIdError),
            0x27 => Some(Status::RPCCommandLengthError),
            0x28 => Some(Status::RPCCommandUnsupportedType),
            0x61 => Some(Status::FHAPIError),
            0x62 => Some(Status::FHAPINotSupportedIE),
            0x63 => Some(Status::FHAPINotInAsync),
            0x64 => Some(Status::FHAPINoEntryInTheNeighbor),
            0x65 => Some(Status::FHAPIOutSlot),
            0x66 => Some(Status::FHAPIInvalidAddress),
            0x67 => Some(Status::FHAPIInvalidFormat),
            0x68 => Some(Status::FHAPINotSupportedPIB),
            0x69 => Some(Status::FHAPIReadOnlyPIB),
            0x6A => Some(Status::FHAPIInvalidParamPIB),
            0x6B => Some(Status::FHAPIInvalidFrameType),
            0x6C => Some(Status::FHAPIExpiredNode),
            0xDB => Some(Status::CounterError),
            0xDC => Some(Status::ImproperKeyType),
            0xDD => Some(Status::ImproperSecurityLevel),
            0xDE => Some(Status::UnsupportedLegacy),
            0xDF => Some(Status::UnsupportedSecurity),
            0xE0 => Some(Status::BeaconLoss),
            0xE1 => Some(Status::ChannelAccessFailure),
            0xE2 => Some(Status::Denied),
            0xE3 => Some(Status::DisableTRXFailure),
            0xE4 => Some(Status::SecurityError),
            0xE5 => Some(Status::FrameTooLong),
            0xE6 => Some(Status::InvalidGTS),
            0xE7 => Some(Status::InvalidHandle),
            0xE8 => Some(Status::InvalidParameter),
            0xE9 => Some(Status::NoAck),
            0xEA => Some(Status::NoBeacon),
            0xEB => Some(Status::NoData),
            0xEC => Some(Status::NoShortAddress),
            0xED => Some(Status::OutOfCAP),
            0xEE => Some(Status::PANIdConflict),
            0xEF => Some(Status::Realignment),
            0xF0 => Some(Status::TransactionExpired),
            0xF1 => Some(Status::TransactionOverflow),
            0xF2 => Some(Status::TxActive),
            0xF3 => Some(Status::UnavailableKey),
            0xF4 => Some(Status::UnsupportedAttribute),
            0xF5 => Some(Status::InvalidAddress),
            0xF6 => Some(Status::OnTimeTooLong),
            0xF7 => Some(Status::PastTime),
            0xF8 => Some(Status::TrackingOff),
            0xF9 => Some(Status::InvalidIndex),
            0xFA => Some(Status::LimitReached),
            0xFB => Some(Status::ReadOnly),
            0xFC => Some(Status::ScanInProgress),
            0xFD => Some(Status::SuperframeOverlap),
            0xFE => Some(Status::AutoAckPendingAllOn),
            0xFF => Some(Status::AutoAckPendingAllOff),
            _ => None,
        }
    }

    fn from_code(v: u8) -> (r: Option<Status>)
        ensures
            r == Status::spec_from_code(v),
    {
        match v {
            0x00 => Some(Status::Success),
            0x18 => Some(Status::Unsupported),
            0x19 => Some(Status::BadState),
            0x1A => Some(Status::NoResources),
            0x25 => Some(Status::RPCCommandSubsystemError),
            0x26 => Some(Status::RPCCommandIdError),
            0x27 => Some(Status::RPCCommandLengthError),
            0x28 => Some(Status::RPCCommandUnsupportedType),
            0x61 => Some(Status::FHAPIError),
            0x62 => Some(Status::FHAPINotSupportedIE),
            0x63 => Some(Status::FHAPINotInAsync),
            0x64 => Some(Status::FHAPINoEntryInTheNeighbor),
            0x65 => Some(Status::FHAPIOutSlot),
            0x66 => Some(Status::FHAPIInvalidAddress),
            0x67 => Some(Status::FHAPIInvalidFormat),
            0x68 => Some(Status::FHAPINotSupportedPIB),
            0x69 => Some(Status::FHAPIReadOnlyPIB),
            0x6A => Some(Status::FHAPIInvalidParamPIB),
            0x6B => Some(Status::FHAPIInvalidFrameType),
            0x6C => Some(Status::FHAPIExpiredNode),
            0xDB => Some(Status::CounterError),
            0xDC => Some(Status::ImproperKeyType),
            0xDD => Some(Status::ImproperSecurityLevel),
            0xDE => Some(Status::UnsupportedLegacy),
            0xDF => Some(Status::UnsupportedSecurity),
            0xE0 => Some(Status::BeaconLoss),
            0xE1 => Some(Status::ChannelAccessFailure),
            0xE2 => Some(Status::Denied),
            0xE3 => Some(Status::DisableTRXFailure),
            0xE4 => Some(Status::SecurityError),
            0xE5 => Some(Status::FrameTooLong),
            0xE6 => Some(Status::InvalidGTS),
            0xE7 => Some(Status::InvalidHandle),
            0xE8 => Some(Status::InvalidParameter),
            0xE9 => Some(Status::NoAck),
            0xEA => Some(Status::NoBeacon),
            0xEB => Some(Status::NoData),
            0xEC => Some(Status::NoShortAddress),
            0xED => Some(Status::OutOfCAP),
            0xEE => Some(Status::PANIdConflict),
            0xEF => Some(Status::Realignment),
            0xF0 => Some(Status::TransactionExpired),
            0xF1 => Some(Status::TransactionOverflow),
            0xF2 => Some(Status::TxActive),
            0xF3 => Some(Status::UnavailableKey),
            0xF4 => Some(Status::UnsupportedAttribute),
            0xF5 => Some(Status::InvalidAddress),
            0xF6 => Some(Status::OnTimeTooLong),
            0xF7 => Some(Status::PastTime),
            0xF8 => Some(Status::TrackingOff),
            0xF9 => Some(Status::InvalidIndex),
            0xFA => Some(Status::LimitReached),
            0xFB => Some(Status::ReadOnly),
            0xFC => Some(Status::ScanInProgress),
            0xFD => Some(Status::SuperframeOverlap),
            0xFE => Some(Status::AutoAckPendingAllOn),
            0xFF => Some(Status::AutoAckPendingAllOff),
            _ => None,
        }
    }

    /// Decodes one status code byte: on a table member the named status,
    /// with the cursor advanced by one; on any other byte
    /// `InvalidStatus` carrying that byte, the cursor still advanced by
    /// one; on an empty remainder `NotEnoughBytes`, the cursor unmoved.
    pub fn try_from(cursor: &mut Cursor) -> (r: Result<Status, Error>)
        requires
            old(cursor).wf(),
        ensures
            final(cursor).wf(),
            final(cursor).spec_bytes() == old(cursor).spec_bytes(),
            match r {
                Ok(s) => old(cursor).spec_remaining() >= 1
                    && Status::spec_from_code(
                        old(cursor).spec_bytes()[old(cursor).spec_pos()],
                    ) == Some(s)
                    && final(cursor).spec_pos() == old(cursor).spec_pos() + 1,
                Err(Error::InvalidStatus(v)) => old(cursor).spec_remaining() >= 1
                    && v == old(cursor).spec_bytes()[old(cursor).spec_pos()]
                    && Status::spec_from_code(v) is None
                    && final(cursor).spec_pos() == old(cursor).spec_pos() + 1,
                Err(Error::NotEnoughBytes) => old(cursor).spec_remaining() == 0
                    && final(cursor).spec_pos() == old(cursor).spec_pos(),
                Err(_) => false,
            },
    {
        let v = match cursor.try_get_u8() {
            Ok(b) => b,
            Err(e) => {
                return Err(e);
            },
        };
        match Status::from_code(v) {
            Some(s) => Ok(s),
            None => Err(Error::InvalidStatus(v)),
        }
    }
}

/// Selector telling which width of address follows in an address record.
#[derive(Debug, PartialEq)]
pub enum AddressMode {
    Addr16Bit,
    Addr64Bit,
}

impl AddressMode {
    /// The closed wire-code table of this family: which address mode, if
    /// any, a raw byte stands for.
    pub open spec fn spec_from_code(v: u8) -> Option<AddressMode> {
        match v {
            0x02 => Some(AddressMode::Addr16Bit),
            0x03 => Some(AddressMode::Addr64Bit),
            _ => None,
        }
    }

    fn from_code(v: u8) -> (r: Option<AddressMode>)
        ensures
            r == AddressMode::spec_from_code(v),
    {
        match v {
            0x02 => Some(AddressMode::Addr16Bit),
            0x03 => Some(AddressMode::Addr64Bit),
            _ => None,
        }
    }

    /// Decodes one address-mode byte: `0x02` means a 16-bit address
    /// follows, `0x03` a 64-bit one; any other byte is
    /// `InvalidAddressMode` carrying that byte, the cursor still advanced
    /// by one; an empty remainder is `NotEnoughBytes`, the cursor unmoved.
    pub fn try_from(cursor: &mut Cursor) -> (r: Result<AddressMode, Error>)
        requires
            old(cursor).wf(),
        ensures
            final(cursor).wf(),
            final(cursor).spec_bytes() == old(cursor).spec_bytes(),
            match r {
                Ok(m) => old(cursor).spec_remaining() >= 1
                    && AddressMode::spec_from_code(
                        old(cursor).spec_bytes()[old(cursor).spec_pos()],
                    ) == Some(m)
                    && final(cursor).spec_pos() == old(cursor).spec_pos() + 1,
                Err(Error::InvalidAddressMode(v)) => old(cursor).spec_remaining() >= 1
                    && v == old(cursor).spec_bytes()[old(cursor).spec_pos()]
                    && AddressMode::spec_from_code(v) is None
                    && final(cursor).spec_pos() == old(cursor).spec_pos() + 1,
                Err(Error::NotEnoughBytes) => old(cursor).spec_remaining() == 0
                    && final(cursor).spec_pos() == old(cursor).spec_pos(),
                Err(_) => false,
            },
    {
        let v = match cursor.try_get_u8() {
            Ok(b) => b,
            Err(e) => {
                return Err(e);
            },
        };
        match AddressMode::from_code(v) {
            Some(m) => Ok(m),
            None => Err(Error::InvalidAddressMode(v)),
        }
    }
}

/// A two-byte device address in natural display order.
#[derive(Debug, PartialEq)]
pub struct ShortAddress {
    pub address: [u8; 2],
}

impl ShortAddress {
    /// Decodes a two-byte address field: the two wire bytes reversed into
    /// display order, the cursor advanced by two; when fewer than two
    /// bytes remain, `NotEnoughBytes` with the cursor unmoved.
    pub fn try_from(cursor: &mut Cursor) -> (r: Result<ShortAddress, Error>)
        requires
            old(cursor).wf(),
        ensures
            final(cursor).wf(),
            final(cursor).spec_bytes() == old(cursor).spec_bytes(),
            match r {
                Ok(a) => old(cursor).spec_remaining() >= 2
                    && a.address@ == old(cursor).spec_bytes().subrange(
                        old(cursor).spec_pos(),
                        old(cursor).spec_pos() + 2,
                    ).reverse()
                    && final(cursor).spec_pos() == old(cursor).spec_pos() + 2,
                Err(e) => e == Error::NotEnoughBytes
                    && old(cursor).spec_remaining() < 2
                    && final(cursor).spec_pos() == old(cursor).spec_pos(),
            },
    {
        match cursor.try_get_rev2() {
            Ok(address) => Ok(ShortAddress { address }),
            Err(e) => Err(e),
        }
    }
}

/// An eight-byte device address in natural display order.
#[derive(Debug, PartialEq)]
pub struct ExtendedAddress {
    pub address: [u8; 8],
}

impl ExtendedAddress {
    /// Decodes an eight-byte address field: the eight wire bytes reversed
    /// into display order, the cursor advanced by eight; when fewer than
    /// eight bytes remain, `NotEnoughBytes` with the cursor unmoved.
    pub fn try_from(cursor: &mut Cursor) -> (r: Result<ExtendedAddress, Error>)
        requires
            old(cursor).wf(),
        ensures
            final(cursor).wf(),
            final(cursor).spec_bytes() == old(cursor).spec_bytes(),
            match r {
                Ok(a) => old(cursor).spec_remaining() >= 8
                    && a.address@ == old(cursor).spec_bytes().subrange(
                        old(cursor).spec_pos(),
                        old(cursor).spec_pos() + 8,
                    ).reverse()
                    && final(cursor).spec_pos() == old(cursor).spec_pos() + 8,
                Err(e) => e == Error::NotEnoughBytes
                    && old(cursor).spec_remaining() < 8
                    && final(cursor).spec_pos() == old(cursor).spec_pos(),
            },
    {
        match cursor.try_get_rev8() {
            Ok(address) => Ok(ExtendedAddress { address }),
            Err(e) => Err(e),
        }
    }
}

/// A device address of either width, selected by a preceding mode byte.
#[derive(Debug, PartialEq)]
pub enum Address {
    Addr16Bit(ShortAddress),
    Addr64Bit(ExtendedAddress),
}

impl Address {
    /// Decodes an address record: one mode byte, then a fixed eight-byte
    /// slot that the wire reserves for addresses of either width.
    ///
    /// The slot's bytes are reversed into display order. Mode `0x02`
    /// yields a `ShortAddress` made of the last two reversed bytes (the
    /// leading six are reserved padding and are dropped); mode `0x03`
    /// yields an `ExtendedAddress` made of all eight. On success the
    /// cursor has advanced by nine. An invalid mode byte is
    /// `InvalidAddressMode`, the cursor advanced by one; a remainder too
    /// short for the next read is `NotEnoughBytes`, with only the bytes
    /// already read consumed. No partial address is ever returned.
    pub fn try_from(cursor: &mut Cursor) -> (r: Result<Address, Error>)
        requires
            old(cursor).wf(),
        ensures
            final(cursor).wf(),
            final(cursor).spec_bytes() == old(cursor).spec_bytes(),
            match r {
                Ok(a) => {
                    let rev = old(cursor).spec_bytes().subrange(
                        old(cursor).spec_pos() + 1,
                        old(cursor).spec_pos() + 9,
                    ).reverse();
                    old(cursor).spec_remaining() >= 9
                    && final(cursor).spec_pos() == old(cursor).spec_pos() + 9
                    && match a {
                        Address::Addr16Bit(sa) => AddressMode::spec_from_code(
                            old(cursor).spec_bytes()[old(cursor).spec_pos()],
                        ) == Some(AddressMode::Addr16Bit)
                            && sa.address@ == rev.subrange(6, 8),
                        Address::Addr64Bit(ea) => AddressMode::spec_from_code(
                            old(cursor).spec_bytes()[old(cursor).spec_pos()],
                        ) == Some(AddressMode::Addr64Bit)
                            && ea.address@ == rev,
                    }
                },
                Err(Error::InvalidAddressMode(v)) => old(cursor).spec_remaining() >= 1
                    && v == old(cursor).spec_bytes()[old(cursor).spec_pos()]
                    && AddressMode::spec_from_code(v) is None
                    && final(cursor).spec_pos() == old(cursor).spec_pos() + 1,
                Err(Error::NotEnoughBytes) => (old(cursor).spec_remaining() == 0
                    && final(cursor).spec_pos() == old(cursor).spec_pos())
                    || (old(cursor).spec_remaining() >= 1
                        && AddressMode::spec_from_code(
                            old(cursor).spec_bytes()[old(cursor).spec_pos()],
                        ) is Some
                        && old(cursor).spec_remaining() < 9
                        && final(cursor).spec_pos() == old(cursor).spec_pos() + 1),
                Err(_) => false,
            },
    {
        let mode = match AddressMode::try_from(cursor) {
            Ok(m) => m,
            Err(e) => {
                return Err(e);
            },
        };
        let field = match cursor.try_get_rev8() {
            Ok(f) => f,
            Err(e) => {
                return Err(e);
            },
        };
        match mode {
            AddressMode::Addr16Bit => {
                let short = ShortAddress { address: [field[6], field[7]] };
                proof {
                    assert(short.address@ =~= old(cursor).spec_bytes().subrange(
                        old(cursor).spec_pos() + 1,
                        old(cursor).spec_pos() + 9,
                    ).reverse().subrange(6, 8));
                }
                Ok(Address::Addr16Bit(short))
            },
            AddressMode::Addr64Bit => Ok(Address::Addr64Bit(ExtendedAddress { address: field })),
        }
    }
}

/// An eight-byte security key source identifier in natural display order.
#[derive(Debug, PartialEq)]
pub struct KeySource {
    pub key: [u8; 8],
}

impl KeySource {
    /// Decodes an eight-byte key source field: the eight wire bytes
    /// reversed into display order, the cursor advanced by eight; when
    /// fewer than eight bytes remain, `NotEnoughBytes` with the cursor
    /// unmoved.
    pub fn try_from(cursor: &mut Cursor) -> (r: Result<KeySource, Error>)
        requires
            old(cursor).wf(),
        ensures
            final(cursor).wf(),
            final(cursor).spec_bytes() == old(cursor).spec_bytes(),
            match r {
                Ok(a) => old(cursor).spec_remaining() >= 8
                    && a.key@ == old(cursor).spec_bytes().subrange(
                        old(cursor).spec_pos(),
                        old(cursor).spec_pos() + 8,
                    ).reverse()
                    && final(cursor).spec_pos() == old(cursor).spec_pos() + 8,
                Err(e) => e == Error::NotEnoughBytes
                    && old(cursor).spec_remaining() < 8
                    && final(cursor).spec_pos() == old(cursor).spec_pos(),
            },
    {
        match cursor.try_get_rev8() {
            Ok(key) => Ok(KeySource { key }),
            Err(e) => Err(e),
        }
    }
}

/// Transmission option for an outgoing data frame. The wire values are
/// powers of two, but this layer decodes each byte as a single named
/// option, never as a combination of flags.
#[derive(Debug, PartialEq)]
pub enum TxOption {
    NoAck,
    Ack,
    GTS,
    Indirect,
    PendBit,
    NoRetrans,
    NoCNF,
    AltBE,
    PwrChan,
}

impl TxOption {
    /// The closed wire-code table of this family: which transmission
    /// option, if any, a raw byte stands for.
    pub open spec fn spec_from_code(v: u8) -> Option<TxOption> {
        match v {
            0x00 => Some(TxOption::NoAck),
            0x01 => Some(TxOption::Ack),
            0x02 => Some(TxOption::GTS),
            0x04 => Some(TxOption::Indirect),
            0x08 => Some(TxOption::PendBit),
            0x10 => Some(TxOption::NoRetrans),
            0x20 => Some(TxOption::NoCNF),
            0x40 => Some(TxOption::AltBE),
            0x80 => Some(TxOption::PwrChan),
            _ => None,
        }
    }

    fn from_code(v: u8) -> (r: Option<TxOption>)
        ensures
            r == TxOption::spec_from_code(v),
    {
        match v {
            0x00 => Some(TxOption::NoAck),
            0x01 => Some(TxOption::Ack),
            0x02 => Some(TxOption::GTS),
            0x04 => Some(TxOption::Indirect),
            0x08 => Some(TxOption::PendBit),
            0x10 => Some(TxOption::NoRetrans),
            0x20 => Some(TxOption::NoCNF),
            0x40 => Some(TxOption::AltBE),
            0x80 => Some(TxOption::PwrChan),
            _ => None,
        }
    }

    /// Decodes one transmission-option byte: on a table member the named
    /// option, with the cursor advanced by one; on any other byte
    /// `InvalidTxOption` carrying that byte, the cursor still advanced by
    /// one; on an empty remainder `NotEnoughBytes`, the cursor unmoved.
    pub fn try_from(cursor: &mut Cursor) -> (r: Result<TxOption, Error>)
        requires
            old(cursor).wf(),
        ensures
            final(cursor).wf(),
            final(cursor).spec_bytes() == old(cursor).spec_bytes(),
            match r {
                Ok(s) => old(cursor).spec_remaining() >= 1
                    && TxOption::spec_from_code(
                        old(cursor).spec_bytes()[old(cursor).spec_pos()],
                    ) == Some(s)
                    && final(cursor).spec_pos() == old(cursor).spec_pos() + 1,
                Err(Error::InvalidTxOption(v)) => old(cursor).spec_remaining() >= 1
                    && v == old(cursor).spec_bytes()[old(cursor).spec_pos()]
                    && TxOption::spec_from_code(v) is None
                    && final(cursor).spec_pos() == old(cursor).spec_pos() + 1,
                Err(Error::NotEnoughBytes) => old(cursor).spec_remaining() == 0
                    && final(cursor).spec_pos() == old(cursor).spec_pos(),
                Err(_) => false,
            },
    {
        let v = match cursor.try_get_u8() {
            Ok(b) => b,
            Err(e) => {
                return Err(e);
            },
        };
        match TxOption::from_code(v) {
            Some(s) => Ok(s),
            None => Err(Error::InvalidTxOption(v)),
        }
    }
}

/// Security level applied to a frame's payload.
#[derive(Debug, PartialEq)]
pub enum SecurityLevel {
    NoSecurity,
    MIC32Auth,
    MIC64Auth,
    MIC128Auth,
    AESEncryption,
    AESEncryptionMIC32,
    AESEncryptionMIC64,
    AESEncryptionMIC128,
}

impl SecurityLevel {
    /// The closed wire-code table of this family: which security level,
    /// if any, a raw byte stands for.
    pub open spec fn spec_from_code(v: u8) -> Option<SecurityLevel> {
        match v {
            0x00 => Some(SecurityLevel::NoSecurity),
            0x01 => Some(SecurityLevel::MIC32Auth),
            0x02 => Some(SecurityLevel::MIC64Auth),
            0x03 => Some(SecurityLevel::MIC128Auth),
            0x04 => Some(SecurityLevel::AESEncryption),
            0x05 => Some(SecurityLevel::AESEncryptionMIC32),
            0x06 => Some(SecurityLevel::AESEncryptionMIC64),
            0x07 => Some(SecurityLevel::AESEncryptionMIC128),
            _ => None,
        }
    }

    fn from_code(v: u8) -> (r: Option<SecurityLevel>)
        ensures
            r == SecurityLevel::spec_from_code(v),
    {
        match v {
            0x00 => Some(SecurityLevel::NoSecurity),
            0x01 => Some(SecurityLevel::MIC32Auth),
            0x02 => Some(SecurityLevel::MIC64Auth),
            0x03 => Some(SecurityLevel::MIC128Auth),
            0x04 => Some(SecurityLevel::AESEncryption),
            0x05 => Some(SecurityLevel::AESEncryptionMIC32),
            0x06 => Some(SecurityLevel::AESEncryptionMIC64),
            0x07 => Some(SecurityLevel::AESEncryptionMIC128),
            _ => None,
        }
    }

    /// Decodes one security-level byte: on a table member the named
    /// level, with the cursor advanced by one; on any other byte
    /// `InvalidSecurityLevel` carrying that byte, the cursor still
    /// advanced by one; on an empty remainder `NotEnoughBytes`, the
    /// cursor unmoved.
    pub fn try_from(cursor: &mut Cursor) -> (r: Result<SecurityLevel, Error>)
        requires
            old(cursor).wf(),
        ensures
            final(cursor).wf(),
            final(cursor).spec_bytes() == old(cursor).spec_bytes(),
            match r {
                Ok(s) => old(cursor).spec_remaining() >= 1
                    && SecurityLevel::spec_from_code(
                        old(cursor).spec_bytes()[old(cursor).spec_pos()],
                    ) == Some(s)
                    && final(cursor).spec_pos() == old(cursor).spec_pos() + 1,
                Err(Error::InvalidSecurityLevel(v)) => old(cursor).spec_remaining() >= 1
                    && v == old(cursor).spec_bytes()[old(cursor).spec_pos()]
                    && SecurityLevel::spec_from_code(v) is None
                    && final(cursor).spec_pos() == old(cursor).spec_pos() + 1,
                Err(Error::NotEnoughBytes) => old(cursor).spec_remaining() == 0
                    && final(cursor).spec_pos() == old(cursor).spec_pos(),
                Err(_) => false,
            },
    {
        let v = match cursor.try_get_u8() {
            Ok(b) => b,
            Err(e) => {
                return Err(e);
            },
        };
        match SecurityLevel::from_code(v) {
            Some(s) => Ok(s),
            None => Err(Error::InvalidSecurityLevel(v)),
        }
    }
}

/// How the key that secured a frame is identified.
#[derive(Debug, PartialEq)]
pub enum KeyIdMode {
    NotUsed,
    Key1ByteIndex,
    Key4ByteIndex,
    Key8ByteIndex,
}

impl KeyIdMode {
    /// The closed wire-code table of this family: which key-id mode, if
    /// any, a raw byte stands for.
    pub open spec fn spec_from_code(v: u8) -> Option<KeyIdMode> {
        match v {
            0x00 => Some(KeyIdMode::NotUsed),
            0x01 => Some(KeyIdMode::Key1ByteIndex),
            0x02 => Some(KeyIdMode::Key4ByteIndex),
            0x03 => Some(KeyIdMode::Key8ByteIndex),
            _ => None,
        }
    }

    fn from_code(v: u8) -> (r: Option<KeyIdMode>)
        ensures
            r == KeyIdMode::spec_from_code(v),
    {
        match v {
            0x00 => Some(KeyIdMode::NotUsed),
            0x01 => Some(KeyIdMode::Key1ByteIndex),
            0x02 => Some(KeyIdMode::Key4ByteIndex),
            0x03 => Some(KeyIdMode::Key8ByteIndex),
            _ => None,
        }
    }

    /// Decodes one key-id-mode byte: on a table member the named mode,
    /// with the cursor advanced by one; on any other byte
    /// `InvalidKeyIdMode` carrying that byte, the cursor still advanced
    /// by one; on an empty remainder `NotEnoughBytes`, the cursor
    /// unmoved.
    pub fn try_from(cursor: &mut Cursor) -> (r: Result<KeyIdMode, Error>)
        requires
            old(cursor).wf(),
        ensures
            final(cursor).wf(),
            final(cursor).spec_bytes() == old(cursor).spec_bytes(),
            match r {
                Ok(s) => old(cursor).spec_remaining() >= 1
                    && KeyIdMode::spec_from_code(
                        old(cursor).spec_bytes()[old(cursor).spec_pos()],
                    ) == Some(s)
                    && final(cursor).spec_pos() == old(cursor).spec_pos() + 1,
                Err(Error::InvalidKeyIdMode(v)) => old(cursor).spec_remaining() >= 1
                    && v == old(cursor).spec_bytes()[old(cursor).spec_pos()]
                    && KeyIdMode::spec_from_code(v) is None
                    && final(cursor).spec_pos() == old(cursor).spec_pos() + 1,
                Err(Error::NotEnoughBytes) => old(cursor).spec_remaining() == 0
                    && final(cursor).spec_pos() == old(cursor).spec_pos(),
                Err(_) => false,
            },
    {
        let v = match cursor.try_get_u8() {
            Ok(b) => b,
            Err(e) => {
                return Err(e);
            },
        };
        match KeyIdMode::from_code(v) {
            Some(s) => Ok(s),
            None => Err(Error::InvalidKeyIdMode(v)),
        }
    }
}

/// Kind of Wi-SUN frame carried outside the normal beacon schedule.
#[derive(Debug, PartialEq)]
pub enum WiSUNAsyncFrameType {
    PANAdvert,
    PANAdvertSOL,
    PANConfig,
    PANConfigSOL,
    Data,
    Ack,
    EAPOL,
    Invalid,
}

impl WiSUNAsyncFrameType {
    /// The closed wire-code table of this family: which frame type, if
    /// any, a raw byte stands for.
    pub open spec fn spec_from_code(v: u8) -> Option<WiSUNAsyncFrameType> {
        match v {
            0x00 => Some(WiSUNAsyncFrameType::PANAdvert),
            0x01 => Some(WiSUNAsyncFrameType::PANAdvertSOL),
            0x02 => Some(WiSUNAsyncFrameType::PANConfig),
            0x03 => Some(WiSUNAsyncFrameType::PANConfigSOL),
            0x04 => Some(WiSUNAsyncFrameType::Data),
            0x05 => Some(WiSUNAsyncFrameType::Ack),
            0x06 => Some(WiSUNAsyncFrameType::EAPOL),
            0xFF => Some(WiSUNAsyncFrameType::Invalid),
            _ => None,
        }
    }

    fn from_code(v: u8) -> (r: Option<WiSUNAsyncFrameType>)
        ensures
            r == WiSUNAsyncFrameType::spec_from_code(v),
    {
        match v {
            0x00 => Some(WiSUNAsyncFrameType::PANAdvert),
            0x01 => Some(WiSUNAsyncFrameType::PANAdvertSOL),
            0x02 => Some(WiSUNAsyncFrameType::PANConfig),
            0x03 => Some(WiSUNAsyncFrameType::PANConfigSOL),
            0x04 => Some(WiSUNAsyncFrameType::Data),
            0x05 => Some(WiSUNAsyncFrameType::Ack),
            0x06 => Some(WiSUNAsyncFrameType::EAPOL),
            0xFF => Some(WiSUNAsyncFrameType::Invalid),
            _ => None,
        }
    }

    /// Decodes one async-frame-type byte: on a table member the named
    /// type, with the cursor advanced by one; on any other byte
    /// `InvalidFrameType` carrying that byte, the cursor still advanced
    /// by one; on an empty remainder `NotEnoughBytes`, the cursor
    /// unmoved.
    pub fn try_from(cursor: &mut Cursor) -> (r: Result<WiSUNAsyncFrameType, Error>)
        requires
            old(cursor).wf(),
        ensures
            final(cursor).wf(),
            final(cursor).spec_bytes() == old(cursor).spec_bytes(),
            match r {
                Ok(s) => old(cursor).spec_remaining() >= 1
                    && WiSUNAsyncFrameType::spec_from_code(
                        old(cursor).spec_bytes()[old(cursor).spec_pos()],
                    ) == Some(s)
                    && final(cursor).spec_pos() == old(cursor).spec_pos() + 1,
                Err(Error::InvalidFrameType(v)) => old(cursor).spec_remaining() >= 1
                    && v == old(cursor).spec_bytes()[old(cursor).spec_pos()]
                    && WiSUNAsyncFrameType::spec_from_code(v) is None
                    && final(cursor).spec_pos() == old(cursor).spec_pos() + 1,
                Err(Error::NotEnoughBytes) => old(cursor).spec_remaining() == 0
                    && final(cursor).spec_pos() == old(cursor).spec_pos(),
                Err(_) => false,
            },
    {
        let v = match cursor.try_get_u8() {
            Ok(b) => b,
            Err(e) => {
                return Err(e);
            },
        };
        match WiSUNAsyncFrameType::from_code(v) {
            Some(s) => Ok(s),
            None => Err(Error::InvalidFrameType(v)),
        }
    }
}

/// Outcome of an association attempt reported by the coordinator.
#[derive(Debug, PartialEq)]
pub enum AssociationStatus {
    Successful,
    PANAtCapacity,
    PANAccessDenied,
}

impl AssociationStatus {
    /// The closed wire-code table of this family: which association
    /// status, if any, a raw byte stands for.
    pub open spec fn spec_from_code(v: u8) -> Option<AssociationStatus> {
        match v {
            0x00 => Some(AssociationStatus::Successful),
            0x01 => Some(AssociationStatus::PANAtCapacity),
            0x02 => Some(AssociationStatus::PANAccessDenied),
            _ => None,
        }
    }

    fn from_code(v: u8) -> (r: Option<AssociationStatus>)
        ensures
            r == AssociationStatus::spec_from_code(v),
    {
        match v {
            0x00 => Some(AssociationStatus::Successful),
            0x01 => Some(AssociationStatus::PANAtCapacity),
            0x02 => Some(AssociationStatus::PANAccessDenied),
            _ => None,
        }
    }

    /// Decodes one association-status byte: on a table member the named
    /// status, with the cursor advanced by one; on any other byte
    /// `InvalidAssociationStatus` carrying that byte, the cursor still
    /// advanced by one; on an empty remainder `NotEnoughBytes`, the
    /// cursor unmoved.
    pub fn try_from(cursor: &mut Cursor) -> (r: Result<AssociationStatus, Error>)
        requires
            old(cursor).wf(),
        ensures
            final(cursor).wf(),
            final(cursor).spec_bytes() == old(cursor).spec_bytes(),
            match r {
                Ok(s) => old(cursor).spec_remaining() >= 1
                    && AssociationStatus::spec_from_code(
                        old(cursor).spec_bytes()[old(cursor).spec_pos()],
                    ) == Some(s)
                    && final(cursor).spec_pos() == old(cursor).spec_pos() + 1,
                Err(Error::InvalidAssociationStatus(v)) => old(cursor).spec_remaining() >= 1
                    && v == old(cursor).spec_bytes()[old(cursor).spec_pos()]
                    && AssociationStatus::spec_from_code(v) is None
                    && final(cursor).spec_pos() == old(cursor).spec_pos() + 1,
                Err(Error::NotEnoughBytes) => old(cursor).spec_remaining() == 0
                    && final(cursor).spec_pos() == old(cursor).spec_pos(),
                Err(_) => false,
            },
    {
        let v = match cursor.try_get_u8() {
            Ok(b) => b,
            Err(e) => {
                return Err(e);
            },
        };
        match AssociationStatus::from_code(v) {
            Some(s) => Ok(s),
            None => Err(Error::InvalidAssociationStatus(v)),
        }
    }
}

/// Why a device or coordinator is leaving the network.
#[derive(Debug, PartialEq)]
pub enum DisassociateReason {
    Reserved,
    CoorWishesDevLeave,
    DevWishesLeave,
}

impl DisassociateReason {
    /// The closed wire-code table of this family: which disassociation
    /// reason, if any, a raw byte stands for.
    pub open spec fn spec_from_code(v: u8) -> Option<DisassociateReason> {
        match v {
            0x00 => Some(DisassociateReason::Reserved),
            0x01 => Some(DisassociateReason::CoorWishesDevLeave),
            0x02 => Some(DisassociateReason::DevWishesLeave),
            _ => None,
        }
    }

    fn from_code(v: u8) -> (r: Option<DisassociateReason>)
        ensures
            r == DisassociateReason::spec_from_code(v),
    {
        match v {
            0x00 => Some(DisassociateReason::Reserved),
            0x01 => Some(DisassociateReason::CoorWishesDevLeave),
            0x02 => Some(DisassociateReason::DevWishesLeave),
            _ => None,
        }
    }

    /// Decodes one disassociation-reason byte: on a table member the
    /// named reason, with the cursor advanced by one; on any other byte
    /// `InvalidDisassociationReason` carrying that byte, the cursor still
    /// advanced by one; on an empty remainder `NotEnoughBytes`, the
    /// cursor unmoved.
    pub fn try_from(cursor: &mut Cursor) -> (r: Result<DisassociateReason, Error>)
        requires
            old(cursor).wf(),
        ensures
            final(cursor).wf(),
            final(cursor).spec_bytes() == old(cursor).spec_bytes(),
            match r {
                Ok(s) => old(cursor).spec_remaining() >= 1
                    && DisassociateReason::spec_from_code(
                        old(cursor).spec_bytes()[old(cursor).spec_pos()],
                    ) == Some(s)
                    && final(cursor).spec_pos() == old(cursor).spec_pos() + 1,
                Err(Error::InvalidDisassociationReason(v)) => old(cursor).spec_remaining() >= 1
                    && v == old(cursor).spec_bytes()[old(cursor).spec_pos()]
                    && DisassociateReason::spec_from_code(v) is None
                    && final(cursor).spec_pos() == old(cursor).spec_pos() + 1,
                Err(Error::NotEnoughBytes) => old(cursor).spec_remaining() == 0
                    && final(cursor).spec_pos() == old(cursor).spec_pos(),
                Err(_) => false,
            },
    {
        let v = match cursor.try_get_u8() {
            Ok(b) => b,
            Err(e) => {
                return Err(e);
            },
        };
        match DisassociateReason::from_code(v) {
            Some(s) => Ok(s),
            None => Err(Error::InvalidDisassociationReason(v)),
        }
    }
}

/// Identifier of a MAC PAN Information Base attribute.
#[derive(Debug, PartialEq)]
pub enum MACPIBAttributeId {
    AckWaitDuration,
    AssociationPermit,
    AutoRequest,
    BattLifeExt,
    BattLeftExtPeriods,
    BeaconPayload,
    BeaconPayloadLength,
    BeaconOrder,
    BeaconTxTime,
    BSN,
    CoordExtendedAddress,
    CoordShortAddress,
    DSN,
    GTSPermit,
    MaxCSMABackoffs,
    MinBE,
    PANId,
    PromiscuousMode,
    RxOnWhenIdle,
    ShortAddress,
    SuperframeOrder,
    TransactionPersistenceTime,
    AssociatedPANCoord,
    MaxBE,
    FrameTotalWaitTime,
    MaxFrameRetries,
    ResponseWaitTime,
    SyncSymbolOffset,
    TimestampSupported,
    SecurityEnabled,
    EBSN,
    EBeaconOrder,
    EBeaconOrderNBPAN,
    OffsetTimeslot,
    IncludeMPMIE,
    PhyFSKPreambleLen,
    PhyMRFSKSFD,
    PhyTransmitPowerSigned,
    LogicalChannel,
    ExtendedAddress,
    AltBE,
    DeviceBeaconOrder,
    RF4CEPowerSavings,
    FrameVersionSupport,
    ChannelPage,
    PhyCurrentDescriptorId,
    FCSType,
}

impl MACPIBAttributeId {
    /// The closed wire-code table of this family: which MAC PIB
    /// attribute, if any, a raw byte stands for.
    pub open spec fn spec_from_code(v: u8) -> Option<MACPIBAttributeId> {
        match v {
            0x40 => Some(MACPIBAttributeId::AckWaitDuration),
            0x41 => Some(MACPIBAttributeId::AssociationPermit),
            0x42 => Some(MACPIBAttributeId::AutoRequest),
            0x43 => Some(MACPIBAttributeId::BattLifeExt),
            0x44 => Some(MACPIBAttributeId::BattLeftExtPeriods),
            0x45 => Some(MACPIBAttributeId::BeaconPayload),
            0x46 => Some(MACPIBAttributeId::BeaconPayloadLength),
            0x47 => Some(MACPIBAttributeId::BeaconOrder),
            0x48 => Some(MACPIBAttributeId::BeaconTxTime),
            0x49 => Some(MACPIBAttributeId::BSN),
            0x4A => Some(MACPIBAttributeId::CoordExtendedAddress),
            0x4B => Some(MACPIBAttributeId::CoordShortAddress),
            0x4C => Some(MACPIBAttributeId::DSN),
            0x4D => Some(MACPIBAttributeId::GTSPermit),
            0x4E => Some(MACPIBAttributeId::MaxCSMABackoffs),
            0x4F => Some(MACPIBAttributeId::MinBE),
            0x50 => Some(MACPIBAttributeId::PANId),
            0x51 => Some(MACPIBAttributeId::PromiscuousMode),
            0x52 => Some(MACPIBAttributeId::RxOnWhenIdle),
            0x53 => Some(MACPIBAttributeId::ShortAddress),
            0x54 => Some(MACPIBAttributeId::SuperframeOrder),
            0x55 => Some(MACPIBAttributeId::TransactionPersistenceTime),
            0x56 => Some(MACPIBAttributeId::AssociatedPANCoord),
            0x57 => Some(MACPIBAttributeId::MaxBE),
            0x58 => Some(MACPIBAttributeId::FrameTotalWaitTime),
            0x59 => Some(MACPIBAttributeId::MaxFrameRetries),
            0x5A => Some(MACPIBAttributeId::ResponseWaitTime),
            0x5B => Some(MACPIBAttributeId::SyncSymbolOffset),
            0x5C => Some(MACPIBAttributeId::TimestampSupported),
            0x5D => Some(MACPIBAttributeId::SecurityEnabled),
            0x5E => Some(MACPIBAttributeId::EBSN),
            0x5F => Some(MACPIBAttributeId::EBeaconOrder),
            0x60 => Some(MACPIBAttributeId::EBeaconOrderNBPAN),
            0x61 => Some(MACPIBAttributeId::OffsetTimeslot),
            0x62 => Some(MACPIBAttributeId::IncludeMPMIE),
            0x63 => Some(MACPIBAttributeId::PhyFSKPreambleLen),
            0x64 => Some(MACPIBAttributeId::PhyMRFSKSFD),
            0xE0 => Some(MACPIBAttributeId::PhyTransmitPowerSigned),
            0xE1 => Some(MACPIBAttributeId::LogicalChannel),
            0xE2 => Some(MACPIBAttributeId::ExtendedAddress),
            0xE3 => Some(MACPIBAttributeId::AltBE),
            0xE4 => Some(MACPIBAttributeId::DeviceBeaconOrder),
            0xE5 => Some(MACPIBAttributeId::RF4CEPowerSavings),
            0xE6 => Some(MACPIBAttributeId::FrameVersionSupport),
            0xE7 => Some(MACPIBAttributeId::ChannelPage),
            0xE8 => Some(MACPIBAttributeId::PhyCurrentDescriptorId),
            0xE9 => Some(MACPIBAttributeId::FCSType),
            _ => None,
        }
    }

    fn from_code(v: u8) -> (r: Option<MACPIBAttributeId>)
        ensures
            r == MACPIBAttributeId::spec_from_code(v),
    {
        match v {
            0x40 => Some(MACPIBAttributeId::AckWaitDuration),
            0x41 => Some(MACPIBAttributeId::AssociationPermit),
            0x42 => Some(MACPIBAttributeId::AutoRequest),
            0x43 => Some(MACPIBAttributeId::BattLifeExt),
            0x44 => Some(MACPIBAttributeId::BattLeftExtPeriods),
            0x45 => Some(MACPIBAttributeId::BeaconPayload),
            0x46 => Some(MACPIBAttributeId::BeaconPayloadLength),
            0x47 => Some(MACPIBAttributeId::BeaconOrder),
            0x48 => Some(MACPIBAttributeId::BeaconTxTime),
            0x49 => Some(MACPIBAttributeId::BSN),
            0x4A => Some(MACPIBAttributeId::CoordExtendedAddress),
            0x4B => Some(MACPIBAttributeId::CoordShortAddress),
            0x4C => Some(MACPIBAttributeId::DSN),
            0x4D => Some(MACPIBAttributeId::GTSPermit),
            0x4E => Some(MACPIBAttributeId::MaxCSMABackoffs),
            0x4F => Some(MACPIBAttributeId::MinBE),
            0x50 => Some(MACPIBAttributeId::PANId),
            0x51 => Some(MACPIBAttributeId::PromiscuousMode),
            0x52 => Some(MACPIBAttributeId::RxOnWhenIdle),
            0x53 => Some(MACPIBAttributeId::ShortAddress),
            0x54 => Some(MACPIBAttributeId::SuperframeOrder),
            0x55 => Some(MACPIBAttributeId::TransactionPersistenceTime),
            0x56 => Some(MACPIBAttributeId::AssociatedPANCoord),
            0x57 => Some(MACPIBAttributeId::MaxBE),
            0x58 => Some(MACPIBAttributeId::FrameTotalWaitTime),
            0x59 => Some(MACPIBAttributeId::MaxFrameRetries),
            0x5A => Some(MACPIBAttributeId::ResponseWaitTime),
            0x5B => Some(MACPIBAttributeId::SyncSymbolOffset),
            0x5C => Some(MACPIBAttributeId::TimestampSupported),
            0x5D => Some(MACPIBAttributeId::SecurityEnabled),
            0x5E => Some(MACPIBAttributeId::EBSN),
            0x5F => Some(MACPIBAttributeId::EBeaconOrder),
            0x60 => Some(MACPIBAttributeId::EBeaconOrderNBPAN),
            0x61 => Some(MACPIBAttributeId::OffsetTimeslot),
            0x62 => Some(MACPIBAttributeId::IncludeMPMIE),
            0x63 => Some(MACPIBAttributeId::PhyFSKPreambleLen),
            0x64 => Some(MACPIBAttributeId::PhyMRFSKSFD),
            0xE0 => Some(MACPIBAttributeId::PhyTransmitPowerSigned),
            0xE1 => Some(MACPIBAttributeId::LogicalChannel),
            0xE2 => Some(MACPIBAttributeId::ExtendedAddress),
            0xE3 => Some(MACPIBAttributeId::AltBE),
            0xE4 => Some(MACPIBAttributeId::DeviceBeaconOrder),
            0xE5 => Some(MACPIBAttributeId::RF4CEPowerSavings),
            0xE6 => Some(MACPIBAttributeId::FrameVersionSupport),
            0xE7 => Some(MACPIBAttributeId::ChannelPage),
            0xE8 => Some(MACPIBAttributeId::PhyCurrentDescriptorId),
            0xE9 => Some(MACPIBAttributeId::FCSType),
            _ => None,
        }
    }

    /// Decodes one MAC-PIB-attribute byte: on a table member the named
    /// attribute, with the cursor advanced by one; on any other byte
    /// `InvalidMACPIBAttributeId` carrying that byte, the cursor still
    /// advanced by one; on an empty remainder `NotEnoughBytes`, the
    /// cursor unmoved.
    pub fn try_from(cursor: &mut Cursor) -> (r: Result<MACPIBAttributeId, Error>)
        requires
            old(cursor).wf(),
        ensures
            final(cursor).wf(),
            final(cursor).spec_bytes() == old(cursor).spec_bytes(),
            match r {
                Ok(s) => old(cursor).spec_remaining() >= 1
                    && MACPIBAttributeId::spec_from_code(
                        old(cursor).spec_bytes()[old(cursor).spec_pos()],
                    ) == Some(s)
                    && final(cursor).spec_pos() == old(cursor).spec_pos() + 1,
                Err(Error::InvalidMACPIBAttributeId(v)) => old(cursor).spec_remaining() >= 1
                    && v == old(cursor).spec_bytes()[old(cursor).spec_pos()]
                    && MACPIBAttributeId::spec_from_code(v) is None
                    && final(cursor).spec_pos() == old(cursor).spec_pos() + 1,
                Err(Error::NotEnoughBytes) => old(cursor).spec_remaining() == 0
                    && final(cursor).spec_pos() == old(cursor).spec_pos(),
                Err(_) => false,
            },
    {
        let v = match cursor.try_get_u8() {
            Ok(b) => b,
            Err(e) => {
                return Err(e);
            },
        };
        match MACPIBAttributeId::from_code(v) {
            Some(s) => Ok(s),
            None => Err(Error::InvalidMACPIBAttributeId(v)),
        }
    }
}

/// Identifier of a frequency-hopping PAN Information Base attribute.
/// This is the one family whose wire code is a two-byte little-endian
/// integer.
#[derive(Debug, PartialEq)]
pub enum FHPIBAttributeId {
    TrackParentEUI,
    BCInterval,
    UCExcludedChannels,
    BCExcludedChannels,
    UCDwellInterval,
    BCDwellInterval,
    ClockDrift,
    TimingAccuracy,
    UCChannelFunction,
    BCChannelFunction,
    UseParentBSIE,
    BrocastSchedId,
    UCFixedChannel,
    BCFixedChannel,
    PANSize,
    RoutingCost,
    RoutingMethod,
    EAPOLReady,
    FANTPSVersion,
    NetName,
    PANVersion,
    GTK0Hash,
    GTK1Hash,
    GTK2Hash,
    GTK3Hash,
    NeighborValidTime,
}

impl FHPIBAttributeId {
    /// The closed wire-code table of this family: which frequency-hopping
    /// PIB attribute, if any, a raw 16-bit value stands for.
    pub open spec fn spec_from_code(v: u16) -> Option<FHPIBAttributeId> {
        match v {
            0x2000 => Some(FHPIBAttributeId::TrackParentEUI),
            0x2001 => Some(FHPIBAttributeId::BCInterval),
            0x2002 => Some(FHPIBAttributeId::UCExcludedChannels),
            0x2003 => Some(FHPIBAttributeId::BCExcludedChannels),
            0x2004 => Some(FHPIBAttributeId::UCDwellInterval),
            0x2005 => Some(FHPIBAttributeId::BCDwellInterval),
            0x2006 => Some(FHPIBAttributeId::ClockDrift),
            0x2007 => Some(FHPIBAttributeId::TimingAccuracy),
            0x2008 => Some(FHPIBAttributeId::UCChannelFunction),
            0x2009 => Some(FHPIBAttributeId::BCChannelFunction),
            0x200A => Some(FHPIBAttributeId::UseParentBSIE),
            0x200B => Some(FHPIBAttributeId::BrocastSchedId),
            0x200C => Some(FHPIBAttributeId::UCFixedChannel),
            0x200D => Some(FHPIBAttributeId::BCFixedChannel),
            0x200E => Some(FHPIBAttributeId::PANSize),
            0x200F => Some(FHPIBAttributeId::RoutingCost),
            0x2010 => Some(FHPIBAttributeId::RoutingMethod),
            0x2011 => Some(FHPIBAttributeId::EAPOLReady),
            0x2012 => Some(FHPIBAttributeId::FANTPSVersion),
            0x2013 => Some(FHPIBAttributeId::NetName),
            0x2014 => Some(FHPIBAttributeId::PANVersion),
            0x2015 => Some(FHPIBAttributeId::GTK0Hash),
            0x2016 => Some(FHPIBAttributeId::GTK1Hash),
            0x2017 => Some(FHPIBAttributeId::GTK2Hash),
            0x2018 => Some(FHPIBAttributeId::GTK3Hash),
            0x2019 => Some(FHPIBAttributeId::NeighborValidTime),
            _ => None,
        }
    }

    fn from_code(v: u16) -> (r: Option<FHPIBAttributeId>)
        ensures
            r == FHPIBAttributeId::spec_from_code(v),
    {
        match v {
            0x2000 => Some(FHPIBAttributeId::TrackParentEUI),
            0x2001 => Some(FHPIBAttributeId::BCInterval),
            0x2002 => Some(FHPIBAttributeId::UCExcludedChannels),
            0x2003 => Some(FHPIBAttributeId::BCExcludedChannels),
            0x2004 => Some(FHPIBAttributeId::UCDwellInterval),
            0x2005 => Some(FHPIBAttributeId::BCDwellInterval),
            0x2006 => Some(FHPIBAttributeId::ClockDrift),
            0x2007 => Some(FHPIBAttributeId::TimingAccuracy),
            0x2008 => Some(FHPIBAttributeId::UCChannelFunction),
            0x2009 => Some(FHPIBAttributeId::BCChannelFunction),
            0x200A => Some(FHPIBAttributeId::UseParentBSIE),
            0x200B => Some(FHPIBAttributeId::BrocastSchedId),
            0x200C => Some(FHPIBAttributeId::UCFixedChannel),
            0x200D => Some(FHPIBAttributeId::BCFixedChannel),
            0x200E => Some(FHPIBAttributeId::PANSize),
            0x200F => Some(FHPIBAttributeId::RoutingCost),
            0x2010 => Some(FHPIBAttributeId::RoutingMethod),
            0x2011 => Some(FHPIBAttributeId::EAPOLReady),
            0x2012 => Some(FHPIBAttributeId::FANTPSVersion),
            0x2013 => Some(FHPIBAttributeId::NetName),
            0x2014 => Some(FHPIBAttributeId::PANVersion),
            0x2015 => Some(FHPIBAttributeId::GTK0Hash),
            0x2016 => Some(FHPIBAttributeId::GTK1Hash),
            0x2017 => Some(FHPIBAttributeId::GTK2Hash),
            0x2018 => Some(FHPIBAttributeId::GTK3Hash),
            0x2019 => Some(FHPIBAttributeId::NeighborValidTime),
            _ => None,
        }
    }

    /// Decodes one frequency-hopping-PIB-attribute code, read as a
    /// two-byte little-endian integer: on a table member the named
    /// attribute, with the cursor advanced by two; on any other value
    /// `InvalidFHPIBAttributeId` carrying that value, the cursor still
    /// advanced by two; when fewer than two bytes remain,
    /// `NotEnoughBytes` with the cursor unmoved.
    pub fn try_from(cursor: &mut Cursor) -> (r: Result<FHPIBAttributeId, Error>)
        requires
            old(cursor).wf(),
        ensures
            final(cursor).wf(),
            final(cursor).spec_bytes() == old(cursor).spec_bytes(),
            match r {
                Ok(s) => old(cursor).spec_remaining() >= 2
                    && {
                        let v = crate::cursor::le16(
                            old(cursor).spec_bytes()[old(cursor).spec_pos()],
                            old(cursor).spec_bytes()[old(cursor).spec_pos() + 1],
                        );
                        FHPIBAttributeId::spec_from_code(v as u16) == Some(s)
                    }
                    && final(cursor).spec_pos() == old(cursor).spec_pos() + 2,
                Err(Error::InvalidFHPIBAttributeId(v)) => old(cursor).spec_remaining() >= 2
                    && v == crate::cursor::le16(
                        old(cursor).spec_bytes()[old(cursor).spec_pos()],
                        old(cursor).spec_bytes()[old(cursor).spec_pos() + 1],
                    )
                    && FHPIBAttributeId::spec_from_code(v) is None
                    && final(cursor).spec_pos() == old(cursor).spec_pos() + 2,
                Err(Error::NotEnoughBytes) => old(cursor).spec_remaining() < 2
                    && final(cursor).spec_pos() == old(cursor).spec_pos(),
                Err(_) => false,
            },
    {
        let v = match cursor.try_get_u16_le() {
            Ok(w) => w,
            Err(e) => {
                return Err(e);
            },
        };
        match FHPIBAttributeId::from_code(v) {
            Some(s) => Ok(s),
            None => Err(Error::InvalidFHPIBAttributeId(v)),
        }
    }
}

/// Identifier of a security PAN Information Base attribute.
#[derive(Debug, PartialEq)]
pub enum SecurityPIBAttributeId {
    KeyTable,
    KeyTableEntries,
    DeviceTableEntries,
    SecurityLevelTableEntries,
    FrameCounter,
    AutoRequestSecurityLevel,
    AutoRequestKeyIdMode,
    AutoRequestKeySource,
    AutoRequestKeyIndex,
    DefaultKeySource,
    PANCoordExtendedAddress,
    PANCoordShortAddress,
    KeyIdLookupEntry,
    KeyIdDeviceEntry,
    KeyIdUsageEntry,
    KeyEntry,
    DeviceEntry,
    SecurityLevelEntry,
}

impl SecurityPIBAttributeId {
    /// The closed wire-code table of this family: which security PIB
    /// attribute, if any, a raw byte stands for.
    pub open spec fn spec_from_code(v: u8) -> Option<SecurityPIBAttributeId> {
        match v {
            0x71 => Some(SecurityPIBAttributeId::KeyTable),
            0x81 => Some(SecurityPIBAttributeId::KeyTableEntries),
            0x82 => Some(SecurityPIBAttributeId::DeviceTableEntries),
            0x83 => Some(SecurityPIBAttributeId::SecurityLevelTableEntries),
            0x84 => Some(SecurityPIBAttributeId::FrameCounter),
            0x85 => Some(SecurityPIBAttributeId::AutoRequestSecurityLevel),
            0x86 => Some(SecurityPIBAttributeId::AutoRequestKeyIdMode),
            0x87 => Some(SecurityPIBAttributeId::AutoRequestKeySource),
            0x88 => Some(SecurityPIBAttributeId::AutoRequestKeyIndex),
            0x89 => Some(SecurityPIBAttributeId::DefaultKeySource),
            0x8A => Some(SecurityPIBAttributeId::PANCoordExtendedAddress),
            0x8B => Some(SecurityPIBAttributeId::PANCoordShortAddress),
            0xD0 => Some(SecurityPIBAttributeId::KeyIdLookupEntry),
            0xD1 => Some(SecurityPIBAttributeId::KeyIdDeviceEntry),
            0xD2 => Some(SecurityPIBAttributeId::KeyIdUsageEntry),
            0xD3 => Some(SecurityPIBAttributeId::KeyEntry),
            0xD4 => Some(SecurityPIBAttributeId::DeviceEntry),
            0xD5 => Some(SecurityPIBAttributeId::SecurityLevelEntry),
            _ => None,
        }
    }

    fn from_code(v: u8) -> (r: Option<SecurityPIBAttributeId>)
        ensures
            r == SecurityPIBAttributeId::spec_from_code(v),
    {
        match v {
            0x71 => Some(SecurityPIBAttributeId::KeyTable),
            0x81 => Some(SecurityPIBAttributeId::KeyTableEntries),
            0x82 => Some(SecurityPIBAttributeId::DeviceTableEntries),
            0x83 => Some(SecurityPIBAttributeId::SecurityLevelTableEntries),
            0x84 => Some(SecurityPIBAttributeId::FrameCounter),
            0x85 => Some(SecurityPIBAttributeId::AutoRequestSecurityLevel),
            0x86 => Some(SecurityPIBAttributeId::AutoRequestKeyIdMode),
            0x87 => Some(SecurityPIBAttributeId::AutoRequestKeySource),
            0x88 => Some(SecurityPIBAttributeId::AutoRequestKeyIndex),
            0x89 => Some(SecurityPIBAttributeId::DefaultKeySource),
            0x8A => Some(SecurityPIBAttributeId::PANCoordExtendedAddress),
            0x8B => Some(SecurityPIBAttributeId::PANCoordShortAddress),
            0xD0 => Some(SecurityPIBAttributeId::KeyIdLookupEntry),
            0xD1 => Some(SecurityPIBAttributeId::KeyIdDeviceEntry),
            0xD2 => Some(SecurityPIBAttributeId::KeyIdUsageEntry),
            0xD3 => Some(SecurityPIBAttributeId::KeyEntry),
            0xD4 => Some(SecurityPIBAttributeId::DeviceEntry),
            0xD5 => Some(SecurityPIBAttributeId::SecurityLevelEntry),
            _ => None,
        }
    }

    /// Decodes one security-PIB-attribute byte: on a table member the
    /// named attribute, with the cursor advanced by one; on any other
    /// byte `InvalidSecurityPIBAttributeId` carrying that byte, the
    /// cursor still advanced by one; on an empty remainder
    /// `NotEnoughBytes`, the cursor unmoved.
    pub fn try_from(cursor: &mut Cursor) -> (r: Result<SecurityPIBAttributeId, Error>)
        requires
            old(cursor).wf(),
        ensures
            final(cursor).wf(),
            final(cursor).spec_bytes() == old(cursor).spec_bytes(),
            match r {
                Ok(s) => old(cursor).spec_remaining() >= 1
                    && SecurityPIBAttributeId::spec_from_code(
                        old(cursor).spec_bytes()[old(cursor).spec_pos()],
                    ) == Some(s)
                    && final(cursor).spec_pos() == old(cursor).spec_pos() + 1,
                Err(Error::InvalidSecurityPIBAttributeId(v)) => old(cursor).spec_remaining() >= 1
                    && v == old(cursor).spec_bytes()[old(cursor).spec_pos()]
                    && SecurityPIBAttributeId::spec_from_code(v) is None
                    && final(cursor).spec_pos() == old(cursor).spec_pos() + 1,
                Err(Error::NotEnoughBytes) => old(cursor).spec_remaining() == 0
                    && final(cursor).spec_pos() == old(cursor).spec_pos(),
                Err(_) => false,
            },
    {
        let v = match cursor.try_get_u8() {
            Ok(b) => b,
            Err(e) => {
                return Err(e);
            },
        };
        match SecurityPIBAttributeId::from_code(v) {
            Some(s) => Ok(s),
            None => Err(Error::InvalidSecurityPIBAttributeId(v)),
        }
    }
}

/// Kind of channel scan to perform.
#[derive(Debug, PartialEq)]
pub enum ScanType {
    EnergyDetect,
    Active,
    Passive,
    Orphan,
    Active2,
}

impl ScanType {
    /// The closed wire-code table of this family: which scan type, if
    /// any, a raw byte stands for.
    pub open spec fn spec_from_code(v: u8) -> Option<ScanType> {
        match v {
            0x00 => Some(ScanType::EnergyDetect),
            0x01 => Some(ScanType::Active),
            0x02 => Some(ScanType::Passive),
            0x03 => Some(ScanType::Orphan),
            0x05 => Some(ScanType::Active2),
            _ => None,
        }
    }

    fn from_code(v: u8) -> (r: Option<ScanType>)
        ensures
            r == ScanType::spec_from_code(v),
    {
        match v {
            0x00 => Some(ScanType::EnergyDetect),
            0x01 => Some(ScanType::Active),
            0x02 => Some(ScanType::Passive),
            0x03 => Some(ScanType::Orphan),
            0x05 => Some(ScanType::Active2),
            _ => None,
        }
    }

    /// Decodes one scan-type byte: on a table member the named type,
    /// with the cursor advanced by one; on any other byte
    /// `InvalidScanType` carrying that byte, the cursor still advanced by
    /// one; on an empty remainder `NotEnoughBytes`, the cursor unmoved.
    pub fn try_from(cursor: &mut Cursor) -> (r: Result<ScanType, Error>)
        requires
            old(cursor).wf(),
        ensures
            final(cursor).wf(),
            final(cursor).spec_bytes() == old(cursor).spec_bytes(),
            match r {
                Ok(s) => old(cursor).spec_remaining() >= 1
                    && ScanType::spec_from_code(
                        old(cursor).spec_bytes()[old(cursor).spec_pos()],
                    ) == Some(s)
                    && final(cursor).spec_pos() == old(cursor).spec_pos() + 1,
                Err(Error::InvalidScanType(v)) => old(cursor).spec_remaining() >= 1
                    && v == old(cursor).spec_bytes()[old(cursor).spec_pos()]
                    && ScanType::spec_from_code(v) is None
                    && final(cursor).spec_pos() == old(cursor).spec_pos() + 1,
                Err(Error::NotEnoughBytes) => old(cursor).spec_remaining() == 0
                    && final(cursor).spec_pos() == old(cursor).spec_pos(),
                Err(_) => false,
            },
    {
        let v = match cursor.try_get_u8() {
            Ok(b) => b,
            Err(e) => {
                return Err(e);
            },
        };
        match ScanType::from_code(v) {
            Some(s) => Ok(s),
            None => Err(Error::InvalidScanType(v)),
        }
    }
}

/// Identifier of a physical-layer configuration.
#[derive(Debug, PartialEq)]
#[allow(non_camel_case_types)]
pub enum PhyId {
    STD_US_915_PHY_1,
    STD_ETSI_863_PHY_3,
    MRFSK_GENERIC_PHY_ID_BEGIN,
    MRFSK_GENERIC_PHY_ID_END,
}

impl PhyId {
    /// The closed wire-code table of this family: which PHY identifier,
    /// if any, a raw byte stands for.
    pub open spec fn spec_from_code(v: u8) -> Option<PhyId> {
        match v {
            0x01 => Some(PhyId::STD_US_915_PHY_1),
            0x03 => Some(PhyId::STD_ETSI_863_PHY_3),
            0x04 => Some(PhyId::MRFSK_GENERIC_PHY_ID_BEGIN),
            0x06 => Some(PhyId::MRFSK_GENERIC_PHY_ID_END),
            _ => None,
        }
    }

    fn from_code(v: u8) -> (r: Option<PhyId>)
        ensures
            r == PhyId::spec_from_code(v),
    {
        match v {
            0x01 => Some(PhyId::STD_US_915_PHY_1),
            0x03 => Some(PhyId::STD_ETSI_863_PHY_3),
            0x04 => Some(PhyId::MRFSK_GENERIC_PHY_ID_BEGIN),
            0x06 => Some(PhyId::MRFSK_GENERIC_PHY_ID_END),
            _ => None,
        }
    }

    /// Decodes one PHY-identifier byte: on a table member the named
    /// identifier, with the cursor advanced by one; on any other byte
    /// `InvalidPhyId` carrying that byte, the cursor still advanced by
    /// one; on an empty remainder `NotEnoughBytes`, the cursor unmoved.
    pub fn try_from(cursor: &mut Cursor) -> (r: Result<PhyId, Error>)
        requires
            old(cursor).wf(),
        ensures
            final(cursor).wf(),
            final(cursor).spec_bytes() == old(cursor).spec_bytes(),
            match r {
                Ok(s) => old(cursor).spec_remaining() >= 1
                    && PhyId::spec_from_code(
                        old(cursor).spec_bytes()[old(cursor).spec_pos()],
                    ) == Some(s)
                    && final(cursor).spec_pos() == old(cursor).spec_pos() + 1,
                Err(Error::InvalidPhyId(v)) => old(cursor).spec_remaining() >= 1
                    && v == old(cursor).spec_bytes()[old(cursor).spec_pos()]
                    && PhyId::spec_from_code(v) is None
                    && final(cursor).spec_pos() == old(cursor).spec_pos() + 1,
                Err(Error::NotEnoughBytes) => old(cursor).spec_remaining() == 0
                    && final(cursor).spec_pos() == old(cursor).spec_pos(),
                Err(_) => false,
            },
    {
        let v = match cursor.try_get_u8() {
            Ok(b) => b,
            Err(e) => {
                return Err(e);
            },
        };
        match PhyId::from_code(v) {
            Some(s) => Ok(s),
            None => Err(Error::InvalidPhyId(v)),
        }
    }
}

/// Which beacon requests the coordinator answers while joining is open.
#[derive(Debug, PartialEq)]
pub enum PermitJoin {
    AllBeaconRequests,
    OnlyIfPermitJoinIsEnabled,
}

impl PermitJoin {
    /// The closed wire-code table of this family: which permit-join
    /// policy, if any, a raw byte stands for.
    pub open spec fn spec_from_code(v: u8) -> Option<PermitJoin> {
        match v {
            0x00 => Some(PermitJoin::AllBeaconRequests),
            0x01 => Some(PermitJoin::OnlyIfPermitJoinIsEnabled),
            _ => None,
        }
    }

    fn from_code(v: u8) -> (r: Option<PermitJoin>)
        ensures
            r == PermitJoin::spec_from_code(v),
    {
        match v {
            0x00 => Some(PermitJoin::AllBeaconRequests),
            0x01 => Some(PermitJoin::OnlyIfPermitJoinIsEnabled),
            _ => None,
        }
    }

    /// Decodes one permit-join byte: on a table member the named policy,
    /// with the cursor advanced by one; on any other byte
    /// `InvalidPermitJoin` carrying that byte, the cursor still advanced
    /// by one; on an empty remainder `NotEnoughBytes`, the cursor
    /// unmoved.
    pub fn try_from(cursor: &mut Cursor) -> (r: Result<PermitJoin, Error>)
        requires
            old(cursor).wf(),
        ensures
            final(cursor).wf(),
            final(cursor).spec_bytes() == old(cursor).spec_bytes(),
            match r {
                Ok(s) => old(cursor).spec_remaining() >= 1
                    && PermitJoin::spec_from_code(
                        old(cursor).spec_bytes()[old(cursor).spec_pos()],
                    ) == Some(s)
                    && final(cursor).spec_pos() == old(cursor).spec_pos() + 1,
                Err(Error::InvalidPermitJoin(v)) => old(cursor).spec_remaining() >= 1
                    && v == old(cursor).spec_bytes()[old(cursor).spec_pos()]
                    && PermitJoin::spec_from_code(v) is None
                    && final(cursor).spec_pos() == old(cursor).spec_pos() + 1,
                Err(Error::NotEnoughBytes) => old(cursor).spec_remaining() == 0
                    && final(cursor).spec_pos() == old(cursor).spec_pos(),
                Err(_) => false,
            },
    {
        let v = match cursor.try_get_u8() {
            Ok(b) => b,
            Err(e) => {
                return Err(e);
            },
        };
        match PermitJoin::from_code(v) {
            Some(s) => Ok(s),
            None => Err(Error::InvalidPermitJoin(v)),
        }
    }
}

/// Whether a scan also covers multi-PAN coordinators.
#[derive(Debug, PartialEq)]
pub enum MPMScan {
    Disabled,
    Enabled,
}

impl MPMScan {
    /// The closed wire-code table of this family: which multi-PAN scan
    /// setting, if any, a raw byte stands for.
    pub open spec fn spec_from_code(v: u8) -> Option<MPMScan> {
        match v {
            0x00 => Some(MPMScan::Disabled),
            0x01 => Some(MPMScan::Enabled),
            _ => None,
        }
    }

    fn from_code(v: u8) -> (r: Option<MPMScan>)
        ensures
            r == MPMScan::spec_from_code(v),
    {
        match v {
            0x00 => Some(MPMScan::Disabled),
            0x01 => Some(MPMScan::Enabled),
            _ => None,
        }
    }

    /// Decodes one multi-PAN-scan byte: on a table member the named
    /// setting, with the cursor advanced by one; on any other byte
    /// `InvalidMPMScan` carrying that byte, the cursor still advanced by
    /// one; on an empty remainder `NotEnoughBytes`, the cursor unmoved.
    pub fn try_from(cursor: &mut Cursor) -> (r: Result<MPMScan, Error>)
        requires
            old(cursor).wf(),
        ensures
            final(cursor).wf(),
            final(cursor).spec_bytes() == old(cursor).spec_bytes(),
            match r {
                Ok(s) => old(cursor).spec_remaining() >= 1
                    && MPMScan::spec_from_code(
                        old(cursor).spec_bytes()[old(cursor).spec_pos()],
                    ) == Some(s)
                    && final(cursor).spec_pos() == old(cursor).spec_pos() + 1,
                Err(Error::InvalidMPMScan(v)) => old(cursor).spec_remaining() >= 1
                    && v == old(cursor).spec_bytes()[old(cursor).spec_pos()]
                    && MPMScan::spec_from_code(v) is None
                    && final(cursor).spec_pos() == old(cursor).spec_pos() + 1,
                Err(Error::NotEnoughBytes) => old(cursor).spec_remaining() == 0
                    && final(cursor).spec_pos() == old(cursor).spec_pos(),
                Err(_) => false,
            },
    {
        let v = match cursor.try_get_u8() {
            Ok(b) => b,
            Err(e) => {
                return Err(e);
            },
        };
        match MPMScan::from_code(v) {
            Some(s) => Ok(s),
            None => Err(Error::InvalidMPMScan(v)),
        }
    }
}

/// Kind of multi-PAN network a coordinator advertises.
#[derive(Debug, PartialEq)]
pub enum MPMType {
    BPAN,
    NBPAN,
}

impl MPMType {
    /// The closed wire-code table of this family: which multi-PAN network
    /// kind, if any, a raw byte stands for. `0x01` is the beacon-enabled
    /// kind, `0x02` the non-beacon-enabled one.
    pub open spec fn spec_from_code(v: u8) -> Option<MPMType> {
        match v {
            0x01 => Some(MPMType::BPAN),
            0x02 => Some(MPMType::NBPAN),
            _ => None,
        }
    }

    fn from_code(v: u8) -> (r: Option<MPMType>)
        ensures
            r == MPMType::spec_from_code(v),
    {
        match v {
            0x01 => Some(MPMType::BPAN),
            0x02 => Some(MPMType::NBPAN),
            _ => None,
        }
    }

    /// Decodes one multi-PAN-type byte: on a table member the named kind,
    /// with the cursor advanced by one; on any other byte
    /// `InvalidMPMType` carrying that byte, the cursor still advanced by
    /// one; on an empty remainder `NotEnoughBytes`, the cursor unmoved.
    pub fn try_from(cursor: &mut Cursor) -> (r: Result<MPMType, Error>)
        requires
            old(cursor).wf(),
        ensures
            final(cursor).wf(),
            final(cursor).spec_bytes() == old(cursor).spec_bytes(),
            match r {
                Ok(s) => old(cursor).spec_remaining() >= 1
                    && MPMType::spec_from_code(
                        old(cursor).spec_bytes()[old(cursor).spec_pos()],
                    ) == Some(s)
                    && final(cursor).spec_pos() == old(cursor).spec_pos() + 1,
                Err(Error::InvalidMPMType(v)) => old(cursor).spec_remaining() >= 1
                    && v == old(cursor).spec_bytes()[old(cursor).spec_pos()]
                    && MPMType::spec_from_code(v) is None
                    && final(cursor).spec_pos() == old(cursor).spec_pos() + 1,
                Err(Error::NotEnoughBytes) => old(cursor).spec_remaining() == 0
                    && final(cursor).spec_pos() == old(cursor).spec_pos(),
                Err(_) => false,
            },
    {
        let v = match cursor.try_get_u8() {
            Ok(b) => b,
            Err(e) => {
                return Err(e);
            },
        };
        match MPMType::from_code(v) {
            Some(s) => Ok(s),
            None => Err(Error::InvalidMPMType(v)),
        }
    }
}

/// Whether a Wi-SUN async operation is being started or stopped.
#[derive(Debug, PartialEq)]
pub enum WiSUNAsyncOperation {
    Start,
    Stop,
}

impl WiSUNAsyncOperation {
    /// The closed wire-code table of this family: which async operation,
    /// if any, a raw byte stands for.
    pub open spec fn spec_from_code(v: u8) -> Option<WiSUNAsyncOperation> {
        match v {
            0x00 => Some(WiSUNAsyncOperation::Start),
            0x01 => Some(WiSUNAsyncOperation::Stop),
            _ => None,
        }
    }

    fn from_code(v: u8) -> (r: Option<WiSUNAsyncOperation>)
        ensures
            r == WiSUNAsyncOperation::spec_from_code(v),
    {
        match v {
            0x00 => Some(WiSUNAsyncOperation::Start),
            0x01 => Some(WiSUNAsyncOperation::Stop),
            _ => None,
        }
    }

    /// Decodes one async-operation byte: on a table member the named
    /// operation, with the cursor advanced by one; on any other byte
    /// `InvalidWiSUNAsyncOperation` carrying that byte, the cursor still
    /// advanced by one; on an empty remainder `NotEnoughBytes`, the
    /// cursor unmoved.
    pub fn try_from(cursor: &mut Cursor) -> (r: Result<WiSUNAsyncOperation, Error>)
        requires
            old(cursor).wf(),
        ensures
            final(cursor).wf(),
            final(cursor).spec_bytes() == old(cursor).spec_bytes(),
            match r {
                Ok(s) => old(cursor).spec_remaining() >= 1
                    && WiSUNAsyncOperation::spec_from_code(
                        old(cursor).spec_bytes()[old(cursor).spec_pos()],
                    ) == Some(s)
                    && final(cursor).spec_pos() == old(cursor).spec_pos() + 1,
                Err(Error::InvalidWiSUNAsyncOperation(v)) => old(cursor).spec_remaining() >= 1
                    && v == old(cursor).spec_bytes()[old(cursor).spec_pos()]
                    && WiSUNAsyncOperation::spec_from_code(v) is None
                    && final(cursor).spec_pos() == old(cursor).spec_pos() + 1,
                Err(Error::NotEnoughBytes) => old(cursor).spec_remaining() == 0
                    && final(cursor).spec_pos() == old(cursor).spec_pos(),
                Err(_) => false,
            },
    {
        let v = match cursor.try_get_u8() {
            Ok(b) => b,
            Err(e) => {
                return Err(e);
            },
        };
        match WiSUNAsyncOperation::from_code(v) {
            Some(s) => Ok(s),
            None => Err(Error::InvalidWiSUNAsyncOperation(v)),
        }
    }
}

/// Reversing a byte sequence twice yields the original sequence.
pub proof fn lemma_reverse_involutive(s: Seq<u8>)
    ensures
        s.reverse().reverse() == s,
{
    assert(s.reverse().reverse() =~= s);
}

/// A decoded fixed-width field re-encodes to its original wire bytes:
/// the decoders return the reverse of the wire bytes, and reversing that
/// once more gives back the wire bytes exactly.
pub proof fn lemma_field_round_trip(wire: Seq<u8>, decoded: Seq<u8>)
    requires
        decoded == wire.reverse(),
    ensures
        decoded.reverse() == wire,
{
    lemma_reverse_involutive(wire);
}

} // verus!
