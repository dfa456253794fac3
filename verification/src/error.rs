use vstd::prelude::*;

verus! {

/// Every way a decode call can fail.
///
/// `NotEnoughBytes` reports that fewer bytes remained in the buffer than the
/// field's declared width. Each `Invalid*` kind reports that a code field was
/// read in full but its value is not a member of that field's closed table;
/// it carries the offending raw value (8-bit, or 16-bit for the frequency
/// hopping attribute family) for diagnostics. Each code family has its own
/// kind; no failure is ever coerced into another kind or silently defaulted.
#[derive(Debug, PartialEq)]
pub enum Error {
    NotEnoughBytes,
    InvalidStatus(u8),
    InvalidAddressMode(u8),
    InvalidTxOption(u8),
    InvalidSecurityLevel(u8),
    InvalidKeyIdMode(u8),
    InvalidFrameType(u8),
    InvalidAssociationStatus(u8),
    InvalidDisassociationReason(u8),
    InvalidMACPIBAttributeId(u8),
    InvalidFHPIBAttributeId(u16),
    InvalidSecurityPIBAttributeId(u8),
    InvalidScanType(u8),
    InvalidPhyId(u8),
    InvalidPermitJoin(u8),
    InvalidMPMScan(u8),
    InvalidMPMType(u8),
    InvalidWiSUNAsyncOperation(u8),
}

} // verus!
