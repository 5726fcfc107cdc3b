//! The memory back end: the error types it reports, the configuration it
//! supplies, and the trait through which the protocol engine asks it to
//! read, erase, program and finalize firmware.

use vstd::prelude::*;

use crate::status::{spec_status_byte, DFUStatusCode};

verus! {

/// Errors a memory back end may report while reading, erasing or
/// programming. Each maps one-to-one to a DFU status code.
#[derive(Clone, Copy, PartialEq, Eq, Structural, Debug)]
pub enum DFUMemError {
    /// File is not targeted for use by this device.
    Target,
    /// File fails a vendor-specific verification test.
    File,
    /// Device is unable to write memory.
    Write,
    /// Memory erase function failed.
    Erase,
    /// Memory erase check failed.
    CheckErased,
    /// Program memory function failed.
    Prog,
    /// Programmed memory failed verification.
    Verify,
    /// Something went wrong, but the device does not know what it was.
    Unknown,
    /// Received address is out of range.
    Address,
    /// A vendor-specific error.
    ErrVendor,
}

/// Errors a memory back end may report from the manifestation phase.
/// Each maps one-to-one to a DFU status code.
#[derive(Clone, Copy, PartialEq, Eq, Structural, Debug)]
pub enum DFUManifestationError {
    /// File is not targeted for use by this device.
    Target,
    /// File fails a vendor-specific verification test.
    File,
    /// Not all data was received yet.
    NotDone,
    /// Firmware is corrupt; device cannot return to run-time operations.
    Firmware,
    /// A vendor-specific error.
    ErrVendor,
    /// Something went wrong, but the device does not know what it was.
    Unknown,
}

/// The DFU status code that reports a memory error to the host.
pub open spec fn spec_mem_error_code(e: DFUMemError) -> DFUStatusCode {
    match e {
        DFUMemError::Target => DFUStatusCode::ErrTarget,
        DFUMemError::File => DFUStatusCode::ErrFile,
        DFUMemError::Write => DFUStatusCode::ErrWrite,
        DFUMemError::Erase => DFUStatusCode::ErrErase,
        DFUMemError::CheckErased => DFUStatusCode::ErrCheckErased,
        DFUMemError::Prog => DFUStatusCode::ErrProg,
        DFUMemError::Verify => DFUStatusCode::ErrVerify,
        DFUMemError::Unknown => DFUStatusCode::ErrUnknown,
        DFUMemError::Address => DFUStatusCode::ErrAddress,
        DFUMemError::ErrVendor => DFUStatusCode::ErrVendor,
    }
}

/// The DFU status code that reports a manifestation error to the host.
pub open spec fn spec_manifestation_error_code(e: DFUManifestationError) -> DFUStatusCode {
    match e {
        DFUManifestationError::Target => DFUStatusCode::ErrTarget,
        DFUManifestationError::File => DFUStatusCode::ErrFile,
        DFUManifestationError::NotDone => DFUStatusCode::ErrNotdone,
        DFUManifestationError::Firmware => DFUStatusCode::ErrFirmware,
        DFUManifestationError::ErrVendor => DFUStatusCode::ErrVendor,
        DFUManifestationError::Unknown => DFUStatusCode::ErrUnknown,
    }
}

/// The status code of `spec_mem_error_code` is never OK: a back-end
/// failure always reports a real error to the host.
pub proof fn lemma_mem_error_code_not_ok(e: DFUMemError)
    ensures
        spec_mem_error_code(e) != DFUStatusCode::OK,
        spec_status_byte(spec_mem_error_code(e)) != 0,
{
}

/// The status code of `spec_manifestation_error_code` is never OK.
pub proof fn lemma_manifestation_error_code_not_ok(e: DFUManifestationError)
    ensures
        spec_manifestation_error_code(e) != DFUStatusCode::OK,
        spec_status_byte(spec_manifestation_error_code(e)) != 0,
{
}

impl From<DFUMemError> for DFUStatusCode {
    fn from(e: DFUMemError) -> (r: Self) {
        match e {
            DFUMemError::Target => DFUStatusCode::ErrTarget,
            DFUMemError::File => DFUStatusCode::ErrFile,
            DFUMemError::Write => DFUStatusCode::ErrWrite,
            DFUMemError::Erase => DFUStatusCode::ErrErase,
            DFUMemError::CheckErased => DFUStatusCode::ErrCheckErased,
            DFUMemError::Prog => DFUStatusCode::ErrProg,
            DFUMemError::Verify => DFUStatusCode::ErrVerify,
            DFUMemError::Unknown => DFUStatusCode::ErrUnknown,
            DFUMemError::Address => DFUStatusCode::ErrAddress,
            DFUMemError::ErrVendor => DFUStatusCode::ErrVendor,
        }
    }
}

impl vstd::std_specs::convert::FromSpecImpl<DFUMemError> for DFUStatusCode {
    open spec fn obeys_from_spec() -> bool {
        true
    }

    open spec fn from_spec(e: DFUMemError) -> Self {
        spec_mem_error_code(e)
    }
}

impl From<DFUManifestationError> for DFUStatusCode {
    fn from(e: DFUManifestationError) -> (r: Self) {
        match e {
            DFUManifestationError::Target => DFUStatusCode::ErrTarget,
            DFUManifestationError::File => DFUStatusCode::ErrFile,
            DFUManifestationError::NotDone => DFUStatusCode::ErrNotdone,
            DFUManifestationError::Firmware => DFUStatusCode::ErrFirmware,
            DFUManifestationError::ErrVendor => DFUStatusCode::ErrVendor,
            DFUManifestationError::Unknown => DFUStatusCode::ErrUnknown,
        }
    }
}

impl vstd::std_specs::convert::FromSpecImpl<DFUManifestationError> for DFUStatusCode {
    open spec fn obeys_from_spec() -> bool {
        true
    }

    open spec fn from_spec(e: DFUManifestationError) -> Self {
        spec_manifestation_error_code(e)
    }
}

/// Configuration the memory back end supplies at construction time.
/// The values stay fixed for the lifetime of the interface; they tailor
/// the protocol engine and the DFU functional descriptor.
#[derive(Clone, Copy, PartialEq, Eq, Structural, Debug)]
pub struct DFUConfig {
    /// Default value of the address pointer, usually the start address
    /// of the memory region.
    pub initial_address_pointer: u32,
    /// Whether firmware download (host to device) is supported.
    pub has_download: bool,
    /// Whether firmware upload (device to host) is supported.
    pub has_upload: bool,
    /// Whether the device can answer further status queries after
    /// manifestation instead of requiring a bus reset.
    pub manifestation_tolerant: bool,
    /// Time in milliseconds that programming one block takes.
    pub program_time_ms: u32,
    /// Time in milliseconds that erasing one page takes.
    pub erase_time_ms: u32,
    /// Time in milliseconds that a full erase takes.
    pub full_erase_time_ms: u32,
    /// Time in milliseconds that the host must wait after requesting
    /// manifestation.
    pub manifestation_time_ms: u32,
    /// wDetachTimeOut field of the DFU functional descriptor.
    pub detach_timeout: u16,
    /// Maximum transfer size of one block; must not exceed what the
    /// transport's control endpoint can carry in a single transfer.
    pub transfer_size: u16,
}

/// The memory back end of a DFU interface. The protocol engine calls
/// these functions to do the actual storage work; their behaviour is the
/// implementor's own, and the engine's contracts therefore promise only
/// what holds for every possible outcome of each call.
pub trait DFUMemIO {
    /// Store a host-provided block in a RAM buffer prior to programming.
    /// Must not write flash yet.
    fn store_write_buffer(&mut self, src: &[u8]) -> Result<(), ()>;

    /// Read up to `length` bytes at `address`. Returning fewer bytes than
    /// the configured maximum transfer size signals the last block.
    fn read_block(&mut self, address: u32, length: usize) -> Result<Vec<u8>, DFUMemError>;

    /// Program the previously buffered bytes at `address`.
    fn program_block(&mut self, address: u32, length: usize) -> Result<(), DFUMemError>;

    /// Erase the page that holds `address`.
    fn erase_block(&mut self, address: u32) -> Result<(), DFUMemError>;

    /// Erase every page of the target region.
    fn erase_all_blocks(&mut self) -> Result<(), DFUMemError>;

    /// Finish writing firmware to persistent storage and optionally
    /// activate it. A manifestation-intolerant back end should start the
    /// new firmware instead of returning success.
    fn manifestation(&mut self) -> Result<(), DFUManifestationError>;

    /// Called on every USB bus reset; may start the application firmware
    /// and not return. The default does nothing.
    fn usb_reset(&mut self) {
    }
}

} // verus!
