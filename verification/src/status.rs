//! The DFU status record: protocol state, status code, poll timeout,
//! address pointer and the two command slots, together with the encoding
//! of the record into the six-byte DFU_GETSTATUS reply.

use vstd::prelude::*;

verus! {

/// Protocol state of the DFU interface, as reported in the `bState` field
/// of the DFU_GETSTATUS reply.
#[derive(Clone, Copy, PartialEq, Eq, Structural, Debug)]
pub enum DFUState {
    /// Device is running its normal application.
    AppIdle,
    /// Device received DFU_DETACH and is waiting for a USB reset.
    AppDetach,
    /// Device is in DFU mode and is waiting for requests.
    DfuIdle,
    /// A block or command was accepted; waiting for DFU_GETSTATUS.
    DfuDnloadSync,
    /// Device is executing a download-phase command.
    DfuDnBusy,
    /// Device is processing a download; expecting further DFU_DNLOAD requests.
    DfuDnloadIdle,
    /// Final block received; waiting for DFU_GETSTATUS to begin or to leave
    /// the manifestation phase.
    DfuManifestSync,
    /// Device is in the manifestation phase.
    DfuManifest,
    /// Manifestation done; device waits for a USB reset.
    DfuManifestWaitReset,
    /// Device is processing an upload; expecting further DFU_UPLOAD requests.
    DfuUploadIdle,
    /// An error occurred; awaiting DFU_CLRSTATUS.
    DfuError,
}

/// Status code of the DFU interface, as reported in the `bStatus` field
/// of the DFU_GETSTATUS reply.
#[derive(Clone, Copy, PartialEq, Eq, Structural, Debug)]
pub enum DFUStatusCode {
    /// No error condition is present.
    OK,
    /// File is not targeted for use by this device.
    ErrTarget,
    /// File fails a vendor-specific verification test.
    ErrFile,
    /// Device is unable to write memory.
    ErrWrite,
    /// Memory erase function failed.
    ErrErase,
    /// Memory erase check failed.
    ErrCheckErased,
    /// Program memory function failed.
    ErrProg,
    /// Programmed memory failed verification.
    ErrVerify,
    /// Received address is out of range.
    ErrAddress,
    /// DFU_DNLOAD with wLength = 0 arrived before all data was received.
    ErrNotdone,
    /// Firmware is corrupt; device cannot return to run-time operations.
    ErrFirmware,
    /// A vendor-specific error.
    ErrVendor,
    /// Unexpected USB reset signaling was detected.
    ErrUsbr,
    /// Unexpected power-on reset was detected.
    ErrPOR,
    /// Something went wrong, but the device does not know what it was.
    ErrUnknown,
    /// Device stalled an unexpected request.
    ErrStalledPkt,
}

/// The byte that encodes a protocol state on the wire.
pub open spec fn spec_state_byte(s: DFUState) -> u8 {
    match s {
        DFUState::AppIdle => 0,
        DFUState::AppDetach => 1,
        DFUState::DfuIdle => 2,
        DFUState::DfuDnloadSync => 3,
        DFUState::DfuDnBusy => 4,
        DFUState::DfuDnloadIdle => 5,
        DFUState::DfuManifestSync => 6,
        DFUState::DfuManifest => 7,
        DFUState::DfuManifestWaitReset => 8,
        DFUState::DfuUploadIdle => 9,
        DFUState::DfuError => 10,
    }
}

/// The byte that encodes a status code on the wire.
pub open spec fn spec_status_byte(c: DFUStatusCode) -> u8 {
    match c {
        DFUStatusCode::OK => 0x00,
        DFUStatusCode::ErrTarget => 0x01,
        DFUStatusCode::ErrFile => 0x02,
        DFUStatusCode::ErrWrite => 0x03,
        DFUStatusCode::ErrErase => 0x04,
        DFUStatusCode::ErrCheckErased => 0x05,
        DFUStatusCode::ErrProg => 0x06,
        DFUStatusCode::ErrVerify => 0x07,
        DFUStatusCode::ErrAddress => 0x08,
        DFUStatusCode::ErrNotdone => 0x09,
        DFUStatusCode::ErrFirmware => 0x0A,
        DFUStatusCode::ErrVendor => 0x0B,
        DFUStatusCode::ErrUsbr => 0x0C,
        DFUStatusCode::ErrPOR => 0x0D,
        DFUStatusCode::ErrUnknown => 0x0E,
        DFUStatusCode::ErrStalledPkt => 0x0F,
    }
}

impl DFUState {
    /// Wire encoding of the state, for the `bState` reply byte.
    pub fn byte(self) -> (r: u8)
        ensures
            r == spec_state_byte(self),
    {
        match self {
            DFUState::AppIdle => 0,
            DFUState::AppDetach => 1,
            DFUState::DfuIdle => 2,
            DFUState::DfuDnloadSync => 3,
            DFUState::DfuDnBusy => 4,
            DFUState::DfuDnloadIdle => 5,
            DFUState::DfuManifestSync => 6,
            DFUState::DfuManifest => 7,
            DFUState::DfuManifestWaitReset => 8,
            DFUState::DfuUploadIdle => 9,
            DFUState::DfuError => 10,
        }
    }
}

impl DFUStatusCode {
    /// Wire encoding of the status code, for the `bStatus` reply byte.
    pub fn byte(self) -> (r: u8)
        ensures
            r == spec_status_byte(self),
    {
        match self {
            DFUStatusCode::OK => 0x00,
            DFUStatusCode::ErrTarget => 0x01,
            DFUStatusCode::ErrFile => 0x02,
            DFUStatusCode::ErrWrite => 0x03,
            DFUStatusCode::ErrErase => 0x04,
            DFUStatusCode::ErrCheckErased => 0x05,
            DFUStatusCode::ErrProg => 0x06,
            DFUStatusCode::ErrVerify => 0x07,
            DFUStatusCode::ErrAddress => 0x08,
            DFUStatusCode::ErrNotdone => 0x09,
            DFUStatusCode::ErrFirmware => 0x0A,
            DFUStatusCode::ErrVendor => 0x0B,
            DFUStatusCode::ErrUsbr => 0x0C,
            DFUStatusCode::ErrPOR => 0x0D,
            DFUStatusCode::ErrUnknown => 0x0E,
            DFUStatusCode::ErrStalledPkt => 0x0F,
        }
    }
}

/// A download-phase command, held in one of the two slots of the status
/// record: `command` while accepted but not yet started, `pending` while
/// the deferred execution stage owes it a back-end call.
#[derive(Clone, Copy, PartialEq, Eq, Structural, Debug)]
pub enum Command {
    /// No command.
    Empty,
    /// Erase every page of the target memory.
    EraseAll,
    /// Erase the page that holds the given address.
    EraseBlock(u32),
    /// Set the address pointer to the given value.
    SetAddressPointer(u32),
    /// Remove read protection (permanently disabled; always rejected).
    ReadUnprotect,
    /// Program the block that was stored in the write buffer.
    WriteMemory {
        /// Block number, counted from zero: wValue minus 2.
        block_num: u16,
        /// Number of bytes that arrived with the block.
        len: u16,
    },
    /// Leave DFU mode: finalize and activate the received firmware.
    LeaveDFU,
}

/// The status record of a DFU interface: everything the protocol engine
/// remembers between control requests.
#[derive(Clone, Copy, PartialEq, Eq, Structural, Debug)]
pub struct DFUStatus {
    /// Status code reported in DFU_GETSTATUS.
    pub status: DFUStatusCode,
    /// Time in milliseconds the host must wait before the next request;
    /// reported as a 24-bit little-endian value in DFU_GETSTATUS.
    pub poll_timeout: u32,
    /// Current protocol state.
    pub state: DFUState,
    /// The address-pointer cursor against which block numbers are offset.
    pub address_pointer: u32,
    /// Command accepted from the host, awaiting the next status poll.
    pub command: Command,
    /// Command moved out of `command` by the status poll, awaiting the
    /// deferred execution stage.
    pub pending: Command,
}


/// The six-byte DFU_GETSTATUS reply for a status record: status byte,
/// 24-bit little-endian poll timeout, state byte, and a final zero
/// (iString is unsupported).
pub open spec fn spec_encode(s: DFUStatus) -> Seq<u8> {
    seq![
        spec_status_byte(s.status),
        s.poll_timeout as u8,
        (s.poll_timeout >> 8) as u8,
        (s.poll_timeout >> 16) as u8,
        spec_state_byte(s.state),
        0u8,
    ]
}

/// A fresh status record: no error, idle, with the given initial
/// address pointer and both command slots empty.
pub open spec fn spec_initial_status(addr: u32) -> DFUStatus {
    DFUStatus {
        status: DFUStatusCode::OK,
        poll_timeout: 0,
        state: DFUState::DfuIdle,
        address_pointer: addr,
        command: Command::Empty,
        pending: Command::Empty,
    }
}

impl DFUStatus {
    /// At most one of the two command slots is occupied: a command the
    /// host was just told about and a command being executed never exist
    /// at the same time.
    pub open spec fn slots_exclusive(self) -> bool {
        self.command == Command::Empty || self.pending == Command::Empty
    }

    /// A fresh status record: no error, idle, with the back end's initial
    /// address pointer and both command slots empty.
    pub fn new(addr: u32) -> (r: Self)
        ensures
            r == spec_initial_status(addr),
    {
        Self {
            status: DFUStatusCode::OK,
            poll_timeout: 0,
            state: DFUState::DfuIdle,
            address_pointer: addr,
            command: Command::Empty,
            pending: Command::Empty,
        }
    }

    /// Enter `state` with status OK. Status and state always move together:
    /// a success never leaves an error code behind.
    pub fn new_state_ok(&mut self, state: DFUState)
        ensures
            *final(self) == (DFUStatus {
                status: DFUStatusCode::OK,
                state: state,
                ..*old(self)
            }),
    {
        self.new_state_status(state, DFUStatusCode::OK);
    }

    /// Enter `state` with the given status code, atomically.
    pub fn new_state_status(&mut self, state: DFUState, status: DFUStatusCode)
        ensures
            *final(self) == (DFUStatus { status: status, state: state, ..*old(self) }),
    {
        self.status = status;
        self.state = state;
    }

    /// The current protocol state.
    pub fn state(&self) -> (r: DFUState)
        ensures
            r == self.state,
    {
        self.state
    }

    /// The six-byte DFU_GETSTATUS reply: status byte, 24-bit little-endian
    /// poll timeout, state byte, and a final zero (iString is unsupported).
    pub fn encode(&self) -> (r: [u8; 6])
        ensures
            r@ == spec_encode(*self),
    {
        [
            self.status.byte(),
            self.poll_timeout as u8,
            (self.poll_timeout >> 8) as u8,
            (self.poll_timeout >> 16) as u8,
            self.state.byte(),
            0,
        ]
    }
}

} // verus!
