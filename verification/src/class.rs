//! The DFU request dispatcher and state machine.
//!
//! Every transition of the protocol is written down once, as a spec
//! function over the [`DFUStatus`] record; the executable handlers are
//! proved to follow those functions. Where a step depends on the memory
//! back end, the spec function takes the back end's outcome as a
//! parameter, so the handlers' contracts state what holds for every
//! possible outcome.

use vstd::prelude::*;

use crate::memio::{
    spec_manifestation_error_code, spec_mem_error_code, DFUConfig, DFUManifestationError,
    DFUMemError, DFUMemIO,
};
use crate::status::{spec_state_byte, Command, DFUState, DFUStatus, DFUStatusCode};

verus! {

/// DFU_DNLOAD class request code.
pub const DFU_DNLOAD: u8 = 0x01;

/// DFU_UPLOAD class request code.
pub const DFU_UPLOAD: u8 = 0x02;

/// DFU_GETSTATUS class request code.
pub const DFU_GETSTATUS: u8 = 0x03;

/// DFU_CLRSTATUS class request code.
pub const DFU_CLRSTATUS: u8 = 0x04;

/// DFU_GETSTATE class request code.
pub const DFU_GETSTATE: u8 = 0x05;

/// DFU_ABORT class request code.
pub const DFU_ABORT: u8 = 0x06;

/// Download sub-command byte: report the supported command list.
pub const CMD_GET_COMMANDS: u8 = 0x00;

/// Download sub-command byte: set the address pointer.
pub const CMD_SET_ADDRESS_POINTER: u8 = 0x21;

/// Download sub-command byte: erase a page, or everything.
pub const CMD_ERASE: u8 = 0x41;

/// The type of a control request, from the `bmRequestType` field.
#[derive(Clone, Copy, PartialEq, Eq, Structural, Debug)]
pub enum RequestType {
    /// A request of the USB standard.
    Standard,
    /// A class-specific request.
    Class,
    /// A vendor-specific request.
    Vendor,
    /// The reserved request type.
    Reserved,
}

/// The recipient of a control request, from the `bmRequestType` field.
#[derive(Clone, Copy, PartialEq, Eq, Structural, Debug)]
pub enum Recipient {
    /// The device itself.
    Device,
    /// One interface of the device.
    Interface,
    /// One endpoint of the device.
    Endpoint,
    /// Another recipient.
    Other,
}

/// A control request as the transport hands it to the engine: the fields
/// of a USB setup packet that the DFU class reads.
#[derive(Clone, Copy, PartialEq, Eq, Structural, Debug)]
pub struct Request {
    /// Type of the request.
    pub request_type: RequestType,
    /// Recipient of the request.
    pub recipient: Recipient,
    /// The `bRequest` code.
    pub request: u8,
    /// The `wValue` field: block number or zero for command blocks.
    pub value: u16,
    /// The `wIndex` field: the interface number the request addresses.
    pub index: u16,
    /// The `wLength` field: length of the data stage.
    pub length: u16,
}

/// Outcome of a device-to-host (IN) control request.
#[derive(PartialEq, Eq, Debug)]
pub enum InResponse {
    /// The request is not for this interface and was left untouched.
    Ignored,
    /// The request was accepted; the bytes are the reply.
    Accepted(Vec<u8>),
    /// The request was rejected: the transport must stall it.
    Rejected,
}

/// Outcome of a host-to-device (OUT) control request.
#[derive(Clone, Copy, PartialEq, Eq, Structural, Debug)]
pub enum OutResponse {
    /// The request is not for this interface and was left untouched.
    Ignored,
    /// The request was accepted.
    Accepted,
    /// The request was rejected: the transport must stall it.
    Rejected,
}

/// Whether a request is addressed to this class interface: class-scoped,
/// interface recipient, index equal to the interface number.
pub open spec fn spec_addressed_to(req: Request, if_num: u8) -> bool {
    &&& req.request_type == RequestType::Class
    &&& req.recipient == Recipient::Interface
    &&& req.index == if_num as u16
}

/// A 32-bit value from four little-endian bytes.
pub open spec fn spec_le32(b0: u8, b1: u8, b2: u8, b3: u8) -> u32 {
    (b0 as u32) | ((b1 as u32) << 8) | ((b2 as u32) << 16) | ((b3 as u32) << 24)
}

/// Little-endian decoding inverts little-endian encoding: the four bytes
/// of `x`, least significant first, decode back to `x`.
pub proof fn lemma_le32_of_bytes(x: u32)
    ensures
        spec_le32(x as u8, (x >> 8) as u8, (x >> 16) as u8, (x >> 24) as u8) == x,
{
    assert(((x as u8) as u32) | ((((x >> 8) as u8) as u32) << 8) | ((((x >> 16) as u8) as u32)
        << 16) | ((((x >> 24) as u8) as u32) << 24) == x) by (bit_vector);
}

/// The record after entering the error state with status `code`.
pub open spec fn spec_with_error(s: DFUStatus, code: DFUStatusCode) -> DFUStatus {
    DFUStatus { status: code, state: DFUState::DfuError, ..s }
}

/// The record after a successful transition to `state`.
pub open spec fn spec_with_state_ok(s: DFUStatus, state: DFUState) -> DFUStatus {
    DFUStatus { status: DFUStatusCode::OK, state: state, ..s }
}

/// Memory address of a transfer block: the address pointer plus the
/// block number times the block size, or nothing if the sum leaves the
/// 32-bit address space. The engine always passes the configured
/// maximum transfer size as the block size, for uploads and for the
/// deferred program stage alike: block numbers address a fixed grid,
/// whatever length a particular request carried, so a short or
/// undersized block still starts at its block boundary.
pub open spec fn spec_block_address(pointer: u32, block_num: u16, size: u16) -> Option<u32> {
    if pointer + block_num * size <= u32::MAX {
        Some((pointer + block_num * size) as u32)
    } else {
        None
    }
}

/// Computes `spec_block_address`: the overflow-checked block address.
pub fn block_address(pointer: u32, block_num: u16, size: u16) -> (r: Option<u32>)
    ensures
        r == spec_block_address(pointer, block_num, size),
{
    proof {
        assert(block_num * size <= 0xFFFF * 0xFFFF) by (nonlinear_arith)
            requires
                block_num <= 0xFFFF,
                size <= 0xFFFF,
        ;
    }
    let offset: u32 = (block_num as u32) * (size as u32);
    if pointer <= u32::MAX - offset {
        Some(pointer + offset)
    } else {
        None
    }
}

/// Whether a DFU_DNLOAD request reaches the back end: only a firmware
/// block from an accepting state is handed to `store_write_buffer`; on
/// every other path the handler decides alone and the back end is left
/// untouched.
pub open spec fn spec_download_stores(s: DFUStatus, value: u16, length: u16, data: Seq<u8>) -> bool {
    &&& (s.state == DFUState::DfuIdle || s.state == DFUState::DfuDnloadIdle)
    &&& length != 0
    &&& value > 1
    &&& data.len() > 0
    &&& data.len() <= 0xFFFF
}

/// Whether a DFU_UPLOAD request reaches the back end: only a block
/// request from an accepting state whose block address fits is handed
/// to `read_block`; on every other path the handler decides alone and
/// the back end is left untouched.
pub open spec fn spec_upload_reads(s: DFUStatus, value: u16, max_transfer: u16) -> bool {
    &&& (s.state == DFUState::DfuIdle || s.state == DFUState::DfuUploadIdle)
    &&& value > 1
    &&& spec_block_address(s.address_pointer, (value - 2) as u16, max_transfer) is Some
}

/// Whether the deferred execution stage reaches the back end: an erase,
/// a manifestation, or a program whose block address fits. An empty
/// slot, a pointer update, the unsupported ReadUnprotect and an
/// overflowing program address are all decided without any back-end
/// call.
pub open spec fn spec_execute_calls(s: DFUStatus, cfg: DFUConfig) -> bool {
    match s.pending {
        Command::EraseAll => true,
        Command::EraseBlock(_) => true,
        Command::LeaveDFU => true,
        Command::WriteMemory { block_num, len: _ } => spec_block_address(
            s.address_pointer,
            block_num,
            cfg.transfer_size,
        ) is Some,
        _ => false,
    }
}

/// The poll timeout the host is told to wait, by the command now in the
/// `pending` slot: the configured duration of the operation the deferred
/// stage is about to run, zero when nothing is pending.
pub open spec fn spec_expected_timeout(pending: Command, cfg: DFUConfig) -> u32 {
    match pending {
        Command::WriteMemory { block_num: _, len: _ } => cfg.program_time_ms,
        Command::EraseAll => cfg.full_erase_time_ms,
        Command::EraseBlock(_) => cfg.erase_time_ms,
        Command::LeaveDFU => cfg.manifestation_time_ms,
        _ => 0,
    }
}

/// Whether a command is a unit of work the deferred stage must execute.
pub open spec fn spec_is_work(c: Command) -> bool {
    match c {
        Command::WriteMemory { block_num: _, len: _ } => true,
        Command::SetAddressPointer(_) => true,
        Command::ReadUnprotect => true,
        Command::EraseAll => true,
        Command::EraseBlock(_) => true,
        Command::Empty => false,
        Command::LeaveDFU => false,
    }
}

/// The state-advance step driven by DFU_GETSTATUS.
///
/// From DfuDnloadSync a buffered unit of work moves to the `pending`
/// slot and the device reports busy; with nothing to execute the device
/// goes straight to DfuDnloadIdle. From DfuManifestSync the buffered
/// LeaveDFU command moves to `pending` and the device enters
/// DfuManifest; once the command slot is empty a manifestation-tolerant
/// device returns to DfuIdle, an intolerant one stays put. Every other
/// state, DfuDnBusy included, is left unchanged: a status poll while
/// busy succeeds without progressing.
pub open spec fn spec_advance(s: DFUStatus, tolerant: bool) -> DFUStatus {
    if s.state == DFUState::DfuDnloadSync {
        if spec_is_work(s.command) {
            DFUStatus {
                pending: s.command,
                command: Command::Empty,
                ..spec_with_state_ok(s, DFUState::DfuDnBusy)
            }
        } else {
            spec_with_state_ok(s, DFUState::DfuDnloadIdle)
        }
    } else if s.state == DFUState::DfuManifestSync {
        if s.command == Command::Empty {
            if tolerant {
                spec_with_state_ok(s, DFUState::DfuIdle)
            } else {
                s
            }
        } else {
            DFUStatus {
                pending: s.command,
                command: Command::Empty,
                ..spec_with_state_ok(s, DFUState::DfuManifest)
            }
        }
    } else {
        s
    }
}


/// The DFU_DNLOAD transition.
///
/// Only DfuIdle and DfuDnloadIdle accept a download; anywhere else the
/// request stalls and the device enters DfuError with ErrStalledPkt. A
/// zero-length request ends the firmware transfer: LeaveDFU is buffered
/// and the device enters DfuManifestSync. With wValue above one the
/// payload is a firmware block: once the back end has buffered it
/// (`store_ok`), WriteMemory is buffered and the device enters
/// DfuDnloadSync; a failed store stalls into DfuError. With wValue zero
/// the first payload byte selects a sub-command: set address pointer
/// (five bytes), erase page (five bytes) or erase all (one byte), each
/// buffering its command and entering DfuDnloadSync. Anything else is
/// malformed and stalls into DfuError.
pub open spec fn spec_download(
    s: DFUStatus,
    value: u16,
    length: u16,
    data: Seq<u8>,
    store_ok: bool,
) -> (bool, DFUStatus) {
    if s.state != DFUState::DfuIdle && s.state != DFUState::DfuDnloadIdle {
        (false, spec_with_error(s, DFUStatusCode::ErrStalledPkt))
    } else if length == 0 {
        (
            true,
            DFUStatus {
                command: Command::LeaveDFU,
                ..spec_with_state_ok(s, DFUState::DfuManifestSync)
            },
        )
    } else if value > 1 && data.len() > 0 && data.len() <= 0xFFFF {
        if store_ok {
            (
                true,
                DFUStatus {
                    command: Command::WriteMemory {
                        block_num: (value - 2) as u16,
                        len: data.len() as u16,
                    },
                    ..spec_with_state_ok(s, DFUState::DfuDnloadSync)
                },
            )
        } else {
            (false, spec_with_error(s, DFUStatusCode::ErrStalledPkt))
        }
    } else if value == 0 && length >= 1 && data.len() >= 1 {
        if data[0] == CMD_SET_ADDRESS_POINTER && length == 5 && data.len() == 5 {
            (
                true,
                DFUStatus {
                    command: Command::SetAddressPointer(
                        spec_le32(data[1], data[2], data[3], data[4]),
                    ),
                    ..spec_with_state_ok(s, DFUState::DfuDnloadSync)
                },
            )
        } else if data[0] == CMD_ERASE && length == 5 && data.len() == 5 {
            (
                true,
                DFUStatus {
                    command: Command::EraseBlock(spec_le32(data[1], data[2], data[3], data[4])),
                    ..spec_with_state_ok(s, DFUState::DfuDnloadSync)
                },
            )
        } else if data[0] == CMD_ERASE && length == 1 {
            (
                true,
                DFUStatus {
                    command: Command::EraseAll,
                    ..spec_with_state_ok(s, DFUState::DfuDnloadSync)
                },
            )
        } else {
            (false, spec_with_error(s, DFUStatusCode::ErrStalledPkt))
        }
    } else {
        (false, spec_with_error(s, DFUStatusCode::ErrStalledPkt))
    }
}

/// The DFU_UPLOAD transition.
///
/// Only DfuIdle and DfuUploadIdle accept an upload. wValue zero asks for
/// the supported-command list, which needs a three-byte buffer; the
/// device returns to DfuIdle. wValue above one asks for a block: the
/// transfer size is the smaller of the configured maximum and the
/// requested length, the address is the overflow-checked block address
/// (overflow stalls with ErrAddress), and the back end's read decides
/// the rest: a block shorter than the configured maximum is the last
/// one and the device returns to DfuIdle, a full block leaves it in
/// DfuUploadIdle, and a read error stalls into DfuError with the mapped
/// code. wValue one is malformed and stalls.
pub open spec fn spec_upload(
    s: DFUStatus,
    value: u16,
    length: u16,
    max_transfer: u16,
    read_ok: bool,
    read_len: int,
    read_err: DFUMemError,
) -> (bool, DFUStatus) {
    if s.state != DFUState::DfuIdle && s.state != DFUState::DfuUploadIdle {
        (false, spec_with_error(s, DFUStatusCode::ErrStalledPkt))
    } else if value == 0 {
        if length >= 3 {
            (true, spec_with_state_ok(s, DFUState::DfuIdle))
        } else {
            (false, spec_with_error(s, DFUStatusCode::ErrStalledPkt))
        }
    } else if value > 1 {
        match spec_block_address(s.address_pointer, (value - 2) as u16, max_transfer) {
            Some(_) => {
                if read_ok {
                    if read_len < max_transfer {
                        (true, spec_with_state_ok(s, DFUState::DfuIdle))
                    } else {
                        (true, spec_with_state_ok(s, DFUState::DfuUploadIdle))
                    }
                } else {
                    (false, spec_with_error(s, spec_mem_error_code(read_err)))
                }
            },
            None => (false, spec_with_error(s, DFUStatusCode::ErrAddress)),
        }
    } else {
        (false, spec_with_error(s, DFUStatusCode::ErrStalledPkt))
    }
}

/// The DFU_GETSTATUS transition.
///
/// A buffer of at least six bytes is required; a smaller one stalls into
/// DfuError. Otherwise the state-advance step runs, the poll timeout is
/// set to the expected duration of whatever is now pending, and the
/// six-byte reply encodes the resulting record.
pub open spec fn spec_get_status(s: DFUStatus, length: u16, cfg: DFUConfig) -> (bool, DFUStatus) {
    if length >= 6 {
        let advanced = spec_advance(s, cfg.manifestation_tolerant);
        (
            true,
            DFUStatus {
                poll_timeout: spec_expected_timeout(advanced.pending, cfg),
                ..advanced
            },
        )
    } else {
        (false, spec_with_error(s, DFUStatusCode::ErrStalledPkt))
    }
}

/// The DFU_GETSTATE transition: a non-empty buffer gets the state byte
/// and changes nothing; an empty one stalls into DfuError.
pub open spec fn spec_get_state(s: DFUStatus, length: u16) -> (bool, DFUStatus) {
    if length > 0 {
        (true, s)
    } else {
        (false, spec_with_error(s, DFUStatusCode::ErrStalledPkt))
    }
}

/// The DFU_CLRSTATUS transition: only DfuError accepts it, clearing both
/// command slots and returning to DfuIdle. Clearing status in any other
/// state is itself a protocol violation and stalls into DfuError.
pub open spec fn spec_clear_status(s: DFUStatus) -> (bool, DFUStatus) {
    if s.state == DFUState::DfuError {
        (
            true,
            DFUStatus {
                command: Command::Empty,
                pending: Command::Empty,
                ..spec_with_state_ok(s, DFUState::DfuIdle)
            },
        )
    } else {
        (false, spec_with_error(s, DFUStatusCode::ErrStalledPkt))
    }
}

/// The states from which DFU_ABORT returns to DfuIdle.
pub open spec fn spec_abortable(state: DFUState) -> bool {
    ||| state == DFUState::DfuIdle
    ||| state == DFUState::DfuUploadIdle
    ||| state == DFUState::DfuDnloadIdle
    ||| state == DFUState::DfuDnloadSync
    ||| state == DFUState::DfuManifestSync
}

/// The DFU_ABORT transition: from an abortable state both command slots
/// are cleared and the device returns to DfuIdle; anywhere else the
/// request merely stalls, and unlike DFU_CLRSTATUS leaves the record
/// unchanged.
pub open spec fn spec_abort(s: DFUStatus) -> (bool, DFUStatus) {
    if spec_abortable(s.state) {
        (
            true,
            DFUStatus {
                command: Command::Empty,
                pending: Command::Empty,
                ..spec_with_state_ok(s, DFUState::DfuIdle)
            },
        )
    } else {
        (false, s)
    }
}

/// The transition on a USB bus reset, after the back end's reset hook
/// returned: a reset in the middle of any activity leaves the transfer
/// presumed corrupt, so every state but the pre-activity idle ones is
/// forced into DfuError with ErrUsbr.
pub open spec fn spec_reset(s: DFUStatus) -> DFUStatus {
    if s.state == DFUState::DfuIdle || s.state == DFUState::AppDetach || s.state
        == DFUState::AppIdle || s.state == DFUState::DfuManifestWaitReset {
        s
    } else {
        spec_with_error(s, DFUStatusCode::ErrUsbr)
    }
}

/// The deferred execution stage, given the back end's outcome.
///
/// Whatever was pending is executed and the slot is cleared, success or
/// failure. Erases and programs return to DfuDnloadSync on success;
/// SetAddressPointer moves the pointer and returns to DfuDnloadSync; a
/// WriteMemory is programmed at the pointer plus the block number times
/// the configured transfer size (a short final block still starts at
/// its block boundary), and an overflowing block address fails with
/// ErrAddress without reaching the back end; LeaveDFU enters
/// DfuManifestSync when the back end is manifestation tolerant and
/// DfuManifestWaitReset when it is not; ReadUnprotect is permanently
/// unsupported and fails with ErrStalledPkt. Back-end failures enter
/// DfuError with the mapped code: `mem_err` for memory operations,
/// `manif_err` for manifestation, each consulted only when
/// `backend_ok` is false.
pub open spec fn spec_execute(
    s: DFUStatus,
    cfg: DFUConfig,
    backend_ok: bool,
    mem_err: DFUMemError,
    manif_err: DFUManifestationError,
) -> DFUStatus {
    let c = DFUStatus { pending: Command::Empty, ..s };
    match s.pending {
        Command::Empty => c,
        Command::EraseAll => {
            if backend_ok {
                spec_with_state_ok(c, DFUState::DfuDnloadSync)
            } else {
                spec_with_error(c, spec_mem_error_code(mem_err))
            }
        },
        Command::EraseBlock(_) => {
            if backend_ok {
                spec_with_state_ok(c, DFUState::DfuDnloadSync)
            } else {
                spec_with_error(c, spec_mem_error_code(mem_err))
            }
        },
        Command::LeaveDFU => {
            if backend_ok {
                if cfg.manifestation_tolerant {
                    spec_with_state_ok(c, DFUState::DfuManifestSync)
                } else {
                    spec_with_state_ok(c, DFUState::DfuManifestWaitReset)
                }
            } else {
                spec_with_error(c, spec_manifestation_error_code(manif_err))
            }
        },
        Command::ReadUnprotect => spec_with_error(c, DFUStatusCode::ErrStalledPkt),
        Command::WriteMemory { block_num, len: _ } => {
            match spec_block_address(s.address_pointer, block_num, cfg.transfer_size) {
                Some(_) => {
                    if backend_ok {
                        spec_with_state_ok(c, DFUState::DfuDnloadSync)
                    } else {
                        spec_with_error(c, spec_mem_error_code(mem_err))
                    }
                },
                None => spec_with_error(c, DFUStatusCode::ErrAddress),
            }
        },
        Command::SetAddressPointer(p) => (
            DFUStatus { address_pointer: p, ..spec_with_state_ok(c, DFUState::DfuDnloadSync) }
        ),
    }
}


/// Relation between the records before and after a DFU_DNLOAD request
/// and its outcome. The back end's buffering of the payload is the one
/// step the engine cannot decide, so an accepted outcome is tied to
/// `spec_download` with a successful store and a rejected one to
/// `spec_download` with a failed store; on every path that does not
/// reach the back end the two coincide and the outcome is fixed.
pub open spec fn spec_download_post(
    pre: DFUStatus,
    post: DFUStatus,
    value: u16,
    length: u16,
    data: Seq<u8>,
    r: OutResponse,
) -> bool {
    let stored = spec_download(pre, value, length, data, true);
    let unstored = spec_download(pre, value, length, data, false);
    ||| (r == OutResponse::Accepted && stored.0 && post == stored.1)
    ||| (r == OutResponse::Rejected && !unstored.0 && post == unstored.1)
}

/// Relation between the records before and after a DFU_UPLOAD request
/// and its outcome. An accepted outcome carries the reply bytes: the
/// command list for wValue zero, otherwise whatever block the back end
/// read, whose length decides between DfuIdle and DfuUploadIdle exactly
/// as `spec_upload` says. A rejected outcome matches `spec_upload` with
/// a failed read for some memory error.
pub open spec fn spec_upload_post(
    pre: DFUStatus,
    post: DFUStatus,
    value: u16,
    length: u16,
    max_transfer: u16,
    r: InResponse,
) -> bool {
    match r {
        InResponse::Accepted(reply) => {
            let t = spec_upload(
                pre,
                value,
                length,
                max_transfer,
                true,
                reply@.len() as int,
                DFUMemError::Unknown,
            );
            &&& t.0
            &&& post == t.1
            &&& (value == 0 ==> reply@ == seq![
                CMD_GET_COMMANDS,
                CMD_SET_ADDRESS_POINTER,
                CMD_ERASE,
            ])
        },
        InResponse::Rejected => {
            exists|e: DFUMemError|
                {
                    let t = #[trigger] spec_upload(pre, value, length, max_transfer, false, 0, e);
                    !t.0 && post == t.1
                }
        },
        InResponse::Ignored => false,
    }
}

/// Relation between the records before and after a DFU_GETSTATUS
/// request and its outcome: acceptance and the post record follow
/// `spec_get_status`, and the reply is the six-byte encoding of the
/// post record.
pub open spec fn spec_get_status_post(
    pre: DFUStatus,
    post: DFUStatus,
    length: u16,
    cfg: DFUConfig,
    r: InResponse,
) -> bool {
    let t = spec_get_status(pre, length, cfg);
    match r {
        InResponse::Accepted(reply) => t.0 && post == t.1 && reply@ == crate::status::spec_encode(
            post,
        ),
        InResponse::Rejected => !t.0 && post == t.1,
        InResponse::Ignored => false,
    }
}

/// Relation between the records before and after a DFU_GETSTATE request
/// and its outcome: acceptance follows `spec_get_state`, and the reply
/// is the single state byte of the unchanged record.
pub open spec fn spec_get_state_post(pre: DFUStatus, post: DFUStatus, length: u16, r: InResponse) -> bool {
    let t = spec_get_state(pre, length);
    match r {
        InResponse::Accepted(reply) => t.0 && post == t.1 && reply@ == seq![
            spec_state_byte(pre.state),
        ],
        InResponse::Rejected => !t.0 && post == t.1,
        InResponse::Ignored => false,
    }
}

/// Relation between the records before and after a DFU_CLRSTATUS
/// request and its outcome: exactly `spec_clear_status`.
pub open spec fn spec_clear_status_post(pre: DFUStatus, post: DFUStatus, r: OutResponse) -> bool {
    let t = spec_clear_status(pre);
    &&& post == t.1
    &&& r == (if t.0 {
        OutResponse::Accepted
    } else {
        OutResponse::Rejected
    })
}

/// Relation between the records before and after a DFU_ABORT request
/// and its outcome: exactly `spec_abort`.
pub open spec fn spec_abort_post(pre: DFUStatus, post: DFUStatus, r: OutResponse) -> bool {
    let t = spec_abort(pre);
    &&& post == t.1
    &&& r == (if t.0 {
        OutResponse::Accepted
    } else {
        OutResponse::Rejected
    })
}

/// Relation between the records before and after the deferred execution
/// stage: `spec_execute` for whatever outcome the back end produced. A
/// success consults neither error; a failure consults exactly the error
/// of the operation that ran.
pub open spec fn spec_poll_post(pre: DFUStatus, post: DFUStatus, cfg: DFUConfig) -> bool {
    ||| post == spec_execute(pre, cfg, true, DFUMemError::Unknown, DFUManifestationError::Unknown)
    ||| (exists|e: DFUMemError|
        post == #[trigger] spec_execute(pre, cfg, false, e, DFUManifestationError::Unknown))
    ||| (exists|e: DFUManifestationError|
        post == #[trigger] spec_execute(pre, cfg, false, DFUMemError::Unknown, e))
}

/// The nine-byte DFU functional descriptor for a configuration:
/// length, descriptor type 0x21, bmAttributes (bit 3 will-detach always
/// set, bit 2 manifestation tolerant, bit 1 can upload, bit 0 can
/// download), 16-bit detach timeout, 16-bit transfer size, and the
/// protocol version 1.1a.
pub open spec fn spec_functional_descriptor(cfg: DFUConfig) -> Seq<u8> {
    seq![
        9u8,
        0x21u8,
        (0x08u8 | (if cfg.manifestation_tolerant {
            0x04u8
        } else {
            0u8
        }) | (if cfg.has_upload {
            0x02u8
        } else {
            0u8
        }) | (if cfg.has_download {
            0x01u8
        } else {
            0u8
        })),
        cfg.detach_timeout as u8,
        (cfg.detach_timeout >> 8) as u8,
        cfg.transfer_size as u8,
        (cfg.transfer_size >> 8) as u8,
        0x1au8,
        0x01u8,
    ]
}

/// The DFU functional descriptor the transport must emit during
/// enumeration, as `spec_functional_descriptor` lays it out.
pub fn functional_descriptor(cfg: &DFUConfig) -> (r: [u8; 9])
    ensures
        r@ == spec_functional_descriptor(*cfg),
{
    let bm_attributes: u8 = 0x08 | (if cfg.manifestation_tolerant {
        0x04
    } else {
        0
    }) | (if cfg.has_upload {
        0x02
    } else {
        0
    }) | (if cfg.has_download {
        0x01
    } else {
        0
    });
    [
        9,
        0x21,
        bm_attributes,
        cfg.detach_timeout as u8,
        (cfg.detach_timeout >> 8) as u8,
        cfg.transfer_size as u8,
        (cfg.transfer_size >> 8) as u8,
        0x1a,
        0x01,
    ]
}

/// A 32-bit value from four little-endian bytes.
fn le32(b0: u8, b1: u8, b2: u8, b3: u8) -> (r: u32)
    ensures
        r == spec_le32(b0, b1, b2, b3),
{
    (b0 as u32) | ((b1 as u32) << 8) | ((b2 as u32) << 16) | ((b3 as u32) << 24)
}

/// The DFU protocol engine of one device interface: the status record,
/// the configuration, the assigned interface number and the memory back
/// end. The transport layer feeds it control requests and bus resets
/// and runs the deferred execution stage through [`DFUClass::poll`].
pub struct DFUClass<M: DFUMemIO> {
    /// Interface number assigned to this class by the device.
    pub if_num: u8,
    /// Configuration supplied by the memory back end.
    pub config: DFUConfig,
    /// The status record.
    pub status: DFUStatus,
    /// The memory back end.
    pub mem: M,
}

impl<M: DFUMemIO> DFUClass<M> {
    /// A new DFU interface: idle, no error, address pointer at the
    /// configured initial value.
    pub fn new(config: DFUConfig, if_num: u8, mem: M) -> (r: Self)
        ensures
            r.config == config,
            r.if_num == if_num,
            r.status == crate::status::spec_initial_status(config.initial_address_pointer),
    {
        DFUClass {
            if_num,
            config,
            status: DFUStatus::new(config.initial_address_pointer),
            mem,
        }
    }

    /// May be called just after construction to report "device detected
    /// unexpected power on reset" instead of the usual DfuIdle.
    pub fn set_unexpected_reset_state(&mut self)
        ensures
            final(self).status == spec_with_error(old(self).status, DFUStatusCode::ErrPOR),
            final(self).config == old(self).config,
            final(self).if_num == old(self).if_num,
            final(self).mem == old(self).mem,
    {
        self.status.new_state_status(DFUState::DfuError, DFUStatusCode::ErrPOR);
    }

    /// May be called just after construction to report "device firmware
    /// is corrupt" instead of the usual DfuIdle.
    pub fn set_firmware_corrupted_state(&mut self)
        ensures
            final(self).status == spec_with_error(old(self).status, DFUStatusCode::ErrFirmware),
            final(self).config == old(self).config,
            final(self).if_num == old(self).if_num,
            final(self).mem == old(self).mem,
    {
        self.status.new_state_status(DFUState::DfuError, DFUStatusCode::ErrFirmware);
    }

    /// The current value of the address pointer.
    pub fn get_address_pointer(&self) -> (r: u32)
        ensures
            r == self.status.address_pointer,
    {
        self.status.address_pointer
    }

    /// The poll timeout to report for the command now pending.
    fn expected_timeout(&self) -> (r: u32)
        ensures
            r == spec_expected_timeout(self.status.pending, self.config),
    {
        match self.status.pending {
            Command::WriteMemory { block_num: _, len: _ } => self.config.program_time_ms,
            Command::EraseAll => self.config.full_erase_time_ms,
            Command::EraseBlock(_) => self.config.erase_time_ms,
            Command::LeaveDFU => self.config.manifestation_time_ms,
            _ => 0,
        }
    }

    /// The state-advance step of DFU_GETSTATUS: `spec_advance`.
    fn process(&mut self)
        ensures
            final(self).status == spec_advance(
                old(self).status,
                old(self).config.manifestation_tolerant,
            ),
            final(self).config == old(self).config,
            final(self).if_num == old(self).if_num,
            final(self).mem == old(self).mem,
    {
        let state = self.status.state();
        if state == DFUState::DfuDnloadSync {
            match self.status.command {
                Command::WriteMemory { block_num: _, len: _ }
                | Command::SetAddressPointer(_)
                | Command::ReadUnprotect
                | Command::EraseAll
                | Command::EraseBlock(_) => {
                    self.status.pending = self.status.command;
                    self.status.command = Command::Empty;
                    self.status.new_state_ok(DFUState::DfuDnBusy);
                },
                _ => {
                    self.status.new_state_ok(DFUState::DfuDnloadIdle);
                },
            }
        } else if state == DFUState::DfuManifestSync {
            match self.status.command {
                Command::Empty => {
                    if self.config.manifestation_tolerant {
                        self.status.new_state_ok(DFUState::DfuIdle);
                    }
                },
                _ => {
                    self.status.pending = self.status.command;
                    self.status.command = Command::Empty;
                    self.status.new_state_ok(DFUState::DfuManifest);
                },
            }
        }
    }

    /// Handles DFU_CLRSTATUS: `spec_clear_status`.
    pub fn clear_status(&mut self) -> (r: OutResponse)
        ensures
            spec_clear_status_post(old(self).status, final(self).status, r),
            final(self).config == old(self).config,
            final(self).if_num == old(self).if_num,
            final(self).mem == old(self).mem,
    {
        match self.status.state() {
            DFUState::DfuError => {
                self.status.command = Command::Empty;
                self.status.pending = Command::Empty;
                self.status.new_state_ok(DFUState::DfuIdle);
                OutResponse::Accepted
            },
            _ => {
                self.status.new_state_status(DFUState::DfuError, DFUStatusCode::ErrStalledPkt);
                OutResponse::Rejected
            },
        }
    }

    /// Handles DFU_ABORT: `spec_abort`.
    pub fn abort(&mut self) -> (r: OutResponse)
        ensures
            spec_abort_post(old(self).status, final(self).status, r),
            final(self).config == old(self).config,
            final(self).if_num == old(self).if_num,
            final(self).mem == old(self).mem,
    {
        match self.status.state() {
            DFUState::DfuIdle
            | DFUState::DfuUploadIdle
            | DFUState::DfuDnloadIdle
            | DFUState::DfuDnloadSync
            | DFUState::DfuManifestSync => {
                self.status.command = Command::Empty;
                self.status.pending = Command::Empty;
                self.status.new_state_ok(DFUState::DfuIdle);
                OutResponse::Accepted
            },
            _ => OutResponse::Rejected,
        }
    }

    /// Handles DFU_GETSTATE: `spec_get_state`.
    pub fn get_state(&mut self, req: &Request) -> (r: InResponse)
        ensures
            spec_get_state_post(old(self).status, final(self).status, req.length, r),
            final(self).config == old(self).config,
            final(self).if_num == old(self).if_num,
            final(self).mem == old(self).mem,
    {
        if req.length > 0 {
            let v = self.status.state().byte();
            let mut reply: Vec<u8> = Vec::new();
            reply.push(v);
            proof {
                assert(reply@ =~= seq![spec_state_byte(self.status.state)]);
            }
            InResponse::Accepted(reply)
        } else {
            self.status.new_state_status(DFUState::DfuError, DFUStatusCode::ErrStalledPkt);
            InResponse::Rejected
        }
    }

    /// Handles DFU_GETSTATUS: `spec_get_status`. The reply encodes the
    /// record after the state-advance step, with the poll timeout of
    /// whatever became pending.
    pub fn get_status(&mut self, req: &Request) -> (r: InResponse)
        ensures
            spec_get_status_post(
                old(self).status,
                final(self).status,
                req.length,
                old(self).config,
                r,
            ),
            final(self).config == old(self).config,
            final(self).if_num == old(self).if_num,
            final(self).mem == old(self).mem,
    {
        if req.length >= 6 {
            self.process();
            self.status.poll_timeout = self.expected_timeout();
            let e = self.status.encode();
            let mut reply: Vec<u8> = Vec::new();
            reply.push(e[0]);
            reply.push(e[1]);
            reply.push(e[2]);
            reply.push(e[3]);
            reply.push(e[4]);
            reply.push(e[5]);
            proof {
                assert(reply@ =~= crate::status::spec_encode(self.status));
            }
            InResponse::Accepted(reply)
        } else {
            self.status.new_state_status(DFUState::DfuError, DFUStatusCode::ErrStalledPkt);
            InResponse::Rejected
        }
    }

    /// Handles DFU_DNLOAD: `spec_download`, with the back end deciding
    /// only whether a firmware block could be buffered.
    pub fn download(&mut self, req: &Request, data: &[u8]) -> (r: OutResponse)
        ensures
            spec_download_post(
                old(self).status,
                final(self).status,
                req.value,
                req.length,
                data@,
                r,
            ),
            final(self).config == old(self).config,
            final(self).if_num == old(self).if_num,
            !spec_download_stores(old(self).status, req.value, req.length, data@) ==> final(self).mem
                == old(self).mem,
    {
        let state = self.status.state();
        if state != DFUState::DfuIdle && state != DFUState::DfuDnloadIdle {
            self.status.new_state_status(DFUState::DfuError, DFUStatusCode::ErrStalledPkt);
            return OutResponse::Rejected;
        }
        if req.length == 0 {
            self.status.command = Command::LeaveDFU;
            self.status.new_state_ok(DFUState::DfuManifestSync);
            return OutResponse::Accepted;
        }
        if req.value > 1 {
            if data.len() > 0 && data.len() <= 0xFFFF {
                match self.mem.store_write_buffer(data) {
                    Err(_) => {
                        self.status.new_state_status(
                            DFUState::DfuError,
                            DFUStatusCode::ErrStalledPkt,
                        );
                        return OutResponse::Rejected;
                    },
                    Ok(_) => {
                        let block_num = req.value - 2;
                        self.status.command = Command::WriteMemory {
                            block_num,
                            len: data.len() as u16,
                        };
                        self.status.new_state_ok(DFUState::DfuDnloadSync);
                        return OutResponse::Accepted;
                    },
                }
            }
        } else if req.value == 0 {
            if req.length >= 1 && data.len() >= 1 {
                let command = data[0];
                if command == CMD_SET_ADDRESS_POINTER {
                    if req.length == 5 && data.len() == 5 {
                        let addr = le32(data[1], data[2], data[3], data[4]);
                        self.status.command = Command::SetAddressPointer(addr);
                        self.status.new_state_ok(DFUState::DfuDnloadSync);
                        return OutResponse::Accepted;
                    }
                } else if command == CMD_ERASE {
                    if req.length == 5 && data.len() == 5 {
                        let addr = le32(data[1], data[2], data[3], data[4]);
                        self.status.command = Command::EraseBlock(addr);
                        self.status.new_state_ok(DFUState::DfuDnloadSync);
                        return OutResponse::Accepted;
                    } else if req.length == 1 {
                        self.status.command = Command::EraseAll;
                        self.status.new_state_ok(DFUState::DfuDnloadSync);
                        return OutResponse::Accepted;
                    }
                }
            }
        }
        self.status.new_state_status(DFUState::DfuError, DFUStatusCode::ErrStalledPkt);
        OutResponse::Rejected
    }

    /// Handles DFU_UPLOAD: `spec_upload`, with the back end deciding
    /// only what its read returned.
    pub fn upload(&mut self, req: &Request) -> (r: InResponse)
        ensures
            spec_upload_post(
                old(self).status,
                final(self).status,
                req.value,
                req.length,
                old(self).config.transfer_size,
                r,
            ),
            final(self).config == old(self).config,
            final(self).if_num == old(self).if_num,
            !spec_upload_reads(old(self).status, req.value, old(self).config.transfer_size)
                ==> final(self).mem == old(self).mem,
    {
        let state = self.status.state();
        if state != DFUState::DfuIdle && state != DFUState::DfuUploadIdle {
            self.status.new_state_status(DFUState::DfuError, DFUStatusCode::ErrStalledPkt);
            proof {
                let t = spec_upload(
                    old(self).status,
                    req.value,
                    req.length,
                    old(self).config.transfer_size,
                    false,
                    0,
                    DFUMemError::Unknown,
                );
                assert(!t.0 && self.status == t.1);
            }
            return InResponse::Rejected;
        }
        if req.value == 0 {
            if req.length >= 3 {
                self.status.new_state_ok(DFUState::DfuIdle);
                let mut reply: Vec<u8> = Vec::new();
                reply.push(CMD_GET_COMMANDS);
                reply.push(CMD_SET_ADDRESS_POINTER);
                reply.push(CMD_ERASE);
                proof {
                    assert(reply@ =~= seq![CMD_GET_COMMANDS, CMD_SET_ADDRESS_POINTER, CMD_ERASE]);
                }
                return InResponse::Accepted(reply);
            }
        } else if req.value > 1 {
            let block_num = req.value - 2;
            let transfer_size = if self.config.transfer_size < req.length {
                self.config.transfer_size
            } else {
                req.length
            };
            match block_address(self.status.address_pointer, block_num, self.config.transfer_size) {
                Some(address) => {
                    match self.mem.read_block(address, transfer_size as usize) {
                        Ok(b) => {
                            if b.len() < self.config.transfer_size as usize {
                                self.status.new_state_ok(DFUState::DfuIdle);
                            } else {
                                self.status.new_state_ok(DFUState::DfuUploadIdle);
                            }
                            return InResponse::Accepted(b);
                        },
                        Err(e) => {
                            let code = DFUStatusCode::from(e);
                            self.status.new_state_status(DFUState::DfuError, code);
                            proof {
                                let t = spec_upload(
                                    old(self).status,
                                    req.value,
                                    req.length,
                                    old(self).config.transfer_size,
                                    false,
                                    0,
                                    e,
                                );
                                assert(!t.0 && self.status == t.1);
                            }
                            return InResponse::Rejected;
                        },
                    }
                },
                None => {
                    self.status.new_state_status(DFUState::DfuError, DFUStatusCode::ErrAddress);
                    proof {
                        let t = spec_upload(
                            old(self).status,
                            req.value,
                            req.length,
                            old(self).config.transfer_size,
                            false,
                            0,
                            DFUMemError::Unknown,
                        );
                        assert(!t.0 && self.status == t.1);
                    }
                    return InResponse::Rejected;
                },
            }
        }
        self.status.new_state_status(DFUState::DfuError, DFUStatusCode::ErrStalledPkt);
        proof {
            let t = spec_upload(
                old(self).status,
                req.value,
                req.length,
                old(self).config.transfer_size,
                false,
                0,
                DFUMemError::Unknown,
            );
            assert(!t.0 && self.status == t.1);
        }
        InResponse::Rejected
    }

    /// The deferred execution stage: executes whatever command is
    /// pending through the memory back end and clears the slot, success
    /// or failure, as `spec_execute` says. The transport layer calls
    /// this after every transfer, so a command accepted at the last
    /// status poll runs before the next request arrives.
    pub fn poll(&mut self)
        ensures
            spec_poll_post(old(self).status, final(self).status, old(self).config),
            final(self).config == old(self).config,
            final(self).if_num == old(self).if_num,
            !spec_execute_calls(old(self).status, old(self).config) ==> final(self).mem
                == old(self).mem,
    {
        let pending = self.status.pending;
        match pending {
            Command::EraseAll => {
                match self.mem.erase_all_blocks() {
                    Err(e) => {
                        let code = DFUStatusCode::from(e);
                        self.status.new_state_status(DFUState::DfuError, code);
                        self.status.pending = Command::Empty;
                        proof {
                            assert(self.status == spec_execute(
                                old(self).status,
                                old(self).config,
                                false,
                                e,
                                DFUManifestationError::Unknown,
                            ));
                        }
                    },
                    Ok(_) => {
                        self.status.new_state_ok(DFUState::DfuDnloadSync);
                        self.status.pending = Command::Empty;
                    },
                }
            },
            Command::EraseBlock(b) => {
                match self.mem.erase_block(b) {
                    Err(e) => {
                        let code = DFUStatusCode::from(e);
                        self.status.new_state_status(DFUState::DfuError, code);
                        self.status.pending = Command::Empty;
                        proof {
                            assert(self.status == spec_execute(
                                old(self).status,
                                old(self).config,
                                false,
                                e,
                                DFUManifestationError::Unknown,
                            ));
                        }
                    },
                    Ok(_) => {
                        self.status.new_state_ok(DFUState::DfuDnloadSync);
                        self.status.pending = Command::Empty;
                    },
                }
            },
            Command::LeaveDFU => {
                let mr = self.mem.manifestation();
                match mr {
                    Err(e) => {
                        let code = DFUStatusCode::from(e);
                        self.status.new_state_status(DFUState::DfuError, code);
                        self.status.pending = Command::Empty;
                        proof {
                            assert(self.status == spec_execute(
                                old(self).status,
                                old(self).config,
                                false,
                                DFUMemError::Unknown,
                                e,
                            ));
                        }
                    },
                    Ok(_) => {
                        if self.config.manifestation_tolerant {
                            self.status.new_state_ok(DFUState::DfuManifestSync);
                        } else {
                            self.status.new_state_ok(DFUState::DfuManifestWaitReset);
                        }
                        self.status.pending = Command::Empty;
                    },
                }
            },
            Command::ReadUnprotect => {
                self.status.new_state_status(DFUState::DfuError, DFUStatusCode::ErrStalledPkt);
                self.status.pending = Command::Empty;
            },
            Command::WriteMemory { block_num, len } => {
                match block_address(self.status.address_pointer, block_num, self.config.transfer_size) {
                    Some(pointer) => {
                        match self.mem.program_block(pointer, len as usize) {
                            Err(e) => {
                                let code = DFUStatusCode::from(e);
                                self.status.new_state_status(DFUState::DfuError, code);
                                self.status.pending = Command::Empty;
                                proof {
                                    assert(self.status == spec_execute(
                                        old(self).status,
                                        old(self).config,
                                        false,
                                        e,
                                        DFUManifestationError::Unknown,
                                    ));
                                }
                            },
                            Ok(_) => {
                                self.status.new_state_ok(DFUState::DfuDnloadSync);
                                self.status.pending = Command::Empty;
                            },
                        }
                    },
                    None => {
                        self.status.new_state_status(
                            DFUState::DfuError,
                            DFUStatusCode::ErrAddress,
                        );
                        self.status.pending = Command::Empty;
                    },
                }
            },
            Command::SetAddressPointer(p) => {
                self.status.address_pointer = p;
                self.status.new_state_ok(DFUState::DfuDnloadSync);
                self.status.pending = Command::Empty;
            },
            Command::Empty => {
                self.status.pending = Command::Empty;
            },
        }
    }

    /// The USB bus reset handler: notifies the back end (which may not
    /// return) and then forces every state but the pre-activity idle
    /// ones into DfuError with ErrUsbr, as `spec_reset` says.
    pub fn reset(&mut self)
        ensures
            final(self).status == spec_reset(old(self).status),
            final(self).config == old(self).config,
            final(self).if_num == old(self).if_num,
    {
        self.mem.usb_reset();
        match self.status.state() {
            DFUState::DfuUploadIdle
            | DFUState::DfuDnloadIdle
            | DFUState::DfuDnloadSync
            | DFUState::DfuDnBusy
            | DFUState::DfuError
            | DFUState::DfuManifest
            | DFUState::DfuManifestSync => {
                self.status.new_state_status(DFUState::DfuError, DFUStatusCode::ErrUsbr);
            },
            DFUState::DfuIdle
            | DFUState::AppDetach
            | DFUState::AppIdle
            | DFUState::DfuManifestWaitReset => {},
        }
    }

    /// Dispatches a device-to-host control request. A request that is
    /// not class-scoped, not for an interface, or not for this
    /// interface's number is ignored so another class may claim it; an
    /// unrecognized request inside this class's space is rejected.
    pub fn control_in(&mut self, req: &Request) -> (r: InResponse)
        ensures
            final(self).config == old(self).config,
            final(self).if_num == old(self).if_num,
            !spec_addressed_to(*req, old(self).if_num) ==> (r == InResponse::Ignored && *final(self)
                == *old(self)),
            spec_addressed_to(*req, old(self).if_num) && !(req.request == DFU_UPLOAD
                && spec_upload_reads(old(self).status, req.value, old(self).config.transfer_size))
                ==> final(self).mem == old(self).mem,
            spec_addressed_to(*req, old(self).if_num) ==> {
                if req.request == DFU_UPLOAD {
                    spec_upload_post(
                        old(self).status,
                        final(self).status,
                        req.value,
                        req.length,
                        old(self).config.transfer_size,
                        r,
                    )
                } else if req.request == DFU_GETSTATUS {
                    spec_get_status_post(
                        old(self).status,
                        final(self).status,
                        req.length,
                        old(self).config,
                        r,
                    )
                } else if req.request == DFU_GETSTATE {
                    spec_get_state_post(old(self).status, final(self).status, req.length, r)
                } else {
                    r == InResponse::Rejected && *final(self) == *old(self)
                }
            },
    {
        if !self.is_addressed_to(req) {
            return InResponse::Ignored;
        }
        if req.request == DFU_UPLOAD {
            self.upload(req)
        } else if req.request == DFU_GETSTATUS {
            self.get_status(req)
        } else if req.request == DFU_GETSTATE {
            self.get_state(req)
        } else {
            InResponse::Rejected
        }
    }

    /// Dispatches a host-to-device control request with its data stage.
    /// Scoping is as for [`DFUClass::control_in`].
    pub fn control_out(&mut self, req: &Request, data: &[u8]) -> (r: OutResponse)
        ensures
            final(self).config == old(self).config,
            final(self).if_num == old(self).if_num,
            !spec_addressed_to(*req, old(self).if_num) ==> (r == OutResponse::Ignored && *final(self)
                == *old(self)),
            spec_addressed_to(*req, old(self).if_num) && !(req.request == DFU_DNLOAD
                && spec_download_stores(old(self).status, req.value, req.length, data@)) ==> final(self).mem
                == old(self).mem,
            spec_addressed_to(*req, old(self).if_num) ==> {
                if req.request == DFU_DNLOAD {
                    spec_download_post(
                        old(self).status,
                        final(self).status,
                        req.value,
                        req.length,
                        data@,
                        r,
                    )
                } else if req.request == DFU_CLRSTATUS {
                    spec_clear_status_post(old(self).status, final(self).status, r)
                } else if req.request == DFU_ABORT {
                    spec_abort_post(old(self).status, final(self).status, r)
                } else {
                    r == OutResponse::Rejected && *final(self) == *old(self)
                }
            },
    {
        if !self.is_addressed_to(req) {
            return OutResponse::Ignored;
        }
        if req.request == DFU_DNLOAD {
            self.download(req, data)
        } else if req.request == DFU_CLRSTATUS {
            self.clear_status()
        } else if req.request == DFU_ABORT {
            self.abort()
        } else {
            OutResponse::Rejected
        }
    }

    /// Whether a request addresses this class interface.
    fn is_addressed_to(&self, req: &Request) -> (r: bool)
        ensures
            r == spec_addressed_to(*req, self.if_num),
    {
        req.request_type == RequestType::Class && req.recipient == Recipient::Interface
            && req.index == self.if_num as u16
    }
}

} // verus!
