//! Laws of the protocol engine, proved once and for all over the spec
//! transition functions: totality of the operation table and the exact
//! acceptance condition of each data operation, idempotence of the
//! query operations, the state-advance cases, the address-pointer
//! round trip, block addressing, short-block semantics, the
//! manifestation sequences, and the exclusivity of the two command
//! slots.

use vstd::prelude::*;

use crate::class::{
    spec_abort, spec_abortable, spec_advance, spec_block_address, spec_clear_status,
    spec_download, spec_execute, spec_expected_timeout, spec_get_state, spec_get_status,
    spec_is_work, spec_reset, spec_upload, spec_with_error, CMD_ERASE, CMD_SET_ADDRESS_POINTER,
};
use crate::memio::{spec_mem_error_code, DFUConfig, DFUManifestationError, DFUMemError};
use crate::status::{Command, DFUState, DFUStatus, DFUStatusCode};

verus! {

/// Every operation, from every state and for every input and every
/// back-end outcome, yields exactly one documented outcome: the spec
/// transitions are total functions, an accepted request moves to one of
/// the documented next states with status OK where the operation
/// promises one, and a rejected request either forces DfuError with a
/// specific error code or (for DFU_ABORT and for DFU_GETSTATE's and
/// DFU_GETSTATUS's queries, which change nothing on acceptance) leaves
/// the record as it was.
pub proof fn lemma_operations_total(
    s: DFUStatus,
    value: u16,
    length: u16,
    data: Seq<u8>,
    cfg: DFUConfig,
    store_ok: bool,
    read_ok: bool,
    read_len: int,
    read_err: DFUMemError,
)
    ensures
        ({
            let t = spec_download(s, value, length, data, store_ok);
            &&& (t.0 ==> t.1.status == DFUStatusCode::OK && (t.1.state == DFUState::DfuManifestSync
                || t.1.state == DFUState::DfuDnloadSync) && t.1.pending == s.pending
                && t.1.address_pointer == s.address_pointer)
            &&& (!t.0 ==> t.1 == spec_with_error(s, DFUStatusCode::ErrStalledPkt))
        }),
        ({
            let t = spec_upload(s, value, length, cfg.transfer_size, read_ok, read_len, read_err);
            &&& (t.0 ==> t.1.status == DFUStatusCode::OK && (t.1.state == DFUState::DfuIdle
                || t.1.state == DFUState::DfuUploadIdle) && t.1.command == s.command
                && t.1.pending == s.pending && t.1.address_pointer == s.address_pointer)
            &&& (!t.0 ==> t.1.state == DFUState::DfuError && t.1.status != DFUStatusCode::OK && (
            t.1.status == DFUStatusCode::ErrStalledPkt || t.1.status == DFUStatusCode::ErrAddress
                || t.1.status == spec_mem_error_code(read_err)))
        }),
        ({
            let t = spec_get_status(s, length, cfg);
            &&& (t.0 ==> t.1 == (DFUStatus {
                poll_timeout: spec_expected_timeout(
                    spec_advance(s, cfg.manifestation_tolerant).pending,
                    cfg,
                ),
                ..spec_advance(s, cfg.manifestation_tolerant)
            }))
            &&& (!t.0 ==> t.1 == spec_with_error(s, DFUStatusCode::ErrStalledPkt))
        }),
        ({
            let t = spec_get_state(s, length);
            &&& (t.0 ==> t.1 == s)
            &&& (!t.0 ==> t.1 == spec_with_error(s, DFUStatusCode::ErrStalledPkt))
        }),
        ({
            let t = spec_clear_status(s);
            &&& (t.0 <==> s.state == DFUState::DfuError)
            &&& (t.0 ==> t.1 == (DFUStatus {
                status: DFUStatusCode::OK,
                state: DFUState::DfuIdle,
                command: Command::Empty,
                pending: Command::Empty,
                ..s
            }))
            &&& (!t.0 ==> t.1 == spec_with_error(s, DFUStatusCode::ErrStalledPkt))
        }),
        ({
            let t = spec_abort(s);
            &&& (t.0 <==> spec_abortable(s.state))
            &&& (t.0 ==> t.1 == (DFUStatus {
                status: DFUStatusCode::OK,
                state: DFUState::DfuIdle,
                command: Command::Empty,
                pending: Command::Empty,
                ..s
            }))
            &&& (!t.0 ==> t.1 == s)
        }),
{
}

/// Repeated DFU_GETSTATE calls are idempotent: a non-empty reply buffer
/// always succeeds and never changes the record, however often the host
/// asks.
pub proof fn lemma_get_state_idempotent(s: DFUStatus, length: u16)
    requires
        length > 0,
    ensures
        spec_get_state(s, length).0,
        spec_get_state(s, length).1 == s,
        spec_get_state(spec_get_state(s, length).1, length) == spec_get_state(s, length),
{
}

/// While the device is busy, DFU_GETSTATUS keeps succeeding and keeps
/// reporting the same record: the first poll in DfuDnBusy changes only
/// the reported poll timeout, and every further poll is a fixpoint
/// until the deferred execution stage runs.
pub proof fn lemma_get_status_busy_stable(s: DFUStatus, length: u16, cfg: DFUConfig)
    requires
        s.state == DFUState::DfuDnBusy,
        length >= 6,
    ensures
        ({
            let t = spec_get_status(s, length, cfg);
            &&& t.0
            &&& t.1.state == s.state
            &&& t.1.status == s.status
            &&& t.1.command == s.command
            &&& t.1.pending == s.pending
            &&& t.1.address_pointer == s.address_pointer
            &&& spec_get_status(t.1, length, cfg) == (true, t.1)
        }),
{
}

/// The address-pointer round trip: a SetAddressPointer download is
/// accepted from an idle state without touching the pointer, the status
/// poll moves the command to the pending slot and reports busy still
/// without touching the pointer, and only the deferred execution stage
/// makes the pointer equal to the requested value, whatever the back
/// end's outcome parameters are, since setting the pointer never calls
/// the back end.
pub proof fn lemma_set_address_pointer_round_trip(
    s: DFUStatus,
    data: Seq<u8>,
    cfg: DFUConfig,
    store_ok: bool,
    backend_ok: bool,
    mem_err: DFUMemError,
    manif_err: DFUManifestationError,
    x: u32,
)
    requires
        s.state == DFUState::DfuIdle || s.state == DFUState::DfuDnloadIdle,
        data.len() == 5,
        data[0] == CMD_SET_ADDRESS_POINTER,
        data[1] == x as u8,
        data[2] == (x >> 8) as u8,
        data[3] == (x >> 16) as u8,
        data[4] == (x >> 24) as u8,
    ensures
        ({
            let t = spec_download(s, 0, 5, data, store_ok);
            let u = spec_get_status(t.1, 6, cfg);
            let v = spec_execute(u.1, cfg, backend_ok, mem_err, manif_err);
            &&& t.0
            &&& t.1.command == Command::SetAddressPointer(x)
            &&& t.1.address_pointer == s.address_pointer
            &&& u.0
            &&& u.1.state == DFUState::DfuDnBusy
            &&& u.1.pending == Command::SetAddressPointer(x)
            &&& u.1.address_pointer == s.address_pointer
            &&& v.address_pointer == x
            &&& v.state == DFUState::DfuDnloadSync
            &&& v.status == DFUStatusCode::OK
            &&& v.pending == Command::Empty
        }),
{
    crate::class::lemma_le32_of_bytes(x);
}

/// Block addressing: wValue 2 is the block at offset zero, so its
/// address is the pointer itself; in general the address is the pointer
/// plus (wValue - 2) times the transfer size, and a sum beyond the
/// 32-bit address space yields no address at all.
pub proof fn lemma_block_addressing(pointer: u32, value: u16, size: u16)
    requires
        value >= 2,
    ensures
        value == 2 ==> spec_block_address(pointer, (value - 2) as u16, size) == Some(pointer),
        pointer + (value - 2) * size <= u32::MAX ==> spec_block_address(
            pointer,
            (value - 2) as u16,
            size,
        ) == Some((pointer + (value - 2) * size) as u32),
        pointer + (value - 2) * size > u32::MAX ==> spec_block_address(
            pointer,
            (value - 2) as u16,
            size,
        ) is None,
{
    if value == 2 {
        assert(((value - 2) as u16) * size == 0) by (nonlinear_arith)
            requires
                value == 2,
        ;
    }
}

/// Short-block semantics of an upload: when the back end's read
/// succeeds, a block shorter than the configured maximum transfer size
/// is the last one and leaves the device in DfuIdle, and a full-size
/// block leaves it in DfuUploadIdle, always with status OK.
pub proof fn lemma_upload_block_length(
    s: DFUStatus,
    value: u16,
    length: u16,
    max_transfer: u16,
    read_len: int,
    read_err: DFUMemError,
)
    requires
        s.state == DFUState::DfuIdle || s.state == DFUState::DfuUploadIdle,
        value > 1,
        spec_block_address(s.address_pointer, (value - 2) as u16, max_transfer) is Some,
    ensures
        ({
            let t = spec_upload(s, value, length, max_transfer, true, read_len, read_err);
            &&& t.0
            &&& t.1.status == DFUStatusCode::OK
            &&& (read_len < max_transfer ==> t.1.state == DFUState::DfuIdle)
            &&& (read_len >= max_transfer ==> t.1.state == DFUState::DfuUploadIdle)
        }),
{
}

/// The manifestation sequence of a non-tolerant back end: the
/// zero-length download buffers LeaveDFU and enters DfuManifestSync,
/// the status poll moves it to pending, enters DfuManifest and reports
/// the configured manifestation time, a successful manifestation ends
/// in DfuManifestWaitReset, and DFU_ABORT is rejected there without any
/// state change.
pub proof fn lemma_manifestation_non_tolerant(
    s: DFUStatus,
    value: u16,
    data: Seq<u8>,
    cfg: DFUConfig,
    store_ok: bool,
    mem_err: DFUMemError,
    manif_err: DFUManifestationError,
)
    requires
        s.state == DFUState::DfuIdle || s.state == DFUState::DfuDnloadIdle,
        !cfg.manifestation_tolerant,
    ensures
        ({
            let t = spec_download(s, value, 0, data, store_ok);
            let u = spec_get_status(t.1, 6, cfg);
            let v = spec_execute(u.1, cfg, true, mem_err, manif_err);
            &&& t.0
            &&& t.1.state == DFUState::DfuManifestSync
            &&& t.1.command == Command::LeaveDFU
            &&& u.0
            &&& u.1.state == DFUState::DfuManifest
            &&& u.1.pending == Command::LeaveDFU
            &&& u.1.poll_timeout == cfg.manifestation_time_ms
            &&& v.state == DFUState::DfuManifestWaitReset
            &&& v.status == DFUStatusCode::OK
            &&& v.pending == Command::Empty
            &&& spec_abort(v) == (false, v)
        }),
{
}

/// The manifestation sequence of a tolerant back end: after a
/// successful manifestation the device is back in DfuManifestSync, and
/// the second status poll, finding no buffered command, returns it to
/// DfuIdle.
pub proof fn lemma_manifestation_tolerant(
    s: DFUStatus,
    value: u16,
    data: Seq<u8>,
    cfg: DFUConfig,
    store_ok: bool,
    mem_err: DFUMemError,
    manif_err: DFUManifestationError,
)
    requires
        s.state == DFUState::DfuIdle || s.state == DFUState::DfuDnloadIdle,
        cfg.manifestation_tolerant,
    ensures
        ({
            let t = spec_download(s, value, 0, data, store_ok);
            let u = spec_get_status(t.1, 6, cfg);
            let v = spec_execute(u.1, cfg, true, mem_err, manif_err);
            let w = spec_get_status(v, 6, cfg);
            &&& t.0
            &&& u.0
            &&& v.state == DFUState::DfuManifestSync
            &&& v.status == DFUStatusCode::OK
            &&& v.command == Command::Empty
            &&& w.0
            &&& w.1.state == DFUState::DfuIdle
            &&& w.1.status == DFUStatusCode::OK
        }),
{
}

/// States in which a pending command may exist at all: while the device
/// reports busy, during manifestation, and in the error state a
/// rejected request may have been forced into while work was pending.
pub open spec fn spec_pending_states_only(s: DFUStatus) -> bool {
    s.pending != Command::Empty ==> (s.state == DFUState::DfuDnBusy || s.state
        == DFUState::DfuManifest || s.state == DFUState::DfuError)
}

/// The engine's structural invariant: the two command slots are never
/// both occupied, and a pending command exists only in the states whose
/// next step is to execute it.
pub open spec fn spec_invariant(s: DFUStatus) -> bool {
    s.slots_exclusive() && spec_pending_states_only(s)
}

/// Every transition of the engine preserves the structural invariant:
/// however the host interleaves the six operations, the deferred
/// execution stage and bus resets, the two command slots are never both
/// occupied. The initial record satisfies the invariant trivially.
pub proof fn lemma_invariant_preserved(
    s: DFUStatus,
    value: u16,
    length: u16,
    data: Seq<u8>,
    cfg: DFUConfig,
    store_ok: bool,
    read_ok: bool,
    read_len: int,
    read_err: DFUMemError,
    backend_ok: bool,
    mem_err: DFUMemError,
    manif_err: DFUManifestationError,
)
    requires
        spec_invariant(s),
    ensures
        spec_invariant(spec_download(s, value, length, data, store_ok).1),
        spec_invariant(
            spec_upload(s, value, length, cfg.transfer_size, read_ok, read_len, read_err).1,
        ),
        spec_invariant(spec_get_status(s, length, cfg).1),
        spec_invariant(spec_get_state(s, length).1),
        spec_invariant(spec_clear_status(s).1),
        spec_invariant(spec_abort(s).1),
        spec_invariant(spec_execute(s, cfg, backend_ok, mem_err, manif_err)),
        spec_invariant(spec_reset(s)),
        spec_invariant(crate::status::spec_initial_status(s.address_pointer)),
{
}


/// The DFU_DNLOAD row of the operation table, if and only if, over the
/// request fields alone. Under the transport invariant that the data
/// stage holds exactly wLength bytes, a download is accepted exactly
/// when the state allows one and the request is the end-of-firmware
/// mark, a firmware block the back end could buffer, or a well-formed
/// command: set address pointer with five bytes, or erase with five
/// bytes or one.
pub proof fn lemma_download_accepts_iff(
    s: DFUStatus,
    value: u16,
    length: u16,
    data: Seq<u8>,
    store_ok: bool,
)
    requires
        data.len() == length,
    ensures
        ({
            let t = spec_download(s, value, length, data, store_ok);
            t.0 <==> ((s.state == DFUState::DfuIdle || s.state == DFUState::DfuDnloadIdle) && (
            length == 0 || (value > 1 && store_ok) || (value == 0 && length >= 1 && ((data[0]
                == CMD_SET_ADDRESS_POINTER && length == 5) || (data[0] == CMD_ERASE && (length == 5
                || length == 1))))))
        }),
{
}

/// The DFU_UPLOAD row of the operation table, if and only if: an upload
/// is accepted exactly when the state allows one and the request is
/// either the command-list query with room for three bytes, or a block
/// request whose address at the configured transfer size fits in the
/// address space and whose read the back end answered.
pub proof fn lemma_upload_accepts_iff(
    s: DFUStatus,
    value: u16,
    length: u16,
    max_transfer: u16,
    read_ok: bool,
    read_len: int,
    read_err: DFUMemError,
)
    ensures
        ({
            let t = spec_upload(s, value, length, max_transfer, read_ok, read_len, read_err);
            t.0 <==> ((s.state == DFUState::DfuIdle || s.state == DFUState::DfuUploadIdle) && ((
            value == 0 && length >= 3) || (value > 1 && spec_block_address(
                s.address_pointer,
                (value - 2) as u16,
                max_transfer,
            ) is Some && read_ok)))
        }),
{
}

/// The state-advance step, case by case, for every record. From
/// DfuDnloadSync a buffered unit of work moves to the pending slot and
/// the device reports busy, otherwise the device proceeds straight to
/// DfuDnloadIdle. From DfuManifestSync a buffered command moves to the
/// pending slot and the device enters DfuManifest — the back end runs
/// only in the later deferred stage — while with an empty command slot
/// a manifestation-tolerant device returns to DfuIdle and an
/// intolerant one is left unchanged. Every other state is a no-op.
pub proof fn lemma_advance_cases(s: DFUStatus, tolerant: bool)
    ensures
        s.state == DFUState::DfuDnloadSync && spec_is_work(s.command) ==> spec_advance(s, tolerant)
            == (DFUStatus {
            status: DFUStatusCode::OK,
            state: DFUState::DfuDnBusy,
            pending: s.command,
            command: Command::Empty,
            ..s
        }),
        s.state == DFUState::DfuDnloadSync && !spec_is_work(s.command) ==> spec_advance(s, tolerant)
            == (DFUStatus {
            status: DFUStatusCode::OK,
            state: DFUState::DfuDnloadIdle,
            ..s
        }),
        s.state == DFUState::DfuManifestSync && s.command != Command::Empty ==> spec_advance(
            s,
            tolerant,
        ) == (DFUStatus {
            status: DFUStatusCode::OK,
            state: DFUState::DfuManifest,
            pending: s.command,
            command: Command::Empty,
            ..s
        }),
        s.state == DFUState::DfuManifestSync && s.command == Command::Empty && tolerant
            ==> spec_advance(s, tolerant) == (DFUStatus {
            status: DFUStatusCode::OK,
            state: DFUState::DfuIdle,
            ..s
        }),
        s.state == DFUState::DfuManifestSync && s.command == Command::Empty && !tolerant
            ==> spec_advance(s, tolerant) == s,
        s.state != DFUState::DfuDnloadSync && s.state != DFUState::DfuManifestSync ==> spec_advance(
            s,
            tolerant,
        ) == s,
{
}

} // verus!
