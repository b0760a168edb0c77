//! The service table: the two-phase sized-query protocol, revision-gated
//! protocol resolution, and the status classification around each firmware
//! operation.

use crate::firmware::AllocatePagesResponse;
use crate::firmware::AllocatePoolResponse;
use crate::firmware::Firmware;
use crate::firmware::InterfaceResponse;
use crate::firmware::LocateHandlesResponse;
use crate::firmware::MemoryMapResponse;
use crate::firmware::MonotonicCountResponse;
use crate::memory::MemoryMapInfo;
use crate::memory::MemoryType;
use crate::proto::Proto;
use crate::proto::Protocol;
use crate::status::Status;
use crate::table::TableHeader;
use crate::Handle;
use crate::PhysicalAddr;
use crate::Tpl;
use vstd::prelude::*;

verus! {

/// How a page allocation chooses its address: anywhere, at most a bound, or
/// exactly an address.
#[derive(Clone, Copy, Debug, PartialEq, Eq, Structural)]
pub enum AllocType {
    AnyPages,
    MaxAddress,
    Address,
}

/// The address policy of a page allocation together with its bound.
#[derive(Clone, Copy, Debug, PartialEq, Eq, Structural)]
pub enum AllocPagesType {
    Any,
    Max(PhysicalAddr),
    Addr(PhysicalAddr),
}

/// Interface installation kind; the specification defines only one.
#[derive(Clone, Copy, Debug, PartialEq, Eq, Structural)]
pub enum InterfaceType {
    Native,
}

/// What a handle search matches: everything, a notify registration, or the
/// handles implementing one identifier.
#[derive(Clone, Copy, Debug, PartialEq, Eq, Structural)]
pub enum LocateSearchType {
    AllHandles,
    ByRegisterNotify,
    ByProtocol,
}

impl LocateSearchType {
    /// The wire value of this search kind.
    pub fn as_raw(&self) -> (r: u32)
        ensures
            r == (match *self {
                LocateSearchType::AllHandles => 0u32,
                LocateSearchType::ByRegisterNotify => 1u32,
                LocateSearchType::ByProtocol => 2u32,
            }),
    {
        match *self {
            LocateSearchType::AllHandles => 0,
            LocateSearchType::ByRegisterNotify => 1,
            LocateSearchType::ByProtocol => 2,
        }
    }
}

/// How a timer fires: cancelled, periodically, or once after a delay.
#[derive(Clone, Copy, Debug, PartialEq, Eq, Structural)]
pub enum TimerDelay {
    Cancel,
    Periodic,
    Relative,
}

/// The failure side of a sized query or of whole-system resolution.  An
/// ordinary status-classified failure carries the firmware's exact code and
/// is the caller's to retry or abort on by its own policy; the invariant
/// violation is the fatal outcome — firmware broke its own contract, by
/// answering a sized probe with success (a zero-length successful result)
/// or by reporting more bytes written than the buffer it was given — on
/// which the program must halt rather than recover.  A `Firmware` failure
/// never carries the success code.
#[derive(Clone, Copy, Debug, PartialEq, Eq, Structural)]
pub enum QueryError {
    Firmware(Status),
    InvariantViolation,
}

impl QueryError {
    /// Whether this failure is the fatal kind, on which a caller halts
    /// instead of retrying.
    pub fn is_fatal(&self) -> (b: bool)
        ensures
            b == (*self == QueryError::InvariantViolation),
    {
        matches!(self, QueryError::InvariantViolation)
    }
}

/// The table revision from which one whole-system lookup call resolves an
/// interface directly; below it, resolution falls back to enumeration.
pub const REVISION_DIRECT_LOOKUP: u32 = (1 << 16) | 10;

/// Byte stride of one handle record in an enumeration buffer.
pub const HANDLE_STRIDE: usize = 8;

/// The process-wide table of firmware operations: a versioned header and,
/// behind the [`Firmware`] boundary, the callable operations themselves.
/// The dispatch and classification logic around each call lives here.
#[derive(Clone, Copy, Debug, PartialEq, Eq, Structural)]
pub struct BootServices {
    pub header: TableHeader,
}

/// Task priority services: direct pass-throughs with no classification.
impl BootServices {
    /// Raises the task's priority level, returning the previous one.  The
    /// caller must pair every raise with a restore in strictly nested,
    /// stack-like fashion.
    pub fn raise_tpl<F: Firmware>(&self, fw: &mut F, tpl: Tpl) -> Tpl {
        fw.raise_tpl(tpl)
    }

    /// Restores a priority level previously returned by `raise_tpl`.
    pub fn restore_tpl<F: Firmware>(&self, fw: &mut F, old_tpl: Tpl) {
        fw.restore_tpl(old_tpl);
    }
}

/// Memory services: allocation and the two-phase memory map query.
impl BootServices {
    /// The raw request a page allocation translates to: the search kind and
    /// the address bound it starts from.
    pub open spec fn alloc_request_spec(alloc_type: AllocPagesType) -> (AllocType, PhysicalAddr) {
        match alloc_type {
            AllocPagesType::Any => (AllocType::AnyPages, 0),
            AllocPagesType::Max(addr) => (AllocType::MaxAddress, addr),
            AllocPagesType::Addr(addr) => (AllocType::Address, addr),
        }
    }

    /// Translates a page-allocation request into its raw form.
    pub fn alloc_pages_request(alloc_type: AllocPagesType) -> (r: (AllocType, PhysicalAddr))
        ensures
            r == Self::alloc_request_spec(alloc_type),
    {
        match alloc_type {
            AllocPagesType::Any => (AllocType::AnyPages, 0),
            AllocPagesType::Max(addr) => (AllocType::MaxAddress, addr),
            AllocPagesType::Addr(addr) => (AllocType::Address, addr),
        }
    }

    /// Allocates pages: the allocated address on success, the exact status
    /// otherwise, whatever the firmware answered.
    pub fn allocate_pages<F: Firmware>(
        &self,
        fw: &mut F,
        alloc_type: AllocPagesType,
        memory_type: MemoryType,
        num_pages: usize,
    ) -> (r: Result<PhysicalAddr, Status>)
        ensures
            exists|resp: AllocatePagesResponse|
                r == #[trigger] resp.status.to_result_spec(resp.memory),
    {
        let (at, addr) = Self::alloc_pages_request(alloc_type);
        let resp = fw.allocate_pages(at, memory_type, num_pages, addr);
        resp.status.to_result(resp.memory)
    }

    /// Frees pages obtained from `allocate_pages`.
    pub fn free_pages<F: Firmware>(&self, fw: &mut F, memory: PhysicalAddr, num_pages: usize) -> (r:
        Result<(), Status>)
        ensures
            exists|st: Status| r == #[trigger] st.to_result_spec(()),
    {
        let st = fw.free_pages(memory, num_pages);
        st.to_result(())
    }

    /// Allocates a pool buffer: its address on success, the exact status
    /// otherwise.
    pub fn allocate_pool<F: Firmware>(&self, fw: &mut F, pool_type: MemoryType, size: usize) -> (r:
        Result<usize, Status>)
        ensures
            exists|resp: AllocatePoolResponse|
                r == #[trigger] resp.status.to_result_spec(resp.buffer),
    {
        let resp = fw.allocate_pool(pool_type, size);
        resp.status.to_result(resp.buffer)
    }

    /// Frees a buffer obtained from `allocate_pool`.
    pub fn free_pool<F: Firmware>(&self, fw: &mut F, buffer: usize) -> (r: Result<(), Status>)
        ensures
            exists|st: Status| r == #[trigger] st.to_result_spec(()),
    {
        let st = fw.free_pool(buffer);
        st.to_result(())
    }

    /// The probe-phase classification: the reported query state exactly when
    /// the firmware found the null buffer too small — the expected probe
    /// outcome.  A probe answered with success would be a zero-length
    /// successful map, which the firmware contract forbids: that is the
    /// fatal invariant violation, never an ordinary failure.  Every other
    /// status passes through as the exact status-classified error.
    pub open spec fn memory_map_probe_spec(resp: MemoryMapResponse) -> Result<
        MemoryMapInfo,
        QueryError,
    > {
        if resp.status == Status::buffer_too_small_spec() {
            Ok(resp.info_spec())
        } else if resp.status == Status::success_spec() {
            Err(QueryError::InvariantViolation)
        } else {
            Err(QueryError::Firmware(resp.status))
        }
    }

    /// Classifies a probe-phase memory map response.
    pub fn memory_map_probe_result(resp: &MemoryMapResponse) -> (r: Result<
        MemoryMapInfo,
        QueryError,
    >)
        ensures
            r == Self::memory_map_probe_spec(*resp),
    {
        if resp.status == Status::buffer_too_small() {
            Ok(
                MemoryMapInfo {
                    buffer_size: resp.buffer_size,
                    descriptor_version: resp.descriptor_version,
                    descriptor_size: resp.descriptor_size,
                    map_key: resp.map_key,
                },
            )
        } else if resp.status == Status::success() {
            Err(QueryError::InvariantViolation)
        } else {
            Err(QueryError::Firmware(resp.status))
        }
    }

    /// The fill-phase classification: the final query state — byte count
    /// written, stride, version, and the freshness key the consuming call
    /// must present — exactly on success within the offered buffer.  A
    /// success reporting more bytes written than the buffer held breaks the
    /// firmware contract that bytes written never exceed the allocation:
    /// that is the fatal invariant violation.  Every other status passes
    /// through as the exact status-classified error, "buffer too small"
    /// included.
    pub open spec fn memory_map_fill_spec(resp: MemoryMapResponse, offered: usize) -> Result<
        MemoryMapInfo,
        QueryError,
    > {
        if resp.status == Status::success_spec() {
            if resp.buffer_size <= offered {
                Ok(resp.info_spec())
            } else {
                Err(QueryError::InvariantViolation)
            }
        } else {
            Err(QueryError::Firmware(resp.status))
        }
    }

    /// Classifies a fill-phase memory map response against the byte length
    /// of the buffer that was offered.
    pub fn memory_map_fill_result(resp: &MemoryMapResponse, offered: usize) -> (r: Result<
        MemoryMapInfo,
        QueryError,
    >)
        ensures
            r == Self::memory_map_fill_spec(*resp, offered),
    {
        if resp.status == Status::success() {
            if resp.buffer_size <= offered {
                Ok(
                    MemoryMapInfo {
                        buffer_size: resp.buffer_size,
                        descriptor_version: resp.descriptor_version,
                        descriptor_size: resp.descriptor_size,
                        map_key: resp.map_key,
                    },
                )
            } else {
                Err(QueryError::InvariantViolation)
            }
        } else {
            Err(QueryError::Firmware(resp.status))
        }
    }

    /// Whether a fill-phase result reports the stale condition: the map grew
    /// between probe and fill, and the caller must retry the whole two-phase
    /// sequence rather than treat the failure as fatal.
    pub open spec fn is_stale_fill_spec(r: Result<MemoryMapInfo, QueryError>) -> bool {
        r == Err::<MemoryMapInfo, QueryError>(QueryError::Firmware(Status::buffer_too_small_spec()))
    }

    /// Whether a fill-phase result reports the stale condition.
    pub fn is_stale_fill(r: &Result<MemoryMapInfo, QueryError>) -> (b: bool)
        ensures
            b == Self::is_stale_fill_spec(*r),
    {
        match r {
            Err(QueryError::Firmware(e)) => *e == Status::buffer_too_small(),
            Err(QueryError::InvariantViolation) => false,
            Ok(_) => false,
        }
    }

    /// The allocation size for the fill phase: the probe-reported size plus
    /// two records of margin, so that modest growth between probe and fill
    /// — the firmware's own bookkeeping consumes memory — still fits.
    /// `None` when the padded size exceeds the machine word.
    pub open spec fn fill_buffer_size_spec(required: usize, descriptor_size: usize) -> Option<
        usize,
    > {
        if required + 2 * descriptor_size <= usize::MAX {
            Some((required + 2 * descriptor_size) as usize)
        } else {
            None
        }
    }

    /// The fill-phase allocation size for a probe-reported requirement.
    pub fn fill_buffer_size(required: usize, descriptor_size: usize) -> (r: Option<usize>)
        ensures
            r == Self::fill_buffer_size_spec(required, descriptor_size),
    {
        let padded: u128 = required as u128 + 2 * (descriptor_size as u128);
        if padded <= usize::MAX as u128 {
            Some(padded as usize)
        } else {
            None
        }
    }

    /// Probe phase of the memory map query: offers a null buffer and returns
    /// the required size and query state.  The result is the probe
    /// classification of whatever the firmware answered; a status-classified
    /// failure never carries the success code, which surfaces as the fatal
    /// violation instead.
    pub fn get_memory_map_info<F: Firmware>(&self, fw: &mut F) -> (r: Result<
        MemoryMapInfo,
        QueryError,
    >)
        ensures
            exists|resp: MemoryMapResponse| r == #[trigger] Self::memory_map_probe_spec(resp),
            r != Err::<MemoryMapInfo, QueryError>(QueryError::Firmware(Status::success_spec())),
    {
        let mut empty: Vec<u8> = Vec::new();
        let resp = fw.memory_map(&mut empty);
        Self::memory_map_probe_result(&resp)
    }

    /// Fill phase of the memory map query: offers the caller-allocated
    /// buffer and returns the final query state, whose byte count never
    /// exceeds the buffer's length.  The result is the fill classification
    /// of whatever the firmware answered; a "buffer too small" here is the
    /// stale outcome — the map grew since the probe — and tells the caller
    /// to re-probe, while a success over-reporting its byte count surfaces
    /// as the fatal violation.
    pub fn get_memory_map<F: Firmware>(&self, fw: &mut F, buffer: &mut Vec<u8>) -> (r: Result<
        MemoryMapInfo,
        QueryError,
    >)
        ensures
            exists|resp: MemoryMapResponse, offered: usize|
                offered == final(buffer)@.len() && r == #[trigger] Self::memory_map_fill_spec(
                    resp,
                    offered,
                ),
            r is Ok ==> r->Ok_0.buffer_size <= final(buffer)@.len(),
            r != Err::<MemoryMapInfo, QueryError>(QueryError::Firmware(Status::success_spec())),
    {
        let resp = fw.memory_map(buffer);
        let offered = buffer.len();
        Self::memory_map_fill_result(&resp, offered)
    }
}

/// Protocol handler services: enumeration and revision-gated resolution.
impl BootServices {
    /// The enumeration-probe classification: the required byte size rounded
    /// up to whole handle records when the firmware found the empty buffer
    /// too small; a requirement too large to round within the machine word
    /// fails as "bad buffer size"; a probe answered with success breaks the
    /// firmware contract and is the fatal invariant violation; "not found"
    /// — the zero-match outcome — and every other status pass through as
    /// that exact status-classified error.
    pub open spec fn locate_probe_spec(status: Status, needed: usize) -> Result<usize, QueryError> {
        if status == Status::buffer_too_small_spec() {
            if needed + HANDLE_STRIDE - 1 <= usize::MAX {
                Ok((((needed + HANDLE_STRIDE - 1) / (HANDLE_STRIDE as int)) * HANDLE_STRIDE) as usize)
            } else {
                Err(QueryError::Firmware(Status::bad_buffer_size_spec()))
            }
        } else if status == Status::success_spec() {
            Err(QueryError::InvariantViolation)
        } else {
            Err(QueryError::Firmware(status))
        }
    }

    /// Classifies the probe of a handle enumeration.
    pub fn locate_probe_result(resp: &LocateHandlesResponse) -> (r: Result<usize, QueryError>)
        ensures
            r == Self::locate_probe_spec(resp.status, resp.buffer_size),
    {
        if resp.status == Status::buffer_too_small() {
            if resp.buffer_size <= usize::MAX - (HANDLE_STRIDE - 1) {
                Ok(((resp.buffer_size + (HANDLE_STRIDE - 1)) / HANDLE_STRIDE) * HANDLE_STRIDE)
            } else {
                Err(QueryError::Firmware(Status::bad_buffer_size()))
            }
        } else if resp.status == Status::success() {
            Err(QueryError::InvariantViolation)
        } else {
            Err(QueryError::Firmware(resp.status))
        }
    }

    /// The enumeration-fill classification: the handles the firmware wrote,
    /// in firmware order, exactly on success; the exact status otherwise.
    pub open spec fn locate_fill_spec(status: Status, handles: Seq<Handle>) -> Result<
        Seq<Handle>,
        Status,
    > {
        if status == Status::success_spec() {
            Ok(handles)
        } else {
            Err(status)
        }
    }

    /// Classifies the fill of a handle enumeration.
    pub fn locate_fill_result(resp: LocateHandlesResponse) -> (r: Result<Vec<Handle>, Status>)
        ensures
            (match r {
                Ok(v) => Self::locate_fill_spec(resp.status, resp.handles@) == Ok::<
                    Seq<Handle>,
                    Status,
                >(v@),
                Err(e) => Self::locate_fill_spec(resp.status, resp.handles@) == Err::<
                    Seq<Handle>,
                    Status,
                >(e),
            }),
    {
        if resp.status == Status::success() {
            Ok(resp.handles)
        } else {
            Err(resp.status)
        }
    }

    /// A handle-enumeration result with its payload abstracted to the
    /// sequence of handles.
    pub open spec fn handles_result_view(r: Result<Vec<Handle>, QueryError>) -> Result<
        Seq<Handle>,
        QueryError,
    > {
        match r {
            Ok(v) => Ok(v@),
            Err(e) => Err(e),
        }
    }

    /// The two-phase enumeration composed: a probe failure decides alone;
    /// otherwise the fill classification decides, its failures
    /// status-classified.
    pub open spec fn enumeration_spec(
        probe_status: Status,
        probe_needed: usize,
        fill_status: Status,
        fill_handles: Seq<Handle>,
    ) -> Result<Seq<Handle>, QueryError> {
        match Self::locate_probe_spec(probe_status, probe_needed) {
            Err(e) => Err(e),
            Ok(_) => match Self::locate_fill_spec(fill_status, fill_handles) {
                Ok(hs) => Ok(hs),
                Err(st) => Err(QueryError::Firmware(st)),
            },
        }
    }

    /// Enumerates every handle implementing `P`'s identifier by the
    /// two-phase protocol: a probe with an empty buffer, then a fill with
    /// the rounded-up reported size.  The result is the composition of the
    /// two classifications of whatever the firmware answered; zero matches
    /// surface as the firmware's "not found", never as success, and no
    /// status-classified failure carries the success code.
    pub fn handles_by_protocol<F: Firmware, P: Protocol>(&self, fw: &mut F) -> (r: Result<
        Vec<Handle>,
        QueryError,
    >)
        ensures
            exists|probe_status: Status, probe_needed: usize, fill_status: Status, fill_handles: Seq<Handle>|
                Self::handles_result_view(r) == #[trigger] Self::enumeration_spec(
                    probe_status,
                    probe_needed,
                    fill_status,
                    fill_handles,
                ),
            r != Err::<Vec<Handle>, QueryError>(QueryError::Firmware(Status::success_spec())),
    {
        proof {
            crate::status::lemma_status_code_classes(4, 4);
        }
        let guid = P::guid();
        let probe = fw.locate_handles(guid, 0);
        let ghost probe_status = probe.status;
        let ghost probe_needed = probe.buffer_size;
        match Self::locate_probe_result(&probe) {
            Err(e) => {
                proof {
                    assert(Self::handles_result_view(Err(e)) == Self::enumeration_spec(
                        probe_status,
                        probe_needed,
                        Status::success_spec(),
                        Seq::empty(),
                    ));
                }
                Err(e)
            },
            Ok(rounded) => {
                let fill = fw.locate_handles(guid, rounded);
                let ghost fill_status = fill.status;
                let ghost fill_handles = fill.handles@;
                let r = match Self::locate_fill_result(fill) {
                    Ok(v) => Ok(v),
                    Err(st) => Err(QueryError::Firmware(st)),
                };
                proof {
                    assert(Self::handles_result_view(r) == Self::enumeration_spec(
                        probe_status,
                        probe_needed,
                        fill_status,
                        fill_handles,
                    ));
                }
                r
            },
        }
    }

    /// The resolution classification: the interface address exactly on
    /// success with a non-null interface; a success carrying a null
    /// interface — firmware breaking its own contract — surfaces as
    /// "invalid parameter"; every other status passes through as the error.
    pub open spec fn resolve_spec(resp: InterfaceResponse) -> Result<usize, Status> {
        if resp.status == Status::success_spec() {
            if resp.interface != 0 {
                Ok(resp.interface)
            } else {
                Err(Status::invalid_parameter_spec())
            }
        } else {
            Err(resp.status)
        }
    }

    /// A resolution result with its payload abstracted to the raw interface
    /// address.
    pub open spec fn proto_result_view<P: Protocol>(r: Result<Proto<P>, Status>) -> Result<
        usize,
        Status,
    > {
        match r {
            Ok(p) => Ok(p.addr_spec()),
            Err(e) => Err(e),
        }
    }

    /// Classifies an interface-resolution response into a typed binding.
    pub fn resolve_result<P: Protocol>(resp: &InterfaceResponse) -> (r: Result<Proto<P>, Status>)
        ensures
            Self::proto_result_view(r) == Self::resolve_spec(*resp),
            r is Ok ==> r->Ok_0.wf(),
    {
        if resp.status == Status::success() {
            if resp.interface != 0 {
                Ok(Proto::from_addr(resp.interface))
            } else {
                Err(Status::invalid_parameter())
            }
        } else {
            Err(resp.status)
        }
    }

    /// Resolves the interface for one specific handle; a handle that does
    /// not implement the identifier fails with the firmware's distinct
    /// status for that, passed through exactly.
    pub fn protocol_for_handle<F: Firmware, P: Protocol>(&self, fw: &mut F, handle: Handle) -> (r:
        Result<Proto<P>, Status>)
        ensures
            exists|resp: InterfaceResponse|
                Self::proto_result_view(r) == #[trigger] Self::resolve_spec(resp),
            r is Ok ==> r->Ok_0.wf(),
    {
        let resp = fw.handle_protocol(handle, P::guid());
        Self::resolve_result(&resp)
    }

    /// The resolution classification with its failures status-classified:
    /// what one whole-system or by-handle call contributes to a query
    /// outcome.
    pub open spec fn resolve_outcome_spec(resp: InterfaceResponse) -> Result<usize, QueryError> {
        match Self::resolve_spec(resp) {
            Ok(a) => Ok(a),
            Err(st) => Err(QueryError::Firmware(st)),
        }
    }

    /// A resolution outcome with its payload abstracted to the raw
    /// interface address.
    pub open spec fn proto_query_view<P: Protocol>(r: Result<Proto<P>, QueryError>) -> Result<
        usize,
        QueryError,
    > {
        match r {
            Ok(p) => Ok(p.addr_spec()),
            Err(e) => Err(e),
        }
    }

    /// The fallback path composed: an enumeration failure decides alone; an
    /// empty handle set is "not found"; otherwise the resolution
    /// classification on the first handle's response decides.
    pub open spec fn fallback_spec(
        handles: Result<Seq<Handle>, QueryError>,
        iface: InterfaceResponse,
    ) -> Result<usize, QueryError> {
        match handles {
            Err(e) => Err(e),
            Ok(hs) => if hs.len() == 0 {
                Err(QueryError::Firmware(Status::not_found_spec()))
            } else {
                Self::resolve_outcome_spec(iface)
            },
        }
    }

    /// Resolves exactly one interface implementing `P`'s identifier,
    /// system-wide.  Dispatch is revision-gated: at or above the
    /// direct-lookup revision one whole-system call decides; below it every
    /// implementing handle is enumerated and the interface resolved on the
    /// first in firmware order — an empty set fails as "not found", and a
    /// resolution failure on that handle propagates rather than trying the
    /// next.  Both paths yield the same observable result type, and no
    /// status-classified failure carries the success code.
    pub fn first_protocol<F: Firmware, P: Protocol>(&self, fw: &mut F) -> (r: Result<
        Proto<P>,
        QueryError,
    >)
        ensures
            r is Ok ==> r->Ok_0.wf(),
            self.header.revision >= REVISION_DIRECT_LOOKUP ==> exists|resp: InterfaceResponse|
                Self::proto_query_view(r) == #[trigger] Self::resolve_outcome_spec(resp),
            self.header.revision < REVISION_DIRECT_LOOKUP ==> exists|
                handles: Result<Seq<Handle>, QueryError>,
                iface: InterfaceResponse,
            |
                Self::proto_query_view(r) == #[trigger] Self::fallback_spec(handles, iface),
            r != Err::<Proto<P>, QueryError>(QueryError::Firmware(Status::success_spec())),
    {
        proof {
            crate::status::lemma_status_code_classes(2, 2);
            crate::status::lemma_status_code_classes(4, 4);
            crate::status::lemma_status_code_classes(14, 14);
        }
        if self.header.revision >= REVISION_DIRECT_LOOKUP {
            let resp = fw.locate_protocol(P::guid());
            let r0 = Self::resolve_result::<P>(&resp);
            let ghost view0 = Self::proto_result_view(r0);
            let r = match r0 {
                Ok(p) => Ok(p),
                Err(st) => Err(QueryError::Firmware(st)),
            };
            proof {
                assert(Self::proto_query_view(r) == Self::resolve_outcome_spec(resp));
            }
            r
        } else {
            match self.handles_by_protocol::<F, P>(fw) {
                Err(e) => {
                    proof {
                        let iface = InterfaceResponse { status: Status::success_spec(), interface: 0 };
                        assert(Self::proto_query_view(Err::<Proto<P>, QueryError>(e))
                            == Self::fallback_spec(Err(e), iface));
                    }
                    Err(e)
                },
                Ok(handles) => {
                    if handles.len() == 0 {
                        let r = Err(QueryError::Firmware(Status::not_found()));
                        proof {
                            let iface = InterfaceResponse {
                                status: Status::success_spec(),
                                interface: 0,
                            };
                            assert(Self::proto_query_view(r) == Self::fallback_spec(
                                Ok(handles@),
                                iface,
                            ));
                        }
                        r
                    } else {
                        let h = handles[0];
                        let r0 = self.protocol_for_handle::<F, P>(fw, h);
                        let ghost view0 = Self::proto_result_view(r0);
                        let r = match r0 {
                            Ok(p) => Ok(p),
                            Err(st) => Err(QueryError::Firmware(st)),
                        };
                        proof {
                            let iface = choose|resp: InterfaceResponse|
                                view0 == #[trigger] Self::resolve_spec(resp);
                            assert(Self::proto_query_view(r) == Self::fallback_spec(
                                Ok(handles@),
                                iface,
                            ));
                        }
                        r
                    }
                },
            }
        }
    }
}

/// Image and miscellaneous services.
impl BootServices {
    /// Leaves boot services.  The map key must be the unexpired key of the
    /// current memory map; a stale key fails with the firmware's status for
    /// that, passed through exactly.
    pub fn exit_boot_services<F: Firmware>(&self, fw: &mut F, image_handle: Handle, map_key: usize) -> (r:
        Result<(), Status>)
        ensures
            exists|st: Status| r == #[trigger] st.to_result_spec(()),
    {
        let st = fw.exit_boot_services(image_handle, map_key);
        st.to_result(())
    }

    /// The platform's next monotonic count: the count on success, the exact
    /// status otherwise.
    pub fn next_monotonic_count<F: Firmware>(&self, fw: &mut F) -> (r: Result<u64, Status>)
        ensures
            exists|resp: MonotonicCountResponse|
                r == #[trigger] resp.status.to_result_spec(resp.count),
    {
        let resp = fw.next_monotonic_count();
        resp.status.to_result(resp.count)
    }
}

/// Resolution fallback equivalence: when enumeration reports exactly one
/// handle, the fallback path returns precisely what by-handle resolution
/// returns for the firmware's response on that handle.
pub proof fn lemma_fallback_single_handle_equivalence(hs: Seq<Handle>, iface: InterfaceResponse)
    requires
        hs.len() == 1,
    ensures
        BootServices::fallback_spec(Ok(hs), iface) == BootServices::resolve_outcome_spec(iface),
{
}

} // verus!
