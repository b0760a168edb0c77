use uefi::block_io::BlockIo;
use uefi::proto::Protocol;
use uefi::boot::AllocType;
use uefi::boot::BootServices;
use uefi::boot::QueryError;
use uefi::boot::REVISION_DIRECT_LOOKUP;
use uefi::firmware::AllocatePagesResponse;
use uefi::firmware::AllocatePoolResponse;
use uefi::firmware::Firmware;
use uefi::firmware::InterfaceResponse;
use uefi::firmware::LocateHandlesResponse;
use uefi::firmware::MemoryMapResponse;
use uefi::firmware::MonotonicCountResponse;
use uefi::guid::Guid;
use uefi::memory::MemoryType;
use uefi::status::Status;
use uefi::table::TableHeader;
use uefi::Handle;
use uefi::PhysicalAddr;
use uefi::Tpl;

fn block_io_guid() -> Guid {
    Guid::new(
        0x964e5b21,
        0x6459,
        0x11d2,
        [0x8e, 0x39, 0x00, 0xa0, 0xc9, 0x69, 0x72, 0x3b],
    )
}

/// A firmware double exposing a set of handles for one identifier and one
/// interface address per resolvable handle.
struct ResolveFirmware {
    target: Guid,
    handle_addrs: Vec<usize>,
    iface: usize,
    /// When set, overrides the byte size the enumeration probe reports.
    reported_needed: Option<usize>,
    /// When set, by-handle resolution fails with this status.
    resolve_failure: Option<Status>,
    /// When set, whole-system lookup succeeds but hands back a null
    /// interface.
    direct_null: bool,
    fill_sizes: Vec<usize>,
    locate_protocol_calls: usize,
    locate_handles_calls: usize,
}

impl ResolveFirmware {
    fn new(target: Guid, handle_addrs: Vec<usize>, iface: usize) -> ResolveFirmware {
        ResolveFirmware {
            target,
            handle_addrs,
            iface,
            reported_needed: None,
            resolve_failure: None,
            direct_null: false,
            fill_sizes: Vec::new(),
            locate_protocol_calls: 0,
            locate_handles_calls: 0,
        }
    }

    fn needed(&self) -> usize {
        match self.reported_needed {
            Some(n) => n,
            None => self.handle_addrs.len() * 8,
        }
    }
}

impl Firmware for ResolveFirmware {
    fn raise_tpl(&mut self, _new_tpl: Tpl) -> Tpl {
        panic!("not exercised");
    }

    fn restore_tpl(&mut self, _old_tpl: Tpl) {
        panic!("not exercised");
    }

    fn allocate_pages(
        &mut self,
        _alloc_type: AllocType,
        _memory_type: MemoryType,
        _pages: usize,
        _memory: PhysicalAddr,
    ) -> AllocatePagesResponse {
        panic!("not exercised");
    }

    fn free_pages(&mut self, _memory: PhysicalAddr, _pages: usize) -> Status {
        panic!("not exercised");
    }

    fn allocate_pool(&mut self, _pool_type: MemoryType, _size: usize) -> AllocatePoolResponse {
        panic!("not exercised");
    }

    fn free_pool(&mut self, _buffer: usize) -> Status {
        panic!("not exercised");
    }

    fn memory_map(&mut self, _buffer: &mut Vec<u8>) -> MemoryMapResponse {
        panic!("not exercised");
    }

    fn locate_handles(&mut self, protocol: Guid, buffer_size: usize) -> LocateHandlesResponse {
        self.locate_handles_calls += 1;
        if protocol != self.target {
            return LocateHandlesResponse {
                status: Status::not_found(),
                buffer_size: 0,
                handles: Vec::new(),
            };
        }
        let needed = self.needed();
        if buffer_size < needed {
            LocateHandlesResponse {
                status: Status::buffer_too_small(),
                buffer_size: needed,
                handles: Vec::new(),
            }
        } else {
            self.fill_sizes.push(buffer_size);
            LocateHandlesResponse {
                status: Status::success(),
                buffer_size: needed,
                handles: self.handle_addrs.iter().map(|&addr| Handle { addr }).collect(),
            }
        }
    }

    fn handle_protocol(&mut self, handle: Handle, protocol: Guid) -> InterfaceResponse {
        if let Some(failure) = self.resolve_failure {
            return InterfaceResponse { status: failure, interface: 0 };
        }
        if protocol == self.target && self.handle_addrs.contains(&handle.addr) {
            InterfaceResponse { status: Status::success(), interface: self.iface }
        } else {
            InterfaceResponse { status: Status::unsupported(), interface: 0 }
        }
    }

    fn locate_protocol(&mut self, protocol: Guid) -> InterfaceResponse {
        self.locate_protocol_calls += 1;
        if self.direct_null {
            InterfaceResponse { status: Status::success(), interface: 0 }
        } else if protocol == self.target {
            InterfaceResponse { status: Status::success(), interface: self.iface }
        } else {
            InterfaceResponse { status: Status::not_found(), interface: 0 }
        }
    }

    fn exit_boot_services(&mut self, _image_handle: Handle, _map_key: usize) -> Status {
        panic!("not exercised");
    }

    fn next_monotonic_count(&mut self) -> MonotonicCountResponse {
        panic!("not exercised");
    }
}

fn services(revision: u32) -> BootServices {
    BootServices {
        header: TableHeader {
            signature: 0x5453595320494249,
            revision,
            header_size: 24,
            checksum: 0,
            reserved: 0,
        },
    }
}

#[test]
fn protocol_identifiers_match_their_wire_values() {
    assert_eq!(<BlockIo as Protocol>::guid(), block_io_guid());
    assert_eq!(
        <uefi::proto::DevicePath as Protocol>::guid(),
        Guid::new(0, 0, 0, [0, 0, 0, 0, 0, 0, 0, 0])
    );
    assert_ne!(
        <uefi::riscv::RiscvBoot as Protocol>::guid(),
        <uefi::gop::EdidActive as Protocol>::guid()
    );
    assert_ne!(
        <uefi::text::SimpleTextInput as Protocol>::guid(),
        <uefi::text::SimpleTextOutput as Protocol>::guid()
    );
    assert_eq!(
        <uefi::gop::GraphicsOutput as Protocol>::guid(),
        Guid::new(
            0x9042a9de,
            0x23dc,
            0x4a38,
            [0x96, 0xfb, 0x7a, 0xde, 0xd0, 0x80, 0x51, 0x6a],
        )
    );
    assert_ne!(
        <uefi::gop::GraphicsOutput as Protocol>::guid(),
        <uefi::gop::EdidOverride as Protocol>::guid()
    );
}

#[test]
fn fallback_returns_the_same_binding_as_by_handle_resolution() {
    let bs = services(REVISION_DIRECT_LOOKUP - 1);
    let mut fw = ResolveFirmware::new(block_io_guid(), vec![0x4000], 0x9000);

    let via_first = bs.first_protocol::<ResolveFirmware, BlockIo>(&mut fw).unwrap();
    let via_handle = bs
        .protocol_for_handle::<ResolveFirmware, BlockIo>(&mut fw, Handle { addr: 0x4000 })
        .unwrap();
    assert_eq!(via_first.as_ptr(), via_handle.as_ptr());
    assert_eq!(fw.locate_protocol_calls, 0);
}

#[test]
fn at_the_revision_threshold_resolution_is_direct() {
    let bs = services(REVISION_DIRECT_LOOKUP);
    let mut fw = ResolveFirmware::new(block_io_guid(), vec![0x4000], 0x9000);

    let binding = bs.first_protocol::<ResolveFirmware, BlockIo>(&mut fw).unwrap();
    assert_eq!(binding.as_ptr(), 0x9000);
    assert_eq!(fw.locate_protocol_calls, 1);
    assert_eq!(fw.locate_handles_calls, 0);
}

#[test]
fn enumeration_probes_then_fills_with_the_rounded_size() {
    let bs = services(REVISION_DIRECT_LOOKUP - 1);
    let mut fw = ResolveFirmware::new(block_io_guid(), vec![0x4000, 0x5000, 0x6000], 0x9000);
    fw.reported_needed = Some(21);

    let handles = bs.handles_by_protocol::<ResolveFirmware, BlockIo>(&mut fw).unwrap();
    assert_eq!(
        handles,
        vec![Handle { addr: 0x4000 }, Handle { addr: 0x5000 }, Handle { addr: 0x6000 }]
    );
    // A probe with an empty buffer, then a fill with 21 rounded up to whole
    // handle records.
    assert_eq!(fw.locate_handles_calls, 2);
    assert_eq!(fw.fill_sizes, vec![24]);
}

#[test]
fn an_unrepresentable_required_size_fails_cleanly() {
    let bs = services(REVISION_DIRECT_LOOKUP - 1);
    let mut fw = ResolveFirmware::new(block_io_guid(), vec![0x4000], 0x9000);
    fw.reported_needed = Some(usize::MAX);

    let r = bs.handles_by_protocol::<ResolveFirmware, BlockIo>(&mut fw);
    assert_eq!(r.err(), Some(QueryError::Firmware(Status::bad_buffer_size())));
}

#[test]
fn zero_matches_surface_as_not_found() {
    let bs = services(REVISION_DIRECT_LOOKUP - 1);

    // Firmware that knows nothing of the identifier answers "not found" at
    // the probe, which passes through.
    let other = Guid::new(1, 2, 3, [4, 5, 6, 7, 8, 9, 10, 11]);
    let mut fw = ResolveFirmware::new(other, vec![0x4000], 0x9000);
    let r = bs.first_protocol::<ResolveFirmware, BlockIo>(&mut fw);
    assert_eq!(r.err(), Some(QueryError::Firmware(Status::not_found())));

    // Firmware that reports a nonempty requirement but then hands back an
    // empty handle set: the fallback itself fails with "not found".
    let mut fw = ResolveFirmware::new(block_io_guid(), Vec::new(), 0x9000);
    fw.reported_needed = Some(8);
    let r = bs.first_protocol::<ResolveFirmware, BlockIo>(&mut fw);
    assert_eq!(r.err(), Some(QueryError::Firmware(Status::not_found())));
}

#[test]
fn a_resolution_failure_on_the_first_handle_propagates() {
    let bs = services(REVISION_DIRECT_LOOKUP - 1);
    let mut fw = ResolveFirmware::new(block_io_guid(), vec![0x4000, 0x5000], 0x9000);
    fw.resolve_failure = Some(Status::device_error());

    let r = bs.first_protocol::<ResolveFirmware, BlockIo>(&mut fw);
    assert_eq!(r.err(), Some(QueryError::Firmware(Status::device_error())));
}

#[test]
fn a_handle_not_implementing_the_identifier_fails_distinctly() {
    let bs = services(REVISION_DIRECT_LOOKUP - 1);
    let mut fw = ResolveFirmware::new(block_io_guid(), vec![0x4000], 0x9000);

    let r = bs.protocol_for_handle::<ResolveFirmware, BlockIo>(&mut fw, Handle { addr: 0x7777 });
    assert_eq!(r.err().map(|e| e.code), Some(Status::unsupported().code));
}

#[test]
fn a_success_with_a_null_interface_is_rejected() {
    let bs = services(REVISION_DIRECT_LOOKUP);
    let mut fw = ResolveFirmware::new(block_io_guid(), vec![0x4000], 0x9000);
    fw.direct_null = true;

    let r = bs.first_protocol::<ResolveFirmware, BlockIo>(&mut fw);
    assert_eq!(r.err(), Some(QueryError::Firmware(Status::invalid_parameter())));
}

#[test]
fn a_successful_enumeration_probe_is_a_fatal_violation() {
    let bs = services(REVISION_DIRECT_LOOKUP - 1);
    // A firmware double that answers the zero-size probe with success,
    // which the firmware contract forbids at that phase.
    let mut fw = ResolveFirmware::new(block_io_guid(), Vec::new(), 0x9000);

    let r = bs.first_protocol::<ResolveFirmware, BlockIo>(&mut fw);
    assert_eq!(r.err(), Some(QueryError::InvariantViolation));
    assert!(QueryError::InvariantViolation.is_fatal());
    assert!(!QueryError::Firmware(Status::not_found()).is_fatal());
}
