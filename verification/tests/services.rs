use uefi::boot::AllocPagesType;
use uefi::boot::AllocType;
use uefi::boot::BootServices;
use uefi::boot::LocateSearchType;
use uefi::config::ConfigTable;
use uefi::firmware::AllocatePagesResponse;
use uefi::firmware::AllocatePoolResponse;
use uefi::firmware::Firmware;
use uefi::firmware::InterfaceResponse;
use uefi::firmware::LocateHandlesResponse;
use uefi::firmware::MemoryMapResponse;
use uefi::firmware::MonotonicCountResponse;
use uefi::guid::Guid;
use uefi::memory::MemoryType;
use uefi::status::Status;
use uefi::table::BootstrapState;
use uefi::table::SystemTable;
use uefi::table::TableHeader;
use uefi::text::check_null_terminated;
use uefi::Handle;
use uefi::PhysicalAddr;
use uefi::Tpl;

/// A firmware double for the straight pass-through services.
struct PassthroughFirmware {
    tpl: usize,
    page_base: u64,
    fail_pool: bool,
    count: u64,
}

impl Firmware for PassthroughFirmware {
    fn raise_tpl(&mut self, new_tpl: Tpl) -> Tpl {
        let old = Tpl { level: self.tpl };
        self.tpl = new_tpl.level;
        old
    }

    fn restore_tpl(&mut self, old_tpl: Tpl) {
        self.tpl = old_tpl.level;
    }

    fn allocate_pages(
        &mut self,
        alloc_type: AllocType,
        _memory_type: MemoryType,
        pages: usize,
        memory: PhysicalAddr,
    ) -> AllocatePagesResponse {
        if pages == 0 {
            return AllocatePagesResponse {
                status: Status::invalid_parameter(),
                memory: 0,
            };
        }
        let memory = match alloc_type {
            AllocType::AnyPages => self.page_base,
            AllocType::MaxAddress | AllocType::Address => memory,
        };
        AllocatePagesResponse { status: Status::success(), memory }
    }

    fn free_pages(&mut self, _memory: PhysicalAddr, _pages: usize) -> Status {
        Status::success()
    }

    fn allocate_pool(&mut self, _pool_type: MemoryType, size: usize) -> AllocatePoolResponse {
        if self.fail_pool {
            AllocatePoolResponse { status: Status::out_of_resources(), buffer: 0 }
        } else {
            AllocatePoolResponse { status: Status::success(), buffer: 0xf000 + size }
        }
    }

    fn free_pool(&mut self, _buffer: usize) -> Status {
        Status::success()
    }

    fn memory_map(&mut self, _buffer: &mut Vec<u8>) -> MemoryMapResponse {
        panic!("not exercised");
    }

    fn locate_handles(&mut self, _protocol: Guid, _buffer_size: usize) -> LocateHandlesResponse {
        panic!("not exercised");
    }

    fn handle_protocol(&mut self, _handle: Handle, _protocol: Guid) -> InterfaceResponse {
        panic!("not exercised");
    }

    fn locate_protocol(&mut self, _protocol: Guid) -> InterfaceResponse {
        panic!("not exercised");
    }

    fn exit_boot_services(&mut self, _image_handle: Handle, _map_key: usize) -> Status {
        panic!("not exercised");
    }

    fn next_monotonic_count(&mut self) -> MonotonicCountResponse {
        self.count += 1;
        MonotonicCountResponse { status: Status::success(), count: self.count }
    }
}

fn services() -> BootServices {
    BootServices {
        header: TableHeader {
            signature: 0,
            revision: (1 << 16) | 10,
            header_size: 24,
            checksum: 0,
            reserved: 0,
        },
    }
}

fn firmware() -> PassthroughFirmware {
    PassthroughFirmware { tpl: 4, page_base: 0x20_0000, fail_pool: false, count: 0 }
}

#[test]
fn tpl_levels_are_strictly_ordered() {
    assert!(Tpl::application().level < Tpl::callback().level);
    assert!(Tpl::callback().level < Tpl::notify().level);
    assert!(Tpl::notify().level < Tpl::high_level().level);
}

#[test]
fn raise_and_restore_pass_straight_through() {
    let bs = services();
    let mut fw = firmware();
    let previous = bs.raise_tpl(&mut fw, Tpl::high_level());
    assert_eq!(previous, Tpl::application());
    assert_eq!(fw.tpl, 31);
    bs.restore_tpl(&mut fw, previous);
    assert_eq!(fw.tpl, 4);
}

#[test]
fn allocation_requests_translate_to_their_raw_form() {
    assert_eq!(
        BootServices::alloc_pages_request(AllocPagesType::Any),
        (AllocType::AnyPages, 0)
    );
    assert_eq!(
        BootServices::alloc_pages_request(AllocPagesType::Max(0x9000)),
        (AllocType::MaxAddress, 0x9000)
    );
    assert_eq!(
        BootServices::alloc_pages_request(AllocPagesType::Addr(0x7000)),
        (AllocType::Address, 0x7000)
    );
}

#[test]
fn allocate_pages_classifies_the_response() {
    let bs = services();
    let mut fw = firmware();
    assert_eq!(bs.allocate_pages(&mut fw, AllocPagesType::Any, MemoryType::loader_data(), 4), Ok(0x20_0000));
    assert_eq!(
        bs.allocate_pages(&mut fw, AllocPagesType::Addr(0x40_0000), MemoryType::loader_data(), 4),
        Ok(0x40_0000)
    );
    assert_eq!(
        bs.allocate_pages(&mut fw, AllocPagesType::Any, MemoryType::loader_data(), 0),
        Err(Status::invalid_parameter())
    );
    assert_eq!(bs.free_pages(&mut fw, 0x20_0000, 4), Ok(()));
}

#[test]
fn pool_allocation_classifies_the_response() {
    let bs = services();
    let mut fw = firmware();
    assert_eq!(bs.allocate_pool(&mut fw, MemoryType::loader_data(), 64), Ok(0xf040));
    assert_eq!(bs.free_pool(&mut fw, 0xf040), Ok(()));
    fw.fail_pool = true;
    assert_eq!(
        bs.allocate_pool(&mut fw, MemoryType::loader_data(), 64),
        Err(Status::out_of_resources())
    );
}

#[test]
fn monotonic_count_classifies_the_response() {
    let bs = services();
    let mut fw = firmware();
    assert_eq!(bs.next_monotonic_count(&mut fw), Ok(1));
    assert_eq!(bs.next_monotonic_count(&mut fw), Ok(2));
}

#[test]
fn search_kinds_encode_their_wire_values() {
    assert_eq!(LocateSearchType::AllHandles.as_raw(), 0);
    assert_eq!(LocateSearchType::ByRegisterNotify.as_raw(), 1);
    assert_eq!(LocateSearchType::ByProtocol.as_raw(), 2);
}

#[test]
fn null_termination_check_scans_the_whole_string() {
    assert!(check_null_terminated(&[0x68, 0x69, 0]));
    assert!(check_null_terminated(&[0]));
    assert!(!check_null_terminated(&[0x68, 0x69]));
    assert!(!check_null_terminated(&[]));
}

#[test]
fn bootstrap_captures_the_handle_and_table_once() {
    let mut state = BootstrapState::new();
    assert!(!state.is_bootstrapped());

    let table = SystemTable {
        header: TableHeader {
            signature: 0x5453595320494249,
            revision: (1 << 16) | 10,
            header_size: 24,
            checksum: 0,
            reserved: 0,
        },
        firmware_revision: 0x10000,
        stdin_handle: Handle { addr: 0x100 },
        stdout_handle: Handle { addr: 0x200 },
        stderr_handle: Handle { addr: 0x200 },
        boot_services: services(),
        config: ConfigTable::new(Vec::new()),
    };
    state.bootstrap(Handle { addr: 0x42 }, table);

    assert!(state.is_bootstrapped());
    assert_eq!(state.image_handle(), Handle { addr: 0x42 });
    assert_eq!(state.system_table().firmware_revision, 0x10000);
    assert_eq!(state.boot_services().header.revision, (1 << 16) | 10);
    assert_eq!(state.system_table().boot_services().header.revision, (1 << 16) | 10);
    assert_eq!(state.system_table().config_table().get_table(uefi::config::TableGuid::acpi()), None);
}
