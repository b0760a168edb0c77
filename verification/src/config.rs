//! The configuration table: a fixed list of identified data blocks searched
//! linearly by identifier.

use crate::guid::Guid;
use vstd::prelude::*;

verus! {

/// The identifier of one configuration table entry.
#[derive(Clone, Copy, Debug, Eq, Hash)]
pub struct TableGuid(pub Guid);

impl PartialEq for TableGuid {
    fn eq(&self, o: &TableGuid) -> (r: bool) {
        self.0 == o.0
    }
}

impl vstd::std_specs::cmp::PartialEqSpecImpl for TableGuid {
    open spec fn obeys_eq_spec() -> bool {
        true
    }

    open spec fn eq_spec(&self, o: &TableGuid) -> bool {
        *self == *o
    }
}

/// The identifiers of the well-known configuration data blocks.
impl TableGuid {
    pub open spec fn acpi_spec() -> TableGuid {
        TableGuid(Guid { a: 0xeb9d2d30, b: 0x2d88, c: 0x11d3, d: [0x9au8, 0x16u8, 0x00u8, 0x90u8, 0x27u8, 0x3fu8, 0xc1u8, 0x4du8] })
    }

    pub fn acpi() -> (t: TableGuid)
        ensures
            t == TableGuid::acpi_spec(),
    {
        TableGuid(Guid::new(0xeb9d2d30, 0x2d88, 0x11d3, [0x9au8, 0x16u8, 0x00u8, 0x90u8, 0x27u8, 0x3fu8, 0xc1u8, 0x4du8]))
    }

    pub open spec fn acpi_20_spec() -> TableGuid {
        TableGuid(Guid { a: 0x8868e871, b: 0xe4f1, c: 0x11d3, d: [0xbcu8, 0x22u8, 0x00u8, 0x80u8, 0xc7u8, 0x3cu8, 0x88u8, 0x81u8] })
    }

    pub fn acpi_20() -> (t: TableGuid)
        ensures
            t == TableGuid::acpi_20_spec(),
    {
        TableGuid(Guid::new(0x8868e871, 0xe4f1, 0x11d3, [0xbcu8, 0x22u8, 0x00u8, 0x80u8, 0xc7u8, 0x3cu8, 0x88u8, 0x81u8]))
    }

    pub open spec fn sal_system_spec() -> TableGuid {
        TableGuid(Guid { a: 0xeb9d2d32, b: 0x2d88, c: 0x11d3, d: [0x9au8, 0x16u8, 0x00u8, 0x90u8, 0x27u8, 0x3fu8, 0xc1u8, 0x4du8] })
    }

    pub fn sal_system() -> (t: TableGuid)
        ensures
            t == TableGuid::sal_system_spec(),
    {
        TableGuid(Guid::new(0xeb9d2d32, 0x2d88, 0x11d3, [0x9au8, 0x16u8, 0x00u8, 0x90u8, 0x27u8, 0x3fu8, 0xc1u8, 0x4du8]))
    }

    pub open spec fn smbios_spec() -> TableGuid {
        TableGuid(Guid { a: 0xeb9d2d31, b: 0x2d88, c: 0x11d3, d: [0x9au8, 0x16u8, 0x00u8, 0x90u8, 0x27u8, 0x3fu8, 0xc1u8, 0x4du8] })
    }

    pub fn smbios() -> (t: TableGuid)
        ensures
            t == TableGuid::smbios_spec(),
    {
        TableGuid(Guid::new(0xeb9d2d31, 0x2d88, 0x11d3, [0x9au8, 0x16u8, 0x00u8, 0x90u8, 0x27u8, 0x3fu8, 0xc1u8, 0x4du8]))
    }

    pub open spec fn smbios3_spec() -> TableGuid {
        TableGuid(Guid { a: 0xf2fd1544, b: 0x9794, c: 0x4a2c, d: [0x99u8, 0x2eu8, 0xe5u8, 0xbbu8, 0xcfu8, 0x20u8, 0xe3u8, 0x94u8] })
    }

    pub fn smbios3() -> (t: TableGuid)
        ensures
            t == TableGuid::smbios3_spec(),
    {
        TableGuid(Guid::new(0xf2fd1544, 0x9794, 0x4a2c, [0x99u8, 0x2eu8, 0xe5u8, 0xbbu8, 0xcfu8, 0x20u8, 0xe3u8, 0x94u8]))
    }

    pub open spec fn mps_spec() -> TableGuid {
        TableGuid(Guid { a: 0xeb9d2d2f, b: 0x2d88, c: 0x11d3, d: [0x9au8, 0x16u8, 0x00u8, 0x90u8, 0x27u8, 0x3fu8, 0xc1u8, 0x4du8] })
    }

    pub fn mps() -> (t: TableGuid)
        ensures
            t == TableGuid::mps_spec(),
    {
        TableGuid(Guid::new(0xeb9d2d2f, 0x2d88, 0x11d3, [0x9au8, 0x16u8, 0x00u8, 0x90u8, 0x27u8, 0x3fu8, 0xc1u8, 0x4du8]))
    }

    pub open spec fn json_config_data_spec() -> TableGuid {
        TableGuid(Guid { a: 0x87367f87, b: 0x1119, c: 0x41ce, d: [0xaau8, 0xecu8, 0x8bu8, 0xe0u8, 0x11u8, 0x1fu8, 0x55u8, 0x8au8] })
    }

    pub fn json_config_data() -> (t: TableGuid)
        ensures
            t == TableGuid::json_config_data_spec(),
    {
        TableGuid(Guid::new(0x87367f87, 0x1119, 0x41ce, [0xaau8, 0xecu8, 0x8bu8, 0xe0u8, 0x11u8, 0x1fu8, 0x55u8, 0x8au8]))
    }

    pub open spec fn json_capsule_data_spec() -> TableGuid {
        TableGuid(Guid { a: 0x35e7a725, b: 0x8dd2, c: 0x4cac, d: [0x80u8, 0x11u8, 0x33u8, 0xcdu8, 0xa8u8, 0x10u8, 0x90u8, 0x56u8] })
    }

    pub fn json_capsule_data() -> (t: TableGuid)
        ensures
            t == TableGuid::json_capsule_data_spec(),
    {
        TableGuid(Guid::new(0x35e7a725, 0x8dd2, 0x4cac, [0x80u8, 0x11u8, 0x33u8, 0xcdu8, 0xa8u8, 0x10u8, 0x90u8, 0x56u8]))
    }

    pub open spec fn json_capsule_result_spec() -> TableGuid {
        TableGuid(Guid { a: 0xdbc461c3, b: 0xb3de, c: 0x422a, d: [0xb9u8, 0xb4u8, 0x98u8, 0x86u8, 0xfdu8, 0x49u8, 0xa1u8, 0xe5u8] })
    }

    pub fn json_capsule_result() -> (t: TableGuid)
        ensures
            t == TableGuid::json_capsule_result_spec(),
    {
        TableGuid(Guid::new(0xdbc461c3, 0xb3de, 0x422a, [0xb9u8, 0xb4u8, 0x98u8, 0x86u8, 0xfdu8, 0x49u8, 0xa1u8, 0xe5u8]))
    }

    pub open spec fn device_tree_spec() -> TableGuid {
        TableGuid(Guid { a: 0xb1b621d5, b: 0xf19c, c: 0x41a5, d: [0x83u8, 0x0bu8, 0xd9u8, 0x15u8, 0x2cu8, 0x69u8, 0xaau8, 0xe0u8] })
    }

    pub fn device_tree() -> (t: TableGuid)
        ensures
            t == TableGuid::device_tree_spec(),
    {
        TableGuid(Guid::new(0xb1b621d5, 0xf19c, 0x41a5, [0x83u8, 0x0bu8, 0xd9u8, 0x15u8, 0x2cu8, 0x69u8, 0xaau8, 0xe0u8]))
    }

    pub open spec fn rt_properties_spec() -> TableGuid {
        TableGuid(Guid { a: 0xeb66918a, b: 0x7eef, c: 0x402a, d: [0x84u8, 0x2eu8, 0x93u8, 0x1du8, 0x21u8, 0xc3u8, 0x8au8, 0xe9u8] })
    }

    pub fn rt_properties() -> (t: TableGuid)
        ensures
            t == TableGuid::rt_properties_spec(),
    {
        TableGuid(Guid::new(0xeb66918a, 0x7eef, 0x402a, [0x84u8, 0x2eu8, 0x93u8, 0x1du8, 0x21u8, 0xc3u8, 0x8au8, 0xe9u8]))
    }

    pub open spec fn memory_attributes_spec() -> TableGuid {
        TableGuid(Guid { a: 0xdcfa911d, b: 0x26eb, c: 0x469f, d: [0xa2u8, 0x20u8, 0x38u8, 0xb7u8, 0xdcu8, 0x46u8, 0x12u8, 0x20u8] })
    }

    pub fn memory_attributes() -> (t: TableGuid)
        ensures
            t == TableGuid::memory_attributes_spec(),
    {
        TableGuid(Guid::new(0xdcfa911d, 0x26eb, 0x469f, [0xa2u8, 0x20u8, 0x38u8, 0xb7u8, 0xdcu8, 0x46u8, 0x12u8, 0x20u8]))
    }
}

/// One configuration table entry: an identifier and the raw address of the
/// data block published under it.
#[derive(Clone, Copy, Debug)]
pub struct ConfigurationEntry {
    pub vendor_guid: TableGuid,
    pub vendor_table: usize,
}

/// The fixed-length, read-only list of configuration entries, set once at
/// boot and never mutated by this layer.
#[derive(Debug)]
pub struct ConfigTable {
    entries: Vec<ConfigurationEntry>,
}

impl View for ConfigTable {
    type V = Seq<ConfigurationEntry>;

    closed spec fn view(&self) -> Seq<ConfigurationEntry> {
        self.entries@
    }
}

impl ConfigTable {
    pub fn new(entries: Vec<ConfigurationEntry>) -> (t: ConfigTable)
        ensures
            t@ == entries@,
    {
        ConfigTable { entries }
    }

    /// Scans the entries in order for an exact identifier match and returns
    /// the first match's data block address, or nothing when the identifier
    /// is absent.  Each lookup re-scans: the table is small and queried
    /// rarely.
    pub fn get_table(&self, guid: TableGuid) -> (r: Option<usize>)
        ensures
            (match r {
                Some(p) => exists|i: int|
                    0 <= i < self@.len() && (#[trigger] self@[i]).vendor_guid == guid
                        && self@[i].vendor_table == p && (forall|j: int|
                        0 <= j < i ==> (#[trigger] self@[j]).vendor_guid != guid),
                None => forall|i: int|
                    0 <= i < self@.len() ==> (#[trigger] self@[i]).vendor_guid != guid,
            }),
    {
        let n = self.entries.len();
        let mut i: usize = 0;
        while i < n
            invariant
                i <= n,
                n == self@.len(),
                self@ == self.entries@,
                forall|j: int| 0 <= j < i ==> (#[trigger] self@[j]).vendor_guid != guid,
            decreases n - i,
        {
            if self.entries[i].vendor_guid == guid {
                return Some(self.entries[i].vendor_table);
            }
            i = i + 1;
        }
        None
    }
}

/// The layout of the runtime-properties data block: which runtime services
/// the firmware keeps supporting after boot services end.
#[derive(Clone, Copy, Debug)]
pub struct RuntimeProperties {
    pub version: u16,
    pub length: u16,
    pub runtime_services_supported: RtSupport,
}

/// One bit per runtime service that stays supported.
#[derive(Clone, Copy, Debug, PartialEq, Eq, Structural)]
pub struct RtSupport {
    pub bits: u32,
}

impl RtSupport {
    /// Whether every capability bit of `other` is also set in `self`.
    pub fn contains(self, other: RtSupport) -> (r: bool)
        ensures
            r == (self.bits & other.bits == other.bits),
    {
        self.bits & other.bits == other.bits
    }

    pub fn get_time() -> (r: RtSupport)
        ensures
            r == (RtSupport { bits: 0x0001 }),
    {
        RtSupport { bits: 0x0001 }
    }

    pub fn set_time() -> (r: RtSupport)
        ensures
            r == (RtSupport { bits: 0x0002 }),
    {
        RtSupport { bits: 0x0002 }
    }

    pub fn get_wakeup_time() -> (r: RtSupport)
        ensures
            r == (RtSupport { bits: 0x0004 }),
    {
        RtSupport { bits: 0x0004 }
    }

    pub fn set_wakeup_time() -> (r: RtSupport)
        ensures
            r == (RtSupport { bits: 0x0008 }),
    {
        RtSupport { bits: 0x0008 }
    }

    pub fn get_variable() -> (r: RtSupport)
        ensures
            r == (RtSupport { bits: 0x0010 }),
    {
        RtSupport { bits: 0x0010 }
    }

    pub fn get_next_variable_name() -> (r: RtSupport)
        ensures
            r == (RtSupport { bits: 0x0020 }),
    {
        RtSupport { bits: 0x0020 }
    }

    pub fn set_variable() -> (r: RtSupport)
        ensures
            r == (RtSupport { bits: 0x0040 }),
    {
        RtSupport { bits: 0x0040 }
    }

    pub fn set_virtual_address_map() -> (r: RtSupport)
        ensures
            r == (RtSupport { bits: 0x0080 }),
    {
        RtSupport { bits: 0x0080 }
    }

    pub fn convert_pointer() -> (r: RtSupport)
        ensures
            r == (RtSupport { bits: 0x0100 }),
    {
        RtSupport { bits: 0x0100 }
    }

    pub fn get_next_high_monotonic_count() -> (r: RtSupport)
        ensures
            r == (RtSupport { bits: 0x0200 }),
    {
        RtSupport { bits: 0x0200 }
    }

    pub fn reset_system() -> (r: RtSupport)
        ensures
            r == (RtSupport { bits: 0x0400 }),
    {
        RtSupport { bits: 0x0400 }
    }

    pub fn update_capsule() -> (r: RtSupport)
        ensures
            r == (RtSupport { bits: 0x0800 }),
    {
        RtSupport { bits: 0x0800 }
    }

    pub fn query_capsule_capabilities() -> (r: RtSupport)
        ensures
            r == (RtSupport { bits: 0x1000 }),
    {
        RtSupport { bits: 0x1000 }
    }

    pub fn query_variable_info() -> (r: RtSupport)
        ensures
            r == (RtSupport { bits: 0x2000 }),
    {
        RtSupport { bits: 0x2000 }
    }
}

} // verus!
