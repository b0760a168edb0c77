use uefi::config::ConfigTable;
use uefi::config::ConfigurationEntry;
use uefi::config::RtSupport;
use uefi::config::TableGuid;
use uefi::guid::Guid;

fn guid(tag: u8) -> TableGuid {
    TableGuid(Guid::new(tag as u32, 0, 0, [tag, 0, 0, 0, 0, 0, 0, 0]))
}

fn table_of(tags: &[u8]) -> ConfigTable {
    let entries: Vec<ConfigurationEntry> = tags
        .iter()
        .enumerate()
        .map(|(i, &t)| ConfigurationEntry {
            vendor_guid: guid(t),
            vendor_table: 0x1000 + i,
        })
        .collect();
    ConfigTable::new(entries)
}

#[test]
fn lookup_finds_entry_at_each_position() {
    let tags = [3u8, 5, 7, 9, 11];
    let table = table_of(&tags);
    for (k, &t) in tags.iter().enumerate() {
        assert_eq!(table.get_table(guid(t)), Some(0x1000 + k), "position {}", k);
    }
}

#[test]
fn lookup_of_absent_identifier_is_none() {
    assert_eq!(table_of(&[]).get_table(guid(1)), None);
    assert_eq!(table_of(&[2]).get_table(guid(1)), None);
    assert_eq!(table_of(&[3, 5, 7, 9, 11]).get_table(guid(1)), None);
}

#[test]
fn lookup_returns_first_match_among_duplicates() {
    let table = table_of(&[4, 6, 4, 4]);
    assert_eq!(table.get_table(guid(4)), Some(0x1000));
}

#[test]
fn named_table_identifiers_are_distinct() {
    let all = [
        TableGuid::acpi(),
        TableGuid::acpi_20(),
        TableGuid::sal_system(),
        TableGuid::smbios(),
        TableGuid::smbios3(),
        TableGuid::mps(),
        TableGuid::json_config_data(),
        TableGuid::json_capsule_data(),
        TableGuid::json_capsule_result(),
        TableGuid::device_tree(),
        TableGuid::rt_properties(),
        TableGuid::memory_attributes(),
    ];
    for (i, a) in all.iter().enumerate() {
        for (j, b) in all.iter().enumerate() {
            assert_eq!(i == j, a == b);
        }
    }
}

#[test]
fn lookup_finds_a_named_identifier() {
    let entries = vec![
        ConfigurationEntry {
            vendor_guid: TableGuid::smbios(),
            vendor_table: 0xdead0,
        },
        ConfigurationEntry {
            vendor_guid: TableGuid::device_tree(),
            vendor_table: 0xbeef0,
        },
    ];
    let table = ConfigTable::new(entries);
    assert_eq!(table.get_table(TableGuid::device_tree()), Some(0xbeef0));
    assert_eq!(table.get_table(TableGuid::acpi()), None);
}

#[test]
fn rt_support_contains_checks_every_bit() {
    let both = RtSupport {
        bits: RtSupport::get_time().bits | RtSupport::reset_system().bits,
    };
    assert!(both.contains(RtSupport::get_time()));
    assert!(both.contains(RtSupport::reset_system()));
    assert!(both.contains(both));
    assert!(!RtSupport::get_time().contains(both));
    assert!(!both.contains(RtSupport::set_time()));
}
