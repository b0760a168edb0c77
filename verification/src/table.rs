//! The system table, its header, and the process-wide bootstrap state.

use crate::boot::BootServices;
use crate::config::ConfigTable;
use crate::Handle;
use vstd::prelude::*;

verus! {

/// The versioned header preceding each firmware table.  Its checksum is the
/// firmware's to validate, not this layer's.
#[derive(Clone, Copy, Debug, PartialEq, Eq, Structural)]
pub struct TableHeader {
    pub signature: u64,
    pub revision: u32,
    pub header_size: u32,
    pub checksum: u32,
    pub reserved: u32,
}

/// The top-level table handed over at bootstrap: the console handles, the
/// service table, and the configuration table, read-only for the lifetime
/// of the boot-time program.
#[derive(Debug)]
pub struct SystemTable {
    pub header: TableHeader,
    pub firmware_revision: u32,
    pub stdin_handle: Handle,
    pub stdout_handle: Handle,
    pub stderr_handle: Handle,
    pub boot_services: BootServices,
    pub config: ConfigTable,
}

impl SystemTable {
    /// The service table.
    pub fn boot_services(&self) -> (b: &BootServices)
        ensures
            b == &self.boot_services,
    {
        &self.boot_services
    }

    /// The configuration table.
    pub fn config_table(&self) -> (c: &ConfigTable)
        ensures
            c == &self.config,
    {
        &self.config
    }
}

/// The one-time, process-wide capture of the initial handle and system
/// table: set exactly once, before any accessor; read-only thereafter.
/// Using an accessor before bootstrap is a programming-contract violation,
/// which the contracts here rule out rather than recover from.
pub struct BootstrapState {
    slot: Option<(Handle, SystemTable)>,
}

impl BootstrapState {
    /// Whether bootstrap has occurred.
    pub closed spec fn bootstrapped(self) -> bool {
        self.slot is Some
    }

    /// The handle captured at bootstrap.
    pub closed spec fn image_spec(self) -> Handle {
        self.slot->Some_0.0
    }

    /// The table captured at bootstrap.
    pub closed spec fn table_spec(self) -> SystemTable {
        self.slot->Some_0.1
    }

    /// The state before bootstrap.
    pub fn new() -> (s: BootstrapState)
        ensures
            !s.bootstrapped(),
    {
        BootstrapState { slot: None }
    }

    /// Captures the initial handle and system table, exactly once.
    pub fn bootstrap(&mut self, image: Handle, system_table: SystemTable)
        requires
            !old(self).bootstrapped(),
        ensures
            final(self).bootstrapped(),
            final(self).image_spec() == image,
            final(self).table_spec() == system_table,
    {
        self.slot = Some((image, system_table));
    }

    /// Whether bootstrap has occurred.
    pub fn is_bootstrapped(&self) -> (b: bool)
        ensures
            b == self.bootstrapped(),
    {
        self.slot.is_some()
    }

    /// The handle captured at bootstrap.
    pub fn image_handle(&self) -> (h: Handle)
        requires
            self.bootstrapped(),
        ensures
            h == self.image_spec(),
    {
        match &self.slot {
            Some(p) => p.0,
            None => vstd::pervasive::unreached(),
        }
    }

    /// The table captured at bootstrap.
    pub fn system_table(&self) -> (t: &SystemTable)
        requires
            self.bootstrapped(),
        ensures
            *t == self.table_spec(),
    {
        match &self.slot {
            Some(p) => &p.1,
            None => vstd::pervasive::unreached(),
        }
    }

    /// The service table of the table captured at bootstrap.
    pub fn boot_services(&self) -> (b: &BootServices)
        requires
            self.bootstrapped(),
        ensures
            *b == self.table_spec().boot_services,
    {
        self.system_table().boot_services()
    }
}

} // verus!
