//! Filesystem locations the daemon works on, and their configuration.

use vstd::prelude::*;

use crate::error::FpgadError;
use crate::text::concat3;

verus! {

/// Directory of the device-class tree, one subdirectory per FPGA manager.
pub const FPGA_MANAGERS_DIR: &'static str = "/sys/class/fpga_manager/";

/// Control directory in which overlay directories are created.
pub const OVERLAY_CONTROL_DIR: &'static str = "/sys/kernel/config/device-tree/overlays/";

/// Register that holds the kernel's firmware search path.
pub const FIRMWARE_LOC_CONTROL_PATH: &'static str = "/sys/module/firmware_class/parameters/path";

/// Where firmware files are looked up by default.
pub const FIRMWARE_SOURCE_DIR: &'static str = "/lib/firmware/";

/// The `[system_paths]` section of a configuration file; each entry is optional.
#[derive(Debug, Clone)]
pub struct SystemPaths {
    pub overlay_control_dir: Option<String>,
    pub firmware_source_dir: Option<String>,
    pub fpga_managers_dir: Option<String>,
}

impl SystemPaths {
    /// A section that sets nothing.
    pub fn default() -> (r: SystemPaths)
        ensures
            r.overlay_control_dir.is_none(),
            r.firmware_source_dir.is_none(),
            r.fpga_managers_dir.is_none(),
    {
        SystemPaths { overlay_control_dir: None, firmware_source_dir: None, fpga_managers_dir: None }
    }

    /// Each entry of `self`, or of `fallback` where `self` does not set it.
    pub fn merge(self, fallback: SystemPaths) -> (r: SystemPaths)
        ensures
            r.overlay_control_dir == if self.overlay_control_dir.is_some() {
                self.overlay_control_dir
            } else {
                fallback.overlay_control_dir
            },
            r.firmware_source_dir == if self.firmware_source_dir.is_some() {
                self.firmware_source_dir
            } else {
                fallback.firmware_source_dir
            },
            r.fpga_managers_dir == if self.fpga_managers_dir.is_some() {
                self.fpga_managers_dir
            } else {
                fallback.fpga_managers_dir
            },
    {
        SystemPaths {
            overlay_control_dir: or_else(self.overlay_control_dir, fallback.overlay_control_dir),
            firmware_source_dir: or_else(self.firmware_source_dir, fallback.firmware_source_dir),
            fpga_managers_dir: or_else(self.fpga_managers_dir, fallback.fpga_managers_dir),
        }
    }
}

fn or_else(first: Option<String>, second: Option<String>) -> (r: Option<String>)
    ensures
        r == if first.is_some() {
            first
        } else {
            second
        },
{
    match first {
        Some(s) => Some(s),
        None => second,
    }
}

fn value_or(v: Option<String>, default: &str) -> (r: String)
    ensures
        r@ == match v {
            Some(s) => s@,
            None => default@,
        },
{
    match v {
        Some(s) => s,
        None => String::from_str(default),
    }
}

/// The locations in effect.
#[derive(Debug, Clone)]
pub struct SystemConfig {
    pub overlay_control_dir: String,
    pub firmware_source_dir: String,
    pub fpga_managers_dir: String,
}

impl SystemConfig {
    /// The locations a section sets, with the built-in ones where it sets none.
    pub fn from_paths(value: SystemPaths) -> (r: SystemConfig)
        ensures
            r.overlay_control_dir@ == match value.overlay_control_dir {
                Some(s) => s@,
                None => OVERLAY_CONTROL_DIR@,
            },
            r.firmware_source_dir@ == match value.firmware_source_dir {
                Some(s) => s@,
                None => FIRMWARE_SOURCE_DIR@,
            },
            r.fpga_managers_dir@ == match value.fpga_managers_dir {
                Some(s) => s@,
                None => FPGA_MANAGERS_DIR@,
            },
    {
        SystemConfig {
            overlay_control_dir: value_or(value.overlay_control_dir, OVERLAY_CONTROL_DIR),
            firmware_source_dir: value_or(value.firmware_source_dir, FIRMWARE_SOURCE_DIR),
            fpga_managers_dir: value_or(value.fpga_managers_dir, FPGA_MANAGERS_DIR),
        }
    }

    pub fn overlay_control_dir(&self) -> (r: Result<String, FpgadError>)
        ensures
            r matches Ok(s) && s@ == self.overlay_control_dir@,
    {
        Ok(self.overlay_control_dir.clone())
    }

    pub fn firmware_source_dir(&self) -> (r: Result<String, FpgadError>)
        ensures
            r matches Ok(s) && s@ == self.firmware_source_dir@,
    {
        Ok(self.firmware_source_dir.clone())
    }

    pub fn fpga_managers_dir(&self) -> (r: Result<String, FpgadError>)
        ensures
            r matches Ok(s) && s@ == self.fpga_managers_dir@,
    {
        Ok(self.fpga_managers_dir.clone())
    }

    pub fn set_overlay_control_dir(&mut self, prefix: String)
        ensures
            final(self).overlay_control_dir == prefix,
            final(self).firmware_source_dir == old(self).firmware_source_dir,
            final(self).fpga_managers_dir == old(self).fpga_managers_dir,
    {
        self.overlay_control_dir = prefix;
    }

    pub fn set_firmware_source_dir(&mut self, prefix: String)
        ensures
            final(self).firmware_source_dir == prefix,
            final(self).overlay_control_dir == old(self).overlay_control_dir,
            final(self).fpga_managers_dir == old(self).fpga_managers_dir,
    {
        self.firmware_source_dir = prefix;
    }

    pub fn set_fpga_managers_dir(&mut self, prefix: String)
        ensures
            final(self).fpga_managers_dir == prefix,
            final(self).overlay_control_dir == old(self).overlay_control_dir,
            final(self).firmware_source_dir == old(self).firmware_source_dir,
    {
        self.fpga_managers_dir = prefix;
    }
}

/// A bitstream to load at start-up.
#[derive(Debug, Clone)]
pub struct Bitstream {
    pub device_handle: String,
    pub bitstream_path: String,
    pub flags: isize,
}

/// An overlay to apply at start-up.
#[derive(Debug, Clone)]
pub struct Overlay {
    pub platform: String,
    pub overlay_handle: String,
    pub overlay_path: String,
    pub device_handle: Option<String>,
    pub fpga_flags: Option<isize>,
}

/// The `[boot_firmware]` section of a configuration file.
#[derive(Debug, Clone)]
pub struct BootFirmware {
    pub bitstreams: Vec<Bitstream>,
    pub overlays: Vec<Overlay>,
}

impl BootFirmware {
    /// A section that loads nothing.
    pub fn default() -> (r: BootFirmware)
        ensures
            r.bitstreams@.len() == 0,
            r.overlays@.len() == 0,
    {
        BootFirmware { bitstreams: Vec::new(), overlays: Vec::new() }
    }
}

impl BootFirmware {
    /// Each list of `self`, or of `fallback` where `self`'s is empty.
    pub fn merge(self, fallback: BootFirmware) -> (r: BootFirmware)
        ensures
            r.bitstreams == if self.bitstreams@.len() > 0 {
                self.bitstreams
            } else {
                fallback.bitstreams
            },
            r.overlays == if self.overlays@.len() > 0 {
                self.overlays
            } else {
                fallback.overlays
            },
    {
        let bitstreams = if self.bitstreams.len() > 0 {
            self.bitstreams
        } else {
            fallback.bitstreams
        };
        let overlays = if self.overlays.len() > 0 {
            self.overlays
        } else {
            fallback.overlays
        };
        BootFirmware { bitstreams, overlays }
    }
}

/// The error for a configuration file that is not there.
pub fn config_file_missing(file_path: &str) -> (r: FpgadError)
    ensures
        r is Internal,
{
    FpgadError::Internal(concat3("Config file not found in \"", file_path, "\""))
}

/// The `[system_paths]` section of a parsed configuration file; an `Internal` error
/// where it has none.
pub fn system_paths_config_from_file(section: Result<Option<SystemPaths>, FpgadError>) -> (r:
    Result<SystemPaths, FpgadError>)
    ensures
        match section {
            Ok(Some(p)) => r == Ok::<SystemPaths, FpgadError>(p),
            Ok(None) => r matches Err(FpgadError::Internal(_)),
            Err(e) => r == Err::<SystemPaths, FpgadError>(e),
        },
{
    match section {
        Ok(Some(p)) => Ok(p),
        Ok(None) => Err(
            FpgadError::Internal(
                String::from_str("config file did not contain a `[system_paths]` section."),
            ),
        ),
        Err(e) => Err(e),
    }
}

/// The `[boot_firmware]` section of a parsed configuration file; an `Internal` error
/// where it has none.
pub fn boot_firmware_from_file(section: Result<Option<BootFirmware>, FpgadError>) -> (r: Result<
    BootFirmware,
    FpgadError,
>)
    ensures
        match section {
            Ok(Some(b)) => r == Ok::<BootFirmware, FpgadError>(b),
            Ok(None) => r matches Err(FpgadError::Internal(_)),
            Err(e) => r == Err::<BootFirmware, FpgadError>(e),
        },
{
    match section {
        Ok(Some(b)) => Ok(b),
        Ok(None) => Err(
            FpgadError::Internal(
                String::from_str("config file did not contain a `[boot_firmware]` section."),
            ),
        ),
        Err(e) => Err(e),
    }
}

/// The locations in effect: the user's configuration over the vendor's, over the
/// built-in locations. A configuration that could not be loaded counts as empty.
pub fn init_system_config(
    vendor: Result<SystemPaths, FpgadError>,
    user: Result<SystemPaths, FpgadError>,
) -> (r: SystemConfig)
    ensures
        ({
            let v = match vendor {
                Ok(p) => p.firmware_source_dir,
                Err(_) => None,
            };
            let u = match user {
                Ok(p) => p.firmware_source_dir,
                Err(_) => None,
            };
            r.firmware_source_dir@ == match (u, v) {
                (Some(s), _) => s@,
                (None, Some(s)) => s@,
                (None, None) => FIRMWARE_SOURCE_DIR@,
            }
        }),
        ({
            let v = match vendor {
                Ok(p) => p.overlay_control_dir,
                Err(_) => None,
            };
            let u = match user {
                Ok(p) => p.overlay_control_dir,
                Err(_) => None,
            };
            r.overlay_control_dir@ == match (u, v) {
                (Some(s), _) => s@,
                (None, Some(s)) => s@,
                (None, None) => OVERLAY_CONTROL_DIR@,
            }
        }),
        ({
            let v = match vendor {
                Ok(p) => p.fpga_managers_dir,
                Err(_) => None,
            };
            let u = match user {
                Ok(p) => p.fpga_managers_dir,
                Err(_) => None,
            };
            r.fpga_managers_dir@ == match (u, v) {
                (Some(s), _) => s@,
                (None, Some(s)) => s@,
                (None, None) => FPGA_MANAGERS_DIR@,
            }
        }),
{
    let vendor_paths = match vendor {
        Ok(p) => p,
        Err(_) => SystemPaths::default(),
    };
    let user_paths = match user {
        Ok(p) => p,
        Err(_) => SystemPaths::default(),
    };
    SystemConfig::from_paths(user_paths.merge(vendor_paths))
}

} // verus!
