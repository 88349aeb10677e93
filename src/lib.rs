//! Lifecycle management of reconfigurable logic devices (FPGAs) exposed through the
//! device-class tree and the device-tree overlay control filesystem.
//!
//! - `registry` and `platform`: selecting vendor handling from a hardware signature;
//! - `device` and `overlay`: the device and overlay engines, as step-wise operations
//!   that ask for one filesystem request at a time (`sysfs`) and verify what they did;
//! - `path`: splitting a firmware path into search prefix and relative name;
//! - `control` and `lock`: composite requests that write the shared firmware
//!   search-path register under the write coordination lock;
//! - `comm`, `config`, `dfx_mgr`, `error`: request checks and answers, configuration,
//!   vendor-tool arguments, and the error taxonomy with its boundary codes;
//! - `flags` and `text`: the hexadecimal flags format and string helpers.

pub mod comm;
pub mod config;
pub mod control;
pub mod device;
pub mod dfx_mgr;
pub mod error;
pub mod flags;
pub mod lock;
pub mod overlay;
pub mod path;
pub mod platform;
pub mod registry;
pub mod sysfs;
pub mod text;
