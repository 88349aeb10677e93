//! What the request handlers decide: argument checks, the firmware search-path register,
//! property access under the device-class tree, and the texts they answer with.

use vstd::prelude::*;

use crate::config::{FIRMWARE_LOC_CONTROL_PATH, FPGA_MANAGERS_DIR};
use crate::error::FpgadError;
use crate::flags::{flags_to_hex, format_flags};
use crate::path::{path_starts_with, starts_with_path};
use crate::sysfs::{exists_outcome, read_outcome, write_outcome, SysfsReply, SysfsRequest};
use crate::text::{bytes_debug, bytes_to_debug, concat2, concat3, decimal, join_lines, join_with_newlines, u64_to_decimal, views};

verus! {

/// A device handle is non-empty printable ASCII.
pub open spec fn is_valid_handle_name(h: Seq<char>) -> bool {
    h.len() > 0 && forall|i: int| 0 <= i < h.len() ==> ' ' <= #[trigger] h[i] <= '~'
}

fn is_printable_ascii(s: &str) -> (r: bool)
    ensures
        r == forall|i: int| 0 <= i < s@.len() ==> ' ' <= #[trigger] s@[i] <= '~',
{
    let n = s.unicode_len();
    let mut i: usize = 0;
    while i < n
        invariant
            i <= n,
            n == s@.len(),
            forall|k: int| 0 <= k < i ==> ' ' <= #[trigger] s@[k] <= '~',
        decreases n - i,
    {
        let c = s.get_char(i);
        if c < ' ' || c > '~' {
            return false;
        }
        i = i + 1;
    }
    true
}

/// The request that checks whether the directory of `device_handle` exists.
pub fn device_dir_request(device_handle: &str) -> (r: SysfsRequest)
    ensures
        r matches SysfsRequest::Exists { path } && path@ == FPGA_MANAGERS_DIR@ + device_handle@,
{
    SysfsRequest::Exists { path: concat2(FPGA_MANAGERS_DIR, device_handle) }
}

/// Checks a device handle: it must be non-empty printable ASCII, and, by the reply to
/// `device_dir_request`, name an existing device directory.
pub fn validate_device_handle(device_handle: &str, dir_reply: SysfsReply) -> (r: Result<
    (),
    FpgadError,
>)
    ensures
        !is_valid_handle_name(device_handle@) ==> (r matches Err(FpgadError::Argument(_))),
        is_valid_handle_name(device_handle@) ==> match dir_reply {
            SysfsReply::Present(true) => r is Ok,
            SysfsReply::Present(false) | SysfsReply::Failed(_) => r matches Err(
                FpgadError::Argument(_),
            ),
            _ => r matches Err(FpgadError::Internal(_)),
        },
{
    if device_handle.unicode_len() == 0 || !is_printable_ascii(device_handle) {
        return Err(
            FpgadError::Argument(
                concat2(
                    device_handle,
                    " is invalid name for fpga device. fpga name must be compliant with sysfs rules.",
                ),
            ),
        );
    }
    match exists_outcome(dir_reply) {
        Ok(true) => Ok(()),
        Ok(false) => Err(
            FpgadError::Argument(concat3("Device ", device_handle, " not found.")),
        ),
        Err(e) => Err(e),
    }
}

/// Checks that `path` names a regular file, given whether it does.
pub fn check_source_file(path: &str, is_regular_file: bool) -> (r: Result<(), FpgadError>)
    ensures
        is_regular_file ==> r is Ok,
        !is_regular_file ==> (r matches Err(FpgadError::Argument(_))),
{
    if is_regular_file {
        Ok(())
    } else {
        Err(FpgadError::Argument(concat2(path, " is not a valid path to a firmware file.")))
    }
}

/// Checks that an overlay handle is given.
pub fn check_overlay_handle(overlay_handle: &str) -> (r: Result<(), FpgadError>)
    ensures
        overlay_handle@.len() > 0 ==> r is Ok,
        overlay_handle@.len() == 0 ==> (r matches Err(FpgadError::Argument(_))),
{
    if overlay_handle.unicode_len() == 0 {
        Err(
            FpgadError::Argument(
                String::from_str(
                    "An overlay handle is required. Provided overlay handle is empty.",
                ),
            ),
        )
    } else {
        Ok(())
    }
}

/// Checks that a property path lies under the device-class tree.
pub fn check_property_path(property_path_str: &str) -> (r: Result<(), FpgadError>)
    ensures
        starts_with_path(property_path_str@, FPGA_MANAGERS_DIR@) ==> r is Ok,
        !starts_with_path(property_path_str@, FPGA_MANAGERS_DIR@) ==> (r matches Err(
            FpgadError::Argument(_),
        )),
{
    if path_starts_with(property_path_str, FPGA_MANAGERS_DIR) {
        Ok(())
    } else {
        let m = concat3(
            "Cannot access property ",
            property_path_str,
            ": does not begin with ",
        );
        Err(FpgadError::Argument(concat2(m.as_str(), FPGA_MANAGERS_DIR)))
    }
}

/// The read of a property under the device-class tree, or the error for a path outside it.
pub fn fs_read_property_request(property_path_str: &str) -> (r: Result<SysfsRequest, FpgadError>)
    ensures
        starts_with_path(property_path_str@, FPGA_MANAGERS_DIR@) ==> (r matches Ok(
            SysfsRequest::Read { path },
        ) && path@ == property_path_str@),
        !starts_with_path(property_path_str@, FPGA_MANAGERS_DIR@) ==> (r matches Err(
            FpgadError::Argument(_),
        )),
{
    match check_property_path(property_path_str) {
        Ok(()) => Ok(SysfsRequest::Read { path: String::from_str(property_path_str) }),
        Err(e) => Err(e),
    }
}

/// The value of a property, from the reply to `fs_read_property_request`; a path
/// outside the device-class tree is refused whatever the reply.
pub fn fs_read_property(property_path_str: &str, reply: SysfsReply) -> (r: Result<
    String,
    FpgadError,
>)
    ensures
        !starts_with_path(property_path_str@, FPGA_MANAGERS_DIR@) ==> (r matches Err(
            FpgadError::Argument(_),
        )),
        starts_with_path(property_path_str@, FPGA_MANAGERS_DIR@) ==> match reply {
            SysfsReply::Contents(s) => r == Ok::<String, FpgadError>(s),
            SysfsReply::Failed(e) => r matches Err(FpgadError::IORead { file, e: m }) && file@
                == property_path_str@ && m@ == e@,
            _ => r matches Err(FpgadError::Internal(_)),
        },
{
    match check_property_path(property_path_str) {
        Ok(()) => read_outcome(property_path_str, reply),
        Err(e) => Err(e),
    }
}

/// The write of `data` to a property under the device-class tree, or the error for a
/// path outside it.
pub fn write_property_request(property_path_str: &str, data: &str) -> (r: Result<
    SysfsRequest,
    FpgadError,
>)
    ensures
        starts_with_path(property_path_str@, FPGA_MANAGERS_DIR@) ==> (r matches Ok(
            SysfsRequest::Write { path, data: d },
        ) && path@ == property_path_str@ && d@ == data@),
        !starts_with_path(property_path_str@, FPGA_MANAGERS_DIR@) ==> (r matches Err(
            FpgadError::Argument(_),
        )),
{
    match check_property_path(property_path_str) {
        Ok(()) => Ok(
            SysfsRequest::Write {
                path: String::from_str(property_path_str),
                data: String::from_str(data),
            },
        ),
        Err(e) => Err(e),
    }
}

/// The request that reads the firmware search-path register.
pub fn read_firmware_source_dir_request() -> (r: SysfsRequest)
    ensures
        r matches SysfsRequest::Read { path } && path@ == FIRMWARE_LOC_CONTROL_PATH@,
{
    SysfsRequest::Read { path: String::from_str(FIRMWARE_LOC_CONTROL_PATH) }
}

/// The firmware search path, from the reply to `read_firmware_source_dir_request`.
pub fn read_firmware_source_dir(reply: SysfsReply) -> (r: Result<String, FpgadError>)
    ensures
        match reply {
            SysfsReply::Contents(s) => r == Ok::<String, FpgadError>(s),
            SysfsReply::Failed(e) => r matches Err(FpgadError::IORead { file, e: m }) && file@
                == FIRMWARE_LOC_CONTROL_PATH@ && m@ == e@,
            _ => r matches Err(FpgadError::Internal(_)),
        },
{
    read_outcome(FIRMWARE_LOC_CONTROL_PATH, reply)
}

/// The request that writes `new_path` to the firmware search-path register.
pub fn write_firmware_source_dir_request(new_path: &str) -> (r: SysfsRequest)
    ensures
        r matches SysfsRequest::Write { path, data } && path@ == FIRMWARE_LOC_CONTROL_PATH@
            && data@ == new_path@,
{
    SysfsRequest::Write {
        path: String::from_str(FIRMWARE_LOC_CONTROL_PATH),
        data: String::from_str(new_path),
    }
}

/// The outcome of writing `new_path` to the register, from the reply to
/// `write_firmware_source_dir_request`.
pub fn write_firmware_source_dir(new_path: &str, reply: SysfsReply) -> (r: Result<
    (),
    FpgadError,
>)
    ensures
        match reply {
            SysfsReply::Completed => r is Ok,
            SysfsReply::Failed(e) => r matches Err(FpgadError::IOWrite { data, file, e: m })
                && file@ == FIRMWARE_LOC_CONTROL_PATH@ && data@ == new_path@ && m@ == e@,
            _ => r matches Err(FpgadError::Internal(_)),
        },
{
    write_outcome(FIRMWARE_LOC_CONTROL_PATH, new_path, reply)
}

/// Sets the firmware search path; the same as `write_firmware_source_dir`.
pub fn set_firmware_source_dir(new_path: &str, reply: SysfsReply) -> (r: Result<(), FpgadError>)
    ensures
        match reply {
            SysfsReply::Completed => r is Ok,
            SysfsReply::Failed(e) => r matches Err(FpgadError::IOWrite { data, file, e: m })
                && file@ == FIRMWARE_LOC_CONTROL_PATH@ && data@ == new_path@ && m@ == e@,
            _ => r matches Err(FpgadError::Internal(_)),
        },
{
    write_firmware_source_dir(new_path, reply)
}

/// The status requests: device state and flags, overlays and platforms.
pub struct StatusInterface {}

impl StatusInterface {
    /// The answer to a flags query: the flags in decimal.
    pub fn flags_message(flags: u32) -> (r: String)
        ensures
            r@ == decimal(flags as nat),
    {
        u64_to_decimal(flags as u64)
    }

    /// The answer to an overlay listing: one handle per line.
    pub fn overlays_message(overlay_handles: &Vec<String>) -> (r: String)
        ensures
            r@ == join_lines(views(overlay_handles@)),
    {
        join_with_newlines(overlay_handles)
    }

    /// One line of the platform listing: the handle, a colon, the signature if it could
    /// be read, a newline.
    pub fn platform_type_line(device_handle: &str, compat: &Result<String, FpgadError>) -> (r:
        String)
        ensures
            r@ == device_handle@ + ":"@ + match compat {
                Ok(s) => s@,
                Err(_) => Seq::<char>::empty(),
            } + "\n"@,
    {
        match compat {
            Ok(s) => {
                let mut m = concat3(device_handle, ":", s.as_str());
                m.append("\n");
                m
            },
            Err(_) => {
                let m = concat3(device_handle, ":", "\n");
                proof {
                    reveal_strlit("\n");
                    reveal_strlit(":");
                    reveal_strlit(":\n");
                }
                assert(m@ =~= device_handle@ + ":"@ + Seq::<char>::empty() + "\n"@);
                m
            },
        }
    }
}

/// The control requests: flags, bitstreams, overlays and properties.
pub struct ControlInterface {}

impl ControlInterface {
    /// The answer to setting flags.
    pub fn flags_set_message(flags: u32, device_handle: &str) -> (r: String)
        ensures
            r@ == "Flags set to "@ + format_flags(flags) + " for "@ + device_handle@,
    {
        let hex = flags_to_hex(flags);
        let mut m = concat3("Flags set to ", hex.as_str(), " for ");
        m.append(device_handle);
        m
    }

    /// The answer to loading a bitstream.
    pub fn bitstream_loaded_message(bitstream_path: &str, device_handle: &str, prefix: &str) -> (r:
        String)
        ensures
            r@ == bitstream_path@ + " loaded to "@ + device_handle@
                + " using firmware lookup path: '"@ + prefix@ + "'"@,
    {
        let mut m = concat3(bitstream_path, " loaded to ", device_handle);
        m.append(" using firmware lookup path: '");
        m.append(prefix);
        m.append("'");
        m
    }

    /// The answer to applying an overlay.
    pub fn overlay_applied_message(overlay_source_path: &str, overlay_fs_path: &str, prefix: &str) -> (r:
        String)
        ensures
            r@ == overlay_source_path@ + " loaded via "@ + overlay_fs_path@
                + " using firmware lookup path: '"@ + prefix@ + "'"@,
    {
        let mut m = concat3(overlay_source_path, " loaded via ", overlay_fs_path);
        m.append(" using firmware lookup path: '");
        m.append(prefix);
        m.append("'");
        m
    }

    /// The answer to removing an overlay.
    pub fn overlay_removed_message(overlay_handle: &str, overlay_fs_path: &str) -> (r: String)
        ensures
            r@ == overlay_handle@ + " removed by deleting "@ + overlay_fs_path@,
    {
        concat3(overlay_handle, " removed by deleting ", overlay_fs_path)
    }

    /// The answer to writing bytes to a property.
    pub fn bytes_written_message(data: &Vec<u8>, property_path_str: &str) -> (r: String)
        ensures
            r@ == bytes_debug(data@) + " written to "@ + property_path_str@,
    {
        let d = bytes_to_debug(data);
        concat3(d.as_str(), " written to ", property_path_str)
    }

    /// The answer to writing a property.
    pub fn property_written_message(data: &str, property_path_str: &str) -> (r: String)
        ensures
            r@ == data@ + " written to "@ + property_path_str@,
    {
        concat3(data, " written to ", property_path_str)
    }
}

/// The configuration requests: the firmware search path and the directories in use.
pub struct ConfigureInterface {}

impl ConfigureInterface {
    /// The answer to setting the firmware search path.
    pub fn source_dir_set_message(new_path: &str) -> (r: String)
        ensures
            r@ == "firmware_source_dir set to "@ + new_path@,
    {
        concat2("firmware_source_dir set to ", new_path)
    }
}

} // verus!
