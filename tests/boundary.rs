use fpgad::comm::{
    check_overlay_handle, check_property_path, check_source_file, device_dir_request,
    fs_read_property_request, validate_device_handle, write_firmware_source_dir,
    write_firmware_source_dir_request, write_property_request, ConfigureInterface,
    ControlInterface, StatusInterface,
};
use fpgad::config::{
    boot_firmware_from_file, init_system_config, system_paths_config_from_file, BootFirmware,
    SystemConfig, SystemPaths,
};
use fpgad::dfx_mgr;
use fpgad::error::{BoundaryCode, FpgadError};
use fpgad::platform::{list_fpga_managers, list_fpga_managers_request};
use fpgad::sysfs::{SysfsReply, SysfsRequest};

fn strings(v: &[&str]) -> Vec<String> {
    v.iter().map(|s| s.to_string()).collect()
}

#[test]
fn error_boundary_codes() {
    assert_eq!(FpgadError::Argument("x".into()).boundary_code(), BoundaryCode::InvalidArgs);
    let io = FpgadError::IORead { file: "f".into(), e: "e".into() };
    assert_eq!(io.boundary_code(), BoundaryCode::IOError);
    let dir = FpgadError::IOReadDir { dir: "d".into(), e: "e".into() };
    assert_eq!(dir.boundary_code(), BoundaryCode::IOError);
    assert_eq!(FpgadError::Flag("x".into()).boundary_code(), BoundaryCode::Failed);
    assert_eq!(FpgadError::Internal("x".into()).boundary_code(), BoundaryCode::Failed);
}

#[test]
fn error_messages_carry_variant_prefix() {
    assert_eq!(
        FpgadError::Argument("bad".into()).to_string(),
        "FpgadError::Argument: bad"
    );
    assert_eq!(
        FpgadError::IORead { file: "/a".into(), e: "gone".into() }.to_string(),
        "FpgadError::IORead: An IO error occurred when reading from \"/a\": gone"
    );
    assert_eq!(
        FpgadError::IOWrite { data: "1".into(), file: "/a".into(), e: "busy".into() }.to_string(),
        "FpgadError::IOWrite: An IO error occurred when writing \"1\" to \"/a\": busy"
    );
    assert_eq!(
        FpgadError::Internal("x".into()).to_string(),
        "FpgadError::Internal: An Internal error occurred: x"
    );
}

#[test]
fn device_handle_validation() {
    assert!(validate_device_handle("fpga0", SysfsReply::Present(true)).is_ok());
    assert!(matches!(
        validate_device_handle("", SysfsReply::Present(true)),
        Err(FpgadError::Argument(_))
    ));
    assert!(matches!(
        validate_device_handle("fpgä", SysfsReply::Present(true)),
        Err(FpgadError::Argument(_))
    ));
    match validate_device_handle("fpga7", SysfsReply::Present(false)) {
        Err(FpgadError::Argument(m)) => assert_eq!(m, "Device fpga7 not found."),
        other => panic!("unexpected {other:?}"),
    }
    assert_eq!(
        device_dir_request("fpga0"),
        SysfsRequest::Exists { path: "/sys/class/fpga_manager/fpga0".to_string() }
    );
}

#[test]
fn property_paths_must_lie_under_device_tree() {
    assert!(check_property_path("/sys/class/fpga_manager/fpga0/key").is_ok());
    assert!(matches!(check_property_path("/etc/passwd"), Err(FpgadError::Argument(_))));
    assert!(fs_read_property_request("/sys/class/fpga_manager_x/a").is_err());
    assert_eq!(
        write_property_request("/sys/class/fpga_manager/fpga0/key", "00").unwrap(),
        SysfsRequest::Write {
            path: "/sys/class/fpga_manager/fpga0/key".to_string(),
            data: "00".to_string()
        }
    );
}

#[test]
fn firmware_source_dir_register() {
    assert_eq!(
        write_firmware_source_dir_request("/lib/firmware/"),
        SysfsRequest::Write {
            path: "/sys/module/firmware_class/parameters/path".to_string(),
            data: "/lib/firmware/".to_string()
        }
    );
    assert!(write_firmware_source_dir("/x", SysfsReply::Completed).is_ok());
    assert!(matches!(
        write_firmware_source_dir("/x", SysfsReply::Failed("ro".into())),
        Err(FpgadError::IOWrite { .. })
    ));
}

#[test]
fn argument_checks() {
    assert!(check_source_file("/lib/firmware/a.bin", true).is_ok());
    assert!(matches!(check_source_file("/lib/firmware", false), Err(FpgadError::Argument(_))));
    assert!(check_overlay_handle("ov").is_ok());
    assert!(matches!(check_overlay_handle(""), Err(FpgadError::Argument(_))));
}

#[test]
fn answer_texts() {
    assert_eq!(ControlInterface::flags_set_message(32, "fpga0"), "Flags set to 0x20 for fpga0");
    assert_eq!(StatusInterface::flags_message(127), "127");
    assert_eq!(StatusInterface::flags_message(0), "0");
    assert_eq!(StatusInterface::overlays_message(&strings(&["a", "b", "c"])), "a\nb\nc");
    assert_eq!(StatusInterface::overlays_message(&strings(&[])), "");
    assert_eq!(StatusInterface::platform_type_line("fpga0", &Ok("xlnx".to_string())), "fpga0:xlnx\n");
    assert_eq!(
        StatusInterface::platform_type_line("fpga1", &Err(FpgadError::Argument("x".into()))),
        "fpga1:\n"
    );
    assert_eq!(
        ControlInterface::overlay_removed_message("ov", "/sys/x/ov"),
        "ov removed by deleting /sys/x/ov"
    );
    assert_eq!(ConfigureInterface::source_dir_set_message("/a"), "firmware_source_dir set to /a");
}

#[test]
fn dfx_mgr_arguments() {
    assert_eq!(dfx_mgr::list_package(), strings(&["-listPackage"]));
    assert_eq!(dfx_mgr::load("acc"), strings(&["-load", "acc"]));
    assert_eq!(dfx_mgr::remove(3), strings(&["-remove", "3"]));
    assert_eq!(dfx_mgr::list_uio(Some(2), Some("uio0")), strings(&["-listUIO", "uio0", "2"]));
    assert_eq!(dfx_mgr::list_uio(None, None), strings(&["-listUIO"]));
    assert_eq!(dfx_mgr::list_irbuf(Some(10)), strings(&["-listIRbuf", "10"]));
    assert_eq!(dfx_mgr::set_irbuf(1, 20), strings(&["-setIRbuf", "1,20"]));
    assert_eq!(dfx_mgr::alloc_buffer(4096), strings(&["-allocBuffer", "4096"]));
    assert_eq!(dfx_mgr::free_buffer(18446744073709551615), strings(&["-freeBuffer", "18446744073709551615"]));
    assert_eq!(dfx_mgr::get_fds(0), strings(&["-getFDs", "0"]));
    assert_eq!(dfx_mgr::get_rm_info(), strings(&["-getRMInfo"]));
    assert_eq!(dfx_mgr::get_shell_fd(), strings(&["-getShellFD"]));
    assert_eq!(dfx_mgr::get_clock_fd(), strings(&["-getClockFD"]));
    assert_eq!(dfx_mgr::dfx_mgr_outcome(true, "out".into(), "err".into()).unwrap(), "out");
    assert!(matches!(
        dfx_mgr::dfx_mgr_outcome(false, "out".into(), "err".into()),
        Err(FpgadError::Softener(m)) if m == "err"
    ));
}

#[test]
fn system_paths_merge_and_defaults() {
    let user = SystemPaths {
        overlay_control_dir: Some("/u/ov".into()),
        firmware_source_dir: None,
        fpga_managers_dir: None,
    };
    let vendor = SystemPaths {
        overlay_control_dir: Some("/v/ov".into()),
        firmware_source_dir: Some("/v/fw".into()),
        fpga_managers_dir: None,
    };
    let cfg = SystemConfig::from_paths(user.clone().merge(vendor.clone()));
    assert_eq!(cfg.overlay_control_dir, "/u/ov");
    assert_eq!(cfg.firmware_source_dir, "/v/fw");
    assert_eq!(cfg.fpga_managers_dir, "/sys/class/fpga_manager/");
    let cfg = init_system_config(Err(FpgadError::Internal("none".into())), Ok(user));
    assert_eq!(cfg.firmware_source_dir, "/lib/firmware/");
    let mut cfg = SystemConfig::from_paths(SystemPaths::default());
    cfg.set_firmware_source_dir("/opt/fw".into());
    assert_eq!(cfg.firmware_source_dir().unwrap(), "/opt/fw");
    assert_eq!(cfg.overlay_control_dir().unwrap(), "/sys/kernel/config/device-tree/overlays/");
}

#[test]
fn config_sections() {
    assert!(matches!(system_paths_config_from_file(Ok(None)), Err(FpgadError::Internal(_))));
    assert!(system_paths_config_from_file(Ok(Some(SystemPaths::default()))).is_ok());
    assert!(matches!(boot_firmware_from_file(Ok(None)), Err(FpgadError::Internal(_))));
    assert_eq!(boot_firmware_from_file(Ok(Some(BootFirmware::default()))).unwrap().bitstreams.len(), 0);
}


#[test]
fn listing_failure_is_io_read_dir() {
    assert_eq!(
        list_fpga_managers_request(),
        SysfsRequest::ListDir { path: "/sys/class/fpga_manager/".to_string() }
    );
    match list_fpga_managers(SysfsReply::Failed("gone".into())) {
        Err(e @ FpgadError::IOReadDir { .. }) => {
            assert_eq!(e.boundary_code(), BoundaryCode::IOError);
            assert_eq!(
                e.to_string(),
                "FpgadError::IOReadDir: An IO error occurred when reading directory \"/sys/class/fpga_manager/\": gone"
            );
        }
        other => panic!("unexpected {other:?}"),
    }
    assert_eq!(
        list_fpga_managers(SysfsReply::Entries(strings(&["fpga0", "fpga1"]))).unwrap(),
        strings(&["fpga0", "fpga1"])
    );
}

#[test]
fn remaining_error_messages() {
    assert_eq!(
        FpgadError::IOCreate { file: "/d".into(), e: "x".into() }.to_string(),
        "FpgadError::IOCreate: An IO error occurred when creating \"/d\": x"
    );
    assert_eq!(
        FpgadError::IODelete { file: "/d".into(), e: "x".into() }.to_string(),
        "FpgadError::IODelete: An IO error occurred when deleting \"/d\": x"
    );
    assert_eq!(FpgadError::Flag("m".into()).to_string(), "FpgadError::Flag: Failed to read flags: m");
    assert_eq!(
        FpgadError::OverlayStatus("m".into()).to_string(),
        "FpgadError::OverlayStatus: Overlay was not applied: m"
    );
    assert_eq!(
        FpgadError::FPGAState("m".into()).to_string(),
        "FpgadError::FPGAState: FPGA state is not as expected: m"
    );
    assert_eq!(
        FpgadError::Softener("m".into()).to_string(),
        "FpgadError::Softener: An error occurred using softener: m"
    );
}

#[test]
fn property_path_check_is_component_wise() {
    assert!(check_property_path("/sys//class/fpga_manager/fpga0/state").is_ok());
    assert!(check_property_path("/sys/class/fpga_manager/./fpga0/state").is_ok());
    assert!(check_property_path("sys/class/fpga_manager/fpga0/state").is_err());
}

#[test]
fn byte_writes_report_bytes_as_debug() {
    assert_eq!(
        ControlInterface::bytes_written_message(&vec![0, 17, 255], "/sys/class/fpga_manager/fpga0/key"),
        "[0, 17, 255] written to /sys/class/fpga_manager/fpga0/key"
    );
    match fpgad::sysfs::write_bytes_outcome("/k", &vec![1, 2], SysfsReply::Failed("ro".into())) {
        Err(FpgadError::IOWrite { data, file, e }) => {
            assert_eq!(data, "[1, 2]");
            assert_eq!(file, "/k");
            assert_eq!(e, "ro");
        }
        other => panic!("unexpected {other:?}"),
    }
    assert_eq!(ControlInterface::bytes_written_message(&vec![], "/k"), "[] written to /k");
}

#[test]
fn property_read_outside_device_tree_is_refused_whatever_the_reply() {
    assert!(matches!(
        fpgad::comm::fs_read_property("/etc/passwd", SysfsReply::Contents("root".into())),
        Err(FpgadError::Argument(_))
    ));
    assert_eq!(
        fpgad::comm::fs_read_property("/sys/class/fpga_manager/fpga0/name", SysfsReply::Contents("x".into())).unwrap(),
        "x"
    );
}

#[test]
fn boot_firmware_merge_prefers_user_lists() {
    let user = BootFirmware::default();
    let mut vendor = BootFirmware::default();
    vendor.bitstreams.push(fpgad::config::Bitstream {
        device_handle: "fpga0".into(),
        bitstream_path: "/lib/firmware/a.bin".into(),
        flags: 0,
    });
    let merged = user.merge(vendor);
    assert_eq!(merged.bitstreams.len(), 1);
    assert_eq!(merged.overlays.len(), 0);
}
