use fpgad::platform::{
    default_registry, platform_for_known_platform, platform_from_compat_or_device, Platform,
    PlatformInstance, PlatformType, XilinxDfxMgrPlatform,
};
use fpgad::registry::{init_platform_registry, match_platform_string, register_platform, PlatformRegistry};
use fpgad::error::FpgadError;
use fpgad::sysfs::{Step, SysfsReply, SysfsRequest};

fn setup_test_registry() -> PlatformRegistry {
    let mut registry = init_platform_registry();
    register_platform(
        &mut registry,
        "xlnx,versal-fpga,zynqmp-pcap-fpga,zynq-devcfg-1.0",
        PlatformType::Xilinx,
    );
    registry
}

fn assert_is_xilinx_platform(registry: &PlatformRegistry, query: &str) {
    let platform = platform_for_known_platform(registry, query).unwrap();
    assert!(
        matches!(platform, PlatformInstance::Xilinx(_)),
        "The platform should be of type XilinxDfxMgrPlatform"
    );
}

#[test]
fn test_match_platform_string_empty_string_fails() {
    let registry = setup_test_registry();
    let result = match_platform_string(&registry, "");

    assert!(
        result.is_err(),
        "Empty string should fail to match any platform"
    );
}

#[test]
fn test_match_platform_string_xlnx_succeeds() {
    let registry = setup_test_registry();
    let result = match_platform_string(&registry, "xlnx");

    assert!(result.is_ok(), "xlnx should match successfully");
    assert_eq!(result.unwrap(), PlatformType::Xilinx);
    assert_is_xilinx_platform(&registry, "xlnx");
}

#[test]
fn test_match_platform_string_partial_match_fails() {
    let registry = setup_test_registry();
    let result = match_platform_string(&registry, "xlnx,pcap-");

    assert!(result.is_err(), "Partial match 'xlnx,pcap-' should fail");
}

#[test]
fn test_match_platform_string_invalid_platform_fails() {
    let registry = setup_test_registry();
    let result = match_platform_string(&registry, "invalid-platform");
    assert!(result.is_err(), "Invalid platform should fail to match");
}

#[test]
fn test_match_platform_string_full_match_succeeds() {
    let registry = setup_test_registry();
    let result = match_platform_string(&registry, "xlnx,zynqmp-pcap-fpga");

    assert!(result.is_ok(), "Full match should succeed");
    assert_is_xilinx_platform(&registry, "xlnx,zynqmp-pcap-fpga");
}

#[test]
fn test_match_platform_string_single_component_succeeds() {
    let registry = setup_test_registry();
    let result = match_platform_string(&registry, "versal-fpga");

    assert!(
        result.is_ok(),
        "Single component 'versal-fpga' should succeed"
    );
    assert_is_xilinx_platform(&registry, "versal-fpga");
}

#[test]
fn test_match_platform_string_multiple_components_succeeds() {
    let registry = setup_test_registry();
    let result = match_platform_string(&registry, "xlnx,versal-fpga,zynq-devcfg-1.0");

    assert!(result.is_ok(), "Multiple valid components should succeed");
    assert_is_xilinx_platform(&registry, "xlnx,versal-fpga,zynq-devcfg-1.0");
}

#[test]
fn test_match_platform_string_mixed_valid_invalid_fails() {
    let registry = setup_test_registry();
    let result = match_platform_string(&registry, "xlnx,invalid-component");

    assert!(
        result.is_err(),
        "Mix of valid and invalid components should fail"
    );
}

#[test]
fn test_match_platform_string_case_sensitive() {
    let registry = setup_test_registry();
    let result = match_platform_string(&registry, "XLNX");

    assert!(
        result.is_err(),
        "Case sensitive matching should fail for uppercase"
    );
}

#[test]
fn test_platform_type_assertion_methods() {
    let registry = setup_test_registry();
    let platform = platform_for_known_platform(&registry, "xlnx").unwrap();

    // Method 1: match on the variant
    let as_xilinx = match &platform {
        PlatformInstance::Xilinx(x) => Some(x),
        PlatformInstance::Universal(_) => None,
    };
    assert!(as_xilinx.is_some(), "Downcast should succeed");

    // Method 2: the platform type
    assert!(
        platform.platform_type() == PlatformType::Xilinx,
        "Type ID check should succeed"
    );

    // Method 3: the debug rendering names the type
    let shown: &XilinxDfxMgrPlatform = as_xilinx.unwrap();
    let name = format!("{shown:?}");
    assert!(
        name.contains("XilinxDfxMgrPlatform"),
        "Type name({name}) should contain XilinxDfxMgrPlatform"
    );
}

#[test]
fn registering_signature_then_resolving_token_subsets() {
    let mut registry = init_platform_registry();
    register_platform(&mut registry, "xlnx,versal-fpga,zynqmp-pcap-fpga", PlatformType::Xilinx);
    assert_eq!(match_platform_string(&registry, "xlnx").unwrap(), PlatformType::Xilinx);
    assert!(matches!(
        match_platform_string(&registry, "xlnx,unknown-token"),
        Err(FpgadError::Argument(_))
    ));
}

#[test]
fn failed_resolution_names_the_signature() {
    let registry = setup_test_registry();
    match match_platform_string(&registry, "acme,fpga") {
        Err(FpgadError::Argument(m)) => assert!(m.contains("acme,fpga")),
        other => panic!("unexpected {other:?}"),
    }
}

#[test]
fn first_covering_signature_wins() {
    let mut registry = init_platform_registry();
    register_platform(&mut registry, "a,b", PlatformType::Universal);
    register_platform(&mut registry, "a,b,c", PlatformType::Xilinx);
    assert_eq!(match_platform_string(&registry, "a").unwrap(), PlatformType::Universal);
    assert_eq!(match_platform_string(&registry, "a,c").unwrap(), PlatformType::Xilinx);
    assert_eq!(match_platform_string(&registry, "c,a").unwrap(), PlatformType::Xilinx);
}

#[test]
fn reregistering_a_signature_replaces_its_platform() {
    let mut registry = init_platform_registry();
    register_platform(&mut registry, "a,b", PlatformType::Universal);
    register_platform(&mut registry, "x", PlatformType::Universal);
    register_platform(&mut registry, "a,b", PlatformType::Xilinx);
    assert_eq!(registry.entries.len(), 2);
    assert_eq!(match_platform_string(&registry, "b").unwrap(), PlatformType::Xilinx);
}

#[test]
fn empty_tokens_do_not_match() {
    let registry = setup_test_registry();
    assert!(match_platform_string(&registry, "xlnx,").is_err());
    assert!(match_platform_string(&registry, ",").is_err());
}

#[test]
fn default_registry_knows_universal_and_xilinx() {
    let registry = default_registry();
    assert_eq!(match_platform_string(&registry, "universal").unwrap(), PlatformType::Universal);
    assert_eq!(match_platform_string(&registry, "zynqmp-pcap-fpga").unwrap(), PlatformType::Xilinx);
}

#[test]
fn selection_by_signature_needs_no_read() {
    let registry = default_registry();
    let mut sel = platform_from_compat_or_device("universal", "fpga0");
    match sel.start(&registry) {
        Step::Finished(Ok(p)) => assert_eq!(p.platform_type(), PlatformType::Universal),
        other => panic!("unexpected {other:?}"),
    }
}

#[test]
fn selection_by_device_reads_signature_and_trims_nuls() {
    let registry = default_registry();
    let mut sel = platform_from_compat_or_device("", "fpga0");
    match sel.start(&registry) {
        Step::Request(SysfsRequest::Read { path }) => {
            assert_eq!(path, "/sys/class/fpga_manager/fpga0/of_node/compatible")
        }
        other => panic!("unexpected {other:?}"),
    }
    match sel.resume(&registry, SysfsReply::Contents("xlnx,zynqmp-pcap-fpga\0\0".to_string())) {
        Step::Finished(Ok(p)) => assert_eq!(p.platform_type(), PlatformType::Xilinx),
        other => panic!("unexpected {other:?}"),
    }
}

#[test]
fn unknown_device_signature_falls_back_to_universal() {
    let registry = default_registry();
    let mut sel = platform_from_compat_or_device("", "fpga0");
    let _ = sel.start(&registry);
    match sel.resume(&registry, SysfsReply::Contents("acme,fpga".to_string())) {
        Step::Finished(Ok(p)) => assert_eq!(p.platform_type(), PlatformType::Universal),
        other => panic!("unexpected {other:?}"),
    }
}

#[test]
fn unreadable_device_signature_is_an_argument_error() {
    let registry = default_registry();
    let mut sel = platform_from_compat_or_device("", "fpga9");
    let _ = sel.start(&registry);
    assert!(matches!(
        sel.resume(&registry, SysfsReply::Failed("No such file".to_string())),
        Step::Finished(Err(FpgadError::Argument(_)))
    ));
}

#[test]
fn universal_overlay_handler_needs_control_dir() {
    let p = platform_for_known_platform(&default_registry(), "universal").unwrap();
    assert!(matches!(p.overlay_handler("ov", false), Err(FpgadError::Argument(_))));
    let h = p.overlay_handler("ov", true).unwrap();
    assert_eq!(h.overlay_fs_path, "/sys/kernel/config/device-tree/overlays/ov");
    let x = platform_for_known_platform(&default_registry(), "xlnx").unwrap();
    assert!(x.overlay_handler("ov", false).is_ok());
    assert_eq!(x.fpga("fpga0").unwrap().device_handle, "fpga0");
}
