use fpgad::error::FpgadError;
use fpgad::path::{extract_path_and_filename, join, make_firmware_pair};

fn pair(a: &str, b: &str) -> (String, String) {
    (a.to_string(), b.to_string())
}

#[test]
fn resolve_with_override_prefix() {
    assert_eq!(
        make_firmware_pair("/lib/firmware/a/b.bin", "/lib/firmware/").unwrap(),
        pair("/lib/firmware/", "a/b.bin")
    );
}

#[test]
fn resolve_without_override_prefix() {
    assert_eq!(
        make_firmware_pair("/lib/firmware/a/b.bin", "").unwrap(),
        pair("/lib/firmware/a", "b.bin")
    );
}

#[test]
fn resolve_all_good() {
    assert_eq!(
        make_firmware_pair("/lib/firmware/file.bin", "/lib/firmware/").unwrap(),
        pair("/lib/firmware/", "file.bin")
    );
}

#[test]
fn resolve_no_fw_path_no_file() {
    assert_eq!(make_firmware_pair("/lib/firmware/", "").unwrap(), pair("/lib", "firmware"));
}

#[test]
fn resolve_prefix_without_trailing_separator() {
    assert_eq!(
        make_firmware_pair("/lib/firmware/a/b.bin", "/lib/firmware").unwrap(),
        pair("/lib/firmware", "a/b.bin")
    );
}

#[test]
fn resolve_empty_suffix_fails() {
    match make_firmware_pair("/lib/firmware/", "/lib/firmware/") {
        Err(FpgadError::Argument(m)) => {
            assert!(m.contains("The resulting filename from stripping"))
        }
        other => panic!("unexpected {other:?}"),
    }
}

#[test]
fn resolve_not_in_dir_fails() {
    match make_firmware_pair("/lib/firmware/file.bin", "/snap/x1/data/file.bin") {
        Err(FpgadError::Argument(m)) => assert!(m.contains("Could not find")),
        other => panic!("unexpected {other:?}"),
    }
}

#[test]
fn resolve_prefix_must_end_on_a_segment() {
    assert!(matches!(
        make_firmware_pair("/lib/firmwareX/a.bin", "/lib/firmware"),
        Err(FpgadError::Argument(_))
    ));
}

#[test]
fn resolve_round_trip_joins_back() {
    for (src, pre) in [
        ("/lib/firmware/a/b.bin", "/lib/firmware/"),
        ("/lib/firmware/a/b.bin", "/lib/firmware"),
        ("/opt/x/y.dtbo", "/opt"),
    ] {
        let (p, s) = make_firmware_pair(src, pre).unwrap();
        assert_eq!(p, pre);
        assert_eq!(join(&p, &s), src);
    }
}

#[test]
fn resolve_without_parent_fails() {
    assert!(matches!(make_firmware_pair("/", ""), Err(FpgadError::Argument(_))));
    assert!(matches!(make_firmware_pair("", ""), Err(FpgadError::Argument(_))));
}

#[test]
fn extract_root_and_relative() {
    assert_eq!(extract_path_and_filename("/b.bin").unwrap(), pair("/", "b.bin"));
    assert_eq!(extract_path_and_filename("b.bin").unwrap(), pair("", "b.bin"));
    assert_eq!(extract_path_and_filename("a//b.bin").unwrap(), pair("a", "b.bin"));
    assert!(extract_path_and_filename("/lib/..").is_err());
}

#[test]
fn join_inserts_one_separator() {
    assert_eq!(join("/lib", "x"), "/lib/x");
    assert_eq!(join("/lib/", "x"), "/lib/x");
    assert_eq!(join("", "x"), "x");
}

#[test]
fn resolve_no_fw_path() {
    let (p, s) = make_firmware_pair("/lib/firmware/file.bin", "").unwrap();
    assert_eq!(std::path::Path::new(&p), std::path::Path::new("/lib/firmware/"));
    assert_eq!(s, "file.bin");
}

#[test]
fn trailing_dot_segment_is_ignored() {
    assert_eq!(extract_path_and_filename("a/b/.").unwrap(), pair("a", "b"));
    assert_eq!(make_firmware_pair("a/b/.", "").unwrap(), pair("a", "b"));
    assert_eq!(extract_path_and_filename("/a/./b").unwrap(), pair("/a", "b"));
    assert_eq!(extract_path_and_filename("./b").unwrap(), pair(".", "b"));
    assert!(extract_path_and_filename(".").is_err());
}

#[test]
fn prefix_matches_by_components() {
    assert_eq!(
        make_firmware_pair("/lib/firmware/a.bin", "/lib//firmware").unwrap(),
        pair("/lib//firmware", "a.bin")
    );
    assert_eq!(
        make_firmware_pair("/lib//firmware/./a//b.bin", "/lib/firmware/").unwrap(),
        pair("/lib/firmware/", "a/b.bin")
    );
    assert!(make_firmware_pair("lib/firmware/a.bin", "/lib/firmware").is_err());
}

#[test]
fn resolve_round_trip_matches_components() {
    let src = "/lib//firmware/a//b.bin";
    let (p, s) = make_firmware_pair(src, "/lib/firmware").unwrap();
    assert_eq!(std::path::Path::new(&join(&p, &s)), std::path::Path::new(src));
}
