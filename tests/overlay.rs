use fpgad::error::FpgadError;
use fpgad::overlay::{construct_overlay_fs_path, OverlayHandler, UniversalOverlayHandler};
use fpgad::sysfs::{Step, SysfsReply, SysfsRequest};
use std::collections::{HashMap, HashSet};

/// A control filesystem: creating an overlay directory populates `path` and `status`;
/// writing `path` applies the overlay.
struct ConfigFs {
    dirs: HashSet<String>,
    files: HashMap<String, String>,
    mutations: usize,
    populate: bool,
}

impl ConfigFs {
    fn new() -> ConfigFs {
        ConfigFs { dirs: HashSet::new(), files: HashMap::new(), mutations: 0, populate: true }
    }

    fn perform(&mut self, req: SysfsRequest) -> SysfsReply {
        match req {
            SysfsRequest::Exists { path } => {
                SysfsReply::Present(self.dirs.contains(&path) || self.files.contains_key(&path))
            }
            SysfsRequest::CreateDir { path } => {
                self.mutations += 1;
                if self.populate {
                    self.files.insert(format!("{path}/path"), "\n".to_string());
                    self.files.insert(format!("{path}/status"), "pending\n".to_string());
                }
                self.dirs.insert(path);
                SysfsReply::Completed
            }
            SysfsRequest::Write { path, data } => {
                self.mutations += 1;
                let dir = path.trim_end_matches("/path").to_string();
                self.files.insert(path, format!("{data}\n"));
                self.files.insert(format!("{dir}/status"), "applied\n".to_string());
                SysfsReply::Completed
            }
            SysfsRequest::Read { path } => match self.files.get(&path) {
                Some(s) => SysfsReply::Contents(s.clone()),
                None => SysfsReply::Failed("No such file or directory".to_string()),
            },
            SysfsRequest::RemoveDir { path } => {
                self.mutations += 1;
                if self.dirs.remove(&path) {
                    self.files.remove(&format!("{path}/path"));
                    self.files.remove(&format!("{path}/status"));
                    SysfsReply::Completed
                } else {
                    SysfsReply::Failed("No such file or directory".to_string())
                }
            }
            SysfsRequest::ListDir { .. } => SysfsReply::Entries(self.dirs.iter().cloned().collect()),
        }
    }
}

fn apply(fs: &mut ConfigFs, h: &UniversalOverlayHandler, rel: &str) -> Result<(), FpgadError> {
    let mut op = h.apply_overlay(rel);
    let mut step = op.start();
    loop {
        match step {
            Step::Finished(r) => return r,
            Step::Request(req) => {
                let reply = fs.perform(req);
                step = op.resume(reply);
            }
        }
    }
}

fn status(fs: &mut ConfigFs, h: &UniversalOverlayHandler) -> Result<String, FpgadError> {
    let mut op = h.status();
    let mut step = op.start();
    loop {
        match step {
            Step::Finished(r) => return r,
            Step::Request(req) => {
                let reply = fs.perform(req);
                step = op.resume(reply);
            }
        }
    }
}

#[test]
fn overlay_fs_path_is_under_control_dir() {
    assert_eq!(construct_overlay_fs_path("ov"), "/sys/kernel/config/device-tree/overlays/ov");
    let h = UniversalOverlayHandler::new("ov");
    assert_eq!(h.overlay_fs_path(), "/sys/kernel/config/device-tree/overlays/ov");
    assert_eq!(h.required_flags().unwrap(), 0);
}

#[test]
fn status_of_never_instantiated_overlay_is_not_present() {
    let mut fs = ConfigFs::new();
    let h = UniversalOverlayHandler::new("fpga0");
    assert_eq!(status(&mut fs, &h).unwrap(), "not present");
}

#[test]
fn apply_then_status_shows_applied() {
    let mut fs = ConfigFs::new();
    let h = UniversalOverlayHandler::new("fpga0");
    apply(&mut fs, &h, "k26-starter-kits.dtbo").unwrap();
    let s = status(&mut fs, &h).unwrap();
    assert_eq!(s, "\"k26-starter-kits.dtbo\" applied");
    assert!(s.contains("applied"));
}

#[test]
fn apply_on_applied_overlay_fails_and_changes_nothing() {
    let mut fs = ConfigFs::new();
    let h = UniversalOverlayHandler::new("fpga0");
    apply(&mut fs, &h, "k26-starter-kits.dtbo").unwrap();
    let before = fs.mutations;
    match apply(&mut fs, &h, "k26-starter-kits.dtbo") {
        Err(FpgadError::Argument(m)) => assert!(m.contains("Overlay with this handle already exists")),
        other => panic!("unexpected {other:?}"),
    }
    assert_eq!(fs.mutations, before);
    assert!(status(&mut fs, &h).unwrap().contains("applied"));
}

#[test]
fn apply_without_populated_path_node_is_internal() {
    let mut fs = ConfigFs::new();
    fs.populate = false;
    let h = UniversalOverlayHandler::new("fpga0");
    assert!(matches!(apply(&mut fs, &h, "a.dtbo"), Err(FpgadError::Internal(_))));
    assert!(fs.dirs.contains(&h.overlay_fs_path));
}

#[test]
fn apply_with_foreign_path_contents_is_overlay_status_error() {
    let h = UniversalOverlayHandler::new("fpga0");
    let mut op = h.apply_overlay("a.dtbo");
    let _ = op.start();
    let _ = op.resume(SysfsReply::Present(false));
    let _ = op.resume(SysfsReply::Completed);
    let _ = op.resume(SysfsReply::Present(true));
    let _ = op.resume(SysfsReply::Completed);
    assert!(matches!(
        op.resume(SysfsReply::Contents("other.dtbo\n".to_string())),
        Step::Finished(Err(FpgadError::OverlayStatus(_)))
    ));
}

#[test]
fn apply_with_status_not_applied_is_overlay_status_error() {
    let h = UniversalOverlayHandler::new("fpga0");
    let mut op = h.apply_overlay("a.dtbo");
    let _ = op.start();
    let _ = op.resume(SysfsReply::Present(false));
    let _ = op.resume(SysfsReply::Completed);
    let _ = op.resume(SysfsReply::Present(true));
    let _ = op.resume(SysfsReply::Completed);
    let _ = op.resume(SysfsReply::Contents("/lib/firmware/a.dtbo\n".to_string()));
    match op.resume(SysfsReply::Contents("pending\n".to_string())) {
        Step::Finished(Err(e)) => assert!(e.to_string().starts_with("FpgadError::OverlayStatus: ")),
        other => panic!("unexpected {other:?}"),
    }
}

#[test]
fn create_failure_is_io_create() {
    let h = UniversalOverlayHandler::new("fpga0");
    let mut op = h.apply_overlay("a.dtbo");
    let _ = op.start();
    let _ = op.resume(SysfsReply::Present(false));
    assert!(matches!(
        op.resume(SysfsReply::Failed("denied".to_string())),
        Step::Finished(Err(FpgadError::IOCreate { .. }))
    ));
}

#[test]
fn remove_then_status_is_not_present() {
    let mut fs = ConfigFs::new();
    let h = UniversalOverlayHandler::new("fpga0");
    apply(&mut fs, &h, "a.dtbo").unwrap();
    let reply = fs.perform(h.remove_overlay_request());
    h.remove_overlay(reply).unwrap();
    assert_eq!(status(&mut fs, &h).unwrap(), "not present");
    let reply = fs.perform(h.remove_overlay_request());
    assert!(matches!(h.remove_overlay(reply), Err(FpgadError::IODelete { .. })));
}

#[test]
fn status_report_escapes_the_path_like_debug() {
    let h = UniversalOverlayHandler::new("ov");
    let mut op = h.status();
    let _ = op.start();
    let _ = op.resume(SysfsReply::Present(true));
    let raw = "a\"b\\c\td\u{1}.dtbo";
    let _ = op.resume(SysfsReply::Contents(format!("{raw}\n")));
    match op.resume(SysfsReply::Contents("applied\n".to_string())) {
        Step::Finished(Ok(s)) => {
            assert_eq!(s, format!("{:?} applied", std::path::PathBuf::from(raw)));
        }
        other => panic!("unexpected {other:?}"),
    }
}
