use fpgad::comm::ControlInterface;
use fpgad::control::Action;
use fpgad::error::FpgadError;
use fpgad::platform::default_registry;
use fpgad::registry::PlatformRegistry;
use fpgad::sysfs::{SysfsReply, SysfsRequest};
use std::collections::{HashMap, HashSet};

const REGISTER: &str = "/sys/module/firmware_class/parameters/path";

/// Device-class and control trees in memory, with a lock whose holding is recorded
/// beside every write.
struct Machine {
    dirs: HashSet<String>,
    files: HashMap<String, String>,
    locked: bool,
    writes: Vec<(String, String, bool)>,
    operating_after_load: bool,
}

impl Machine {
    fn new() -> Machine {
        let mut m = Machine {
            dirs: HashSet::new(),
            files: HashMap::new(),
            locked: false,
            writes: Vec::new(),
            operating_after_load: true,
        };
        m.dirs.insert("/sys/class/fpga_manager/fpga0".to_string());
        m.dirs.insert("/sys/kernel/config/device-tree/overlays/".to_string());
        m.files.insert(
            "/sys/class/fpga_manager/fpga0/of_node/compatible".to_string(),
            "xlnx,zynqmp-pcap-fpga\0".to_string(),
        );
        m.files.insert("/sys/class/fpga_manager/fpga0/state".to_string(), "unknown\n".to_string());
        m
    }

    fn perform(&mut self, req: SysfsRequest) -> SysfsReply {
        match req {
            SysfsRequest::Exists { path } => {
                SysfsReply::Present(self.dirs.contains(&path) || self.files.contains_key(&path))
            }
            SysfsRequest::Read { path } => match self.files.get(&path) {
                Some(s) => SysfsReply::Contents(s.clone()),
                None => SysfsReply::Failed("No such file or directory".to_string()),
            },
            SysfsRequest::Write { path, data } => {
                self.writes.push((path.clone(), data.clone(), self.locked));
                if path.ends_with("/firmware") {
                    let state = if self.operating_after_load { "operating\n" } else { "write error\n" };
                    self.files.insert("/sys/class/fpga_manager/fpga0/state".to_string(), state.to_string());
                }
                if path.ends_with("/path") {
                    let dir = path.trim_end_matches("/path").to_string();
                    self.files.insert(format!("{dir}/status"), "applied\n".to_string());
                }
                self.files.insert(path, format!("{data}\n"));
                SysfsReply::Completed
            }
            SysfsRequest::CreateDir { path } => {
                self.files.insert(format!("{path}/path"), "\n".to_string());
                self.files.insert(format!("{path}/status"), "pending\n".to_string());
                self.dirs.insert(path);
                SysfsReply::Completed
            }
            _ => SysfsReply::Failed("unsupported".to_string()),
        }
    }

    fn act(&mut self, action: Action) -> Result<Option<SysfsReply>, Result<String, FpgadError>> {
        match action {
            Action::Request(req) => Ok(Some(self.perform(req))),
            Action::AcquireWriteLock => {
                assert!(!self.locked);
                self.locked = true;
                Ok(Some(SysfsReply::Completed))
            }
            Action::ReleaseWriteLock => {
                assert!(self.locked);
                self.locked = false;
                Ok(Some(SysfsReply::Completed))
            }
            Action::Finished(r) => Err(r),
        }
    }
}

fn load(m: &mut Machine, reg: &PlatformRegistry, platform: &str, path: &str, lookup: &str) -> Result<String, FpgadError> {
    let mut op = ControlInterface::write_bitstream_direct(platform, "fpga0", path, lookup, true);
    let mut action = op.start();
    loop {
        match m.act(action) {
            Err(r) => return r,
            Ok(Some(reply)) => action = op.resume(reg, reply),
            Ok(None) => unreachable!(),
        }
    }
}

fn apply(m: &mut Machine, reg: &PlatformRegistry, handle: &str, path: &str, lookup: &str) -> Result<String, FpgadError> {
    let mut op = ControlInterface::apply_overlay("universal", handle, path, lookup, true);
    let mut action = op.start(reg);
    loop {
        match m.act(action) {
            Err(r) => return r,
            Ok(Some(reply)) => action = op.resume(reg, reply),
            Ok(None) => unreachable!(),
        }
    }
}

#[test]
fn bitstream_load_writes_prefix_then_name_under_lock() {
    let reg = default_registry();
    let mut m = Machine::new();
    let r = load(&mut m, &reg, "", "/lib/firmware/a/b.bin", "/lib/firmware/").unwrap();
    assert_eq!(r, "/lib/firmware/a/b.bin loaded to fpga0 using firmware lookup path: '/lib/firmware/'");
    assert_eq!(
        m.writes,
        vec![
            (REGISTER.to_string(), "/lib/firmware/".to_string(), true),
            ("/sys/class/fpga_manager/fpga0/firmware".to_string(), "a/b.bin".to_string(), true),
        ]
    );
    assert!(!m.locked);
}

#[test]
fn bitstream_load_reports_diverged_state() {
    let reg = default_registry();
    let mut m = Machine::new();
    m.operating_after_load = false;
    assert!(matches!(
        load(&mut m, &reg, "universal", "/lib/firmware/b.bin", ""),
        Err(FpgadError::FPGAState(_))
    ));
    assert!(!m.locked);
}

#[test]
fn bitstream_load_rejects_unknown_device_and_platform() {
    let reg = default_registry();
    let mut m = Machine::new();
    let mut op = ControlInterface::write_bitstream_direct("", "fpga9", "/lib/firmware/b.bin", "", true);
    let first = op.start();
    let reply = match m.act(first) {
        Ok(Some(reply)) => reply,
        _ => panic!("expected a request"),
    };
    assert!(matches!(op.resume(&reg, reply), Action::Finished(Err(FpgadError::Argument(_)))));
    assert!(matches!(load(&mut m, &reg, "acme", "/lib/firmware/b.bin", ""), Err(FpgadError::Argument(_))));
    assert!(matches!(load(&mut m, &reg, "", "/lib/firmware/b.bin", "/opt/"), Err(FpgadError::Argument(_))));
    assert!(m.writes.is_empty());
}

#[test]
fn bitstream_load_rejects_non_file() {
    let reg = default_registry();
    let mut m = Machine::new();
    let mut op = ControlInterface::write_bitstream_direct("", "fpga0", "/lib/firmware/", "", false);
    let first = op.start();
    let reply = match m.act(first) {
        Ok(Some(reply)) => reply,
        _ => panic!("expected a request"),
    };
    assert!(matches!(op.resume(&reg, reply), Action::Finished(Err(FpgadError::Argument(_)))));
}

#[test]
fn overlay_apply_request_runs_under_lock_then_verifies() {
    let reg = default_registry();
    let mut m = Machine::new();
    let r = apply(&mut m, &reg, "ov", "/lib/firmware/k26-starter-kits.dtbo", "").unwrap();
    assert_eq!(
        r,
        "/lib/firmware/k26-starter-kits.dtbo loaded via /sys/kernel/config/device-tree/overlays/ov using firmware lookup path: '/lib/firmware'"
    );
    assert_eq!(
        m.writes,
        vec![
            (REGISTER.to_string(), "/lib/firmware".to_string(), true),
            (
                "/sys/kernel/config/device-tree/overlays/ov/path".to_string(),
                "k26-starter-kits.dtbo".to_string(),
                true
            ),
        ]
    );
    assert!(!m.locked);
}

#[test]
fn overlay_apply_request_on_existing_overlay_is_argument() {
    let reg = default_registry();
    let mut m = Machine::new();
    apply(&mut m, &reg, "ov", "/lib/firmware/a.dtbo", "").unwrap();
    let writes = m.writes.len();
    match apply(&mut m, &reg, "ov", "/lib/firmware/a.dtbo", "") {
        Err(e) => assert!(e
            .to_string()
            .starts_with("FpgadError::Argument: Overlay with this handle already exists ")),
        other => panic!("unexpected {other:?}"),
    }
    assert_eq!(m.writes.len(), writes);
}

#[test]
fn overlay_apply_request_needs_known_platform() {
    let reg = default_registry();
    let mut op = ControlInterface::apply_overlay("acme", "ov", "/lib/firmware/a.dtbo", "", true);
    assert!(matches!(op.start(&reg), Action::Finished(Err(FpgadError::Argument(_)))));
}

#[test]
fn concurrent_guarded_loads_observe_own_prefix() {
    let reg = default_registry();
    for schedule in [[true, false], [false, true]] {
        let mut m = Machine::new();
        let mut ops = [
            ControlInterface::write_bitstream_direct("universal", "fpga0", "/px/a.bin", "/px/", true),
            ControlInterface::write_bitstream_direct("universal", "fpga0", "/py/b.bin", "/py/", true),
        ];
        let mut pending: [Option<Action>; 2] = [Some(ops[0].start()), Some(ops[1].start())];
        let mut holder: Option<usize> = None;
        let mut results: [Option<Result<String, FpgadError>>; 2] = [None, None];
        let mut observed: Vec<(usize, String)> = Vec::new();
        let mut turn = 0usize;
        while results.iter().any(|r| r.is_none()) {
            let who = if schedule[turn % 2] { 0 } else { 1 };
            turn += 1;
            let action = match pending[who].take() {
                Some(a) => a,
                None => continue,
            };
            let reply = match action {
                Action::Finished(r) => {
                    results[who] = Some(r);
                    continue;
                }
                Action::AcquireWriteLock => {
                    if holder.is_some() {
                        pending[who] = Some(Action::AcquireWriteLock);
                        continue;
                    }
                    holder = Some(who);
                    SysfsReply::Completed
                }
                Action::ReleaseWriteLock => {
                    assert_eq!(holder, Some(who));
                    holder = None;
                    SysfsReply::Completed
                }
                Action::Request(req) => {
                    if let SysfsRequest::Write { path, .. } = &req {
                        if path.ends_with("/firmware") {
                            assert_eq!(holder, Some(who));
                            let register = m.files.get(REGISTER).cloned().unwrap_or_default();
                            observed.push((who, register));
                        }
                    }
                    m.perform(req)
                }
            };
            pending[who] = Some(ops[who].resume(&reg, reply));
        }
        assert!(results.iter().all(|r| matches!(r, Some(Ok(_)))));
        assert_eq!(observed.len(), 2);
        for (who, register) in observed {
            let expected = if who == 0 { "/px/\n" } else { "/py/\n" };
            assert_eq!(register, expected);
        }
    }
}
