use fpgad::device::{Fpga, UniversalFPGA};
use fpgad::error::FpgadError;
use fpgad::flags::{flags_from_text, flags_to_hex};
use fpgad::sysfs::{Step, SysfsReply, SysfsRequest};
use std::collections::HashMap;

/// A backing store that keeps what is written and gives it back when read.
struct Store {
    files: HashMap<String, String>,
    log: Vec<SysfsRequest>,
}

impl Store {
    fn new(files: &[(&str, &str)]) -> Store {
        Store {
            files: files.iter().map(|(k, v)| (k.to_string(), v.to_string())).collect(),
            log: Vec::new(),
        }
    }

    fn perform(&mut self, req: SysfsRequest) -> SysfsReply {
        self.log.push(req.clone());
        match req {
            SysfsRequest::Read { path } => match self.files.get(&path) {
                Some(s) => SysfsReply::Contents(s.clone()),
                None => SysfsReply::Failed("No such file or directory".to_string()),
            },
            SysfsRequest::Write { path, data } => {
                if path.ends_with("/flags") && data.contains("FF") {
                    // a store that silently refuses this value
                    return SysfsReply::Completed;
                }
                self.files.insert(path, data);
                SysfsReply::Completed
            }
            _ => SysfsReply::Failed("unsupported".to_string()),
        }
    }
}

fn drive(store: &mut Store, first: Step<()>, mut resume: impl FnMut(SysfsReply) -> Step<()>) -> Result<(), FpgadError> {
    let mut step = first;
    loop {
        match step {
            Step::Finished(r) => return r,
            Step::Request(req) => {
                let reply = store.perform(req);
                step = resume(reply);
            }
        }
    }
}

const STATE: &str = "/sys/class/fpga_manager/fpga0/state";
const FLAGS: &str = "/sys/class/fpga_manager/fpga0/flags";

#[test]
fn state_strips_trailing_newline() {
    let fpga = UniversalFPGA::new("fpga0");
    assert_eq!(fpga.state(SysfsReply::Contents("operating\n".to_string())).unwrap(), "operating");
    assert_eq!(fpga.state(SysfsReply::Contents("unknown\n\n".to_string())).unwrap(), "unknown");
    match fpga.state_request() {
        SysfsRequest::Read { path } => assert_eq!(path, STATE),
        other => panic!("unexpected {other:?}"),
    }
}

#[test]
fn state_read_failure_names_the_path() {
    let fpga = UniversalFPGA::new("fpga0");
    match fpga.state(SysfsReply::Failed("denied".to_string())) {
        Err(FpgadError::IORead { file, e }) => {
            assert_eq!(file, STATE);
            assert_eq!(e, "denied");
        }
        other => panic!("unexpected {other:?}"),
    }
}

#[test]
fn flags_parse_hex_with_and_without_prefix() {
    let fpga = UniversalFPGA::new("fpga0");
    assert_eq!(fpga.flags(SysfsReply::Contents("0x20\n".to_string())).unwrap(), 32);
    assert_eq!(fpga.flags(SysfsReply::Contents("ff".to_string())).unwrap(), 255);
    assert_eq!(flags_from_text(" 0xFFFFFFFF "), Some(u32::MAX));
    assert_eq!(flags_from_text("0x100000000"), None);
    assert_eq!(flags_from_text("0x"), None);
    assert_eq!(flags_from_text("zz"), None);
    assert!(matches!(
        fpga.flags(SysfsReply::Contents("nonsense".to_string())),
        Err(FpgadError::Flag(_))
    ));
}

#[test]
fn flags_format_is_prefixed_upper_hex() {
    assert_eq!(flags_to_hex(0), "0x0");
    assert_eq!(flags_to_hex(32), "0x20");
    assert_eq!(flags_to_hex(0xABCDEF), "0xABCDEF");
    assert_eq!(flags_to_hex(u32::MAX), "0xFFFFFFFF");
}

#[test]
fn flags_round_trip_on_samples() {
    for v in [0u32, 1, 15, 16, 127, 0x8000_0000, u32::MAX] {
        assert_eq!(flags_from_text(&flags_to_hex(v)), Some(v));
    }
}

#[test]
fn set_flags_then_flags_returns_value() {
    let fpga = UniversalFPGA::new("fpga0");
    let mut store = Store::new(&[(STATE, "operating\n"), (FLAGS, "0x0")]);
    let mut op = fpga.set_flags(127);
    let first = op.start();
    drive(&mut store, first, |r| op.resume(r)).unwrap();
    let reply = store.perform(fpga.flags_request());
    assert_eq!(fpga.flags(reply).unwrap(), 127);
    assert_eq!(
        store.log[0],
        SysfsRequest::Write { path: FLAGS.to_string(), data: "0x7F".to_string() }
    );
}

#[test]
fn set_flags_fails_when_store_rejects_value() {
    let fpga = UniversalFPGA::new("fpga0");
    let mut store = Store::new(&[(STATE, "operating\n"), (FLAGS, "0x0")]);
    let mut op = fpga.set_flags(255);
    let first = op.start();
    assert!(matches!(drive(&mut store, first, |r| op.resume(r)), Err(FpgadError::Flag(_))));
}

#[test]
fn set_flags_ignores_non_operating_state() {
    let fpga = UniversalFPGA::new("fpga0");
    let mut store = Store::new(&[(STATE, "unknown\n"), (FLAGS, "0x0")]);
    let mut op = fpga.set_flags(4);
    let first = op.start();
    assert!(drive(&mut store, first, |r| op.resume(r)).is_ok());
}

#[test]
fn set_flags_write_failure_is_io_write() {
    let fpga = UniversalFPGA::new("fpga0");
    let mut op = fpga.set_flags(4);
    let _ = op.start();
    match op.resume(SysfsReply::Failed("busy".to_string())) {
        Step::Finished(Err(FpgadError::IOWrite { data, file, e })) => {
            assert_eq!(data, "0x4");
            assert_eq!(file, FLAGS);
            assert_eq!(e, "busy");
        }
        other => panic!("unexpected {other:?}"),
    }
}

#[test]
fn load_firmware_requires_operating() {
    let fpga = UniversalFPGA::new("fpga0");
    let mut store = Store::new(&[(STATE, "operating\n")]);
    let mut op = fpga.load_firmware("design.bit.bin");
    let first = op.start();
    assert!(drive(&mut store, first, |r| op.resume(r)).is_ok());
    assert_eq!(
        store.files.get("/sys/class/fpga_manager/fpga0/firmware").unwrap(),
        "design.bit.bin"
    );

    let mut store = Store::new(&[(STATE, "write error: 0xfffff8fe\n")]);
    let mut op = fpga.load_firmware("design.bit.bin");
    let first = op.start();
    match drive(&mut store, first, |r| op.resume(r)) {
        Err(FpgadError::FPGAState(m)) => assert!(m.contains("write error: 0xfffff8fe")),
        other => panic!("unexpected {other:?}"),
    }
}

#[test]
fn operation_started_twice_is_internal() {
    let fpga = UniversalFPGA::new("fpga0");
    let mut op = fpga.load_firmware("x");
    let _ = op.start();
    assert!(matches!(op.start(), Step::Finished(Err(FpgadError::Internal(_)))));
}

#[test]
fn set_flags_proceeds_when_state_unreadable() {
    let fpga = UniversalFPGA::new("fpga0");
    let mut store = Store::new(&[(FLAGS, "0x0")]);
    let mut op = fpga.set_flags(6);
    let first = op.start();
    assert!(drive(&mut store, first, |r| op.resume(r)).is_ok());
}
