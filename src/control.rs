//! Composite control requests: loading a bitstream and applying an overlay through the
//! firmware search-path register, with the write coordination lock held only from just
//! before the register write to just after the write that triggers the load.
//!
//! Each step of either request is a `lock::lock_step`, so the law of `lock` applies to
//! any two of them running side by side.

use vstd::prelude::*;

use crate::comm::{check_source_file, device_dir_request, is_valid_handle_name, validate_device_handle, write_firmware_source_dir, ControlInterface};
use crate::config::{FIRMWARE_LOC_CONTROL_PATH, FPGA_MANAGERS_DIR};
use crate::device::{device_node, is_operating, state_outcome, Fpga, LoadFirmware, LoadFirmwarePhase, UniversalFPGA};
use crate::error::FpgadError;
use crate::overlay::{ApplyOverlay, ApplyPhase, OverlayHandler};
use crate::path::{firmware_pair, make_firmware_pair};
use crate::platform::{compatible_request, discover_platform, platform_for_known_platform, read_compatible_string, Platform};
use crate::registry::{resolve, PlatformRegistry};
use crate::sysfs::{Step, SysfsReply, SysfsRequest};
use crate::lock::{lock_step, LockEvent, LockPhase};
use crate::text::contains;

verus! {

/// What a composite request asks for next. The lock actions are answered with
/// `SysfsReply::Completed` once done.
#[derive(Debug, PartialEq, Eq)]
pub enum Action {
    Request(SysfsRequest),
    AcquireWriteLock,
    ReleaseWriteLock,
    Finished(Result<String, FpgadError>),
}

/// What an action asks of the lock and the register: a write to the register is a
/// register write, any other write a trigger.
pub open spec fn lock_event(r: Action) -> LockEvent {
    match r {
        Action::AcquireWriteLock => LockEvent::Acquire,
        Action::ReleaseWriteLock => LockEvent::Release,
        Action::Request(SysfsRequest::Write { path, data }) => if path@
            == FIRMWARE_LOC_CONTROL_PATH@ {
            LockEvent::WriteRegister(data@)
        } else {
            LockEvent::Trigger
        },
        _ => LockEvent::Other,
    }
}

/// The firmware node of a device is not the register.
proof fn lemma_firmware_node_is_not_register(handle: Seq<char>)
    ensures
        device_node(handle, "firmware"@) != FIRMWARE_LOC_CONTROL_PATH@,
{
    reveal_strlit("/sys/class/fpga_manager/");
    reveal_strlit("/sys/module/firmware_class/parameters/path");
    assert(device_node(handle, "firmware"@)[5] == 'c');
    assert(FIRMWARE_LOC_CONTROL_PATH@[5] == 'm');
}

/// A node of an overlay directory is not the register.
proof fn lemma_overlay_node_is_not_register(handle: Seq<char>, node: Seq<char>)
    ensures
        crate::overlay::overlay_node(crate::overlay::overlay_dir(handle), node)
            != FIRMWARE_LOC_CONTROL_PATH@,
{
    reveal_strlit("/sys/kernel/config/device-tree/overlays/");
    reveal_strlit("/sys/module/firmware_class/parameters/path");
    assert(crate::overlay::overlay_node(crate::overlay::overlay_dir(handle), node)[5] == 'k');
    assert(FIRMWARE_LOC_CONTROL_PATH@[5] == 'm');
}

#[derive(Debug, Clone, Copy, PartialEq, Eq, Structural)]
pub enum BitstreamPhase {
    Start,
    ValidatingDevice,
    ReadingSignature,
    Locking,
    WritingRegister,
    Triggering,
    ReleasingThenFail,
    ReleasingThenVerify,
    ReadingState,
    Done,
}

/// Loading a bitstream file onto a device: the device handle is checked, the platform
/// chosen, the file split into search prefix and relative name; under the lock the
/// prefix goes to the register and the name to the device's firmware node; the state
/// read afterwards must be `operating`.
pub struct BitstreamLoad {
    pub platform_string: String,
    pub device_handle: String,
    pub bitstream_path: String,
    pub firmware_lookup_path: String,
    pub is_regular_file: bool,
    pub prefix: String,
    pub load: LoadFirmware,
    pub pending: Option<FpgadError>,
    pub phase: BitstreamPhase,
}

impl ControlInterface {
    /// The operation that loads `bitstream_path_str` onto `device_handle`, given whether
    /// that path names a regular file. An empty `platform_string` lets the device's own
    /// signature choose the platform; an empty `firmware_lookup_path` makes the file's
    /// directory the search prefix.
    pub fn write_bitstream_direct(
        platform_string: &str,
        device_handle: &str,
        bitstream_path_str: &str,
        firmware_lookup_path: &str,
        is_regular_file: bool,
    ) -> (r: BitstreamLoad)
        ensures
            r.phase == BitstreamPhase::Start,
            r.platform_string@ == platform_string@,
            r.device_handle@ == device_handle@,
            r.bitstream_path@ == bitstream_path_str@,
            r.firmware_lookup_path@ == firmware_lookup_path@,
            r.is_regular_file == is_regular_file,
            r.inv(),
    {
        BitstreamLoad {
            platform_string: String::from_str(platform_string),
            device_handle: String::from_str(device_handle),
            bitstream_path: String::from_str(bitstream_path_str),
            firmware_lookup_path: String::from_str(firmware_lookup_path),
            is_regular_file,
            prefix: String::new(),
            load: UniversalFPGA::new(device_handle).load_firmware(""),
            pending: None,
            phase: BitstreamPhase::Start,
        }
    }
}

impl BitstreamLoad {
    /// Where the request stands with respect to the lock.
    pub open spec fn lock_phase(&self) -> LockPhase {
        match self.phase {
            BitstreamPhase::Locking => LockPhase::Waiting,
            BitstreamPhase::WritingRegister => LockPhase::Writing,
            BitstreamPhase::Triggering => LockPhase::Triggering,
            BitstreamPhase::ReleasingThenFail | BitstreamPhase::ReleasingThenVerify => LockPhase::Releasing,
            _ => LockPhase::Outside,
        }
    }

    /// The load sub-operation belongs to the device of the request and is as far along
    /// as the phase says.
    pub open spec fn inv(&self) -> bool {
        &&& self.load.fpga.device_handle@ == self.device_handle@
        &&& match self.phase {
            BitstreamPhase::Start | BitstreamPhase::ValidatingDevice
            | BitstreamPhase::ReadingSignature | BitstreamPhase::Locking
            | BitstreamPhase::WritingRegister => self.load.phase == LoadFirmwarePhase::Start,
            BitstreamPhase::Triggering => self.load.phase == LoadFirmwarePhase::Writing,
            BitstreamPhase::ReleasingThenFail => self.pending is Some,
            _ => true,
        }
    }

    /// Once the platform is known: with no firmware pair for the request, an `Argument`
    /// error; with one, its prefix and suffix are kept and the lock is asked for.
    pub open spec fn locks_for_pair(&self, next: &BitstreamLoad, r: Action) -> bool {
        match firmware_pair(self.bitstream_path@, self.firmware_lookup_path@) {
            None => next.phase == BitstreamPhase::Done && (r matches Action::Finished(
                Err(FpgadError::Argument(_)),
            )),
            Some((p, s)) => next.phase == BitstreamPhase::Locking && r == Action::AcquireWriteLock
                && next.prefix@ == p && next.load.bitstream_path_rel@ == s,
        }
    }

    pub open spec fn keeps_request(&self, other: &BitstreamLoad) -> bool {
        &&& self.platform_string == other.platform_string
        &&& self.device_handle == other.device_handle
        &&& self.bitstream_path == other.bitstream_path
        &&& self.firmware_lookup_path == other.firmware_lookup_path
        &&& self.is_regular_file == other.is_regular_file
    }

    /// Once the platform is known: the firmware pair, then the lock.
    fn after_platform(&mut self, platform: Result<crate::platform::PlatformInstance, FpgadError>) -> (r: Action)
        requires
            old(self).inv(),
        ensures
            final(self).keeps_request(old(self)),
            final(self).inv(),
            match platform {
                Err(e) => final(self).phase == BitstreamPhase::Done && r == Action::Finished(Err(e)),
                Ok(_) => match firmware_pair(old(self).bitstream_path@, old(self).firmware_lookup_path@) {
                    None => final(self).phase == BitstreamPhase::Done
                        && (r matches Action::Finished(Err(FpgadError::Argument(_)))),
                    Some((p, s)) => final(self).phase == BitstreamPhase::Locking
                        && r == Action::AcquireWriteLock && final(self).prefix@ == p
                        && final(self).load.fpga.device_handle@ == old(self).device_handle@
                        && final(self).load.bitstream_path_rel@ == s
                        && final(self).load.phase == LoadFirmwarePhase::Start,
                },
            },
    {
        match platform {
            Err(e) => {
                self.phase = BitstreamPhase::Done;
                Action::Finished(Err(e))
            },
            Ok(p) => {
                match make_firmware_pair(self.bitstream_path.as_str(), self.firmware_lookup_path.as_str()) {
                    Err(e) => {
                        self.phase = BitstreamPhase::Done;
                        Action::Finished(Err(e))
                    },
                    Ok((prefix, suffix)) => {
                        match p.fpga(self.device_handle.as_str()) {
                            Ok(f) => {
                                self.load = f.load_firmware(suffix.as_str());
                            },
                            Err(e) => {
                                self.phase = BitstreamPhase::Done;
                                return Action::Finished(Err(e));
                            },
                        }
                        self.prefix = prefix;
                        self.phase = BitstreamPhase::Locking;
                        Action::AcquireWriteLock
                    },
                }
            },
        }
    }

    /// The first step: the check of the device handle's name and directory.
    pub fn start(&mut self) -> (r: Action)
        requires
            old(self).inv(),
        ensures
            final(self).keeps_request(old(self)),
            final(self).inv(),
            old(self).phase == BitstreamPhase::Start ==> if is_valid_handle_name(
                old(self).device_handle@,
            ) {
                final(self).phase == BitstreamPhase::ValidatingDevice && (r matches Action::Request(
                    SysfsRequest::Exists { path },
                ) && path@ == FPGA_MANAGERS_DIR@ + old(self).device_handle@)
            } else {
                final(self).phase == BitstreamPhase::Done && (r matches Action::Finished(
                    Err(FpgadError::Argument(_)),
                ))
            },
            old(self).phase != BitstreamPhase::Start ==> final(self).phase == BitstreamPhase::Done
                && (r matches Action::Finished(Err(FpgadError::Internal(_)))),
    {
        if self.phase != BitstreamPhase::Start {
            self.phase = BitstreamPhase::Done;
            return Action::Finished(Err(crate::device::already_started()));
        }
        match validate_device_handle(self.device_handle.as_str(), SysfsReply::Present(true)) {
            Err(e) => {
                self.phase = BitstreamPhase::Done;
                Action::Finished(Err(e))
            },
            Ok(()) => {
                self.phase = BitstreamPhase::ValidatingDevice;
                Action::Request(device_dir_request(self.device_handle.as_str()))
            },
        }
    }

    /// The next step, given the reply to the last request, or `Completed` after a lock
    /// action.
    pub fn resume(&mut self, registry: &PlatformRegistry, reply: SysfsReply) -> (r: Action)
        requires
            old(self).inv(),
        ensures
            final(self).keeps_request(old(self)),
            final(self).inv(),
            lock_step(
                old(self).lock_phase(),
                reply is Completed,
                old(self).prefix@,
                final(self).lock_phase(),
                final(self).prefix@,
                lock_event(r),
            ),
            (r matches Action::Request(SysfsRequest::Write { .. })) ==> old(self).phase
                == BitstreamPhase::Locking || (old(self).phase == BitstreamPhase::WritingRegister
                && reply is Completed),
            r == Action::AcquireWriteLock ==> final(self).phase == BitstreamPhase::Locking,
            r == Action::ReleaseWriteLock ==> old(self).phase == BitstreamPhase::WritingRegister
                || old(self).phase == BitstreamPhase::Triggering,
            ({
                let handle = old(self).device_handle@;
                match old(self).phase {
                    BitstreamPhase::Locking => final(self).phase == BitstreamPhase::WritingRegister
                        && (r matches Action::Request(SysfsRequest::Write { path, data }) && path@
                        == FIRMWARE_LOC_CONTROL_PATH@ && data@ == old(self).prefix@),
                    BitstreamPhase::WritingRegister => match reply {
                        SysfsReply::Completed => final(self).phase == BitstreamPhase::Triggering
                            && (r matches Action::Request(SysfsRequest::Write { path, data })
                            && path@ == device_node(handle, "firmware"@) && data@ == old(
                            self,
                        ).load.bitstream_path_rel@),
                        SysfsReply::Failed(e) => final(self).phase == BitstreamPhase::ReleasingThenFail
                            && r == Action::ReleaseWriteLock && (final(self).pending matches Some(
                            FpgadError::IOWrite { data, file, e: m },
                        ) && file@ == FIRMWARE_LOC_CONTROL_PATH@ && data@ == old(self).prefix@
                            && m@ == e@),
                        _ => final(self).phase == BitstreamPhase::ReleasingThenFail && r
                            == Action::ReleaseWriteLock && (final(self).pending matches Some(
                            FpgadError::Internal(_),
                        )),
                    },
                    BitstreamPhase::Triggering => r == Action::ReleaseWriteLock && match reply {
                        SysfsReply::Completed => final(self).phase
                            == BitstreamPhase::ReleasingThenVerify,
                        SysfsReply::Failed(e) => final(self).phase
                            == BitstreamPhase::ReleasingThenFail && (final(self).pending matches Some(
                            FpgadError::IOWrite { data, file, e: m },
                        ) && file@ == device_node(handle, "firmware"@)
                            && data@ == old(self).load.bitstream_path_rel@ && m@ == e@),
                        _ => final(self).phase == BitstreamPhase::ReleasingThenFail
                            && (final(self).pending matches Some(FpgadError::Internal(_))),
                    },
                    BitstreamPhase::ReleasingThenVerify => final(self).phase
                        == BitstreamPhase::ReadingState && (r matches Action::Request(
                        SysfsRequest::Read { path },
                    ) && path@ == device_node(handle, "state"@)),
                    BitstreamPhase::ReleasingThenFail => final(self).phase == BitstreamPhase::Done
                        && r == Action::Finished(Err(old(self).pending->Some_0)),
                    BitstreamPhase::ReadingState => final(self).phase == BitstreamPhase::Done
                        && exists|s: Result<String, FpgadError>|
                        state_outcome(handle, reply, s) && match s {
                            Ok(t) => if is_operating(t@) {
                                r matches Action::Finished(Ok(m)) && m@ == old(self).bitstream_path@
                                    + " loaded to "@ + handle + " using firmware lookup path: '"@
                                    + old(self).prefix@ + "'"@
                            } else {
                                r matches Action::Finished(Err(FpgadError::FPGAState(m)))
                                    && contains(m@, t@)
                            },
                            Err(e) => r == Action::Finished(Err(e)),
                        },
                    BitstreamPhase::ValidatingDevice => if !is_valid_handle_name(handle) {
                        final(self).phase == BitstreamPhase::Done && (r matches Action::Finished(
                            Err(FpgadError::Argument(_)),
                        ))
                    } else { match reply {
                        SysfsReply::Present(true) => if !old(self).is_regular_file {
                            final(self).phase == BitstreamPhase::Done && (r matches Action::Finished(
                                Err(FpgadError::Argument(_)),
                            ))
                        } else if old(self).platform_string@.len() == 0 {
                            final(self).phase == BitstreamPhase::ReadingSignature
                                && (r matches Action::Request(SysfsRequest::Read { path })
                                && path@ == device_node(handle, "of_node/compatible"@))
                        } else if resolve(registry@, old(self).platform_string@).is_none() {
                            final(self).phase == BitstreamPhase::Done && (r matches Action::Finished(
                                Err(FpgadError::Argument(_)),
                            ))
                        } else {
                            old(self).locks_for_pair(final(self), r)
                        },
                        SysfsReply::Present(false) | SysfsReply::Failed(_) => final(self).phase
                            == BitstreamPhase::Done && (r matches Action::Finished(
                            Err(FpgadError::Argument(_)),
                        )),
                        _ => final(self).phase == BitstreamPhase::Done && (r matches Action::Finished(
                            Err(FpgadError::Internal(_)),
                        )),
                    } },
                    BitstreamPhase::ReadingSignature => match reply {
                        SysfsReply::Contents(_) => old(self).locks_for_pair(final(self), r),
                        _ => final(self).phase == BitstreamPhase::Done && (r matches Action::Finished(
                            Err(FpgadError::Argument(_)),
                        )),
                    },
                    _ => final(self).phase == BitstreamPhase::Done && (r matches Action::Finished(
                        Err(FpgadError::Internal(_)),
                    )),
                }
            }),
    {
        match self.phase {
            BitstreamPhase::ValidatingDevice => {
                match validate_device_handle(self.device_handle.as_str(), reply) {
                    Err(e) => {
                        self.phase = BitstreamPhase::Done;
                        return Action::Finished(Err(e));
                    },
                    Ok(()) => {},
                }
                match check_source_file(self.bitstream_path.as_str(), self.is_regular_file) {
                    Err(e) => {
                        self.phase = BitstreamPhase::Done;
                        return Action::Finished(Err(e));
                    },
                    Ok(()) => {},
                }
                if self.platform_string.as_str().unicode_len() == 0 {
                    self.phase = BitstreamPhase::ReadingSignature;
                    Action::Request(compatible_request(self.device_handle.as_str()))
                } else {
                    let p = platform_for_known_platform(registry, self.platform_string.as_str());
                    self.after_platform(p)
                }
            },
            BitstreamPhase::ReadingSignature => {
                let compat = read_compatible_string(self.device_handle.as_str(), reply);
                let p = discover_platform(registry, compat);
                self.after_platform(p)
            },
            BitstreamPhase::Locking => {
                self.phase = BitstreamPhase::WritingRegister;
                Action::Request(crate::comm::write_firmware_source_dir_request(self.prefix.as_str()))
            },
            BitstreamPhase::WritingRegister => {
                proof {
                    lemma_firmware_node_is_not_register(self.device_handle@);
                }
                match write_firmware_source_dir(self.prefix.as_str(), reply) {
                    Ok(()) => {
                        match self.load.start() {
                            Step::Request(req) => {
                                self.phase = BitstreamPhase::Triggering;
                                Action::Request(req)
                            },
                            Step::Finished(res) => {
                                self.pending = Some(finished_error(res));
                                self.phase = BitstreamPhase::ReleasingThenFail;
                                Action::ReleaseWriteLock
                            },
                        }
                    },
                    Err(e) => {
                        self.pending = Some(e);
                        self.phase = BitstreamPhase::ReleasingThenFail;
                        Action::ReleaseWriteLock
                    },
                }
            },
            BitstreamPhase::Triggering => {
                match self.load.resume(reply) {
                    Step::Request(_) => {
                        self.phase = BitstreamPhase::ReleasingThenVerify;
                    },
                    Step::Finished(res) => {
                        self.pending = Some(finished_error(res));
                        self.phase = BitstreamPhase::ReleasingThenFail;
                    },
                }
                Action::ReleaseWriteLock
            },
            BitstreamPhase::ReleasingThenVerify => {
                self.phase = BitstreamPhase::ReadingState;
                Action::Request(self.load.fpga.state_request())
            },
            BitstreamPhase::ReleasingThenFail => {
                self.phase = BitstreamPhase::Done;
                let e = match self.pending.take() {
                    Some(e) => e,
                    None => crate::device::already_finished(),
                };
                Action::Finished(Err(e))
            },
            BitstreamPhase::ReadingState => {
                self.phase = BitstreamPhase::Done;
                let s = self.load.fpga.state(reply);
                match self.load.fpga.assert_state(s) {
                    Ok(()) => Action::Finished(
                        Ok(
                            ControlInterface::bitstream_loaded_message(
                                self.bitstream_path.as_str(),
                                self.device_handle.as_str(),
                                self.prefix.as_str(),
                            ),
                        ),
                    ),
                    Err(e) => Action::Finished(Err(e)),
                }
            },
            _ => {
                self.phase = BitstreamPhase::Done;
                Action::Finished(Err(crate::device::already_finished()))
            },
        }
    }
}

#[derive(Debug, Clone, Copy, PartialEq, Eq, Structural)]
pub enum OverlayRequestPhase {
    Start,
    CheckingControlDir,
    Preparing,
    Locking,
    WritingRegister,
    Triggering,
    ReleasingThenFail,
    ReleasingThenVerify,
    Verifying,
    Done,
}

/// Applying an overlay file: the platform is the registered one, the file is split into
/// search prefix and relative name, the overlay directory is created; under the lock the
/// prefix goes to the register and the name to the overlay's `path` node; the overlay
/// must then show as applied.
pub struct OverlayApplyRequest {
    pub platform_compat_str: String,
    pub overlay_handle: String,
    pub overlay_source_path: String,
    pub firmware_lookup_path: String,
    pub is_regular_file: bool,
    pub prefix: String,
    pub apply: ApplyOverlay,
    pub stashed: Option<SysfsRequest>,
    pub pending: Option<FpgadError>,
    pub phase: OverlayRequestPhase,
}

impl ControlInterface {
    /// The operation that applies the overlay file `overlay_source_path` under the handle
    /// `overlay_handle`, given whether that path names a regular file.
    pub fn apply_overlay(
        platform_compat_str: &str,
        overlay_handle: &str,
        overlay_source_path: &str,
        firmware_lookup_path: &str,
        is_regular_file: bool,
    ) -> (r: OverlayApplyRequest)
        ensures
            r.phase == OverlayRequestPhase::Start,
            r.platform_compat_str@ == platform_compat_str@,
            r.overlay_handle@ == overlay_handle@,
            r.overlay_source_path@ == overlay_source_path@,
            r.firmware_lookup_path@ == firmware_lookup_path@,
            r.is_regular_file == is_regular_file,
            r.inv(),
    {
        OverlayApplyRequest {
            platform_compat_str: String::from_str(platform_compat_str),
            overlay_handle: String::from_str(overlay_handle),
            overlay_source_path: String::from_str(overlay_source_path),
            firmware_lookup_path: String::from_str(firmware_lookup_path),
            is_regular_file,
            prefix: String::new(),
            apply: crate::overlay::UniversalOverlayHandler::new(overlay_handle).apply_overlay(""),
            stashed: None,
            pending: None,
            phase: OverlayRequestPhase::Start,
        }
    }
}

impl OverlayApplyRequest {
    /// Where the request stands with respect to the lock.
    pub open spec fn lock_phase(&self) -> LockPhase {
        match self.phase {
            OverlayRequestPhase::Locking => LockPhase::Waiting,
            OverlayRequestPhase::WritingRegister => LockPhase::Writing,
            OverlayRequestPhase::Triggering => LockPhase::Triggering,
            OverlayRequestPhase::ReleasingThenFail | OverlayRequestPhase::ReleasingThenVerify => LockPhase::Releasing,
            _ => LockPhase::Outside,
        }
    }

    /// The apply sub-operation is as far along as the phase says, and a stashed request
    /// waits exactly while the lock is being taken or given back before verification.
    pub open spec fn inv(&self) -> bool {
        &&& self.apply.dir() == crate::overlay::overlay_dir(self.overlay_handle@)
        &&& match self.phase {
            OverlayRequestPhase::Start | OverlayRequestPhase::CheckingControlDir => self.apply.phase
                == ApplyPhase::Start,
            OverlayRequestPhase::Preparing => self.apply.phase == ApplyPhase::CheckingAbsent
                || self.apply.phase == ApplyPhase::Creating || self.apply.phase
                == ApplyPhase::CheckingPathNode,
            OverlayRequestPhase::Locking | OverlayRequestPhase::WritingRegister => self.apply.phase
                == ApplyPhase::WritingPath && (self.stashed matches Some(
                SysfsRequest::Write { path, data },
            ) && path@ == crate::overlay::overlay_node(self.apply.dir(), "path"@) && data@
                == self.apply.source_path_rel@),
            OverlayRequestPhase::Triggering => self.apply.phase == ApplyPhase::WritingPath,
            OverlayRequestPhase::ReleasingThenVerify => self.apply.phase == ApplyPhase::ReadingPath
                && (self.stashed matches Some(SysfsRequest::Read { .. })),
            OverlayRequestPhase::Verifying => self.apply.phase == ApplyPhase::ReadingPath
                || self.apply.phase == ApplyPhase::ReadingStatus,
            OverlayRequestPhase::ReleasingThenFail => self.pending is Some,
            _ => true,
        }
    }

    /// How a step of the apply sub-operation is handed on: its write of the `path` node,
    /// the trigger, waits for the lock; other requests go out as they are; its end ends
    /// the request.
    pub open spec fn forwards(&self, step: Step<()>, next: &OverlayApplyRequest, r: Action) -> bool {
        match step {
            Step::Request(req) => if self.phase == OverlayRequestPhase::Preparing && req is Write {
                next.phase == OverlayRequestPhase::Locking && r == Action::AcquireWriteLock
                    && next.stashed == Some(req)
            } else {
                next.phase == self.phase && r == Action::Request(req)
            },
            Step::Finished(Ok(())) => next.phase == OverlayRequestPhase::Done && (
            r matches Action::Finished(res) && (res is Ok <==> self.phase
                == OverlayRequestPhase::Verifying) && (res matches Ok(m) ==> m@
                == self.overlay_source_path@ + " loaded via "@ + self.apply.dir()
                + " using firmware lookup path: '"@ + self.prefix@ + "'"@)),
            Step::Finished(Err(e)) => next.phase == OverlayRequestPhase::Done && r
                == Action::Finished(Err(e)),
        }
    }

    /// After the check of the control directory: the handler, the firmware pair, and the
    /// first request of the apply sub-operation, or the error that stops the request.
    pub open spec fn prepares(
        &self,
        next: &OverlayApplyRequest,
        entries: Seq<(Seq<char>, crate::platform::PlatformType)>,
        reply: SysfsReply,
        r: Action,
    ) -> bool {
        let present = match reply {
            SysfsReply::Present(b) => b,
            _ => false,
        };
        match reply {
            SysfsReply::Present(_) | SysfsReply::Failed(_) => match resolve(
                entries,
                self.platform_compat_str@,
            ) {
                None => next.phase == OverlayRequestPhase::Done && (r matches Action::Finished(
                    Err(FpgadError::Argument(_)),
                )),
                Some(t) => if !present && t != crate::platform::PlatformType::Xilinx {
                    next.phase == OverlayRequestPhase::Done && (r matches Action::Finished(
                        Err(FpgadError::Argument(_)),
                    ))
                } else {
                    match firmware_pair(self.overlay_source_path@, self.firmware_lookup_path@) {
                        None => next.phase == OverlayRequestPhase::Done && (r matches Action::Finished(
                            Err(FpgadError::Argument(_)),
                        )),
                        Some((p, s)) => {
                            &&& next.phase == OverlayRequestPhase::Preparing
                            &&& next.prefix@ == p
                            &&& next.apply.source_path_rel@ == s
                            &&& next.apply.dir() == crate::overlay::overlay_dir(self.overlay_handle@)
                            &&& r matches Action::Request(SysfsRequest::Exists { path }) && path@
                                == crate::overlay::overlay_dir(self.overlay_handle@)
                        },
                    }
                },
            },
            _ => next.phase == OverlayRequestPhase::Done && (r matches Action::Finished(
                Err(FpgadError::Internal(_)),
            )),
        }
    }

    /// Hands a step of the apply sub-operation on, taking the lock before its trigger.
    fn forward(&mut self, step: Step<()>) -> (r: Action)
        requires
            old(self).phase == OverlayRequestPhase::Preparing || old(self).phase
                == OverlayRequestPhase::Verifying,
            old(self).apply.phase != ApplyPhase::Start,
        ensures
            final(self).platform_compat_str == old(self).platform_compat_str,
            final(self).overlay_handle == old(self).overlay_handle,
            final(self).overlay_source_path == old(self).overlay_source_path,
            final(self).prefix == old(self).prefix,
            final(self).apply == old(self).apply,
            final(self).pending == old(self).pending,
            old(self).forwards(step, final(self), r),
    {
        match step {
            Step::Request(req) => {
                if self.phase == OverlayRequestPhase::Preparing {
                    if let SysfsRequest::Write { .. } = req {
                        self.stashed = Some(req);
                        self.phase = OverlayRequestPhase::Locking;
                        return Action::AcquireWriteLock;
                    }
                }
                Action::Request(req)
            },
            Step::Finished(Ok(())) => {
                let done = self.phase == OverlayRequestPhase::Verifying;
                self.phase = OverlayRequestPhase::Done;
                if done {
                    let m = ControlInterface::overlay_applied_message(
                        self.overlay_source_path.as_str(),
                        self.apply.overlay_fs_path.as_str(),
                        self.prefix.as_str(),
                    );
                    Action::Finished(Ok(m))
                } else {
                    Action::Finished(Err(crate::device::already_finished()))
                }
            },
            Step::Finished(Err(e)) => {
                self.phase = OverlayRequestPhase::Done;
                Action::Finished(Err(e))
            },
        }
    }

    /// The first step: the file check, the platform, then whether the overlay control
    /// directory exists.
    pub fn start(&mut self, registry: &PlatformRegistry) -> (r: Action)
        requires
            old(self).inv(),
        ensures
            final(self).inv(),
            old(self).phase != OverlayRequestPhase::Start ==> final(self).phase
                == OverlayRequestPhase::Done && (r matches Action::Finished(Err(FpgadError::Internal(_)))),
            old(self).phase == OverlayRequestPhase::Start && !old(self).is_regular_file ==> (final(self).phase == OverlayRequestPhase::Done && (r matches Action::Finished(
                Err(FpgadError::Argument(_)),
            ))),
            old(self).phase == OverlayRequestPhase::Start && old(self).is_regular_file ==> match crate::registry::resolve(registry@, old(self).platform_compat_str@) {
                None => final(self).phase == OverlayRequestPhase::Done && (r matches Action::Finished(Err(FpgadError::Argument(_)))),
                Some(_) => final(self).phase == OverlayRequestPhase::CheckingControlDir && (r matches Action::Request(SysfsRequest::Exists { path }) && path@ == crate::config::OVERLAY_CONTROL_DIR@),
            },
    {
        if self.phase != OverlayRequestPhase::Start {
            self.phase = OverlayRequestPhase::Done;
            return Action::Finished(Err(crate::device::already_started()));
        }
        match check_source_file(self.overlay_source_path.as_str(), self.is_regular_file) {
            Err(e) => {
                self.phase = OverlayRequestPhase::Done;
                return Action::Finished(Err(e));
            },
            Ok(()) => {},
        }
        match platform_for_known_platform(registry, self.platform_compat_str.as_str()) {
            Err(e) => {
                self.phase = OverlayRequestPhase::Done;
                Action::Finished(Err(e))
            },
            Ok(_) => {
                self.phase = OverlayRequestPhase::CheckingControlDir;
                Action::Request(
                    SysfsRequest::Exists { path: String::from_str(crate::config::OVERLAY_CONTROL_DIR) },
                )
            },
        }
    }

    /// The next step, given the reply to the last request, or `Completed` after a lock
    /// action.
    pub fn resume(&mut self, registry: &PlatformRegistry, reply: SysfsReply) -> (r: Action)
        requires
            old(self).inv(),
        ensures
            final(self).inv(),
            lock_step(
                old(self).lock_phase(),
                reply is Completed,
                old(self).prefix@,
                final(self).lock_phase(),
                final(self).prefix@,
                lock_event(r),
            ),
            (r matches Action::Request(SysfsRequest::Write { .. })) ==> old(self).phase
                == OverlayRequestPhase::Locking || (old(self).phase
                == OverlayRequestPhase::WritingRegister && reply is Completed),
            old(self).phase == OverlayRequestPhase::CheckingControlDir ==> old(self).prepares(
                final(self),
                registry@,
                reply,
                r,
            ),
            old(self).phase == OverlayRequestPhase::Locking ==> final(self).phase
                == OverlayRequestPhase::WritingRegister && (r matches Action::Request(
                SysfsRequest::Write { path, data },
            ) && path@ == FIRMWARE_LOC_CONTROL_PATH@ && data@ == old(self).prefix@),
            old(self).phase == OverlayRequestPhase::WritingRegister ==> match reply {
                SysfsReply::Completed => final(self).phase == OverlayRequestPhase::Triggering && (
                r matches Action::Request(SysfsRequest::Write { path, data }) && path@
                    == crate::overlay::overlay_node(old(self).apply.dir(), "path"@) && data@
                    == old(self).apply.source_path_rel@),
                SysfsReply::Failed(e) => final(self).phase == OverlayRequestPhase::ReleasingThenFail
                    && r == Action::ReleaseWriteLock && (final(self).pending matches Some(
                    FpgadError::IOWrite { data, file, e: m },
                ) && file@ == FIRMWARE_LOC_CONTROL_PATH@ && data@ == old(self).prefix@ && m@
                    == e@),
                _ => final(self).phase == OverlayRequestPhase::ReleasingThenFail && r
                    == Action::ReleaseWriteLock && (final(self).pending matches Some(
                    FpgadError::Internal(_),
                )),
            },
            old(self).phase == OverlayRequestPhase::Preparing || old(self).phase
                == OverlayRequestPhase::Verifying ==> exists|step: Step<()>|
                old(self).apply.steps_to(reply, final(self).apply, step) && old(self).forwards(
                    step,
                    final(self),
                    r,
                ),
            old(self).phase == OverlayRequestPhase::Triggering ==> r == Action::ReleaseWriteLock
                && exists|step: Step<()>|
                old(self).apply.steps_to(reply, final(self).apply, step) && match step {
                    Step::Request(req) => final(self).phase
                        == OverlayRequestPhase::ReleasingThenVerify && final(self).stashed == Some(
                        req,
                    ),
                    Step::Finished(Err(e)) => final(self).phase
                        == OverlayRequestPhase::ReleasingThenFail && final(self).pending == Some(e),
                    Step::Finished(Ok(())) => final(self).phase
                        == OverlayRequestPhase::ReleasingThenFail && (final(self).pending matches Some(
                        FpgadError::Internal(_),
                    )),
                },
            old(self).phase == OverlayRequestPhase::ReleasingThenVerify ==> final(self).phase
                == OverlayRequestPhase::Verifying && r == Action::Request(old(self).stashed->Some_0),
            old(self).phase == OverlayRequestPhase::ReleasingThenFail ==> final(self).phase
                == OverlayRequestPhase::Done && r == Action::Finished(Err(old(self).pending->Some_0)),
            r == Action::AcquireWriteLock ==> final(self).phase == OverlayRequestPhase::Locking,
            r == Action::ReleaseWriteLock ==> old(self).phase == OverlayRequestPhase::WritingRegister
                || old(self).phase == OverlayRequestPhase::Triggering,
            (r matches Action::Finished(Ok(_))) ==> old(self).phase == OverlayRequestPhase::Verifying,
    {
        match self.phase {
            OverlayRequestPhase::CheckingControlDir => {
                let present = match crate::sysfs::exists_outcome(reply) {
                    Ok(b) => b,
                    Err(e) => {
                        self.phase = OverlayRequestPhase::Done;
                        return Action::Finished(Err(e));
                    },
                };
                let platform = match platform_for_known_platform(
                    registry,
                    self.platform_compat_str.as_str(),
                ) {
                    Ok(p) => p,
                    Err(e) => {
                        self.phase = OverlayRequestPhase::Done;
                        return Action::Finished(Err(e));
                    },
                };
                let handler = match platform.overlay_handler(self.overlay_handle.as_str(), present) {
                    Ok(h) => h,
                    Err(e) => {
                        self.phase = OverlayRequestPhase::Done;
                        return Action::Finished(Err(e));
                    },
                };
                match make_firmware_pair(
                    self.overlay_source_path.as_str(),
                    self.firmware_lookup_path.as_str(),
                ) {
                    Err(e) => {
                        self.phase = OverlayRequestPhase::Done;
                        Action::Finished(Err(e))
                    },
                    Ok((prefix, suffix)) => {
                        self.prefix = prefix;
                        self.apply = handler.apply_overlay(suffix.as_str());
                        self.phase = OverlayRequestPhase::Preparing;
                        let step = self.apply.start();
                        self.forward(step)
                    },
                }
            },
            OverlayRequestPhase::Preparing => {
                let step = self.apply.resume(reply);
                let ghost taken = step;
                let r = self.forward(step);
                assert(old(self).apply.steps_to(reply, self.apply, taken));
                assert(old(self).forwards(taken, self, r));
                r
            },
            OverlayRequestPhase::Locking => {
                self.phase = OverlayRequestPhase::WritingRegister;
                Action::Request(crate::comm::write_firmware_source_dir_request(self.prefix.as_str()))
            },
            OverlayRequestPhase::WritingRegister => {
                proof {
                    lemma_overlay_node_is_not_register(self.overlay_handle@, "path"@);
                }
                match write_firmware_source_dir(self.prefix.as_str(), reply) {
                    Ok(()) => {
                        match self.stashed.take() {
                            Some(req) => {
                                self.phase = OverlayRequestPhase::Triggering;
                                Action::Request(req)
                            },
                            None => {
                                self.pending = Some(crate::device::already_finished());
                                self.phase = OverlayRequestPhase::ReleasingThenFail;
                                Action::ReleaseWriteLock
                            },
                        }
                    },
                    Err(e) => {
                        self.pending = Some(e);
                        self.phase = OverlayRequestPhase::ReleasingThenFail;
                        Action::ReleaseWriteLock
                    },
                }
            },
            OverlayRequestPhase::Triggering => {
                let step = self.apply.resume(reply);
                let ghost taken = step;
                match step {
                    Step::Request(req) => {
                        self.stashed = Some(req);
                        self.phase = OverlayRequestPhase::ReleasingThenVerify;
                    },
                    Step::Finished(res) => {
                        self.pending = Some(finished_error(res));
                        self.phase = OverlayRequestPhase::ReleasingThenFail;
                    },
                }
                Action::ReleaseWriteLock
            },
            OverlayRequestPhase::ReleasingThenVerify => {
                self.phase = OverlayRequestPhase::Verifying;
                match self.stashed.take() {
                    Some(req) => Action::Request(req),
                    None => {
                        self.phase = OverlayRequestPhase::Done;
                        Action::Finished(Err(crate::device::already_finished()))
                    },
                }
            },
            OverlayRequestPhase::Verifying => {
                let step = self.apply.resume(reply);
                let ghost taken = step;
                let r = self.forward(step);
                assert(old(self).apply.steps_to(reply, self.apply, taken));
                assert(old(self).forwards(taken, self, r));
                r
            },
            OverlayRequestPhase::ReleasingThenFail => {
                self.phase = OverlayRequestPhase::Done;
                let e = match self.pending.take() {
                    Some(e) => e,
                    None => crate::device::already_finished(),
                };
                Action::Finished(Err(e))
            },
            _ => {
                self.phase = OverlayRequestPhase::Done;
                Action::Finished(Err(crate::device::already_finished()))
            },
        }
    }
}

/// The error of a finished step, or an internal error where it did not fail.
fn finished_error(res: Result<(), FpgadError>) -> (r: FpgadError)
    ensures
        match res {
            Err(e) => r == e,
            Ok(_) => r is Internal,
        },
{
    match res {
        Err(e) => e,
        Ok(()) => FpgadError::Internal(
            String::from_str("the load finished before its trigger was written"),
        ),
    }
}

} // verus!
