//! The device lifecycle engine: state, flags and firmware loading of one FPGA manager.

use vstd::prelude::*;

use crate::config::FPGA_MANAGERS_DIR;
use crate::error::FpgadError;
use crate::flags::{flags_from_text, flags_to_hex, format_flags, lemma_flags_round_trip, parse_flags};
use crate::sysfs::{read_outcome, write_outcome, Step, SysfsReply, SysfsRequest};
use crate::text::{
    concat2, concat3, contains, lemma_contains_middle, str_eq, trim_end_char, trim_end_matches_char,
};

verus! {

/// Path of the node `node` of device `handle` in the device-class tree.
pub open spec fn device_node(handle: Seq<char>, node: Seq<char>) -> Seq<char> {
    FPGA_MANAGERS_DIR@ + handle + "/"@ + node
}

pub open spec fn is_operating(state: Seq<char>) -> bool {
    state == "operating"@
}

/// What reading the state node gives: its text without trailing newlines.
pub open spec fn state_outcome(
    handle: Seq<char>,
    reply: SysfsReply,
    r: Result<String, FpgadError>,
) -> bool {
    match reply {
        SysfsReply::Contents(s) => r matches Ok(t) && t@ == trim_end_char(s@, '\n'),
        SysfsReply::Failed(e) => r matches Err(FpgadError::IORead { file, e: m }) && file@
            == device_node(handle, "state"@) && m@ == e@,
        _ => r matches Err(FpgadError::Internal(_)),
    }
}

/// What reading the flags node gives: the hexadecimal value it holds.
pub open spec fn flags_outcome(
    handle: Seq<char>,
    reply: SysfsReply,
    r: Result<u32, FpgadError>,
) -> bool {
    match reply {
        SysfsReply::Contents(s) => match parse_flags(s@) {
            Some(v) => r == Ok::<u32, FpgadError>(v),
            None => r matches Err(FpgadError::Flag(_)),
        },
        SysfsReply::Failed(e) => r matches Err(FpgadError::IORead { file, e: m }) && file@
            == device_node(handle, "flags"@) && m@ == e@,
        _ => r matches Err(FpgadError::Internal(_)),
    }
}

/// The capabilities of an FPGA device.
pub trait Fpga {
    spec fn spec_device_handle(&self) -> Seq<char>;

    /// The device handle, such as `fpga0`.
    fn device_handle(&self) -> (r: &str)
        ensures
            r@ == self.spec_device_handle(),
    ;

    /// The request that reads the state node.
    fn state_request(&self) -> (r: SysfsRequest)
        ensures
            r matches SysfsRequest::Read { path } && path@ == device_node(
                self.spec_device_handle(),
                "state"@,
            ),
    ;

    /// The device state, from the reply to `state_request`.
    fn state(&self, reply: SysfsReply) -> (r: Result<String, FpgadError>)
        ensures
            state_outcome(self.spec_device_handle(), reply, r),
    ;

    /// The request that reads the flags node.
    fn flags_request(&self) -> (r: SysfsRequest)
        ensures
            r matches SysfsRequest::Read { path } && path@ == device_node(
                self.spec_device_handle(),
                "flags"@,
            ),
    ;

    /// The device flags, from the reply to `flags_request`.
    fn flags(&self, reply: SysfsReply) -> (r: Result<u32, FpgadError>)
        ensures
            flags_outcome(self.spec_device_handle(), reply, r),
    ;

    /// The operation that sets the flags and checks them by reading them back.
    fn set_flags(&self, flags: u32) -> (r: SetFlags)
        ensures
            r.fpga.device_handle@ == self.spec_device_handle(),
            r.flags == flags,
            r.phase == SetFlagsPhase::Start,
    ;

    /// The operation that loads a bitstream, named relative to the firmware search path.
    fn load_firmware(&self, bitstream_path_rel: &str) -> (r: LoadFirmware)
        ensures
            r.fpga.device_handle@ == self.spec_device_handle(),
            r.bitstream_path_rel@ == bitstream_path_rel@,
            r.phase == LoadFirmwarePhase::Start,
    ;
}

/// An FPGA manager driven through the generic device-class interface.
#[derive(Debug, Clone)]
pub struct UniversalFPGA {
    pub device_handle: String,
}

impl UniversalFPGA {
    /// A device object for `device_handle`. Nothing is checked on the filesystem.
    pub fn new(device_handle: &str) -> (r: UniversalFPGA)
        ensures
            r.device_handle@ == device_handle@,
    {
        UniversalFPGA { device_handle: String::from_str(device_handle) }
    }

    /// Path of the node `node` of this device.
    pub fn node_path(&self, node: &str) -> (r: String)
        ensures
            r@ == device_node(self.device_handle@, node@),
    {
        let mut s = concat3(FPGA_MANAGERS_DIR, self.device_handle.as_str(), "/");
        s.append(node);
        s
    }

    /// Checks that a state read after loading is `operating`.
    pub fn assert_state(&self, state: Result<String, FpgadError>) -> (r: Result<(), FpgadError>)
        ensures
            match state {
                Ok(s) => if is_operating(s@) {
                    r is Ok
                } else {
                    r matches Err(FpgadError::FPGAState(m)) && contains(m@, s@)
                },
                Err(e) => r == Err::<(), FpgadError>(e),
            },
    {
        match state {
            Ok(s) => {
                if str_eq(s.as_str(), "operating") {
                    Ok(())
                } else {
                    let head = concat3(
                        "After loading bitstream, ",
                        self.device_handle.as_str(),
                        "'s state should be 'operating' but it is '",
                    );
                    let m = concat3(head.as_str(), s.as_str(), "'");
                    proof {
                        lemma_contains_middle(head@, s@, "'"@);
                    }
                    Err(FpgadError::FPGAState(m))
                }
            },
            Err(e) => Err(e),
        }
    }

    /// Checks the flags read back after a write against the flags requested.
    pub fn flags_verdict(&self, requested: u32, readback: Result<u32, FpgadError>) -> (r: Result<
        (),
        FpgadError,
    >)
        ensures
            r is Ok <==> readback == Ok::<u32, FpgadError>(requested),
            r is Err ==> r matches Err(FpgadError::Flag(_)),
    {
        match readback {
            Ok(v) => {
                if v == requested {
                    Ok(())
                } else {
                    Err(
                        FpgadError::Flag(
                            concat3(
                                "Setting ",
                                self.device_handle.as_str(),
                                "'s flags failed: the value read back differs",
                            ),
                        ),
                    )
                }
            },
            Err(e) => {
                let d = e.to_string();
                let m = concat3(
                    "Failed to read back the flags of ",
                    self.device_handle.as_str(),
                    ": ",
                );
                Err(FpgadError::Flag(concat2(m.as_str(), d.as_str())))
            },
        }
    }
}

impl Fpga for UniversalFPGA {
    open spec fn spec_device_handle(&self) -> Seq<char> {
        self.device_handle@
    }

    fn device_handle(&self) -> (r: &str) {
        self.device_handle.as_str()
    }

    fn state_request(&self) -> (r: SysfsRequest) {
        SysfsRequest::Read { path: self.node_path("state") }
    }

    fn state(&self, reply: SysfsReply) -> (r: Result<String, FpgadError>) {
        let path = self.node_path("state");
        match read_outcome(path.as_str(), reply) {
            Ok(s) => Ok(trim_end_matches_char(s.as_str(), '\n')),
            Err(e) => Err(e),
        }
    }

    fn flags_request(&self) -> (r: SysfsRequest) {
        SysfsRequest::Read { path: self.node_path("flags") }
    }

    fn flags(&self, reply: SysfsReply) -> (r: Result<u32, FpgadError>) {
        let path = self.node_path("flags");
        match read_outcome(path.as_str(), reply) {
            Ok(s) => match flags_from_text(s.as_str()) {
                Some(v) => Ok(v),
                None => Err(FpgadError::Flag(String::from_str("Parsing flags failed"))),
            },
            Err(e) => Err(e),
        }
    }

    fn set_flags(&self, flags: u32) -> (r: SetFlags) {
        SetFlags { fpga: self.clone_fpga(), flags, phase: SetFlagsPhase::Start }
    }

    fn load_firmware(&self, bitstream_path_rel: &str) -> (r: LoadFirmware) {
        LoadFirmware {
            fpga: self.clone_fpga(),
            bitstream_path_rel: String::from_str(bitstream_path_rel),
            phase: LoadFirmwarePhase::Start,
        }
    }
}

impl UniversalFPGA {
    fn clone_fpga(&self) -> (r: UniversalFPGA)
        ensures
            r.device_handle@ == self.device_handle@,
    {
        UniversalFPGA { device_handle: self.device_handle.clone() }
    }
}

#[derive(Debug, Clone, Copy, PartialEq, Eq, Structural)]
pub enum SetFlagsPhase {
    Start,
    Writing,
    ReadingState,
    ReadingFlags,
    Done,
}

/// Setting the flags of a device: write them as `0x`-prefixed upper-case hex, read the
/// state (whatever it reads, even a failed read, does not fail the operation), then read the
/// flags back; they must equal what was written.
pub struct SetFlags {
    pub fpga: UniversalFPGA,
    pub flags: u32,
    pub phase: SetFlagsPhase,
}

impl SetFlags {
    /// The first step: the write of the flags.
    pub fn start(&mut self) -> (r: Step<()>)
        ensures
            final(self).fpga == old(self).fpga,
            final(self).flags == old(self).flags,
            old(self).phase == SetFlagsPhase::Start ==> {
                &&& final(self).phase == SetFlagsPhase::Writing
                &&& r matches Step::Request(SysfsRequest::Write { path, data }) && path@
                    == device_node(old(self).fpga.device_handle@, "flags"@) && data@
                    == format_flags(old(self).flags)
            },
            old(self).phase != SetFlagsPhase::Start ==> final(self).phase == SetFlagsPhase::Done
                && r matches Step::Finished(Err(FpgadError::Internal(_))),
    {
        if self.phase != SetFlagsPhase::Start {
            self.phase = SetFlagsPhase::Done;
            return Step::Finished(Err(already_started()));
        }
        self.phase = SetFlagsPhase::Writing;
        Step::Request(
            SysfsRequest::Write { path: self.fpga.node_path("flags"), data: flags_to_hex(self.flags) },
        )
    }

    /// The next step, given the reply to the last request.
    pub fn resume(&mut self, reply: SysfsReply) -> (r: Step<()>)
        ensures
            final(self).fpga == old(self).fpga,
            final(self).flags == old(self).flags,
            ({
                let handle = old(self).fpga.device_handle@;
                match old(self).phase {
                    SetFlagsPhase::Writing => match reply {
                        SysfsReply::Completed => final(self).phase == SetFlagsPhase::ReadingState
                            && (r matches Step::Request(SysfsRequest::Read { path }) && path@
                            == device_node(handle, "state"@)),
                        SysfsReply::Failed(e) => final(self).phase == SetFlagsPhase::Done
                            && (r matches Step::Finished(
                            Err(FpgadError::IOWrite { data, file, e: m }),
                        ) && file@ == device_node(handle, "flags"@) && data@ == format_flags(
                            old(self).flags,
                        ) && m@ == e@),
                        _ => final(self).phase == SetFlagsPhase::Done
                            && r matches Step::Finished(Err(FpgadError::Internal(_))),
                    },
                    SetFlagsPhase::ReadingState => final(self).phase == SetFlagsPhase::ReadingFlags
                        && (r matches Step::Request(SysfsRequest::Read { path }) && path@
                        == device_node(handle, "flags"@)),
                    SetFlagsPhase::ReadingFlags => final(self).phase == SetFlagsPhase::Done
                        && exists|v: Result<u32, FpgadError>|
                        flags_outcome(handle, reply, v) && match r {
                            Step::Finished(res) => (res is Ok <==> v == Ok::<u32, FpgadError>(
                                old(self).flags,
                            )) && (res is Err ==> res matches Err(FpgadError::Flag(_))),
                            _ => false,
                        },
                    _ => final(self).phase == SetFlagsPhase::Done
                        && r matches Step::Finished(Err(FpgadError::Internal(_))),
                }
            }),
    {
        match self.phase {
            SetFlagsPhase::Writing => {
                let path = self.fpga.node_path("flags");
                let data = flags_to_hex(self.flags);
                match write_outcome(path.as_str(), data.as_str(), reply) {
                    Ok(()) => {
                        self.phase = SetFlagsPhase::ReadingState;
                        Step::Request(self.fpga.state_request())
                    },
                    Err(e) => {
                        self.phase = SetFlagsPhase::Done;
                        Step::Finished(Err(e))
                    },
                }
            },
            SetFlagsPhase::ReadingState => {
                // the state after the write is only reported; whatever it reads, the
                // flags are read back next
                self.phase = SetFlagsPhase::ReadingFlags;
                Step::Request(self.fpga.flags_request())
            },
            SetFlagsPhase::ReadingFlags => {
                self.phase = SetFlagsPhase::Done;
                let v = self.fpga.flags(reply);
                let res = self.fpga.flags_verdict(self.flags, v);
                Step::Finished(res)
            },
            _ => {
                self.phase = SetFlagsPhase::Done;
                Step::Finished(Err(already_finished()))
            },
        }
    }
}

#[derive(Debug, Clone, Copy, PartialEq, Eq, Structural)]
pub enum LoadFirmwarePhase {
    Start,
    Writing,
    ReadingState,
    Done,
}

/// Loading a bitstream: write its name, relative to the firmware search path, to the
/// firmware node, then require the state `operating`.
pub struct LoadFirmware {
    pub fpga: UniversalFPGA,
    pub bitstream_path_rel: String,
    pub phase: LoadFirmwarePhase,
}

impl LoadFirmware {
    /// The first step: the write of the bitstream name.
    pub fn start(&mut self) -> (r: Step<()>)
        ensures
            final(self).fpga == old(self).fpga,
            final(self).bitstream_path_rel == old(self).bitstream_path_rel,
            old(self).phase == LoadFirmwarePhase::Start ==> {
                &&& final(self).phase == LoadFirmwarePhase::Writing
                &&& r matches Step::Request(SysfsRequest::Write { path, data }) && path@
                    == device_node(old(self).fpga.device_handle@, "firmware"@) && data@ == old(
                    self,
                ).bitstream_path_rel@
            },
            old(self).phase != LoadFirmwarePhase::Start ==> final(self).phase
                == LoadFirmwarePhase::Done && r matches Step::Finished(
                Err(FpgadError::Internal(_)),
            ),
    {
        if self.phase != LoadFirmwarePhase::Start {
            self.phase = LoadFirmwarePhase::Done;
            return Step::Finished(Err(already_started()));
        }
        self.phase = LoadFirmwarePhase::Writing;
        Step::Request(
            SysfsRequest::Write {
                path: self.fpga.node_path("firmware"),
                data: self.bitstream_path_rel.clone(),
            },
        )
    }

    /// The next step, given the reply to the last request.
    pub fn resume(&mut self, reply: SysfsReply) -> (r: Step<()>)
        ensures
            final(self).fpga == old(self).fpga,
            final(self).bitstream_path_rel == old(self).bitstream_path_rel,
            ({
                let handle = old(self).fpga.device_handle@;
                match old(self).phase {
                    LoadFirmwarePhase::Writing => match reply {
                        SysfsReply::Completed => final(self).phase
                            == LoadFirmwarePhase::ReadingState
                            && (r matches Step::Request(SysfsRequest::Read { path }) && path@
                            == device_node(handle, "state"@)),
                        SysfsReply::Failed(e) => final(self).phase == LoadFirmwarePhase::Done
                            && (r matches Step::Finished(
                            Err(FpgadError::IOWrite { data, file, e: m }),
                        ) && file@ == device_node(handle, "firmware"@) && data@ == old(
                            self,
                        ).bitstream_path_rel@ && m@ == e@),
                        _ => final(self).phase == LoadFirmwarePhase::Done
                            && r matches Step::Finished(Err(FpgadError::Internal(_))),
                    },
                    LoadFirmwarePhase::ReadingState => final(self).phase == LoadFirmwarePhase::Done
                        && exists|s: Result<String, FpgadError>|
                        state_outcome(handle, reply, s) && match s {
                            Ok(t) => if is_operating(t@) {
                                r matches Step::Finished(Ok(()))
                            } else {
                                r matches Step::Finished(Err(FpgadError::FPGAState(m))) && contains(
                                    m@,
                                    t@,
                                )
                            },
                            Err(e) => r == Step::<()>::Finished(Err(e)),
                        },
                    _ => final(self).phase == LoadFirmwarePhase::Done
                        && r matches Step::Finished(Err(FpgadError::Internal(_))),
                }
            }),
    {
        match self.phase {
            LoadFirmwarePhase::Writing => {
                let path = self.fpga.node_path("firmware");
                match write_outcome(path.as_str(), self.bitstream_path_rel.as_str(), reply) {
                    Ok(()) => {
                        self.phase = LoadFirmwarePhase::ReadingState;
                        Step::Request(self.fpga.state_request())
                    },
                    Err(e) => {
                        self.phase = LoadFirmwarePhase::Done;
                        Step::Finished(Err(e))
                    },
                }
            },
            LoadFirmwarePhase::ReadingState => {
                self.phase = LoadFirmwarePhase::Done;
                let s = self.fpga.state(reply);
                Step::Finished(self.fpga.assert_state(s))
            },
            _ => {
                self.phase = LoadFirmwarePhase::Done;
                Step::Finished(Err(already_finished()))
            },
        }
    }
}

/// The error for starting an operation twice.
pub fn already_started() -> (r: FpgadError)
    ensures
        r is Internal,
{
    FpgadError::Internal(String::from_str("the operation was already started"))
}

/// The error for resuming an operation that has not started or has finished.
pub fn already_finished() -> (r: FpgadError)
    ensures
        r is Internal,
{
    FpgadError::Internal(String::from_str("the operation is not waiting for a reply"))
}

/// A device whose state node holds `operating` (with or without trailing newlines)
/// reports exactly `operating`, and a load that reads that state succeeds.
pub proof fn lemma_operating_state(handle: Seq<char>, contents: Seq<char>, reply: SysfsReply, r: Result<String, FpgadError>)
    requires
        reply matches SysfsReply::Contents(s) && s@ == contents,
        trim_end_char(contents, '\n') == "operating"@,
        state_outcome(handle, reply, r),
    ensures
        r matches Ok(t) && t@ == "operating"@ && is_operating(t@),
{
}

/// Read-back of flags: a flags node that holds what setting `v` wrote reads back as
/// `v`, so the check after the write passes; a node holding any text that does not
/// denote `v` reads back as something else, so the check fails with a flags error.
pub proof fn lemma_flags_read_back(
    handle: Seq<char>,
    v: u32,
    reply: SysfsReply,
    readback: Result<u32, FpgadError>,
)
    requires
        reply is Contents,
        flags_outcome(handle, reply, readback),
    ensures
        match reply {
            SysfsReply::Contents(s) => {
                &&& s@ == format_flags(v) ==> readback == Ok::<u32, FpgadError>(v)
                &&& readback == Ok::<u32, FpgadError>(v) <==> parse_flags(s@) == Some(v)
            },
            _ => true,
        },
{
    lemma_flags_round_trip(v);
}

} // verus!
