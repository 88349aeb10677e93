//! Platforms: the vendor-specific handling that a signature selects, and the selection
//! of a platform for a request.

use vstd::prelude::*;

use crate::config::{FPGA_MANAGERS_DIR, OVERLAY_CONTROL_DIR};
use crate::device::{device_node, UniversalFPGA};
use crate::error::FpgadError;
use crate::overlay::{overlay_dir, UniversalOverlayHandler};
use crate::registry::{
    init_platform_registry, match_platform_string, register_platform, resolve, PlatformRegistry,
};
use crate::sysfs::{list_outcome, read_outcome, Step, SysfsReply, SysfsRequest};
use crate::text::{
    concat2, concat3, contains, lemma_contains_middle, trim_end_char, trim_end_matches_char,
};

verus! {

/// The kinds of platform.
#[derive(Debug, Clone, Copy, PartialEq, Eq, Structural)]
pub enum PlatformType {
    Universal,
    Xilinx,
}

/// The signature under which the vendor-neutral platform is registered.
pub const UNIVERSAL_COMPAT: &'static str = "universal";

/// The signature under which the Xilinx platform is registered.
pub const XILINX_COMPAT: &'static str = "xlnx,versal-fpga,zynqmp-pcap-fpga,zynq-devcfg-1.0";

/// What a platform offers: its device and overlay handling.
pub trait Platform {
    spec fn spec_platform_type(&self) -> PlatformType;

    fn platform_type(&self) -> (r: PlatformType)
        ensures
            r == self.spec_platform_type(),
    ;

    /// The device object for `device_handle`.
    fn fpga(&self, device_handle: &str) -> (r: Result<UniversalFPGA, FpgadError>)
        ensures
            r matches Ok(f) && f.device_handle@ == device_handle@,
    ;

    /// The overlay handler for `overlay_handle`, given whether the overlay control
    /// directory exists. The vendor-neutral platform needs that directory.
    fn overlay_handler(&self, overlay_handle: &str, control_dir_present: bool) -> (r: Result<
        UniversalOverlayHandler,
        FpgadError,
    >)
        ensures
            r is Ok <==> (control_dir_present || self.spec_platform_type()
                == PlatformType::Xilinx),
            r matches Ok(h) ==> h.overlay_fs_path@ == overlay_dir(overlay_handle@),
            r is Err ==> r matches Err(FpgadError::Argument(_)),
    ;
}

/// The vendor-neutral platform.
#[derive(Debug)]
pub struct UniversalPlatform {}

impl UniversalPlatform {
    pub fn new() -> (r: UniversalPlatform)
        ensures
            r.spec_platform_type() == PlatformType::Universal,
    {
        UniversalPlatform {  }
    }
}

impl Platform for UniversalPlatform {
    open spec fn spec_platform_type(&self) -> PlatformType {
        PlatformType::Universal
    }

    fn platform_type(&self) -> (r: PlatformType) {
        PlatformType::Universal
    }

    fn fpga(&self, device_handle: &str) -> (r: Result<UniversalFPGA, FpgadError>) {
        Ok(UniversalFPGA::new(device_handle))
    }

    fn overlay_handler(&self, overlay_handle: &str, control_dir_present: bool) -> (r: Result<
        UniversalOverlayHandler,
        FpgadError,
    >) {
        if !control_dir_present {
            return Err(
                FpgadError::Argument(
                    concat3(
                        "The overlayfs path \"",
                        OVERLAY_CONTROL_DIR,
                        "\" doesn't seem to exist.",
                    ),
                ),
            );
        }
        Ok(UniversalOverlayHandler::new(overlay_handle))
    }
}

/// The Xilinx platform, which may hand work to the vendor's DFX manager.
#[derive(Debug)]
pub struct XilinxDfxMgrPlatform {}

impl XilinxDfxMgrPlatform {
    pub fn new() -> (r: XilinxDfxMgrPlatform)
        ensures
            r.spec_platform_type() == PlatformType::Xilinx,
    {
        XilinxDfxMgrPlatform {  }
    }
}

impl Platform for XilinxDfxMgrPlatform {
    open spec fn spec_platform_type(&self) -> PlatformType {
        PlatformType::Xilinx
    }

    fn platform_type(&self) -> (r: PlatformType) {
        PlatformType::Xilinx
    }

    fn fpga(&self, device_handle: &str) -> (r: Result<UniversalFPGA, FpgadError>) {
        Ok(UniversalFPGA::new(device_handle))
    }

    fn overlay_handler(&self, overlay_handle: &str, control_dir_present: bool) -> (r: Result<
        UniversalOverlayHandler,
        FpgadError,
    >) {
        Ok(UniversalOverlayHandler::new(overlay_handle))
    }
}

/// A platform chosen at run time.
#[derive(Debug)]
pub enum PlatformInstance {
    Universal(UniversalPlatform),
    Xilinx(XilinxDfxMgrPlatform),
}

impl Platform for PlatformInstance {
    open spec fn spec_platform_type(&self) -> PlatformType {
        match self {
            PlatformInstance::Universal(_) => PlatformType::Universal,
            PlatformInstance::Xilinx(_) => PlatformType::Xilinx,
        }
    }

    fn platform_type(&self) -> (r: PlatformType) {
        match self {
            PlatformInstance::Universal(p) => p.platform_type(),
            PlatformInstance::Xilinx(p) => p.platform_type(),
        }
    }

    fn fpga(&self, device_handle: &str) -> (r: Result<UniversalFPGA, FpgadError>) {
        match self {
            PlatformInstance::Universal(p) => p.fpga(device_handle),
            PlatformInstance::Xilinx(p) => p.fpga(device_handle),
        }
    }

    fn overlay_handler(&self, overlay_handle: &str, control_dir_present: bool) -> (r: Result<
        UniversalOverlayHandler,
        FpgadError,
    >) {
        match self {
            PlatformInstance::Universal(p) => p.overlay_handler(overlay_handle, control_dir_present),
            PlatformInstance::Xilinx(p) => p.overlay_handler(overlay_handle, control_dir_present),
        }
    }
}

/// A new platform of kind `kind`.
pub fn new_platform(kind: PlatformType) -> (r: PlatformInstance)
    ensures
        r.spec_platform_type() == kind,
{
    match kind {
        PlatformType::Universal => PlatformInstance::Universal(UniversalPlatform::new()),
        PlatformType::Xilinx => PlatformInstance::Xilinx(XilinxDfxMgrPlatform::new()),
    }
}

/// Registers the platforms this daemon knows.
pub fn register_platforms(registry: &mut PlatformRegistry)
    requires
        old(registry).wf(),
    ensures
        final(registry).wf(),
        old(registry)@.len() == 0 ==> final(registry)@ == seq![
            (XILINX_COMPAT@, PlatformType::Xilinx),
            (UNIVERSAL_COMPAT@, PlatformType::Universal),
        ],
{
    register_platform(registry, XILINX_COMPAT, PlatformType::Xilinx);
    register_platform(registry, UNIVERSAL_COMPAT, PlatformType::Universal);
    proof {
        if old(registry)@.len() == 0 {
            reveal_strlit("universal");
            reveal_strlit("xlnx,versal-fpga,zynqmp-pcap-fpga,zynq-devcfg-1.0");
            assert(XILINX_COMPAT@ != UNIVERSAL_COMPAT@) by {
                assert(XILINX_COMPAT@.len() != UNIVERSAL_COMPAT@.len());
            }
            assert(final(registry)@ =~= seq![
                (XILINX_COMPAT@, PlatformType::Xilinx),
                (UNIVERSAL_COMPAT@, PlatformType::Universal),
            ]);
        }
    }
}

/// The platform registered for `platform_string`.
pub fn platform_for_known_platform(registry: &PlatformRegistry, platform_string: &str) -> (r: Result<
    PlatformInstance,
    FpgadError,
>)
    ensures
        match resolve(registry@, platform_string@) {
            Some(p) => r matches Ok(q) && q.spec_platform_type() == p,
            None => r matches Err(FpgadError::Argument(m)) && contains(m@, platform_string@),
        },
{
    match match_platform_string(registry, platform_string) {
        Ok(kind) => Ok(new_platform(kind)),
        Err(e) => Err(e),
    }
}

/// The platform for a device whose signature was read as `compat`: the registered one,
/// or the vendor-neutral platform when none matches. A failed read fails.
pub fn discover_platform(registry: &PlatformRegistry, compat: Result<String, FpgadError>) -> (r: Result<
    PlatformInstance,
    FpgadError,
>)
    ensures
        match compat {
            Ok(s) => r matches Ok(q) && q.spec_platform_type() == match resolve(registry@, s@) {
                Some(p) => p,
                None => PlatformType::Universal,
            },
            Err(e) => r == Err::<PlatformInstance, FpgadError>(e),
        },
{
    match compat {
        Ok(s) => match match_platform_string(registry, s.as_str()) {
            Ok(kind) => Ok(new_platform(kind)),
            Err(_) => Ok(new_platform(PlatformType::Universal)),
        },
        Err(e) => Err(e),
    }
}

/// The request that reads the hardware signature of `device_handle`.
pub fn compatible_request(device_handle: &str) -> (r: SysfsRequest)
    ensures
        r matches SysfsRequest::Read { path } && path@ == device_node(
            device_handle@,
            "of_node/compatible"@,
        ),
{
    let mut p = concat3(FPGA_MANAGERS_DIR, device_handle, "/");
    p.append("of_node/compatible");
    SysfsRequest::Read { path: p }
}

/// The hardware signature of `device_handle`, from the reply to `compatible_request`:
/// the text without trailing NUL characters. A failed read is an `Argument` error.
pub fn read_compatible_string(device_handle: &str, reply: SysfsReply) -> (r: Result<
    String,
    FpgadError,
>)
    ensures
        match reply {
            SysfsReply::Contents(s) => r matches Ok(t) && t@ == trim_end_char(s@, '\0'),
            _ => r matches Err(FpgadError::Argument(m)) && contains(m@, device_handle@),
        },
{
    let path = concat3(FPGA_MANAGERS_DIR, device_handle, "/of_node/compatible");
    match read_outcome(path.as_str(), reply) {
        Ok(s) => Ok(trim_end_matches_char(s.as_str(), '\0')),
        Err(e) => {
            let d = e.to_string();
            let m = concat3("Failed to read platform from \"", device_handle, "\": ");
            let full = concat2(m.as_str(), d.as_str());
            proof {
                assert(full@ =~= "Failed to read platform from \""@ + device_handle@ + ("\": "@
                    + d@));
                lemma_contains_middle(
                    "Failed to read platform from \""@,
                    device_handle@,
                    "\": "@ + d@,
                );
            }
            Err(FpgadError::Argument(full))
        },
    }
}

/// The request that lists the device-class directory.
pub fn list_fpga_managers_request() -> (r: SysfsRequest)
    ensures
        r matches SysfsRequest::ListDir { path } && path@ == FPGA_MANAGERS_DIR@,
{
    SysfsRequest::ListDir { path: String::from_str(FPGA_MANAGERS_DIR) }
}

/// The handles of the present devices, from the reply to `list_fpga_managers_request`.
pub fn list_fpga_managers(reply: SysfsReply) -> (r: Result<Vec<String>, FpgadError>)
    ensures
        match reply {
            SysfsReply::Entries(v) => r == Ok::<Vec<String>, FpgadError>(v),
            SysfsReply::Failed(e) => r matches Err(FpgadError::IOReadDir { dir, e: m }) && dir@
                == FPGA_MANAGERS_DIR@ && m@ == e@,
            _ => r matches Err(FpgadError::Internal(_)),
        },
{
    list_outcome(FPGA_MANAGERS_DIR, reply)
}

#[derive(Debug, Clone, Copy, PartialEq, Eq, Structural)]
pub enum SelectionPhase {
    Start,
    ReadingSignature,
    Done,
}

/// Choosing the platform for a request: by the signature given, or, when it is empty,
/// by the signature read from the device, falling back to the vendor-neutral platform.
pub struct PlatformSelection {
    pub platform_string: String,
    pub device_handle: String,
    pub phase: SelectionPhase,
}

/// The selection of a platform for `device_handle`, by `platform_string` if it is not
/// empty.
pub fn platform_from_compat_or_device(platform_string: &str, device_handle: &str) -> (r:
    PlatformSelection)
    ensures
        r.platform_string@ == platform_string@,
        r.device_handle@ == device_handle@,
        r.phase == SelectionPhase::Start,
{
    PlatformSelection {
        platform_string: String::from_str(platform_string),
        device_handle: String::from_str(device_handle),
        phase: SelectionPhase::Start,
    }
}

impl PlatformSelection {
    /// The first step: the platform named by a non-empty signature, or else the read of
    /// the device's signature.
    pub fn start(&mut self, registry: &PlatformRegistry) -> (r: Step<PlatformInstance>)
        ensures
            final(self).platform_string == old(self).platform_string,
            final(self).device_handle == old(self).device_handle,
            old(self).phase != SelectionPhase::Start ==> final(self).phase == SelectionPhase::Done
                && (r matches Step::Finished(Err(FpgadError::Internal(_)))),
            old(self).phase == SelectionPhase::Start ==> if old(self).platform_string@.len()
                == 0 {
                final(self).phase == SelectionPhase::ReadingSignature && (r matches Step::Request(
                    SysfsRequest::Read { path },
                ) && path@ == device_node(old(self).device_handle@, "of_node/compatible"@))
            } else {
                final(self).phase == SelectionPhase::Done && match resolve(
                    registry@,
                    old(self).platform_string@,
                ) {
                    Some(p) => r matches Step::Finished(Ok(q)) && q.spec_platform_type() == p,
                    None => r matches Step::Finished(Err(FpgadError::Argument(_))),
                }
            },
    {
        if self.phase != SelectionPhase::Start {
            self.phase = SelectionPhase::Done;
            return Step::Finished(Err(crate::device::already_started()));
        }
        if self.platform_string.as_str().unicode_len() == 0 {
            self.phase = SelectionPhase::ReadingSignature;
            Step::Request(compatible_request(self.device_handle.as_str()))
        } else {
            self.phase = SelectionPhase::Done;
            Step::Finished(platform_for_known_platform(registry, self.platform_string.as_str()))
        }
    }

    /// The next step, given the reply to the read of the device's signature.
    pub fn resume(&mut self, registry: &PlatformRegistry, reply: SysfsReply) -> (r: Step<
        PlatformInstance,
    >)
        ensures
            final(self).phase == SelectionPhase::Done,
            old(self).phase == SelectionPhase::ReadingSignature ==> match reply {
                SysfsReply::Contents(s) => r matches Step::Finished(Ok(q)) && q.spec_platform_type()
                    == match resolve(registry@, trim_end_char(s@, '\0')) {
                    Some(p) => p,
                    None => PlatformType::Universal,
                },
                _ => r matches Step::Finished(Err(FpgadError::Argument(_))),
            },
            old(self).phase != SelectionPhase::ReadingSignature ==> (r matches Step::Finished(
                Err(FpgadError::Internal(_)),
            )),
    {
        if self.phase != SelectionPhase::ReadingSignature {
            self.phase = SelectionPhase::Done;
            return Step::Finished(Err(crate::device::already_finished()));
        }
        self.phase = SelectionPhase::Done;
        let compat = read_compatible_string(self.device_handle.as_str(), reply);
        Step::Finished(discover_platform(registry, compat))
    }
}

/// A registry holding the platforms this daemon knows.
pub fn default_registry() -> (r: PlatformRegistry)
    ensures
        r.wf(),
        r@ == seq![
            (XILINX_COMPAT@, PlatformType::Xilinx),
            (UNIVERSAL_COMPAT@, PlatformType::Universal),
        ],
{
    let mut r = init_platform_registry();
    register_platforms(&mut r);
    r
}

} // verus!
