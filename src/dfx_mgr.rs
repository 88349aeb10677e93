//! Commands for the Xilinx DFX manager client. Each function gives the arguments of one
//! `dfx-mgr-client` invocation; running the client, and handing its outcome to
//! `dfx_mgr_outcome`, is left to the caller.

use vstd::prelude::*;

use crate::error::FpgadError;
use crate::text::{concat3, decimal, u64_to_decimal, views};

verus! {

fn arg(s: &str) -> (r: String)
    ensures
        r@ == s@,
{
    String::from_str(s)
}

fn args1(a: &str) -> (r: Vec<String>)
    ensures
        views(r@) == seq![a@],
{
    let mut v: Vec<String> = Vec::new();
    v.push(arg(a));
    assert(views(v@) =~= seq![a@]);
    v
}

fn args2(a: &str, b: &str) -> (r: Vec<String>)
    ensures
        views(r@) == seq![a@, b@],
{
    let mut v: Vec<String> = Vec::new();
    v.push(arg(a));
    v.push(arg(b));
    assert(views(v@) =~= seq![a@, b@]);
    v
}

/// `-listPackage`: the packages the manager knows.
pub fn list_package() -> (r: Vec<String>)
    ensures
        views(r@) == seq!["-listPackage"@],
{
    args1("-listPackage")
}

/// `-load <accel_name>`.
pub fn load(accel_name: &str) -> (r: Vec<String>)
    ensures
        views(r@) == seq!["-load"@, accel_name@],
{
    args2("-load", accel_name)
}

/// `-remove <slot>`.
pub fn remove(slot: u32) -> (r: Vec<String>)
    ensures
        views(r@) == seq!["-remove"@, decimal(slot as nat)],
{
    let s = u64_to_decimal(slot as u64);
    args2("-remove", s.as_str())
}

/// `-listUIO`, then the device name and the slot where given.
pub fn list_uio(slot: Option<u32>, uio_name: Option<&str>) -> (r: Vec<String>)
    ensures
        views(r@) == seq!["-listUIO"@] + match uio_name {
            Some(n) => seq![n@],
            None => Seq::empty(),
        } + match slot {
            Some(s) => seq![decimal(s as nat)],
            None => Seq::empty(),
        },
{
    let mut v = args1("-listUIO");
    match uio_name {
        Some(n) => {
            v.push(arg(n));
        },
        None => {},
    }
    match slot {
        Some(s) => {
            v.push(u64_to_decimal(s as u64));
        },
        None => {},
    }
    assert(views(v@) =~= seq!["-listUIO"@] + match uio_name {
        Some(n) => seq![n@],
        None => Seq::empty(),
    } + match slot {
        Some(s) => seq![decimal(s as nat)],
        None => Seq::empty(),
    });
    v
}

/// `-listIRbuf`, then the slot where given.
pub fn list_irbuf(slot: Option<u32>) -> (r: Vec<String>)
    ensures
        views(r@) == seq!["-listIRbuf"@] + match slot {
            Some(s) => seq![decimal(s as nat)],
            None => Seq::empty(),
        },
{
    let mut v = args1("-listIRbuf");
    match slot {
        Some(s) => {
            v.push(u64_to_decimal(s as u64));
        },
        None => {},
    }
    assert(views(v@) =~= seq!["-listIRbuf"@] + match slot {
        Some(s) => seq![decimal(s as nat)],
        None => Seq::empty(),
    });
    v
}

/// `-setIRbuf <a>,<b>`.
pub fn set_irbuf(a: u32, b: u32) -> (r: Vec<String>)
    ensures
        views(r@) == seq!["-setIRbuf"@, decimal(a as nat) + ","@ + decimal(b as nat)],
{
    let sa = u64_to_decimal(a as u64);
    let sb = u64_to_decimal(b as u64);
    let pair = concat3(sa.as_str(), ",", sb.as_str());
    args2("-setIRbuf", pair.as_str())
}

/// `-allocBuffer <size>`.
pub fn alloc_buffer(size: u64) -> (r: Vec<String>)
    ensures
        views(r@) == seq!["-allocBuffer"@, decimal(size as nat)],
{
    let s = u64_to_decimal(size);
    args2("-allocBuffer", s.as_str())
}

/// `-freeBuffer <pa>`.
pub fn free_buffer(pa: u64) -> (r: Vec<String>)
    ensures
        views(r@) == seq!["-freeBuffer"@, decimal(pa as nat)],
{
    let s = u64_to_decimal(pa);
    args2("-freeBuffer", s.as_str())
}

/// `-getFDs <slot>`.
pub fn get_fds(slot: u32) -> (r: Vec<String>)
    ensures
        views(r@) == seq!["-getFDs"@, decimal(slot as nat)],
{
    let s = u64_to_decimal(slot as u64);
    args2("-getFDs", s.as_str())
}

/// `-getRMInfo`.
pub fn get_rm_info() -> (r: Vec<String>)
    ensures
        views(r@) == seq!["-getRMInfo"@],
{
    args1("-getRMInfo")
}

/// `-getShellFD`.
pub fn get_shell_fd() -> (r: Vec<String>)
    ensures
        views(r@) == seq!["-getShellFD"@],
{
    args1("-getShellFD")
}

/// `-getClockFD`.
pub fn get_clock_fd() -> (r: Vec<String>)
    ensures
        views(r@) == seq!["-getClockFD"@],
{
    args1("-getClockFD")
}

/// The result of one client run: its standard output when it succeeded, else a
/// `Softener` error carrying its standard error.
pub fn dfx_mgr_outcome(success: bool, stdout: String, stderr: String) -> (r: Result<
    String,
    FpgadError,
>)
    ensures
        success ==> r == Ok::<String, FpgadError>(stdout),
        !success ==> (r matches Err(FpgadError::Softener(m)) && m == stderr),
{
    if success {
        Ok(stdout)
    } else {
        Err(FpgadError::Softener(stderr))
    }
}

} // verus!
