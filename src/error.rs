//! The error taxonomy, its messages, and the codes errors take at the call boundary.

use vstd::prelude::*;

use crate::text::{concat2, concat3};

verus! {

/// Errors of the daemon. The I/O variants carry the path that failed and the text of
/// the operating system's error.
#[derive(Debug, Clone, PartialEq, Eq)]
pub enum FpgadError {
    Flag(String),
    OverlayStatus(String),
    FPGAState(String),
    Argument(String),
    IORead { file: String, e: String },
    IOWrite { data: String, file: String, e: String },
    IOCreate { file: String, e: String },
    IODelete { file: String, e: String },
    IOReadDir { dir: String, e: String },
    Softener(String),
    Internal(String),
}

/// How an error is reported across the call boundary.
#[derive(Debug, Clone, Copy, PartialEq, Eq, Structural)]
pub enum BoundaryCode {
    InvalidArgs,
    IOError,
    Failed,
}

pub open spec fn quoted(s: Seq<char>) -> Seq<char> {
    seq!['"'] + s + seq!['"']
}

/// `s` between double quotes.
fn quote(s: &str) -> (r: String)
    ensures
        r@ == quoted(s@),
{
    let r = concat3("\"", s, "\"");
    proof {
        reveal_strlit("\"");
        assert("\""@ =~= seq!['"']);
    }
    r
}

/// `head`, the quoted path, `": "`, then the operating system's error text.
fn io_detail(head: &str, path: &str, e: &str) -> (r: String)
    ensures
        r@ == head@ + quoted(path@) + ": "@ + e@,
{
    let q = quote(path);
    let mut s = concat3(head, q.as_str(), ": ");
    s.append(e);
    s
}

impl FpgadError {
    pub open spec fn spec_boundary_code(&self) -> BoundaryCode {
        match self {
            FpgadError::Argument(_) => BoundaryCode::InvalidArgs,
            FpgadError::IORead { .. } => BoundaryCode::IOError,
            FpgadError::IOWrite { .. } => BoundaryCode::IOError,
            FpgadError::IOCreate { .. } => BoundaryCode::IOError,
            FpgadError::IODelete { .. } => BoundaryCode::IOError,
            FpgadError::IOReadDir { .. } => BoundaryCode::IOError,
            _ => BoundaryCode::Failed,
        }
    }

    pub open spec fn spec_variant_name(&self) -> Seq<char> {
        match self {
            FpgadError::Flag(_) => "FpgadError::Flag"@,
            FpgadError::OverlayStatus(_) => "FpgadError::OverlayStatus"@,
            FpgadError::FPGAState(_) => "FpgadError::FPGAState"@,
            FpgadError::Argument(_) => "FpgadError::Argument"@,
            FpgadError::IORead { .. } => "FpgadError::IORead"@,
            FpgadError::IOWrite { .. } => "FpgadError::IOWrite"@,
            FpgadError::IOCreate { .. } => "FpgadError::IOCreate"@,
            FpgadError::IODelete { .. } => "FpgadError::IODelete"@,
            FpgadError::IOReadDir { .. } => "FpgadError::IOReadDir"@,
            FpgadError::Softener(_) => "FpgadError::Softener"@,
            FpgadError::Internal(_) => "FpgadError::Internal"@,
        }
    }

    pub open spec fn spec_detail(&self) -> Seq<char> {
        match self {
            FpgadError::Flag(m) => "Failed to read flags: "@ + m@,
            FpgadError::OverlayStatus(m) => "Overlay was not applied: "@ + m@,
            FpgadError::FPGAState(m) => "FPGA state is not as expected: "@ + m@,
            FpgadError::Argument(m) => m@,
            FpgadError::IORead { file, e } => "An IO error occurred when reading from "@
                + quoted(file@) + ": "@ + e@,
            FpgadError::IOWrite { data, file, e } => "An IO error occurred when writing "@
                + quoted(data@) + " to "@ + quoted(file@) + ": "@ + e@,
            FpgadError::IOCreate { file, e } => "An IO error occurred when creating "@ + quoted(
                file@,
            ) + ": "@ + e@,
            FpgadError::IODelete { file, e } => "An IO error occurred when deleting "@ + quoted(
                file@,
            ) + ": "@ + e@,
            FpgadError::IOReadDir { dir, e } => "An IO error occurred when reading directory "@
                + quoted(dir@) + ": "@ + e@,
            FpgadError::Softener(m) => "An error occurred using softener: "@ + m@,
            FpgadError::Internal(m) => "An Internal error occurred: "@ + m@,
        }
    }

    /// The boundary code: invalid arguments, an I/O error, or a generic failure.
    pub fn boundary_code(&self) -> (r: BoundaryCode)
        ensures
            r == self.spec_boundary_code(),
    {
        match self {
            FpgadError::Argument(_) => BoundaryCode::InvalidArgs,
            FpgadError::IORead { .. } => BoundaryCode::IOError,
            FpgadError::IOWrite { .. } => BoundaryCode::IOError,
            FpgadError::IOCreate { .. } => BoundaryCode::IOError,
            FpgadError::IODelete { .. } => BoundaryCode::IOError,
            FpgadError::IOReadDir { .. } => BoundaryCode::IOError,
            _ => BoundaryCode::Failed,
        }
    }

    /// The name of the variant, such as `FpgadError::Argument`.
    pub fn variant_name(&self) -> (r: &'static str)
        ensures
            r@ == self.spec_variant_name(),
    {
        match self {
            FpgadError::Flag(_) => "FpgadError::Flag",
            FpgadError::OverlayStatus(_) => "FpgadError::OverlayStatus",
            FpgadError::FPGAState(_) => "FpgadError::FPGAState",
            FpgadError::Argument(_) => "FpgadError::Argument",
            FpgadError::IORead { .. } => "FpgadError::IORead",
            FpgadError::IOWrite { .. } => "FpgadError::IOWrite",
            FpgadError::IOCreate { .. } => "FpgadError::IOCreate",
            FpgadError::IODelete { .. } => "FpgadError::IODelete",
            FpgadError::IOReadDir { .. } => "FpgadError::IOReadDir",
            FpgadError::Softener(_) => "FpgadError::Softener",
            FpgadError::Internal(_) => "FpgadError::Internal",
        }
    }

    /// The description that follows the variant name in a message.
    pub fn detail(&self) -> (r: String)
        ensures
            r@ == self.spec_detail(),
    {
        match self {
            FpgadError::Flag(m) => concat2("Failed to read flags: ", m.as_str()),
            FpgadError::OverlayStatus(m) => concat2("Overlay was not applied: ", m.as_str()),
            FpgadError::FPGAState(m) => concat2("FPGA state is not as expected: ", m.as_str()),
            FpgadError::Argument(m) => m.clone(),
            FpgadError::IORead { file, e } => io_detail(
                "An IO error occurred when reading from ",
                file.as_str(),
                e.as_str(),
            ),
            FpgadError::IOWrite { data, file, e } => {
                let head = concat3("An IO error occurred when writing ", quote(data.as_str()).as_str(), " to ");
                io_detail(head.as_str(), file.as_str(), e.as_str())
            },
            FpgadError::IOCreate { file, e } => io_detail(
                "An IO error occurred when creating ",
                file.as_str(),
                e.as_str(),
            ),
            FpgadError::IODelete { file, e } => io_detail(
                "An IO error occurred when deleting ",
                file.as_str(),
                e.as_str(),
            ),
            FpgadError::IOReadDir { dir, e } => io_detail(
                "An IO error occurred when reading directory ",
                dir.as_str(),
                e.as_str(),
            ),
            FpgadError::Softener(m) => concat2("An error occurred using softener: ", m.as_str()),
            FpgadError::Internal(m) => concat2("An Internal error occurred: ", m.as_str()),
        }
    }

    /// The message reported across the boundary: the variant name, `": "`, the detail.
    pub fn to_string(&self) -> (r: String)
        ensures
            r@ == self.spec_variant_name() + ": "@ + self.spec_detail(),
    {
        let d = self.detail();
        concat3(self.variant_name(), ": ", d.as_str())
    }
}

} // verus!
