//! The overlay lifecycle engine: one overlay directory in the control filesystem.
//!
//! An overlay is absent while its directory is missing, instantiated once the directory
//! exists, and applied once its `path` node ends with the written suffix and its
//! `status` node contains `applied`.

use vstd::prelude::*;

use crate::config::OVERLAY_CONTROL_DIR;
use crate::device::{already_finished, already_started};
use crate::error::FpgadError;
use crate::path::{ends_with_path, path_ends_with};
use crate::sysfs::{
    create_outcome, exists_outcome, read_outcome, remove_outcome, write_outcome, Step,
    SysfsReply, SysfsRequest,
};
use crate::text::{
    concat2, concat3, contains, debug_escape, debug_quoted, lemma_contains_middle, lemma_contains_prefix, str_contains,
    trim_end_char, trim_end_matches_char,
};

verus! {

/// The overlay directory of `overlay_handle`.
pub open spec fn overlay_dir(overlay_handle: Seq<char>) -> Seq<char> {
    OVERLAY_CONTROL_DIR@ + overlay_handle
}

/// The node `node` inside the overlay directory `dir`.
pub open spec fn overlay_node(dir: Seq<char>, node: Seq<char>) -> Seq<char> {
    dir + "/"@ + node
}

/// The status report of an instantiated overlay: the `path` contents as `{:?}` writes
/// a path (escaped, between double quotes), a space, then the `status` contents.
pub open spec fn status_report(path: Seq<char>, status: Seq<char>) -> Seq<char> {
    debug_quoted(path) + seq![' '] + status
}

/// The path of the overlay directory for `overlay_handle`.
pub fn construct_overlay_fs_path(overlay_handle: &str) -> (r: String)
    ensures
        r@ == overlay_dir(overlay_handle@),
{
    concat2(OVERLAY_CONTROL_DIR, overlay_handle)
}

/// The capabilities of an overlay handler.
pub trait OverlayHandler {
    spec fn spec_overlay_fs_path(&self) -> Seq<char>;

    /// The operation that applies an overlay, named relative to the firmware search path.
    fn apply_overlay(&self, source_path_rel: &str) -> (r: ApplyOverlay)
        ensures
            r.overlay_fs_path@ == self.spec_overlay_fs_path(),
            r.source_path_rel@ == source_path_rel@,
            r.phase == ApplyPhase::Start,
    ;

    /// The request that removes the overlay directory.
    fn remove_overlay_request(&self) -> (r: SysfsRequest)
        ensures
            r matches SysfsRequest::RemoveDir { path } && path@ == self.spec_overlay_fs_path(),
    ;

    /// The outcome of the removal, from the reply to `remove_overlay_request`.
    fn remove_overlay(&self, reply: SysfsReply) -> (r: Result<(), FpgadError>)
        ensures
            match reply {
                SysfsReply::Completed => r is Ok,
                SysfsReply::Failed(e) => r matches Err(FpgadError::IODelete { file, e: m })
                    && file@ == self.spec_overlay_fs_path() && m@ == e@,
                _ => r matches Err(FpgadError::Internal(_)),
            },
    ;

    /// The FPGA flags that the overlay needs.
    fn required_flags(&self) -> (r: Result<isize, FpgadError>);

    /// The operation that reports the overlay's status.
    fn status(&self) -> (r: OverlayStatus)
        ensures
            r.overlay_fs_path@ == self.spec_overlay_fs_path(),
            r.phase == StatusPhase::Start,
    ;

    /// The overlay directory.
    fn overlay_fs_path(&self) -> (r: &str)
        ensures
            r@ == self.spec_overlay_fs_path(),
    ;
}

/// Overlay handling through the generic device-tree overlay control filesystem.
#[derive(Debug, Clone)]
pub struct UniversalOverlayHandler {
    pub overlay_fs_path: String,
}

impl UniversalOverlayHandler {
    /// A handler for the overlay `overlay_handle`. Nothing is checked on the filesystem.
    pub fn new(overlay_handle: &str) -> (r: UniversalOverlayHandler)
        ensures
            r.overlay_fs_path@ == overlay_dir(overlay_handle@),
    {
        UniversalOverlayHandler { overlay_fs_path: construct_overlay_fs_path(overlay_handle) }
    }

    /// Path of the node `node` of this overlay.
    pub fn node_path(&self, node: &str) -> (r: String)
        ensures
            r@ == overlay_node(self.overlay_fs_path@, node@),
    {
        concat3(self.overlay_fs_path.as_str(), "/", node)
    }
}

impl OverlayHandler for UniversalOverlayHandler {
    open spec fn spec_overlay_fs_path(&self) -> Seq<char> {
        self.overlay_fs_path@
    }

    fn apply_overlay(&self, source_path_rel: &str) -> (r: ApplyOverlay) {
        ApplyOverlay {
            overlay_fs_path: self.overlay_fs_path.clone(),
            source_path_rel: String::from_str(source_path_rel),
            phase: ApplyPhase::Start,
        }
    }

    fn remove_overlay_request(&self) -> (r: SysfsRequest) {
        SysfsRequest::RemoveDir { path: self.overlay_fs_path.clone() }
    }

    fn remove_overlay(&self, reply: SysfsReply) -> (r: Result<(), FpgadError>) {
        remove_outcome(self.overlay_fs_path.as_str(), reply)
    }

    fn required_flags(&self) -> (r: Result<isize, FpgadError>)
        ensures
            r == Ok::<isize, FpgadError>(0),
    {
        Ok(0)
    }

    fn status(&self) -> (r: OverlayStatus) {
        OverlayStatus {
            overlay_fs_path: self.overlay_fs_path.clone(),
            path_contents: String::new(),
            phase: StatusPhase::Start,
        }
    }

    fn overlay_fs_path(&self) -> (r: &str) {
        self.overlay_fs_path.as_str()
    }
}

#[derive(Debug, Clone, Copy, PartialEq, Eq, Structural)]
pub enum ApplyPhase {
    Start,
    CheckingAbsent,
    Creating,
    CheckingPathNode,
    WritingPath,
    ReadingPath,
    ReadingStatus,
    Done,
}

/// Applying an overlay: the directory must be absent; it is created, its `path` node must
/// then exist; the relative source path is written there; the `path` node must then end
/// with it and the `status` node contain `applied`. Nothing is undone on failure.
pub struct ApplyOverlay {
    pub overlay_fs_path: String,
    pub source_path_rel: String,
    pub phase: ApplyPhase,
}

impl ApplyOverlay {
    pub open spec fn dir(&self) -> Seq<char> {
        self.overlay_fs_path@
    }

    /// The first step: whether the overlay directory exists. It changes nothing.
    pub fn start(&mut self) -> (r: Step<()>)
        ensures
            final(self).overlay_fs_path == old(self).overlay_fs_path,
            final(self).source_path_rel == old(self).source_path_rel,
            old(self).phase == ApplyPhase::Start ==> {
                &&& final(self).phase == ApplyPhase::CheckingAbsent
                &&& r matches Step::Request(req) && !req.is_mutating()
                &&& r matches Step::Request(SysfsRequest::Exists { path }) && path@ == old(
                    self,
                ).dir()
            },
            old(self).phase != ApplyPhase::Start ==> final(self).phase == ApplyPhase::Done
                && (r matches Step::Finished(Err(FpgadError::Internal(_)))),
    {
        if self.phase != ApplyPhase::Start {
            self.phase = ApplyPhase::Done;
            return Step::Finished(Err(already_started()));
        }
        self.phase = ApplyPhase::CheckingAbsent;
        Step::Request(SysfsRequest::Exists { path: self.overlay_fs_path.clone() })
    }

    /// One step of applying: what `resume` does from this state on `reply`, leaving
    /// `after` and asking for `r`.
    pub open spec fn steps_to(&self, reply: SysfsReply, after: ApplyOverlay, r: Step<()>) -> bool {
        &&& after.overlay_fs_path == self.overlay_fs_path
        &&& after.source_path_rel == self.source_path_rel
        &&& ({
                let dir = self.dir();
                let rel = self.source_path_rel@;
                match self.phase {
                    ApplyPhase::CheckingAbsent => match reply {
                        SysfsReply::Present(true) => after.phase == ApplyPhase::Done
                            && (r matches Step::Finished(Err(FpgadError::Argument(m))) && contains(
                            m@,
                            "Overlay with this handle already exists"@,
                        )),
                        SysfsReply::Present(false) | SysfsReply::Failed(_) => after.phase
                            == ApplyPhase::Creating
                            && (r matches Step::Request(SysfsRequest::CreateDir { path })
                            && path@ == dir),
                        _ => after.phase == ApplyPhase::Done
                            && (r matches Step::Finished(Err(FpgadError::Internal(_)))),
                    },
                    ApplyPhase::Creating => match reply {
                        SysfsReply::Completed => after.phase
                            == ApplyPhase::CheckingPathNode
                            && (r matches Step::Request(SysfsRequest::Exists { path }) && path@
                            == overlay_node(dir, "path"@)),
                        SysfsReply::Failed(e) => after.phase == ApplyPhase::Done
                            && (r matches Step::Finished(
                            Err(FpgadError::IOCreate { file, e: m }),
                        ) && file@ == dir && m@ == e@),
                        _ => after.phase == ApplyPhase::Done
                            && (r matches Step::Finished(Err(FpgadError::Internal(_)))),
                    },
                    ApplyPhase::CheckingPathNode => match reply {
                        SysfsReply::Present(true) => after.phase == ApplyPhase::WritingPath
                            && (r matches Step::Request(SysfsRequest::Write { path, data })
                            && path@ == overlay_node(dir, "path"@) && data@ == rel),
                        _ => after.phase == ApplyPhase::Done
                            && (r matches Step::Finished(Err(FpgadError::Internal(_)))),
                    },
                    ApplyPhase::WritingPath => match reply {
                        SysfsReply::Completed => after.phase == ApplyPhase::ReadingPath
                            && (r matches Step::Request(SysfsRequest::Read { path }) && path@
                            == overlay_node(dir, "path"@)),
                        SysfsReply::Failed(e) => after.phase == ApplyPhase::Done
                            && (r matches Step::Finished(
                            Err(FpgadError::IOWrite { data, file, e: m }),
                        ) && file@ == overlay_node(dir, "path"@) && data@ == rel && m@ == e@),
                        _ => after.phase == ApplyPhase::Done
                            && (r matches Step::Finished(Err(FpgadError::Internal(_)))),
                    },
                    ApplyPhase::ReadingPath => match reply {
                        SysfsReply::Contents(c) => if ends_with_path(
                            trim_end_char(c@, '\n'),
                            rel,
                        ) {
                            after.phase == ApplyPhase::ReadingStatus
                                && (r matches Step::Request(SysfsRequest::Read { path }) && path@
                                == overlay_node(dir, "status"@))
                        } else {
                            after.phase == ApplyPhase::Done
                                && (r matches Step::Finished(Err(FpgadError::OverlayStatus(m)))
                                && contains(m@, trim_end_char(c@, '\n')))
                        },
                        SysfsReply::Failed(e) => after.phase == ApplyPhase::Done
                            && (r matches Step::Finished(Err(FpgadError::IORead { file, e: m }))
                            && file@ == overlay_node(dir, "path"@) && m@ == e@),
                        _ => after.phase == ApplyPhase::Done
                            && (r matches Step::Finished(Err(FpgadError::Internal(_)))),
                    },
                    ApplyPhase::ReadingStatus => after.phase == ApplyPhase::Done
                        && match reply {
                        SysfsReply::Contents(c) => if contains(
                            trim_end_char(c@, '\n'),
                            "applied"@,
                        ) {
                            r matches Step::Finished(Ok(()))
                        } else {
                            r matches Step::Finished(Err(FpgadError::OverlayStatus(m))) && contains(
                                m@,
                                trim_end_char(c@, '\n'),
                            )
                        },
                        SysfsReply::Failed(e) => r matches Step::Finished(
                            Err(FpgadError::IORead { file, e: m }),
                        ) && file@ == overlay_node(dir, "status"@) && m@ == e@,
                        _ => r matches Step::Finished(Err(FpgadError::Internal(_))),
                    },
                    _ => after.phase == ApplyPhase::Done
                        && (r matches Step::Finished(Err(FpgadError::Internal(_)))),
                }
            })
    }

    /// The next step, given the reply to the last request.
    pub fn resume(&mut self, reply: SysfsReply) -> (r: Step<()>)
        ensures
            old(self).steps_to(reply, *final(self), r),
    {
        let dir = self.overlay_fs_path.as_str();
        match self.phase {
            ApplyPhase::CheckingAbsent => match exists_outcome(reply) {
                Ok(true) => {
                    self.phase = ApplyPhase::Done;
                    let rest = concat3(" at \"", dir, "\". Remove the overlay and try again.");
                    let m = concat2("Overlay with this handle already exists", rest.as_str());
                    proof {
                        lemma_contains_prefix("Overlay with this handle already exists"@, rest@);
                    }
                    Step::Finished(Err(FpgadError::Argument(m)))
                },
                Ok(false) => {
                    self.phase = ApplyPhase::Creating;
                    Step::Request(SysfsRequest::CreateDir { path: String::from_str(dir) })
                },
                Err(e) => {
                    self.phase = ApplyPhase::Done;
                    Step::Finished(Err(e))
                },
            },
            ApplyPhase::Creating => match create_outcome(dir, reply) {
                Ok(()) => {
                    self.phase = ApplyPhase::CheckingPathNode;
                    Step::Request(SysfsRequest::Exists { path: concat3(dir, "/", "path") })
                },
                Err(e) => {
                    self.phase = ApplyPhase::Done;
                    Step::Finished(Err(e))
                },
            },
            ApplyPhase::CheckingPathNode => match reply {
                SysfsReply::Present(true) => {
                    self.phase = ApplyPhase::WritingPath;
                    Step::Request(
                        SysfsRequest::Write {
                            path: concat3(dir, "/", "path"),
                            data: self.source_path_rel.clone(),
                        },
                    )
                },
                _ => {
                    self.phase = ApplyPhase::Done;
                    let m = concat3(
                        "Overlay at \"",
                        dir,
                        "\" did not initialise a new overlay: the `path` virtual file did not get created by the kernel. Is the parent dir mounted as a configfs directory?",
                    );
                    Step::Finished(Err(FpgadError::Internal(m)))
                },
            },
            ApplyPhase::WritingPath => {
                let path = concat3(dir, "/", "path");
                match write_outcome(path.as_str(), self.source_path_rel.as_str(), reply) {
                    Ok(()) => {
                        self.phase = ApplyPhase::ReadingPath;
                        Step::Request(SysfsRequest::Read { path })
                    },
                    Err(e) => {
                        self.phase = ApplyPhase::Done;
                        Step::Finished(Err(e))
                    },
                }
            },
            ApplyPhase::ReadingPath => {
                let path = concat3(dir, "/", "path");
                match read_outcome(path.as_str(), reply) {
                    Ok(c) => {
                        let p = trim_end_matches_char(c.as_str(), '\n');
                        if path_ends_with(p.as_str(), self.source_path_rel.as_str()) {
                            self.phase = ApplyPhase::ReadingStatus;
                            Step::Request(SysfsRequest::Read { path: concat3(dir, "/", "status") })
                        } else {
                            self.phase = ApplyPhase::Done;
                            let head = concat3(
                                "When trying to apply overlay \"",
                                self.source_path_rel.as_str(),
                                "\", the resulting vfs path contained \"",
                            );
                            let m = concat3(head.as_str(), p.as_str(), "\"");
                            proof {
                                lemma_contains_middle(head@, p@, "\""@);
                            }
                            Step::Finished(Err(FpgadError::OverlayStatus(m)))
                        }
                    },
                    Err(e) => {
                        self.phase = ApplyPhase::Done;
                        Step::Finished(Err(e))
                    },
                }
            },
            ApplyPhase::ReadingStatus => {
                self.phase = ApplyPhase::Done;
                let path = concat3(dir, "/", "status");
                match read_outcome(path.as_str(), reply) {
                    Ok(c) => {
                        let s = trim_end_matches_char(c.as_str(), '\n');
                        if str_contains(s.as_str(), "applied") {
                            Step::Finished(Ok(()))
                        } else {
                            let m = concat3(
                                "After writing to configfs, overlay status does not show 'applied'. Instead it is '",
                                s.as_str(),
                                "'",
                            );
                            proof {
                                lemma_contains_middle(
                                    "After writing to configfs, overlay status does not show 'applied'. Instead it is '"@,
                                    s@,
                                    "'"@,
                                );
                            }
                            Step::Finished(Err(FpgadError::OverlayStatus(m)))
                        }
                    },
                    Err(e) => Step::Finished(Err(e)),
                }
            },
            _ => {
                self.phase = ApplyPhase::Done;
                Step::Finished(Err(already_finished()))
            },
        }
    }
}

#[derive(Debug, Clone, Copy, PartialEq, Eq, Structural)]
pub enum StatusPhase {
    Start,
    CheckingPresence,
    ReadingPath,
    ReadingStatus,
    Done,
}

/// Reporting an overlay's status: `not present` when its directory is missing, else
/// the contents of its `path` and `status` nodes.
pub struct OverlayStatus {
    pub overlay_fs_path: String,
    pub path_contents: String,
    pub phase: StatusPhase,
}

impl OverlayStatus {
    /// The first step: whether the overlay directory exists.
    pub fn start(&mut self) -> (r: Step<String>)
        ensures
            final(self).overlay_fs_path == old(self).overlay_fs_path,
            old(self).phase == StatusPhase::Start ==> {
                &&& final(self).phase == StatusPhase::CheckingPresence
                &&& r matches Step::Request(SysfsRequest::Exists { path }) && path@ == old(
                    self,
                ).overlay_fs_path@
            },
            old(self).phase != StatusPhase::Start ==> final(self).phase == StatusPhase::Done
                && (r matches Step::Finished(Err(FpgadError::Internal(_)))),
    {
        if self.phase != StatusPhase::Start {
            self.phase = StatusPhase::Done;
            return Step::Finished(Err(already_started()));
        }
        self.phase = StatusPhase::CheckingPresence;
        Step::Request(SysfsRequest::Exists { path: self.overlay_fs_path.clone() })
    }

    /// The next step, given the reply to the last request.
    pub fn resume(&mut self, reply: SysfsReply) -> (r: Step<String>)
        ensures
            final(self).overlay_fs_path == old(self).overlay_fs_path,
            ({
                let dir = old(self).overlay_fs_path@;
                match old(self).phase {
                    StatusPhase::CheckingPresence => match reply {
                        SysfsReply::Present(true) => final(self).phase == StatusPhase::ReadingPath
                            && (r matches Step::Request(SysfsRequest::Read { path }) && path@
                            == overlay_node(dir, "path"@)),
                        SysfsReply::Present(false) | SysfsReply::Failed(_) => final(self).phase
                            == StatusPhase::Done && (r matches Step::Finished(Ok(s)) && s@
                            == "not present"@),
                        _ => final(self).phase == StatusPhase::Done
                            && (r matches Step::Finished(Err(FpgadError::Internal(_)))),
                    },
                    StatusPhase::ReadingPath => match reply {
                        SysfsReply::Contents(c) => final(self).phase == StatusPhase::ReadingStatus
                            && final(self).path_contents@ == trim_end_char(c@, '\n')
                            && (r matches Step::Request(SysfsRequest::Read { path }) && path@
                            == overlay_node(dir, "status"@)),
                        SysfsReply::Failed(e) => final(self).phase == StatusPhase::Done
                            && (r matches Step::Finished(Err(FpgadError::IORead { file, e: m }))
                            && file@ == overlay_node(dir, "path"@) && m@ == e@),
                        _ => final(self).phase == StatusPhase::Done
                            && (r matches Step::Finished(Err(FpgadError::Internal(_)))),
                    },
                    StatusPhase::ReadingStatus => final(self).phase == StatusPhase::Done
                        && match reply {
                        SysfsReply::Contents(c) => r matches Step::Finished(Ok(s)) && s@
                            == status_report(old(self).path_contents@, trim_end_char(c@, '\n')),
                        SysfsReply::Failed(e) => r matches Step::Finished(
                            Err(FpgadError::IORead { file, e: m }),
                        ) && file@ == overlay_node(dir, "status"@) && m@ == e@,
                        _ => r matches Step::Finished(Err(FpgadError::Internal(_))),
                    },
                    _ => final(self).phase == StatusPhase::Done
                        && (r matches Step::Finished(Err(FpgadError::Internal(_)))),
                }
            }),
    {
        match self.phase {
            StatusPhase::CheckingPresence => match exists_outcome(reply) {
                Ok(true) => {
                    self.phase = StatusPhase::ReadingPath;
                    Step::Request(
                        SysfsRequest::Read {
                            path: concat3(self.overlay_fs_path.as_str(), "/", "path"),
                        },
                    )
                },
                Ok(false) => {
                    self.phase = StatusPhase::Done;
                    Step::Finished(Ok(String::from_str("not present")))
                },
                Err(e) => {
                    self.phase = StatusPhase::Done;
                    Step::Finished(Err(e))
                },
            },
            StatusPhase::ReadingPath => {
                let path = concat3(self.overlay_fs_path.as_str(), "/", "path");
                match read_outcome(path.as_str(), reply) {
                    Ok(c) => {
                        self.path_contents = trim_end_matches_char(c.as_str(), '\n');
                        self.phase = StatusPhase::ReadingStatus;
                        Step::Request(
                            SysfsRequest::Read {
                                path: concat3(self.overlay_fs_path.as_str(), "/", "status"),
                            },
                        )
                    },
                    Err(e) => {
                        self.phase = StatusPhase::Done;
                        Step::Finished(Err(e))
                    },
                }
            },
            StatusPhase::ReadingStatus => {
                self.phase = StatusPhase::Done;
                let path = concat3(self.overlay_fs_path.as_str(), "/", "status");
                match read_outcome(path.as_str(), reply) {
                    Ok(c) => {
                        let s = trim_end_matches_char(c.as_str(), '\n');
                        let escaped = debug_escape(self.path_contents.as_str());
                        let mut out = concat3("\"", escaped.as_str(), "\" ");
                        out.append(s.as_str());
                        proof {
                            reveal_strlit("\"");
                            reveal_strlit("\" ");
                            assert(out@ =~= status_report(self.path_contents@, s@));
                        }
                        Step::Finished(Ok(out))
                    },
                    Err(e) => Step::Finished(Err(e)),
                }
            },
            _ => {
                self.phase = StatusPhase::Done;
                Step::Finished(Err(already_finished()))
            },
        }
    }
}

} // verus!
