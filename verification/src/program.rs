//! Program objects and their link life cycle.
//!
//! A program object is a driver-owned resource named by a non-zero id, built
//! by attaching already-compiled shaders and linking them; the driver's
//! link-status flag alone decides the outcome. [`ProgramBuild`] composes the
//! whole "create, attach every shader, link, check, and on failure fetch the
//! log and delete the program" sequence as a state machine, the same way
//! [`crate::shader::ShaderBuild`] does for one shader. On failure only the
//! program is deleted: the input shaders remain usable and are never touched.

use vstd::prelude::*;

use crate::shader::ShaderID;
use crate::string_utils::min_alloc_lossy_into_string;
use crate::string_utils::utf8_lossy_of;

verus! {

/// A driver program object's id; never the reserved zero.
#[derive(Debug, Clone, Copy)]
pub struct ProgramID {
    id: u32,
}

impl ProgramID {
    /// The id's numeric value.
    pub closed spec fn spec_id(self) -> u32 {
        self.id
    }

    #[verifier::type_invariant]
    spec fn inv(self) -> bool {
        self.id != 0
    }

    /// Wraps what the driver's create call returned: zero means the driver
    /// made no object.
    pub fn new(raw: u32) -> (r: Option<ProgramID>)
        ensures
            raw == 0 ==> r is None,
            raw != 0 ==> (r matches Some(p) && p.spec_id() == raw),
    {
        if raw == 0 {
            None
        } else {
            Some(ProgramID { id: raw })
        }
    }

    /// The id's numeric value, known non-zero.
    pub fn get(self) -> (r: u32)
        ensures
            r == self.spec_id(),
            r != 0,
    {
        proof {
            use_type_invariant(self);
        }
        self.id
    }
}

/// Where the composed build stands.
#[derive(Debug, Clone, Copy, PartialEq, Eq, Structural)]
pub enum ProgramBuildPhase {
    /// Ask the driver for a fresh program object.
    Create,
    /// Attach the next shader, or link once all are attached.
    AttachAndLink,
    /// Read the link-status flag.
    QueryStatus,
    /// Read how long the diagnostic log is.
    QueryLogLength,
    /// Fetch the diagnostic log while the program still exists.
    FetchLog,
    /// Delete the now-useless program (never the input shaders).
    Delete,
    /// Finished, successfully or not.
    Done,
}

/// The one driver call the driver of the machine must make next.
#[derive(Debug, Clone, Copy, PartialEq, Eq, Structural)]
pub enum ProgramBuildAction {
    /// Create a program object.
    CreateProgram,
    /// Attach this shader to the program.
    AttachShader { program: u32, shader: u32 },
    /// Link the attached shaders; their order never matters to linking.
    LinkProgram { program: u32 },
    /// Read the link-status flag.
    QueryLinkStatus { program: u32 },
    /// Read the diagnostic log's length (terminator included).
    QueryInfoLogLength { program: u32 },
    /// Fetch the log into a buffer of exactly the reported length.
    FetchInfoLog { program: u32, buffer_len: i32 },
    /// Delete the program.
    DeleteProgram { program: u32 },
    /// Nothing left to do.
    Finish,
}

/// A driver call's outcome, handed back to the machine.
#[derive(Debug)]
pub enum ProgramBuildEvent {
    /// The fresh program's id; zero when the driver made none.
    ProgramCreated(u32),
    /// One shader was attached.
    ShaderAttached,
    /// The link call returned.
    LinkRan,
    /// The link-status flag.
    LinkStatus(bool),
    /// The log length the driver reports, terminator included; zero or less
    /// means there is no log text.
    InfoLogLength(i32),
    /// The log's printable bytes (terminator excluded).
    InfoLogFetched(Vec<u8>),
    /// The program was deleted.
    ProgramDeleted,
}

/// The composed link build: creation, attaching every given shader, linking
/// and the status check, and on failure the log fetch and the delete of the
/// failed program, so failed intermediate programs never leak. The input
/// shaders are never deleted: a failed link leaves them reusable.
pub struct ProgramBuild {
    /// Where the build stands.
    phase: ProgramBuildPhase,
    /// The already-compiled shaders to link.
    shaders: Vec<ShaderID>,
    /// How many of them are attached so far.
    attached: usize,
    /// The program, once the driver made one.
    program: Option<ProgramID>,
    /// The log length the driver reported.
    log_length: i32,
    /// The decoded diagnostic log of a failed link.
    log: Option<String>,
    /// Whether the link succeeded.
    link_ok: bool,
    /// The driver made no program at all.
    create_failed: bool,
}

impl ProgramBuild {
    /// Where the build stands.
    pub closed spec fn spec_phase(self) -> ProgramBuildPhase {
        self.phase
    }

    /// The already-compiled shaders to link.
    pub closed spec fn spec_shaders(self) -> Seq<ShaderID> {
        self.shaders@
    }

    /// How many of them are attached so far.
    pub closed spec fn spec_attached(self) -> int {
        self.attached as int
    }

    /// The program, once the driver made one.
    pub closed spec fn spec_program(self) -> Option<ProgramID> {
        self.program
    }

    /// The decoded diagnostic log of a failed link.
    pub closed spec fn spec_log(self) -> Option<String> {
        self.log
    }

    /// The log length the driver reported.
    pub closed spec fn spec_log_length(self) -> i32 {
        self.log_length
    }

    /// Whether the link succeeded.
    pub closed spec fn spec_link_ok(self) -> bool {
        self.link_ok
    }

    /// Whether the driver made no program at all.
    pub closed spec fn spec_create_failed(self) -> bool {
        self.create_failed
    }

    /// The machine's invariant.
    pub closed spec fn wf(self) -> bool {
        &&& (self.phase is Create ==> self.program is None && !self.create_failed)
        &&& (self.create_failed ==> self.phase is Done && self.program is None)
        &&& (!(self.phase is Create) && !self.create_failed ==> self.program is Some)
        &&& (self.phase is AttachAndLink ==> self.attached <= self.shaders@.len())
        &&& (self.phase is FetchLog ==> self.log_length > 0)
        &&& (self.phase is QueryLogLength || self.phase is FetchLog || self.phase is Delete
            ==> !self.link_ok)
        &&& (self.phase is Delete ==> self.log is Some)
        &&& (self.phase is Done && !self.create_failed && !self.link_ok ==> self.log is Some)
    }

    /// Starts linking the given already-compiled shaders into one program.
    pub fn new(shaders: Vec<ShaderID>) -> (r: ProgramBuild)
        ensures
            r.wf(),
            r.spec_phase() is Create,
            r.spec_shaders() == shaders@,
    {
        ProgramBuild {
            phase: ProgramBuildPhase::Create,
            shaders,
            attached: 0,
            program: None,
            log_length: 0,
            log: None,
            link_ok: false,
            create_failed: false,
        }
    }

    /// Which outcomes fit which phase.
    pub open spec fn event_fits(self, event: ProgramBuildEvent) -> bool {
        match event {
            ProgramBuildEvent::ProgramCreated(_) => self.spec_phase() is Create,
            ProgramBuildEvent::ShaderAttached => self.spec_phase() is AttachAndLink
                && self.spec_attached() < self.spec_shaders().len(),
            ProgramBuildEvent::LinkRan => self.spec_phase() is AttachAndLink && self.spec_attached()
                == self.spec_shaders().len(),
            ProgramBuildEvent::LinkStatus(_) => self.spec_phase() is QueryStatus,
            ProgramBuildEvent::InfoLogLength(_) => self.spec_phase() is QueryLogLength,
            ProgramBuildEvent::InfoLogFetched(_) => self.spec_phase() is FetchLog,
            ProgramBuildEvent::ProgramDeleted => self.spec_phase() is Delete,
        }
    }

    /// The one driver call to make in this state: every given shader is
    /// attached, first to last, and the link is issued exactly when all of
    /// them are attached.
    pub fn current_action(&self) -> (r: ProgramBuildAction)
        requires
            self.wf(),
        ensures
            self.spec_phase() is Create ==> r == ProgramBuildAction::CreateProgram,
            self.spec_phase() is AttachAndLink && self.spec_attached() < self.spec_shaders().len()
                ==> r == (ProgramBuildAction::AttachShader {
                program: self.spec_program()->Some_0.spec_id(),
                shader: self.spec_shaders()[self.spec_attached()].spec_id(),
            }),
            self.spec_phase() is AttachAndLink && self.spec_attached() == self.spec_shaders().len()
                ==> r == (ProgramBuildAction::LinkProgram {
                program: self.spec_program()->Some_0.spec_id(),
            }),
            self.spec_phase() is QueryStatus ==> r == (ProgramBuildAction::QueryLinkStatus {
                program: self.spec_program()->Some_0.spec_id(),
            }),
            self.spec_phase() is QueryLogLength ==> r == (ProgramBuildAction::QueryInfoLogLength {
                program: self.spec_program()->Some_0.spec_id(),
            }),
            self.spec_phase() is FetchLog ==> r == (ProgramBuildAction::FetchInfoLog {
                program: self.spec_program()->Some_0.spec_id(),
                buffer_len: self.spec_log_length(),
            }),
            self.spec_phase() is Delete ==> r == (ProgramBuildAction::DeleteProgram {
                program: self.spec_program()->Some_0.spec_id(),
            }),
            self.spec_phase() is Done ==> r == ProgramBuildAction::Finish,
    {
        match self.phase {
            ProgramBuildPhase::Create => ProgramBuildAction::CreateProgram,
            ProgramBuildPhase::AttachAndLink => {
                if self.attached < self.shaders.len() {
                    ProgramBuildAction::AttachShader {
                        program: self.program.as_ref().unwrap().get(),
                        shader: self.shaders[self.attached].get(),
                    }
                } else {
                    ProgramBuildAction::LinkProgram { program: self.program.as_ref().unwrap().get() }
                }
            },
            ProgramBuildPhase::QueryStatus => ProgramBuildAction::QueryLinkStatus {
                program: self.program.as_ref().unwrap().get(),
            },
            ProgramBuildPhase::QueryLogLength => ProgramBuildAction::QueryInfoLogLength {
                program: self.program.as_ref().unwrap().get(),
            },
            ProgramBuildPhase::FetchLog => ProgramBuildAction::FetchInfoLog {
                program: self.program.as_ref().unwrap().get(),
                buffer_len: self.log_length,
            },
            ProgramBuildPhase::Delete => ProgramBuildAction::DeleteProgram {
                program: self.program.as_ref().unwrap().get(),
            },
            ProgramBuildPhase::Done => ProgramBuildAction::Finish,
        }
    }

    /// Whether the build is over.
    pub fn is_done(&self) -> (r: bool)
        ensures
            r == (self.spec_phase() is Done),
    {
        match self.phase {
            ProgramBuildPhase::Done => true,
            _ => false,
        }
    }

    /// Takes the current driver call's outcome and moves the build on.
    pub fn step(&mut self, event: ProgramBuildEvent)
        requires
            old(self).wf(),
            old(self).event_fits(event),
        ensures
            final(self).wf(),
            final(self).spec_shaders() == old(self).spec_shaders(),
            event matches ProgramBuildEvent::ProgramCreated(raw) ==> if raw == 0 {
                final(self).spec_phase() is Done && final(self).spec_create_failed()
            } else {
                final(self).spec_phase() is AttachAndLink && final(self).spec_attached() == 0 && (
                final(self).spec_program() matches Some(p) && p.spec_id() == raw)
            },
            event matches ProgramBuildEvent::ShaderAttached ==> final(self).spec_phase()
                is AttachAndLink && final(self).spec_attached() == old(self).spec_attached() + 1
                && final(self).spec_program() == old(self).spec_program(),
            event matches ProgramBuildEvent::LinkRan ==> final(self).spec_phase() is QueryStatus
                && final(self).spec_program() == old(self).spec_program(),
            event matches ProgramBuildEvent::LinkStatus(ok) ==> if ok {
                final(self).spec_phase() is Done && final(self).spec_link_ok() && final(self).spec_program() == old(self).spec_program()
            } else {
                final(self).spec_phase() is QueryLogLength && !final(self).spec_link_ok()
            },
            event matches ProgramBuildEvent::InfoLogLength(n) ==> if n <= 0 {
                final(self).spec_phase() is Delete && (final(self).spec_log() matches Some(l)
                    && l@ == Seq::<char>::empty())
            } else {
                final(self).spec_phase() is FetchLog && final(self).spec_log_length() == n
            },
            event matches ProgramBuildEvent::InfoLogFetched(bytes) ==> final(self).spec_phase()
                is Delete && (final(self).spec_log() matches Some(l) && l@ == utf8_lossy_of(
                bytes@,
            )),
            event matches ProgramBuildEvent::ProgramDeleted ==> final(self).spec_phase() is Done
                && final(self).spec_log() == old(self).spec_log() && !final(self).spec_link_ok(),
    {
        match event {
            ProgramBuildEvent::ProgramCreated(raw) => match ProgramID::new(raw) {
                None => {
                    self.create_failed = true;
                    self.phase = ProgramBuildPhase::Done;
                },
                Some(id) => {
                    self.program = Some(id);
                    self.attached = 0;
                    self.phase = ProgramBuildPhase::AttachAndLink;
                },
            },
            ProgramBuildEvent::ShaderAttached => {
                if self.attached < self.shaders.len() {
                    self.attached = self.attached + 1;
                }
            },
            ProgramBuildEvent::LinkRan => {
                self.phase = ProgramBuildPhase::QueryStatus;
            },
            ProgramBuildEvent::LinkStatus(ok) => {
                if ok {
                    self.link_ok = true;
                    self.phase = ProgramBuildPhase::Done;
                } else {
                    self.link_ok = false;
                    self.phase = ProgramBuildPhase::QueryLogLength;
                }
            },
            ProgramBuildEvent::InfoLogLength(n) => {
                if n <= 0 {
                    self.log = Some(String::new());
                    self.phase = ProgramBuildPhase::Delete;
                } else {
                    self.log_length = n;
                    self.phase = ProgramBuildPhase::FetchLog;
                }
            },
            ProgramBuildEvent::InfoLogFetched(bytes) => {
                self.log = Some(min_alloc_lossy_into_string(bytes));
                self.phase = ProgramBuildPhase::Delete;
            },
            ProgramBuildEvent::ProgramDeleted => {
                self.phase = ProgramBuildPhase::Done;
            },
        }
    }

    /// What the whole build produced, once it is over: a linked program, or
    /// the diagnostic log of the failed link (after the failed program was
    /// deleted). A driver that made no program at all yields a fixed message
    /// instead of a log.
    pub fn result(self) -> (r: Result<ProgramID, String>)
        requires
            self.wf(),
            self.spec_phase() is Done,
        ensures
            self.spec_create_failed() ==> (r matches Err(m) && m@ == "Couldn't create a program."@),
            !self.spec_create_failed() && self.spec_link_ok() ==> (r matches Ok(p) && Some(p)
                == self.spec_program()),
            !self.spec_create_failed() && !self.spec_link_ok() ==> (r matches Err(m) && Some(m)
                == self.spec_log()),
    {
        if self.create_failed {
            return Err(String::from_str("Couldn't create a program."));
        }
        if self.link_ok {
            Ok(self.program.unwrap())
        } else {
            Err(self.log.unwrap())
        }
    }
}

} // verus!
