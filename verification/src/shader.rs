//! Shader objects and their compile life cycle.
//!
//! A shader object is a driver-owned resource named by a non-zero id; the
//! driver reserves id zero for "no object". Each object moves through the
//! states created → source assigned → compile attempted → usable or failed,
//! and the layer additionally tracks whether its deletion has been requested,
//! so a deleted object is never described again.
//!
//! [`ShaderBuild`] composes the whole "create, assign source, compile, check,
//! and on failure fetch the log and delete" sequence as a state machine:
//! [`ShaderBuild::current_action`] names the next driver call, and
//! [`ShaderBuild::step`] takes the call's outcome. The driver of the machine
//! makes the calls; the sequencing — in particular that a failed compile
//! fetches the diagnostic log while the object still exists, and deletes the
//! object before the result is handed out — is verified here.

use vstd::prelude::*;

use crate::string_utils::min_alloc_lossy_into_string;
use crate::string_utils::utf8_lossy_of;

verus! {

/// The six shader kinds a program can be built from.
#[derive(Debug, Clone, Copy, PartialEq, Eq, Structural)]
pub enum ShaderEnum {
    Compute,
    Vertex,
    TessControl,
    TessEval,
    Geometry,
    Fragment,
}

impl ShaderEnum {
    /// The native enumeration value of this shader kind.
    pub open spec fn spec_enum(self) -> u32 {
        match self {
            ShaderEnum::Compute => 0x91B9u32,
            ShaderEnum::Vertex => 0x8B31u32,
            ShaderEnum::TessControl => 0x8E88u32,
            ShaderEnum::TessEval => 0x8E87u32,
            ShaderEnum::Geometry => 0x8DD9u32,
            ShaderEnum::Fragment => 0x8B30u32,
        }
    }

    /// The native enumeration value of this shader kind.
    pub fn as_enum(self) -> (r: u32)
        ensures
            r == self.spec_enum(),
    {
        match self {
            ShaderEnum::Compute => 0x91B9,
            ShaderEnum::Vertex => 0x8B31,
            ShaderEnum::TessControl => 0x8E88,
            ShaderEnum::TessEval => 0x8E87,
            ShaderEnum::Geometry => 0x8DD9,
            ShaderEnum::Fragment => 0x8B30,
        }
    }
}

/// A driver shader object's id; never the reserved zero.
#[derive(Debug, Clone, Copy)]
pub struct ShaderID {
    id: u32,
}

impl ShaderID {
    /// The id's numeric value.
    pub closed spec fn spec_id(self) -> u32 {
        self.id
    }

    #[verifier::type_invariant]
    spec fn inv(self) -> bool {
        self.id != 0
    }

    /// Wraps what the driver's create call returned: zero means the driver
    /// made no object.
    pub fn new(raw: u32) -> (r: Option<ShaderID>)
        ensures
            raw == 0 ==> r is None,
            raw != 0 ==> (r matches Some(s) && s.spec_id() == raw),
    {
        if raw == 0 {
            None
        } else {
            Some(ShaderID { id: raw })
        }
    }

    /// The id's numeric value, known non-zero.
    pub fn get(self) -> (r: u32)
        ensures
            r == self.spec_id(),
            r != 0,
    {
        proof {
            use_type_invariant(self);
        }
        self.id
    }
}

/// Where a shader object stands in its compile life cycle.
#[derive(Debug, Clone, Copy, PartialEq, Eq, Structural)]
pub enum ShaderState {
    /// Created, no source assigned yet.
    Created,
    /// Source assigned (replacing any prior source).
    SourceAssigned,
    /// A compile was issued; its status is not read yet.
    CompileAttempted,
    /// The last compile succeeded.
    Usable,
    /// The last compile failed.
    Failed,
}

/// One driver-owned shader object as this layer tracks it: its id, its place
/// in the life cycle, and whether its deletion was already requested.
#[derive(Debug, Clone, Copy)]
pub struct ShaderObject {
    id: ShaderID,
    state: ShaderState,
    delete_requested: bool,
}

impl ShaderObject {
    /// The object's id.
    pub closed spec fn spec_id(self) -> u32 {
        self.id.spec_id()
    }

    /// Where the object stands in its life cycle.
    pub closed spec fn spec_state(self) -> ShaderState {
        self.state
    }

    /// Whether deletion was requested; after that the object is never
    /// described again.
    pub closed spec fn spec_delete_requested(self) -> bool {
        self.delete_requested
    }

    /// Wraps a fresh id from the driver's create call.
    pub fn from_fresh_id(id: ShaderID) -> (r: ShaderObject)
        ensures
            r.spec_id() == id.spec_id(),
            r.spec_state() is Created,
            !r.spec_delete_requested(),
    {
        ShaderObject { id, state: ShaderState::Created, delete_requested: false }
    }

    /// The object's id.
    pub fn id(&self) -> (r: u32)
        ensures
            r == self.spec_id(),
            r != 0,
    {
        self.id.get()
    }

    /// Whether the object compiled and can be attached to a program.
    pub fn is_usable(&self) -> (r: bool)
        ensures
            r == (self.spec_state() is Usable && !self.spec_delete_requested()),
    {
        match self.state {
            ShaderState::Usable => !self.delete_requested,
            _ => false,
        }
    }

    /// Records that a source string was assigned: any prior source is
    /// replaced, never appended to, and any earlier compile outcome is void.
    pub fn record_source_assigned(&mut self)
        requires
            !old(self).spec_delete_requested(),
        ensures
            final(self).spec_state() is SourceAssigned,
            final(self).spec_id() == old(self).spec_id(),
            !final(self).spec_delete_requested(),
    {
        self.state = ShaderState::SourceAssigned;
    }

    /// Records that a compile was issued for the assigned source.
    pub fn record_compile_attempted(&mut self)
        requires
            !old(self).spec_delete_requested(),
            old(self).spec_state() is SourceAssigned,
        ensures
            final(self).spec_state() is CompileAttempted,
            final(self).spec_id() == old(self).spec_id(),
            !final(self).spec_delete_requested(),
    {
        self.state = ShaderState::CompileAttempted;
    }

    /// Records the driver's compile-status flag: it alone decides whether
    /// the object is usable or failed.
    pub fn record_compile_status(&mut self, ok: bool)
        requires
            !old(self).spec_delete_requested(),
            old(self).spec_state() is CompileAttempted,
        ensures
            ok ==> final(self).spec_state() is Usable,
            !ok ==> final(self).spec_state() is Failed,
            final(self).spec_id() == old(self).spec_id(),
            !final(self).spec_delete_requested(),
    {
        if ok {
            self.state = ShaderState::Usable;
        } else {
            self.state = ShaderState::Failed;
        }
    }

    /// Records that deletion was requested; only once per object.
    pub fn record_delete_requested(&mut self)
        requires
            !old(self).spec_delete_requested(),
        ensures
            final(self).spec_delete_requested(),
            final(self).spec_id() == old(self).spec_id(),
            final(self).spec_state() == old(self).spec_state(),
    {
        self.delete_requested = true;
    }
}

/// Where the composed build stands.
#[derive(Debug, Clone, Copy, PartialEq, Eq, Structural)]
pub enum ShaderBuildPhase {
    /// Ask the driver for a fresh shader object.
    Create,
    /// Assign the source string.
    SetSource,
    /// Issue the compile.
    Compile,
    /// Read the compile-status flag.
    QueryStatus,
    /// Read how long the diagnostic log is.
    QueryLogLength,
    /// Fetch the diagnostic log while the object still exists.
    FetchLog,
    /// Delete the now-useless object.
    Delete,
    /// Finished, successfully or not.
    Done,
}

/// The one driver call the driver of the machine must make next.
#[derive(Debug, Clone, Copy, PartialEq, Eq, Structural)]
pub enum ShaderBuildAction {
    /// Create a shader object of this native kind.
    CreateShader { kind_enum: u32 },
    /// Assign the build's source string to the object.
    SetShaderSource { shader: u32 },
    /// Compile the assigned source.
    CompileShader { shader: u32 },
    /// Read the compile-status flag.
    QueryCompileStatus { shader: u32 },
    /// Read the diagnostic log's length (terminator included).
    QueryInfoLogLength { shader: u32 },
    /// Fetch the log into a buffer of exactly the reported length.
    FetchInfoLog { shader: u32, buffer_len: i32 },
    /// Delete the object.
    DeleteShader { shader: u32 },
    /// Nothing left to do.
    Finish,
}

/// A driver call's outcome, handed back to the machine.
#[derive(Debug)]
pub enum ShaderBuildEvent {
    /// The fresh object's id; zero when the driver made none.
    ShaderCreated(u32),
    /// The source string was assigned.
    SourceSet,
    /// The compile call returned.
    CompileRan,
    /// The compile-status flag.
    CompileStatus(bool),
    /// The log length the driver reports, terminator included; zero or less
    /// means there is no log text.
    InfoLogLength(i32),
    /// The log's printable bytes (terminator excluded).
    InfoLogFetched(Vec<u8>),
    /// The object was deleted.
    ShaderDeleted,
}

/// The composed compile build: creation, source assignment, compilation and
/// status check, and on failure the log fetch and the delete of the failed
/// object, so failed intermediate objects never leak.
pub struct ShaderBuild {
    /// Where the build stands.
    phase: ShaderBuildPhase,
    /// What kind of shader is being built.
    kind: ShaderEnum,
    /// The object, once the driver made one.
    object: Option<ShaderObject>,
    /// The log length the driver reported.
    log_length: i32,
    /// The decoded diagnostic log of a failed compile.
    log: Option<String>,
    /// The driver made no object at all.
    create_failed: bool,
}

impl ShaderBuild {
    /// Where the build stands.
    pub closed spec fn spec_phase(self) -> ShaderBuildPhase {
        self.phase
    }

    /// What kind of shader is being built.
    pub closed spec fn spec_kind(self) -> ShaderEnum {
        self.kind
    }

    /// The object, once the driver made one.
    pub closed spec fn spec_object(self) -> Option<ShaderObject> {
        self.object
    }

    /// The decoded diagnostic log of a failed compile.
    pub closed spec fn spec_log(self) -> Option<String> {
        self.log
    }

    /// The log length the driver reported.
    pub closed spec fn spec_log_length(self) -> i32 {
        self.log_length
    }

    /// Whether the driver made no object at all.
    pub closed spec fn spec_create_failed(self) -> bool {
        self.create_failed
    }

    /// The machine's invariant: each phase holds an object in the right
    /// life-cycle state, the log is fetched before the delete, and the end
    /// state is either a usable object, or a deleted one with its log.
    pub closed spec fn wf(self) -> bool {
        &&& (self.phase is Create ==> self.object is None && !self.create_failed)
        &&& (self.create_failed ==> self.phase is Done && self.object is None)
        &&& (self.phase is SetSource ==> (self.object matches Some(o) && o.spec_state() is Created
            && !o.spec_delete_requested()))
        &&& (self.phase is Compile ==> (self.object matches Some(o) && o.spec_state()
            is SourceAssigned && !o.spec_delete_requested()))
        &&& (self.phase is QueryStatus ==> (self.object matches Some(o) && o.spec_state()
            is CompileAttempted && !o.spec_delete_requested()))
        &&& (self.phase is QueryLogLength ==> (self.object matches Some(o) && o.spec_state()
            is Failed && !o.spec_delete_requested()))
        &&& (self.phase is FetchLog ==> (self.object matches Some(o) && o.spec_state() is Failed
            && !o.spec_delete_requested()) && self.log_length > 0)
        &&& (self.phase is Delete ==> (self.object matches Some(o) && o.spec_state() is Failed
            && !o.spec_delete_requested()) && self.log is Some)
        &&& (self.phase is Done && !self.create_failed ==> (self.object matches Some(o) && ((
        o.spec_state() is Usable && !o.spec_delete_requested()) || (o.spec_state() is Failed
            && o.spec_delete_requested() && self.log is Some))))
    }

    /// Starts building a compiled shader of the given kind. The source
    /// string itself stays with the driver of the machine; this machine
    /// decides only the call sequence.
    pub fn new(kind: ShaderEnum) -> (r: ShaderBuild)
        ensures
            r.wf(),
            r.spec_phase() is Create,
            r.spec_kind() == kind,
    {
        ShaderBuild {
            phase: ShaderBuildPhase::Create,
            kind,
            object: None,
            log_length: 0,
            log: None,
            create_failed: false,
        }
    }

    /// Which outcomes fit which phase.
    pub open spec fn event_fits(self, event: ShaderBuildEvent) -> bool {
        match event {
            ShaderBuildEvent::ShaderCreated(_) => self.spec_phase() is Create,
            ShaderBuildEvent::SourceSet => self.spec_phase() is SetSource,
            ShaderBuildEvent::CompileRan => self.spec_phase() is Compile,
            ShaderBuildEvent::CompileStatus(_) => self.spec_phase() is QueryStatus,
            ShaderBuildEvent::InfoLogLength(_) => self.spec_phase() is QueryLogLength,
            ShaderBuildEvent::InfoLogFetched(_) => self.spec_phase() is FetchLog,
            ShaderBuildEvent::ShaderDeleted => self.spec_phase() is Delete,
        }
    }

    /// The one driver call to make in this state.
    pub fn current_action(&self) -> (r: ShaderBuildAction)
        requires
            self.wf(),
        ensures
            self.spec_phase() is Create ==> r == (ShaderBuildAction::CreateShader {
                kind_enum: self.spec_kind().spec_enum(),
            }),
            self.spec_phase() is SetSource ==> r == (ShaderBuildAction::SetShaderSource {
                shader: self.spec_object()->Some_0.spec_id(),
            }),
            self.spec_phase() is Compile ==> r == (ShaderBuildAction::CompileShader {
                shader: self.spec_object()->Some_0.spec_id(),
            }),
            self.spec_phase() is QueryStatus ==> r == (ShaderBuildAction::QueryCompileStatus {
                shader: self.spec_object()->Some_0.spec_id(),
            }),
            self.spec_phase() is QueryLogLength ==> r == (ShaderBuildAction::QueryInfoLogLength {
                shader: self.spec_object()->Some_0.spec_id(),
            }),
            self.spec_phase() is FetchLog ==> r == (ShaderBuildAction::FetchInfoLog {
                shader: self.spec_object()->Some_0.spec_id(),
                buffer_len: self.spec_log_length(),
            }),
            self.spec_phase() is Delete ==> r == (ShaderBuildAction::DeleteShader {
                shader: self.spec_object()->Some_0.spec_id(),
            }),
            self.spec_phase() is Done ==> r == ShaderBuildAction::Finish,
    {
        match self.phase {
            ShaderBuildPhase::Create => ShaderBuildAction::CreateShader {
                kind_enum: self.kind.as_enum(),
            },
            ShaderBuildPhase::SetSource => ShaderBuildAction::SetShaderSource {
                shader: self.object.as_ref().unwrap().id(),
            },
            ShaderBuildPhase::Compile => ShaderBuildAction::CompileShader {
                shader: self.object.as_ref().unwrap().id(),
            },
            ShaderBuildPhase::QueryStatus => ShaderBuildAction::QueryCompileStatus {
                shader: self.object.as_ref().unwrap().id(),
            },
            ShaderBuildPhase::QueryLogLength => ShaderBuildAction::QueryInfoLogLength {
                shader: self.object.as_ref().unwrap().id(),
            },
            ShaderBuildPhase::FetchLog => ShaderBuildAction::FetchInfoLog {
                shader: self.object.as_ref().unwrap().id(),
                buffer_len: self.log_length,
            },
            ShaderBuildPhase::Delete => ShaderBuildAction::DeleteShader {
                shader: self.object.as_ref().unwrap().id(),
            },
            ShaderBuildPhase::Done => ShaderBuildAction::Finish,
        }
    }

    /// Whether the build is over.
    pub fn is_done(&self) -> (r: bool)
        ensures
            r == (self.spec_phase() is Done),
    {
        match self.phase {
            ShaderBuildPhase::Done => true,
            _ => false,
        }
    }

    /// Takes the current driver call's outcome and moves the build on.
    pub fn step(&mut self, event: ShaderBuildEvent)
        requires
            old(self).wf(),
            old(self).event_fits(event),
        ensures
            final(self).wf(),
            final(self).spec_kind() == old(self).spec_kind(),
            event matches ShaderBuildEvent::ShaderCreated(raw) ==> if raw == 0 {
                final(self).spec_phase() is Done && final(self).spec_create_failed()
            } else {
                final(self).spec_phase() is SetSource && (final(self).spec_object() matches Some(o)
                    && o.spec_id() == raw && o.spec_state() is Created)
            },
            event matches ShaderBuildEvent::SourceSet ==> final(self).spec_phase() is Compile
                && final(self).spec_object()->Some_0.spec_id() == old(self).spec_object()->Some_0.spec_id(),
            event matches ShaderBuildEvent::CompileRan ==> final(self).spec_phase() is QueryStatus
                && final(self).spec_object()->Some_0.spec_id() == old(self).spec_object()->Some_0.spec_id(),
            event matches ShaderBuildEvent::CompileStatus(ok) ==> if ok {
                final(self).spec_phase() is Done && !final(self).spec_create_failed() && final(self).spec_object()->Some_0.spec_state() is Usable
            } else {
                final(self).spec_phase() is QueryLogLength && final(self).spec_object()->Some_0.spec_state() is Failed
            },
            event matches ShaderBuildEvent::InfoLogLength(n) ==> if n <= 0 {
                final(self).spec_phase() is Delete && (final(self).spec_log() matches Some(l)
                    && l@ == Seq::<char>::empty())
            } else {
                final(self).spec_phase() is FetchLog && final(self).spec_log_length() == n
            },
            event matches ShaderBuildEvent::InfoLogFetched(bytes) ==> final(self).spec_phase()
                is Delete && (final(self).spec_log() matches Some(l) && l@ == utf8_lossy_of(
                bytes@,
            )),
            event matches ShaderBuildEvent::ShaderDeleted ==> final(self).spec_phase() is Done
                && final(self).spec_object()->Some_0.spec_delete_requested() && final(self).spec_log() == old(self).spec_log(),
    {
        match event {
            ShaderBuildEvent::ShaderCreated(raw) => match ShaderID::new(raw) {
                None => {
                    self.create_failed = true;
                    self.phase = ShaderBuildPhase::Done;
                },
                Some(id) => {
                    self.object = Some(ShaderObject::from_fresh_id(id));
                    self.phase = ShaderBuildPhase::SetSource;
                },
            },
            ShaderBuildEvent::SourceSet => {
                let mut o = self.object.take().unwrap();
                o.record_source_assigned();
                self.object = Some(o);
                self.phase = ShaderBuildPhase::Compile;
            },
            ShaderBuildEvent::CompileRan => {
                let mut o = self.object.take().unwrap();
                o.record_compile_attempted();
                self.object = Some(o);
                self.phase = ShaderBuildPhase::QueryStatus;
            },
            ShaderBuildEvent::CompileStatus(ok) => {
                let mut o = self.object.take().unwrap();
                o.record_compile_status(ok);
                self.object = Some(o);
                if ok {
                    self.phase = ShaderBuildPhase::Done;
                } else {
                    self.phase = ShaderBuildPhase::QueryLogLength;
                }
            },
            ShaderBuildEvent::InfoLogLength(n) => {
                if n <= 0 {
                    self.log = Some(String::new());
                    self.phase = ShaderBuildPhase::Delete;
                } else {
                    self.log_length = n;
                    self.phase = ShaderBuildPhase::FetchLog;
                }
            },
            ShaderBuildEvent::InfoLogFetched(bytes) => {
                self.log = Some(min_alloc_lossy_into_string(bytes));
                self.phase = ShaderBuildPhase::Delete;
            },
            ShaderBuildEvent::ShaderDeleted => {
                let mut o = self.object.take().unwrap();
                o.record_delete_requested();
                self.object = Some(o);
                self.phase = ShaderBuildPhase::Done;
            },
        }
    }

    /// What the whole build produced, once it is over: a usable shader
    /// object, or the diagnostic log of the failure (after the failed object
    /// was deleted). A driver that made no object at all yields a fixed
    /// message instead of a log.
    pub fn result(self) -> (r: Result<ShaderObject, String>)
        requires
            self.wf(),
            self.spec_phase() is Done,
        ensures
            self.spec_create_failed() ==> (r matches Err(m) && m@ == "Couldn't create a shader."@),
            !self.spec_create_failed() && self.spec_object()->Some_0.spec_state() is Usable ==> (
            r matches Ok(o) && o == self.spec_object()->Some_0),
            !self.spec_create_failed() && self.spec_object()->Some_0.spec_state() is Failed ==> (
            r matches Err(m) && Some(m) == self.spec_log()),
    {
        if self.create_failed {
            return Err(String::from_str("Couldn't create a shader."));
        }
        let o = self.object.unwrap();
        if o.is_usable() {
            Ok(o)
        } else {
            Err(self.log.unwrap())
        }
    }
}

} // verus!
