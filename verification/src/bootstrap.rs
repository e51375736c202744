//! The dummy-context bootstrap.
//!
//! Modern context-creation entry points can only be resolved while a
//! rendering context is current, and creating a modern context needs those
//! very entry points. The way out is a throwaway bootstrap pass: register a
//! minimal window class, make a 1x1 invisible window, give it a basic pixel
//! format, create a legacy rendering context, make it current, resolve the
//! extension entry points through it, and then release everything again in
//! exactly the reverse order. When a context is already current on the
//! calling thread the pass uses it instead and acquires (and destroys)
//! nothing at all.
//!
//! The pass is modeled as a state machine: [`Bootstrap::current_action`]
//! names the one native call to make next, and [`Bootstrap::step`] takes the
//! call's outcome and moves on. The driver of the machine performs the
//! native calls; every decision between them is verified here, including
//! that teardown covers exactly what was acquired, newest first, whichever
//! step failed.

use vstd::prelude::*;

use crate::error_code::Win32Error;
use crate::error_code::Win32Result;
use crate::handles::HDC;
use crate::handles::HGLRC;
use crate::handles::HWND;
use crate::structures::PIXELFORMATDESCRIPTOR;
use crate::wgl::WglExtFns;

verus! {

/// Where the bootstrap stands: each acquisition step in order, then
/// resolution, teardown, and the end.
#[derive(Debug, Clone, Copy, PartialEq, Eq, Structural)]
pub enum BootstrapPhase {
    /// Ask whether a rendering context is already current on this thread.
    CheckCurrent,
    /// Register the throwaway window class.
    RegisterClass,
    /// Create the 1x1 invisible window.
    CreateWindow,
    /// Get the window's device context.
    GetDeviceContext,
    /// Ask the driver for a basic pixel format.
    ChoosePixelFormat,
    /// Set the chosen pixel format on the device context.
    SetPixelFormat,
    /// Create the legacy rendering context.
    CreateContext,
    /// Make the legacy context current on this thread.
    MakeCurrent,
    /// Resolve the extension entry points through the current context.
    Resolve,
    /// Release what was acquired, newest first.
    TearDown,
    /// Finished, successfully or not.
    Done,
}

/// What the bootstrap has acquired so far; zero means "not acquired".
#[derive(Debug, Clone, Copy, PartialEq, Eq, Structural)]
pub struct DummyResources {
    /// The registered window class.
    pub atom: u16,
    /// The created window.
    pub hwnd: HWND,
    /// The window's device context.
    pub hdc: HDC,
    /// The legacy rendering context.
    pub hglrc: HGLRC,
}

impl DummyResources {
    /// Nothing acquired.
    pub open spec fn spec_empty() -> DummyResources {
        DummyResources { atom: 0u16, hwnd: HWND(0), hdc: HDC(0), hglrc: HGLRC(0) }
    }

    /// Whether nothing is acquired.
    pub open spec fn is_empty(self) -> bool {
        self.atom == 0 && self.hwnd.0 == 0 && self.hdc.0 == 0 && self.hglrc.0 == 0
    }
}

/// The one native call the driver of the machine must make next.
#[derive(Debug, Clone, Copy, PartialEq, Eq, Structural)]
pub enum BootstrapAction {
    /// Ask which rendering context is current on this thread.
    QueryCurrentContext,
    /// Register the throwaway window class.
    RegisterDummyClass,
    /// Create the 1x1 invisible window of the registered class.
    CreateDummyWindow { atom: u16 },
    /// Get the window's device context.
    GetDeviceContextOf { hwnd: HWND },
    /// Ask the driver for a basic pixel format for this device context.
    ChooseBasicPixelFormat { hdc: HDC },
    /// Set the chosen format on the device context (once, and only once).
    SetBasicPixelFormat { hdc: HDC, format: i32 },
    /// Create a legacy rendering context for the device context.
    CreateLegacyContext { hdc: HDC },
    /// Make the legacy context current on this thread.
    MakeContextCurrent { hdc: HDC, hglrc: HGLRC },
    /// Resolve the extension entry points through the current context.
    ResolveExtensionFns,
    /// Teardown: make no context current.
    MakeNoContextCurrent,
    /// Teardown: delete the created rendering context.
    DeleteContext { hglrc: HGLRC },
    /// Teardown: release the device context.
    ReleaseDeviceContext { hwnd: HWND, hdc: HDC },
    /// Teardown: destroy the window.
    DestroyDummyWindow { hwnd: HWND },
    /// Teardown: unregister the window class.
    UnregisterDummyClass { atom: u16 },
    /// Nothing left to do.
    Finish,
}

/// A native call's outcome, handed back to the machine.
#[derive(Debug, Clone, Copy)]
pub enum BootstrapEvent {
    /// The rendering context current on this thread, null if none.
    CurrentContext(HGLRC),
    /// The atom of the registered class, zero when registration failed (the
    /// failure surfaces later, when window creation fails).
    ClassRegistered(u16),
    /// The created window, or the failure.
    WindowCreated(Win32Result<HWND>),
    /// The window's device context, or the failure.
    GotDeviceContext(Win32Result<HDC>),
    /// The chosen basic pixel format, or the failure.
    PixelFormatChosen(Win32Result<i32>),
    /// Whether the pixel format was set.
    PixelFormatSet(Win32Result<()>),
    /// The created legacy context, or the failure.
    ContextCreated(Win32Result<HGLRC>),
    /// Whether the legacy context became current.
    MadeCurrent(Win32Result<()>),
    /// The resolved entry points; unresolved ones are `None`, which is
    /// tolerated and no failure.
    FnsResolved(WglExtFns),
    /// One teardown call was made; its own failure is swallowed, so that
    /// cleanup never masks the primary result.
    TornDown,
}

/// The bootstrap state machine.
#[derive(Debug, Clone, Copy)]
pub struct Bootstrap {
    /// Where the pass stands.
    pub phase: BootstrapPhase,
    /// What has been acquired and not yet released.
    pub res: DummyResources,
    /// The chosen basic pixel format, once there is one.
    pub pf_index: i32,
    /// A context was already current, so nothing is acquired at all.
    pub used_existing: bool,
    /// The legacy context was made current and must be un-currented.
    pub made_current: bool,
    /// What resolution produced.
    pub fns: Option<WglExtFns>,
    /// The primary error, preserved untouched across teardown.
    pub failure: Option<Win32Error>,
}

/// The teardown calls owed for what was acquired: strictly the reverse of
/// the acquisition order, skipping what was never acquired.
pub open spec fn spec_teardown_actions(made_current: bool, res: DummyResources) -> Seq<
    BootstrapAction,
> {
    (if made_current {
        seq![BootstrapAction::MakeNoContextCurrent]
    } else {
        Seq::<BootstrapAction>::empty()
    }) + (if res.hglrc.0 != 0 {
        seq![BootstrapAction::DeleteContext { hglrc: res.hglrc }]
    } else {
        Seq::<BootstrapAction>::empty()
    }) + (if res.hdc.0 != 0 {
        seq![BootstrapAction::ReleaseDeviceContext { hwnd: res.hwnd, hdc: res.hdc }]
    } else {
        Seq::<BootstrapAction>::empty()
    }) + (if res.hwnd.0 != 0 {
        seq![BootstrapAction::DestroyDummyWindow { hwnd: res.hwnd }]
    } else {
        Seq::<BootstrapAction>::empty()
    }) + (if res.atom != 0 {
        seq![BootstrapAction::UnregisterDummyClass { atom: res.atom }]
    } else {
        Seq::<BootstrapAction>::empty()
    })
}

/// The place of a release call in the fixed teardown order; creation calls
/// have no place in it.
pub open spec fn spec_release_rank(a: BootstrapAction) -> int {
    match a {
        BootstrapAction::MakeNoContextCurrent => 0,
        BootstrapAction::DeleteContext { .. } => 1,
        BootstrapAction::ReleaseDeviceContext { .. } => 2,
        BootstrapAction::DestroyDummyWindow { .. } => 3,
        BootstrapAction::UnregisterDummyClass { .. } => 4,
        _ => 5,
    }
}

/// Whether an action acquires a dummy resource.
pub open spec fn spec_is_creation_action(a: BootstrapAction) -> bool {
    match a {
        BootstrapAction::RegisterDummyClass => true,
        BootstrapAction::CreateDummyWindow { .. } => true,
        BootstrapAction::GetDeviceContextOf { .. } => true,
        BootstrapAction::SetBasicPixelFormat { .. } => true,
        BootstrapAction::CreateLegacyContext { .. } => true,
        BootstrapAction::MakeContextCurrent { .. } => true,
        _ => false,
    }
}

/// Whether an action releases a dummy resource.
pub open spec fn spec_is_release_action(a: BootstrapAction) -> bool {
    spec_release_rank(a) < 5
}

impl Bootstrap {
    /// Whether any acquired resource still awaits its release call.
    pub open spec fn spec_teardown_pending(self) -> bool {
        self.made_current || !self.res.is_empty()
    }

    /// The machine's invariant.
    pub open spec fn wf(self) -> bool {
        &&& (self.used_existing ==> self.res.is_empty() && !self.made_current && (self.phase
            is Resolve || self.phase is Done))
        &&& (self.phase is CheckCurrent ==> self.res.is_empty() && !self.made_current
            && !self.used_existing && self.failure is None)
        &&& (self.phase is TearDown ==> self.spec_teardown_pending())
        &&& (self.phase is TearDown ==> self.failure is Some || self.fns is Some)
        &&& (self.phase is Done && self.failure is None ==> self.fns is Some)
    }

    /// The machine before anything happened.
    pub open spec fn spec_init() -> Bootstrap {
        Bootstrap {
            phase: BootstrapPhase::CheckCurrent,
            res: DummyResources::spec_empty(),
            pf_index: 0,
            used_existing: false,
            made_current: false,
            fns: None,
            failure: None,
        }
    }

    /// Starts a bootstrap pass.
    pub fn new() -> (r: Bootstrap)
        ensures
            r == Bootstrap::spec_init(),
            r.wf(),
    {
        Bootstrap {
            phase: BootstrapPhase::CheckCurrent,
            res: DummyResources { atom: 0, hwnd: HWND(0), hdc: HDC(0), hglrc: HGLRC(0) },
            pf_index: 0,
            used_existing: false,
            made_current: false,
            fns: None,
            failure: None,
        }
    }

    /// Which outcomes fit which phase.
    pub open spec fn event_fits(self, event: BootstrapEvent) -> bool {
        match event {
            BootstrapEvent::CurrentContext(_) => self.phase is CheckCurrent,
            BootstrapEvent::ClassRegistered(_) => self.phase is RegisterClass,
            BootstrapEvent::WindowCreated(_) => self.phase is CreateWindow,
            BootstrapEvent::GotDeviceContext(_) => self.phase is GetDeviceContext,
            BootstrapEvent::PixelFormatChosen(_) => self.phase is ChoosePixelFormat,
            BootstrapEvent::PixelFormatSet(_) => self.phase is SetPixelFormat,
            BootstrapEvent::ContextCreated(_) => self.phase is CreateContext,
            BootstrapEvent::MadeCurrent(_) => self.phase is MakeCurrent,
            BootstrapEvent::FnsResolved(_) => self.phase is Resolve,
            BootstrapEvent::TornDown => self.phase is TearDown,
        }
    }

    /// The one native call to make in this state.
    pub open spec fn spec_current_action(self) -> BootstrapAction {
        match self.phase {
            BootstrapPhase::CheckCurrent => BootstrapAction::QueryCurrentContext,
            BootstrapPhase::RegisterClass => BootstrapAction::RegisterDummyClass,
            BootstrapPhase::CreateWindow => BootstrapAction::CreateDummyWindow {
                atom: self.res.atom,
            },
            BootstrapPhase::GetDeviceContext => BootstrapAction::GetDeviceContextOf {
                hwnd: self.res.hwnd,
            },
            BootstrapPhase::ChoosePixelFormat => BootstrapAction::ChooseBasicPixelFormat {
                hdc: self.res.hdc,
            },
            BootstrapPhase::SetPixelFormat => BootstrapAction::SetBasicPixelFormat {
                hdc: self.res.hdc,
                format: self.pf_index,
            },
            BootstrapPhase::CreateContext => BootstrapAction::CreateLegacyContext {
                hdc: self.res.hdc,
            },
            BootstrapPhase::MakeCurrent => BootstrapAction::MakeContextCurrent {
                hdc: self.res.hdc,
                hglrc: self.res.hglrc,
            },
            BootstrapPhase::Resolve => BootstrapAction::ResolveExtensionFns,
            BootstrapPhase::TearDown => if self.made_current {
                BootstrapAction::MakeNoContextCurrent
            } else if self.res.hglrc.0 != 0 {
                BootstrapAction::DeleteContext { hglrc: self.res.hglrc }
            } else if self.res.hdc.0 != 0 {
                BootstrapAction::ReleaseDeviceContext { hwnd: self.res.hwnd, hdc: self.res.hdc }
            } else if self.res.hwnd.0 != 0 {
                BootstrapAction::DestroyDummyWindow { hwnd: self.res.hwnd }
            } else if self.res.atom != 0 {
                BootstrapAction::UnregisterDummyClass { atom: self.res.atom }
            } else {
                BootstrapAction::Finish
            },
            BootstrapPhase::Done => BootstrapAction::Finish,
        }
    }

    /// The one native call to make in this state.
    pub fn current_action(&self) -> (r: BootstrapAction)
        ensures
            r == self.spec_current_action(),
    {
        match self.phase {
            BootstrapPhase::CheckCurrent => BootstrapAction::QueryCurrentContext,
            BootstrapPhase::RegisterClass => BootstrapAction::RegisterDummyClass,
            BootstrapPhase::CreateWindow => BootstrapAction::CreateDummyWindow {
                atom: self.res.atom,
            },
            BootstrapPhase::GetDeviceContext => BootstrapAction::GetDeviceContextOf {
                hwnd: self.res.hwnd,
            },
            BootstrapPhase::ChoosePixelFormat => BootstrapAction::ChooseBasicPixelFormat {
                hdc: self.res.hdc,
            },
            BootstrapPhase::SetPixelFormat => BootstrapAction::SetBasicPixelFormat {
                hdc: self.res.hdc,
                format: self.pf_index,
            },
            BootstrapPhase::CreateContext => BootstrapAction::CreateLegacyContext {
                hdc: self.res.hdc,
            },
            BootstrapPhase::MakeCurrent => BootstrapAction::MakeContextCurrent {
                hdc: self.res.hdc,
                hglrc: self.res.hglrc,
            },
            BootstrapPhase::Resolve => BootstrapAction::ResolveExtensionFns,
            BootstrapPhase::TearDown => if self.made_current {
                BootstrapAction::MakeNoContextCurrent
            } else if self.res.hglrc.0 != 0 {
                BootstrapAction::DeleteContext { hglrc: self.res.hglrc }
            } else if self.res.hdc.0 != 0 {
                BootstrapAction::ReleaseDeviceContext { hwnd: self.res.hwnd, hdc: self.res.hdc }
            } else if self.res.hwnd.0 != 0 {
                BootstrapAction::DestroyDummyWindow { hwnd: self.res.hwnd }
            } else if self.res.atom != 0 {
                BootstrapAction::UnregisterDummyClass { atom: self.res.atom }
            } else {
                BootstrapAction::Finish
            },
            BootstrapPhase::Done => BootstrapAction::Finish,
        }
    }

    /// Whether the pass is over.
    pub fn is_done(&self) -> (r: bool)
        ensures
            r == (self.phase is Done),
    {
        match self.phase {
            BootstrapPhase::Done => true,
            _ => false,
        }
    }

    /// What the whole pass produced, once it is over: the resolved entry
    /// points, or the primary error of the step that failed.
    pub fn result(&self) -> (r: Win32Result<WglExtFns>)
        requires
            self.phase is Done,
            self.wf(),
        ensures
            self.failure matches Some(e) ==> r == Win32Result::<WglExtFns>::Err(e),
            self.failure is None ==> (self.fns matches Some(f) && r == Win32Result::<
                WglExtFns,
            >::Ok(f)),
    {
        match self.failure {
            Some(e) => Err(e),
            None => match self.fns {
                Some(f) => Ok(f),
                None => Err(Win32Error(0x2000_0000)),  // unreachable under the invariant
            },
        }
    }
}

/// A failed acquisition step: record the primary error, then settle into
/// teardown (or straight to the end if nothing was acquired).
pub open spec fn spec_fail(m: Bootstrap, e: Win32Error) -> Bootstrap {
    spec_settle(Bootstrap { failure: Some(e), ..m })
}

/// Move to teardown while anything is owed, else to the end.
pub open spec fn spec_settle(m: Bootstrap) -> Bootstrap {
    if m.spec_teardown_pending() {
        Bootstrap { phase: BootstrapPhase::TearDown, ..m }
    } else {
        Bootstrap { phase: BootstrapPhase::Done, ..m }
    }
}

/// Mark the newest still-acquired resource as released.
pub open spec fn spec_clear_first(m: Bootstrap) -> Bootstrap {
    if m.made_current {
        Bootstrap { made_current: false, ..m }
    } else if m.res.hglrc.0 != 0 {
        Bootstrap { res: DummyResources { hglrc: HGLRC(0), ..m.res }, ..m }
    } else if m.res.hdc.0 != 0 {
        Bootstrap { res: DummyResources { hdc: HDC(0), ..m.res }, ..m }
    } else if m.res.hwnd.0 != 0 {
        Bootstrap { res: DummyResources { hwnd: HWND(0), ..m.res }, ..m }
    } else {
        Bootstrap { res: DummyResources { atom: 0u16, ..m.res }, ..m }
    }
}

/// The whole transition relation: what one native outcome does to the
/// machine.
pub open spec fn spec_step(m: Bootstrap, event: BootstrapEvent) -> Bootstrap {
    match event {
        BootstrapEvent::CurrentContext(rc) => if rc.0 != 0 {
            Bootstrap { phase: BootstrapPhase::Resolve, used_existing: true, ..m }
        } else {
            Bootstrap { phase: BootstrapPhase::RegisterClass, ..m }
        },
        BootstrapEvent::ClassRegistered(atom) => Bootstrap {
            phase: BootstrapPhase::CreateWindow,
            res: DummyResources { atom: atom, ..m.res },
            ..m
        },
        BootstrapEvent::WindowCreated(outcome) => match outcome {
            Result::Ok(hwnd) => Bootstrap {
                phase: BootstrapPhase::GetDeviceContext,
                res: DummyResources { hwnd: hwnd, ..m.res },
                ..m
            },
            Result::Err(e) => spec_fail(m, e),
        },
        BootstrapEvent::GotDeviceContext(outcome) => match outcome {
            Result::Ok(hdc) => Bootstrap {
                phase: BootstrapPhase::ChoosePixelFormat,
                res: DummyResources { hdc: hdc, ..m.res },
                ..m
            },
            Result::Err(e) => spec_fail(m, e),
        },
        BootstrapEvent::PixelFormatChosen(outcome) => match outcome {
            Result::Ok(format) => Bootstrap {
                phase: BootstrapPhase::SetPixelFormat,
                pf_index: format,
                ..m
            },
            Result::Err(e) => spec_fail(m, e),
        },
        BootstrapEvent::PixelFormatSet(outcome) => match outcome {
            Result::Ok(_) => Bootstrap { phase: BootstrapPhase::CreateContext, ..m },
            Result::Err(e) => spec_fail(m, e),
        },
        BootstrapEvent::ContextCreated(outcome) => match outcome {
            Result::Ok(hglrc) => Bootstrap {
                phase: BootstrapPhase::MakeCurrent,
                res: DummyResources { hglrc: hglrc, ..m.res },
                ..m
            },
            Result::Err(e) => spec_fail(m, e),
        },
        BootstrapEvent::MadeCurrent(outcome) => match outcome {
            Result::Ok(_) => Bootstrap {
                phase: BootstrapPhase::Resolve,
                made_current: true,
                ..m
            },
            Result::Err(e) => spec_fail(m, e),
        },
        BootstrapEvent::FnsResolved(fns) => spec_settle(Bootstrap { fns: Some(fns), ..m }),
        BootstrapEvent::TornDown => spec_settle(spec_clear_first(m)),
    }
}

impl Bootstrap {
    /// Takes the current native call's outcome and moves the machine on.
    pub fn step(&mut self, event: BootstrapEvent)
        requires
            old(self).wf(),
            old(self).event_fits(event),
        ensures
            *final(self) == spec_step(*old(self), event),
            final(self).wf(),
    {
        match event {
            BootstrapEvent::CurrentContext(rc) => {
                if rc.is_not_null() {
                    self.phase = BootstrapPhase::Resolve;
                    self.used_existing = true;
                } else {
                    self.phase = BootstrapPhase::RegisterClass;
                }
            },
            BootstrapEvent::ClassRegistered(atom) => {
                self.phase = BootstrapPhase::CreateWindow;
                self.res.atom = atom;
            },
            BootstrapEvent::WindowCreated(outcome) => match outcome {
                Ok(hwnd) => {
                    self.phase = BootstrapPhase::GetDeviceContext;
                    self.res.hwnd = hwnd;
                },
                Err(e) => self.fail(e),
            },
            BootstrapEvent::GotDeviceContext(outcome) => match outcome {
                Ok(hdc) => {
                    self.phase = BootstrapPhase::ChoosePixelFormat;
                    self.res.hdc = hdc;
                },
                Err(e) => self.fail(e),
            },
            BootstrapEvent::PixelFormatChosen(outcome) => match outcome {
                Ok(format) => {
                    self.phase = BootstrapPhase::SetPixelFormat;
                    self.pf_index = format;
                },
                Err(e) => self.fail(e),
            },
            BootstrapEvent::PixelFormatSet(outcome) => match outcome {
                Ok(_) => {
                    self.phase = BootstrapPhase::CreateContext;
                },
                Err(e) => self.fail(e),
            },
            BootstrapEvent::ContextCreated(outcome) => match outcome {
                Ok(hglrc) => {
                    self.phase = BootstrapPhase::MakeCurrent;
                    self.res.hglrc = hglrc;
                },
                Err(e) => self.fail(e),
            },
            BootstrapEvent::MadeCurrent(outcome) => match outcome {
                Ok(_) => {
                    self.phase = BootstrapPhase::Resolve;
                    self.made_current = true;
                },
                Err(e) => self.fail(e),
            },
            BootstrapEvent::FnsResolved(fns) => {
                self.fns = Some(fns);
                self.settle();
            },
            BootstrapEvent::TornDown => {
                self.clear_first();
                self.settle();
            },
        }
    }

    /// Records the primary error and settles.
    fn fail(&mut self, e: Win32Error)
        ensures
            *final(self) == spec_fail(*old(self), e),
    {
        self.failure = Some(e);
        self.settle();
    }

    /// Moves to teardown while anything is owed, else to the end.
    fn settle(&mut self)
        ensures
            *final(self) == spec_settle(*old(self)),
    {
        let pending = self.made_current || self.res.hglrc.0 != 0 || self.res.hdc.0 != 0
            || self.res.hwnd.0 != 0 || self.res.atom != 0;
        if pending {
            self.phase = BootstrapPhase::TearDown;
        } else {
            self.phase = BootstrapPhase::Done;
        }
    }

    /// Marks the newest still-acquired resource as released.
    fn clear_first(&mut self)
        ensures
            *final(self) == spec_clear_first(*old(self)),
    {
        if self.made_current {
            self.made_current = false;
        } else if self.res.hglrc.0 != 0 {
            self.res.hglrc = HGLRC(0);
        } else if self.res.hdc.0 != 0 {
            self.res.hdc = HDC(0);
        } else if self.res.hwnd.0 != 0 {
            self.res.hwnd = HWND(0);
        } else {
            self.res.atom = 0;
        }
    }
}

/// The basic pixel format the bootstrap window asks for: RGBA color at 32
/// bits, 24-bit depth, 8-bit stencil, double buffered, on the main plane.
pub fn basic_pixel_format_descriptor() -> (r: PIXELFORMATDESCRIPTOR)
    ensures
        r.dwFlags == crate::constants::PFD_DRAW_TO_WINDOW | crate::constants::PFD_SUPPORT_OPENGL
            | crate::constants::PFD_DOUBLEBUFFER,
        r.iPixelType == crate::constants::PFD_TYPE_RGBA,
        r.cColorBits == 32,
        r.cDepthBits == 24,
        r.cStencilBits == 8,
        r.iLayerType == crate::constants::PFD_MAIN_PLANE,
        r.nSize == crate::structures::PIXELFORMATDESCRIPTOR_NATIVE_SIZE,
        r.nVersion == 1,
{
    let mut pfd = PIXELFORMATDESCRIPTOR::default();
    pfd.dwFlags = crate::constants::PFD_DRAW_TO_WINDOW | crate::constants::PFD_SUPPORT_OPENGL
        | crate::constants::PFD_DOUBLEBUFFER;
    pfd.iPixelType = crate::constants::PFD_TYPE_RGBA;
    pfd.cColorBits = 32;
    pfd.cDepthBits = 24;
    pfd.cStencilBits = 8;
    pfd.iLayerType = crate::constants::PFD_MAIN_PLANE;
    pfd
}

/// Law: the teardown plan names each acquired resource's release exactly
/// once, names nothing that was not acquired, and stands in strictly the
/// reverse of the acquisition order: un-current the context, delete the
/// context, release the device context, destroy the window, unregister the
/// class.
pub proof fn lemma_teardown_plan_complete(made_current: bool, res: DummyResources)
    ensures
        spec_teardown_actions(made_current, res).contains(BootstrapAction::MakeNoContextCurrent)
            <==> made_current,
        spec_teardown_actions(made_current, res).contains(
            BootstrapAction::DeleteContext { hglrc: res.hglrc },
        ) <==> res.hglrc.0 != 0,
        spec_teardown_actions(made_current, res).contains(
            BootstrapAction::ReleaseDeviceContext { hwnd: res.hwnd, hdc: res.hdc },
        ) <==> res.hdc.0 != 0,
        spec_teardown_actions(made_current, res).contains(
            BootstrapAction::DestroyDummyWindow { hwnd: res.hwnd },
        ) <==> res.hwnd.0 != 0,
        spec_teardown_actions(made_current, res).contains(
            BootstrapAction::UnregisterDummyClass { atom: res.atom },
        ) <==> res.atom != 0,
        forall|a: BootstrapAction|
            spec_teardown_actions(made_current, res).contains(a) ==> spec_is_release_action(a),
        forall|i: int, j: int|
            0 <= i < j < spec_teardown_actions(made_current, res).len() ==> spec_release_rank(
                spec_teardown_actions(made_current, res)[i],
            ) < spec_release_rank(spec_teardown_actions(made_current, res)[j]),
{
    let s = spec_teardown_actions(made_current, res);
    let b0: int = if made_current {
        1int
    } else {
        0int
    };
    let b1: int = b0 + if res.hglrc.0 != 0 {
        1int
    } else {
        0int
    };
    let b2: int = b1 + if res.hdc.0 != 0 {
        1int
    } else {
        0int
    };
    let b3: int = b2 + if res.hwnd.0 != 0 {
        1int
    } else {
        0int
    };
    let b4: int = b3 + if res.atom != 0 {
        1int
    } else {
        0int
    };
    assert(s.len() == b4);
    assert forall|i: int| 0 <= i < s.len() implies {
        &&& (i < b0 ==> s[i] == BootstrapAction::MakeNoContextCurrent)
        &&& (b0 <= i < b1 ==> s[i] == BootstrapAction::DeleteContext { hglrc: res.hglrc })
        &&& (b1 <= i < b2 ==> s[i] == BootstrapAction::ReleaseDeviceContext {
            hwnd: res.hwnd,
            hdc: res.hdc,
        })
        &&& (b2 <= i < b3 ==> s[i] == BootstrapAction::DestroyDummyWindow { hwnd: res.hwnd })
        &&& (b3 <= i < b4 ==> s[i] == BootstrapAction::UnregisterDummyClass { atom: res.atom })
    } by {}
    if made_current {
        assert(s[0] == BootstrapAction::MakeNoContextCurrent);
        assert(s.contains(BootstrapAction::MakeNoContextCurrent));
    }
    if res.hglrc.0 != 0 {
        assert(s[b0] == BootstrapAction::DeleteContext { hglrc: res.hglrc });
        assert(s.contains(BootstrapAction::DeleteContext { hglrc: res.hglrc }));
    }
    if res.hdc.0 != 0 {
        assert(s[b1] == BootstrapAction::ReleaseDeviceContext { hwnd: res.hwnd, hdc: res.hdc });
        assert(s.contains(BootstrapAction::ReleaseDeviceContext { hwnd: res.hwnd, hdc: res.hdc }));
    }
    if res.hwnd.0 != 0 {
        assert(s[b2] == BootstrapAction::DestroyDummyWindow { hwnd: res.hwnd });
        assert(s.contains(BootstrapAction::DestroyDummyWindow { hwnd: res.hwnd }));
    }
    if res.atom != 0 {
        assert(s[b3] == BootstrapAction::UnregisterDummyClass { atom: res.atom });
        assert(s.contains(BootstrapAction::UnregisterDummyClass { atom: res.atom }));
    }
    assert forall|i: int, j: int| 0 <= i < j < s.len() implies spec_release_rank(s[i])
        < spec_release_rank(s[j]) by {
        assert(spec_release_rank(s[i]) == if i < b0 {
            0int
        } else if i < b1 {
            1int
        } else if i < b2 {
            2int
        } else if i < b3 {
            3int
        } else {
            4int
        });
        assert(spec_release_rank(s[j]) == if j < b0 {
            0int
        } else if j < b1 {
            1int
        } else if j < b2 {
            2int
        } else if j < b3 {
            3int
        } else {
            4int
        });
    }
}

/// Law: when a context was already current at the check, the bootstrap holds
/// no dummy resource, its teardown plan is empty, and it never asks for a
/// creation or release call — the caller's context is not ours to destroy.
pub proof fn lemma_existing_context_is_left_alone(m: Bootstrap)
    requires
        m.wf(),
        m.used_existing,
    ensures
        m.res.is_empty(),
        !m.made_current,
        spec_teardown_actions(m.made_current, m.res) =~= Seq::<BootstrapAction>::empty(),
        !spec_is_creation_action(m.spec_current_action()),
        !spec_is_release_action(m.spec_current_action()),
{
}

/// Law: in teardown the machine works off exactly the plan, head first: the
/// action it asks for is the plan's first entry, one acknowledged call
/// shortens the plan by exactly that entry, and neither the primary result
/// nor the resolved entry points are touched by cleanup.
pub proof fn lemma_teardown_progress(m: Bootstrap)
    requires
        m.wf(),
        m.phase is TearDown,
    ensures
        spec_teardown_actions(m.made_current, m.res).len() > 0,
        m.spec_current_action() == spec_teardown_actions(m.made_current, m.res)[0],
        spec_teardown_actions(
            spec_step(m, BootstrapEvent::TornDown).made_current,
            spec_step(m, BootstrapEvent::TornDown).res,
        ) =~= spec_teardown_actions(m.made_current, m.res).drop_first(),
        spec_step(m, BootstrapEvent::TornDown).failure == m.failure,
        spec_step(m, BootstrapEvent::TornDown).fns == m.fns,
{
}

/// Law: a failure outcome at any acquisition step preserves what was
/// acquired so far, records exactly that failure, and sends the machine into
/// teardown whenever anything at all was acquired.
pub proof fn lemma_failure_enters_teardown(m: Bootstrap, e: Win32Error)
    ensures
        spec_fail(m, e).res == m.res,
        spec_fail(m, e).made_current == m.made_current,
        spec_fail(m, e).failure == Some(e),
        m.spec_teardown_pending() ==> spec_fail(m, e).phase is TearDown,
        !m.spec_teardown_pending() ==> spec_fail(m, e).phase is Done,
{
}

} // verus!
