//! Small GL helpers: polygon modes, vertex array names, and the tables that
//! turn driver debug-message enumerations into readable labels.

use vstd::prelude::*;

verus! {

/// Debug message source: the GL API itself.
pub const GL_DEBUG_SOURCE_API: u32 = 0x8246;

/// Debug message source: the window system.
pub const GL_DEBUG_SOURCE_WINDOW_SYSTEM: u32 = 0x8247;

/// Debug message source: the shader compiler.
pub const GL_DEBUG_SOURCE_SHADER_COMPILER: u32 = 0x8248;

/// Debug message source: third-party tooling.
pub const GL_DEBUG_SOURCE_THIRD_PARTY: u32 = 0x8249;

/// Debug message source: the application.
pub const GL_DEBUG_SOURCE_APPLICATION: u32 = 0x824A;

/// Debug message source: anything else.
pub const GL_DEBUG_SOURCE_OTHER: u32 = 0x824B;

/// Debug message type: an error.
pub const GL_DEBUG_TYPE_ERROR: u32 = 0x824C;

/// Debug message type: deprecated behavior.
pub const GL_DEBUG_TYPE_DEPRECATED_BEHAVIOR: u32 = 0x824D;

/// Debug message type: undefined behavior.
pub const GL_DEBUG_TYPE_UNDEFINED_BEHAVIOR: u32 = 0x824E;

/// Debug message type: a portability concern.
pub const GL_DEBUG_TYPE_PORTABILITY: u32 = 0x824F;

/// Debug message type: a performance concern.
pub const GL_DEBUG_TYPE_PERFORMANCE: u32 = 0x8250;

/// Debug message type: a marker.
pub const GL_DEBUG_TYPE_MARKER: u32 = 0x8268;

/// Debug message type: a group push.
pub const GL_DEBUG_TYPE_PUSH_GROUP: u32 = 0x8269;

/// Debug message type: a group pop.
pub const GL_DEBUG_TYPE_POP_GROUP: u32 = 0x826A;

/// Debug message type: anything else.
pub const GL_DEBUG_TYPE_OTHER: u32 = 0x8251;

/// Debug message severity: high.
pub const GL_DEBUG_SEVERITY_HIGH: u32 = 0x9146;

/// Debug message severity: medium.
pub const GL_DEBUG_SEVERITY_MEDIUM: u32 = 0x9147;

/// Debug message severity: low.
pub const GL_DEBUG_SEVERITY_LOW: u32 = 0x9148;

/// Debug message severity: a plain notification.
pub const GL_DEBUG_SEVERITY_NOTIFICATION: u32 = 0x826B;

/// How polygons are rasterized.
#[derive(Debug, Clone, Copy, PartialEq, Eq, Structural)]
pub enum PolygonEnum {
    /// Vertices only.
    Point,
    /// Edges only.
    Line,
    /// Filled faces (the driver's default).
    Fill,
}

impl PolygonEnum {
    /// The native enumeration value of this polygon mode.
    pub open spec fn spec_enum(self) -> u32 {
        match self {
            PolygonEnum::Point => 0x1B00u32,
            PolygonEnum::Line => 0x1B01u32,
            PolygonEnum::Fill => 0x1B02u32,
        }
    }

    /// The native enumeration value of this polygon mode.
    pub fn as_enum(self) -> (r: u32)
        ensures
            r == self.spec_enum(),
    {
        match self {
            PolygonEnum::Point => 0x1B00,
            PolygonEnum::Line => 0x1B01,
            PolygonEnum::Fill => 0x1B02,
        }
    }
}

/// A driver vertex-array object's id; never the reserved zero.
#[derive(Debug, Clone, Copy)]
pub struct VertexArrayID {
    id: u32,
}

impl VertexArrayID {
    /// The id's numeric value.
    pub closed spec fn spec_id(self) -> u32 {
        self.id
    }

    #[verifier::type_invariant]
    spec fn inv(self) -> bool {
        self.id != 0
    }

    /// Wraps what the driver's create call returned: zero means the driver
    /// made no object.
    pub fn new(raw: u32) -> (r: Option<VertexArrayID>)
        ensures
            raw == 0 ==> r is None,
            raw != 0 ==> (r matches Some(v) && v.spec_id() == raw),
    {
        if raw == 0 {
            None
        } else {
            Some(VertexArrayID { id: raw })
        }
    }

    /// The id's numeric value, known non-zero.
    pub fn get(self) -> (r: u32)
        ensures
            r == self.spec_id(),
            r != 0,
    {
        proof {
            use_type_invariant(self);
        }
        self.id
    }
}

/// The label of a debug message's source enumeration.
pub open spec fn spec_debug_source_name(source: u32) -> Seq<char> {
    if source == GL_DEBUG_SOURCE_API {
        "API"@
    } else if source == GL_DEBUG_SOURCE_WINDOW_SYSTEM {
        "WindowSystem"@
    } else if source == GL_DEBUG_SOURCE_SHADER_COMPILER {
        "ShaderCompiler"@
    } else if source == GL_DEBUG_SOURCE_THIRD_PARTY {
        "3rdParty"@
    } else if source == GL_DEBUG_SOURCE_APPLICATION {
        "App"@
    } else if source == GL_DEBUG_SOURCE_OTHER {
        "Other"@
    } else {
        "Unknown"@
    }
}

/// The label of a debug message's source enumeration.
pub fn debug_source_name(source: u32) -> (r: &'static str)
    ensures
        r@ == spec_debug_source_name(source),
{
    if source == GL_DEBUG_SOURCE_API {
        "API"
    } else if source == GL_DEBUG_SOURCE_WINDOW_SYSTEM {
        "WindowSystem"
    } else if source == GL_DEBUG_SOURCE_SHADER_COMPILER {
        "ShaderCompiler"
    } else if source == GL_DEBUG_SOURCE_THIRD_PARTY {
        "3rdParty"
    } else if source == GL_DEBUG_SOURCE_APPLICATION {
        "App"
    } else if source == GL_DEBUG_SOURCE_OTHER {
        "Other"
    } else {
        "Unknown"
    }
}

/// The label of a debug message's type enumeration.
pub open spec fn spec_debug_type_name(kind: u32) -> Seq<char> {
    if kind == GL_DEBUG_TYPE_ERROR {
        "Error"@
    } else if kind == GL_DEBUG_TYPE_DEPRECATED_BEHAVIOR {
        "Deprecated"@
    } else if kind == GL_DEBUG_TYPE_UNDEFINED_BEHAVIOR {
        "Undefined"@
    } else if kind == GL_DEBUG_TYPE_PORTABILITY {
        "Portability"@
    } else if kind == GL_DEBUG_TYPE_PERFORMANCE {
        "Performance"@
    } else if kind == GL_DEBUG_TYPE_MARKER {
        "Marker"@
    } else if kind == GL_DEBUG_TYPE_PUSH_GROUP {
        "PushGroup"@
    } else if kind == GL_DEBUG_TYPE_POP_GROUP {
        "PopGroup"@
    } else if kind == GL_DEBUG_TYPE_OTHER {
        "Other"@
    } else {
        "Unknown"@
    }
}

/// The label of a debug message's type enumeration.
pub fn debug_type_name(kind: u32) -> (r: &'static str)
    ensures
        r@ == spec_debug_type_name(kind),
{
    if kind == GL_DEBUG_TYPE_ERROR {
        "Error"
    } else if kind == GL_DEBUG_TYPE_DEPRECATED_BEHAVIOR {
        "Deprecated"
    } else if kind == GL_DEBUG_TYPE_UNDEFINED_BEHAVIOR {
        "Undefined"
    } else if kind == GL_DEBUG_TYPE_PORTABILITY {
        "Portability"
    } else if kind == GL_DEBUG_TYPE_PERFORMANCE {
        "Performance"
    } else if kind == GL_DEBUG_TYPE_MARKER {
        "Marker"
    } else if kind == GL_DEBUG_TYPE_PUSH_GROUP {
        "PushGroup"
    } else if kind == GL_DEBUG_TYPE_POP_GROUP {
        "PopGroup"
    } else if kind == GL_DEBUG_TYPE_OTHER {
        "Other"
    } else {
        "Unknown"
    }
}

/// The label of a debug message's severity enumeration.
pub open spec fn spec_debug_severity_name(severity: u32) -> Seq<char> {
    if severity == GL_DEBUG_SEVERITY_HIGH {
        "High"@
    } else if severity == GL_DEBUG_SEVERITY_MEDIUM {
        "Medium"@
    } else if severity == GL_DEBUG_SEVERITY_LOW {
        "Low"@
    } else if severity == GL_DEBUG_SEVERITY_NOTIFICATION {
        "Note"@
    } else {
        "Unknown"@
    }
}

/// The label of a debug message's severity enumeration.
pub fn debug_severity_name(severity: u32) -> (r: &'static str)
    ensures
        r@ == spec_debug_severity_name(severity),
{
    if severity == GL_DEBUG_SEVERITY_HIGH {
        "High"
    } else if severity == GL_DEBUG_SEVERITY_MEDIUM {
        "Medium"
    } else if severity == GL_DEBUG_SEVERITY_LOW {
        "Low"
    } else if severity == GL_DEBUG_SEVERITY_NOTIFICATION {
        "Note"
    } else {
        "Unknown"
    }
}

} // verus!
