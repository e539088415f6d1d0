//! What surrounds the calls into OpenGL without touching the graphics
//! context: the names of shader stages, the wording of errors, and the reading
//! of debug messages. The numbers are OpenGL's own enumerants.

use vstd::prelude::*;
use vstd::string::StringExecFns;

verus! {

pub const VERTEX_SHADER: u32 = 0x8B31;

pub const FRAGMENT_SHADER: u32 = 0x8B30;

pub const GEOMETRY_SHADER: u32 = 0x8DD9;

pub const TESS_CONTROL_SHADER: u32 = 0x8E88;

pub const TESS_EVALUATION_SHADER: u32 = 0x8E87;

pub const COMPUTE_SHADER: u32 = 0x91B9;

pub const DEBUG_SOURCE_API: u32 = 0x8246;

pub const DEBUG_SOURCE_WINDOW_SYSTEM: u32 = 0x8247;

pub const DEBUG_SOURCE_SHADER_COMPILER: u32 = 0x8248;

pub const DEBUG_SOURCE_THIRD_PARTY: u32 = 0x8249;

pub const DEBUG_SOURCE_APPLICATION: u32 = 0x824A;

pub const DEBUG_SOURCE_OTHER: u32 = 0x824B;

pub const DEBUG_TYPE_ERROR: u32 = 0x824C;

pub const DEBUG_TYPE_DEPRECATED_BEHAVIOR: u32 = 0x824D;

pub const DEBUG_TYPE_UNDEFINED_BEHAVIOR: u32 = 0x824E;

pub const DEBUG_TYPE_PORTABILITY: u32 = 0x824F;

pub const DEBUG_TYPE_PERFORMANCE: u32 = 0x8250;

pub const DEBUG_TYPE_OTHER: u32 = 0x8251;

pub const DEBUG_TYPE_MARKER: u32 = 0x8268;

pub const DEBUG_TYPE_PUSH_GROUP: u32 = 0x8269;

pub const DEBUG_TYPE_POP_GROUP: u32 = 0x826A;

pub const DEBUG_SEVERITY_HIGH: u32 = 0x9146;

pub const DEBUG_SEVERITY_MEDIUM: u32 = 0x9147;

pub const DEBUG_SEVERITY_LOW: u32 = 0x9148;

pub const DEBUG_SEVERITY_NOTIFICATION: u32 = 0x826B;

/// The name of a shader stage, for the stages that there are.
pub open spec fn shader_type_name(ty: u32) -> Option<Seq<char>> {
    if ty == VERTEX_SHADER {
        Some("vertex"@)
    } else if ty == TESS_CONTROL_SHADER {
        Some("tess control"@)
    } else if ty == TESS_EVALUATION_SHADER {
        Some("tess evaluation"@)
    } else if ty == GEOMETRY_SHADER {
        Some("geometry"@)
    } else if ty == FRAGMENT_SHADER {
        Some("fragment"@)
    } else if ty == COMPUTE_SHADER {
        Some("compute"@)
    } else {
        None
    }
}

/// Computes `shader_type_name`.
pub fn shader_type_as_str(ty: u32) -> (name: Option<&'static str>)
    ensures
        match name {
            Some(name) => shader_type_name(ty) == Some(name@),
            None => shader_type_name(ty) is None,
        },
{
    if ty == VERTEX_SHADER {
        Some("vertex")
    } else if ty == TESS_CONTROL_SHADER {
        Some("tess control")
    } else if ty == TESS_EVALUATION_SHADER {
        Some("tess evaluation")
    } else if ty == GEOMETRY_SHADER {
        Some("geometry")
    } else if ty == FRAGMENT_SHADER {
        Some("fragment")
    } else if ty == COMPUTE_SHADER {
        Some("compute")
    } else {
        None
    }
}

/// The error for a shader of the given stage that did not compile, with the
/// compiler's log.
pub fn compile_error_message(ty_str: &str, log: &str) -> (message: String)
    ensures
        message@ == "Failed to compile "@ + ty_str@ + " shader: "@ + log@,
{
    String::from_str("Failed to compile ").concat(ty_str).concat(" shader: ").concat(log)
}

/// The error for a program that did not link, with the linker's log.
pub fn link_error_message(log: &str) -> (message: String)
    ensures
        message@ == "Failed to link shader program: "@ + log@,
{
    String::from_str("Failed to link shader program: ").concat(log)
}

/// Where a debug message comes from, in words.
pub open spec fn debug_source_name(source: u32) -> Seq<char> {
    if source == DEBUG_SOURCE_API {
        "API"@
    } else if source == DEBUG_SOURCE_WINDOW_SYSTEM {
        "Window System"@
    } else if source == DEBUG_SOURCE_SHADER_COMPILER {
        "Shader Compiler"@
    } else if source == DEBUG_SOURCE_THIRD_PARTY {
        "Third Party"@
    } else if source == DEBUG_SOURCE_APPLICATION {
        "Application"@
    } else if source == DEBUG_SOURCE_OTHER {
        "Other"@
    } else {
        "Unknown"@
    }
}

/// What a debug message is about, in words.
pub open spec fn debug_type_name(gltype: u32) -> Seq<char> {
    if gltype == DEBUG_TYPE_ERROR {
        "Error"@
    } else if gltype == DEBUG_TYPE_DEPRECATED_BEHAVIOR {
        "Deprecated Behavior"@
    } else if gltype == DEBUG_TYPE_UNDEFINED_BEHAVIOR {
        "Undefined Behavior"@
    } else if gltype == DEBUG_TYPE_PORTABILITY {
        "Portability"@
    } else if gltype == DEBUG_TYPE_PERFORMANCE {
        "Performance"@
    } else if gltype == DEBUG_TYPE_MARKER {
        "Marker"@
    } else if gltype == DEBUG_TYPE_PUSH_GROUP {
        "Push Group"@
    } else if gltype == DEBUG_TYPE_POP_GROUP {
        "Pop Group"@
    } else if gltype == DEBUG_TYPE_OTHER {
        "Other"@
    } else {
        "Unknown"@
    }
}

/// How severe a debug message is, in words.
pub open spec fn debug_severity_name(severity: u32) -> Seq<char> {
    if severity == DEBUG_SEVERITY_HIGH {
        "High"@
    } else if severity == DEBUG_SEVERITY_MEDIUM {
        "Medium"@
    } else if severity == DEBUG_SEVERITY_LOW {
        "Low"@
    } else if severity == DEBUG_SEVERITY_NOTIFICATION {
        "Notification"@
    } else {
        "Unknown"@
    }
}

/// The source, the type and the severity of a debug message, in words.
#[derive(Debug, Clone, Copy)]
pub struct DebugLabels {
    pub source: &'static str,
    pub gltype: &'static str,
    pub severity: &'static str,
}

/// Reads the numbers of a debug message. A notification is not worth
/// reporting and gives nothing; every other message gives its labels.
pub fn debug_labels(source: u32, gltype: u32, severity: u32) -> (labels: Option<DebugLabels>)
    ensures
        labels is None <==> severity == DEBUG_SEVERITY_NOTIFICATION,
        labels matches Some(l) ==> {
            &&& l.source@ == debug_source_name(source)
            &&& l.gltype@ == debug_type_name(gltype)
            &&& l.severity@ == debug_severity_name(severity)
        },
{
    if severity == DEBUG_SEVERITY_NOTIFICATION {
        return None;
    }
    let source = if source == DEBUG_SOURCE_API {
        "API"
    } else if source == DEBUG_SOURCE_WINDOW_SYSTEM {
        "Window System"
    } else if source == DEBUG_SOURCE_SHADER_COMPILER {
        "Shader Compiler"
    } else if source == DEBUG_SOURCE_THIRD_PARTY {
        "Third Party"
    } else if source == DEBUG_SOURCE_APPLICATION {
        "Application"
    } else if source == DEBUG_SOURCE_OTHER {
        "Other"
    } else {
        "Unknown"
    };
    let gltype = if gltype == DEBUG_TYPE_ERROR {
        "Error"
    } else if gltype == DEBUG_TYPE_DEPRECATED_BEHAVIOR {
        "Deprecated Behavior"
    } else if gltype == DEBUG_TYPE_UNDEFINED_BEHAVIOR {
        "Undefined Behavior"
    } else if gltype == DEBUG_TYPE_PORTABILITY {
        "Portability"
    } else if gltype == DEBUG_TYPE_PERFORMANCE {
        "Performance"
    } else if gltype == DEBUG_TYPE_MARKER {
        "Marker"
    } else if gltype == DEBUG_TYPE_PUSH_GROUP {
        "Push Group"
    } else if gltype == DEBUG_TYPE_POP_GROUP {
        "Pop Group"
    } else if gltype == DEBUG_TYPE_OTHER {
        "Other"
    } else {
        "Unknown"
    };
    let severity = if severity == DEBUG_SEVERITY_HIGH {
        "High"
    } else if severity == DEBUG_SEVERITY_MEDIUM {
        "Medium"
    } else if severity == DEBUG_SEVERITY_LOW {
        "Low"
    } else {
        "Unknown"
    };
    Some(DebugLabels { source, gltype, severity })
}

} // verus!
