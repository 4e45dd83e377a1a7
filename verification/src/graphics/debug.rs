use vstd::prelude::*;
use crate::graphics::renderer::codes;

verus! {

// Labels of the fields of an OpenGL debug message.

/// The name of the source of a debug message.
pub open spec fn spec_debug_source_label(source: u32) -> Seq<char> {
    if source == codes::GL_DEBUG_SOURCE_API {
        "API"@
    } else if source == codes::GL_DEBUG_SOURCE_WINDOW_SYSTEM {
        "Window System"@
    } else if source == codes::GL_DEBUG_SOURCE_SHADER_COMPILER {
        "Shader Compiler"@
    } else if source == codes::GL_DEBUG_SOURCE_THIRD_PARTY {
        "Third Party"@
    } else if source == codes::GL_DEBUG_SOURCE_APPLICATION {
        "Application"@
    } else if source == codes::GL_DEBUG_SOURCE_OTHER {
        "Other"@
    } else {
        "Unknown"@
    }
}

pub fn debug_source_label(source: u32) -> (r: &'static str)
    ensures
        r@ == spec_debug_source_label(source),
{
    if source == codes::GL_DEBUG_SOURCE_API {
        "API"
    } else if source == codes::GL_DEBUG_SOURCE_WINDOW_SYSTEM {
        "Window System"
    } else if source == codes::GL_DEBUG_SOURCE_SHADER_COMPILER {
        "Shader Compiler"
    } else if source == codes::GL_DEBUG_SOURCE_THIRD_PARTY {
        "Third Party"
    } else if source == codes::GL_DEBUG_SOURCE_APPLICATION {
        "Application"
    } else if source == codes::GL_DEBUG_SOURCE_OTHER {
        "Other"
    } else {
        "Unknown"
    }
}

/// The name of the kind of a debug message.
pub open spec fn spec_debug_type_label(gl_type: u32) -> Seq<char> {
    if gl_type == codes::GL_DEBUG_TYPE_ERROR {
        "Error"@
    } else if gl_type == codes::GL_DEBUG_TYPE_DEPRECATED_BEHAVIOR {
        "Deprecated"@
    } else if gl_type == codes::GL_DEBUG_TYPE_UNDEFINED_BEHAVIOR {
        "Undefined Behavior"@
    } else if gl_type == codes::GL_DEBUG_TYPE_PORTABILITY {
        "Portability"@
    } else if gl_type == codes::GL_DEBUG_TYPE_PERFORMANCE {
        "Performance"@
    } else if gl_type == codes::GL_DEBUG_TYPE_MARKER {
        "Marker"@
    } else if gl_type == codes::GL_DEBUG_TYPE_PUSH_GROUP {
        "Push Group"@
    } else if gl_type == codes::GL_DEBUG_TYPE_POP_GROUP {
        "Pop Group"@
    } else if gl_type == codes::GL_DEBUG_TYPE_OTHER {
        "Other"@
    } else {
        "Unknown"@
    }
}

pub fn debug_type_label(gl_type: u32) -> (r: &'static str)
    ensures
        r@ == spec_debug_type_label(gl_type),
{
    if gl_type == codes::GL_DEBUG_TYPE_ERROR {
        "Error"
    } else if gl_type == codes::GL_DEBUG_TYPE_DEPRECATED_BEHAVIOR {
        "Deprecated"
    } else if gl_type == codes::GL_DEBUG_TYPE_UNDEFINED_BEHAVIOR {
        "Undefined Behavior"
    } else if gl_type == codes::GL_DEBUG_TYPE_PORTABILITY {
        "Portability"
    } else if gl_type == codes::GL_DEBUG_TYPE_PERFORMANCE {
        "Performance"
    } else if gl_type == codes::GL_DEBUG_TYPE_MARKER {
        "Marker"
    } else if gl_type == codes::GL_DEBUG_TYPE_PUSH_GROUP {
        "Push Group"
    } else if gl_type == codes::GL_DEBUG_TYPE_POP_GROUP {
        "Pop Group"
    } else if gl_type == codes::GL_DEBUG_TYPE_OTHER {
        "Other"
    } else {
        "Unknown"
    }
}

/// The name of the severity of a debug message, coloured red, yellow, green or blue for a terminal.
pub open spec fn spec_debug_severity_label(severity: u32) -> Seq<char> {
    if severity == codes::GL_DEBUG_SEVERITY_HIGH {
        "\x1b[31mHigh\x1b[0m"@
    } else if severity == codes::GL_DEBUG_SEVERITY_MEDIUM {
        "\x1b[33mMedium\x1b[0m"@
    } else if severity == codes::GL_DEBUG_SEVERITY_LOW {
        "\x1b[32mLow\x1b[0m"@
    } else if severity == codes::GL_DEBUG_SEVERITY_NOTIFICATION {
        "\x1b[34mNote\x1b[0m"@
    } else {
        "Unknown"@
    }
}

pub fn debug_severity_label(severity: u32) -> (r: &'static str)
    ensures
        r@ == spec_debug_severity_label(severity),
{
    if severity == codes::GL_DEBUG_SEVERITY_HIGH {
        "\x1b[31mHigh\x1b[0m"
    } else if severity == codes::GL_DEBUG_SEVERITY_MEDIUM {
        "\x1b[33mMedium\x1b[0m"
    } else if severity == codes::GL_DEBUG_SEVERITY_LOW {
        "\x1b[32mLow\x1b[0m"
    } else if severity == codes::GL_DEBUG_SEVERITY_NOTIFICATION {
        "\x1b[34mNote\x1b[0m"
    } else {
        "Unknown"
    }
}

/// Each debug-message code has the label of its name (the source
/// `GL_DEBUG_SOURCE_API`, 0x8246, is "API", and so on), and every other
/// code is "Unknown".
pub proof fn lemma_debug_labels(code: u32)
    ensures
        spec_debug_source_label(0x8246) == "API"@,
        spec_debug_source_label(0x8247) == "Window System"@,
        spec_debug_source_label(0x8248) == "Shader Compiler"@,
        spec_debug_source_label(0x8249) == "Third Party"@,
        spec_debug_source_label(0x824A) == "Application"@,
        spec_debug_source_label(0x824B) == "Other"@,
        !(0x8246 <= code <= 0x824B) ==> spec_debug_source_label(code) == "Unknown"@,
        spec_debug_type_label(0x824C) == "Error"@,
        spec_debug_type_label(0x824D) == "Deprecated"@,
        spec_debug_type_label(0x824E) == "Undefined Behavior"@,
        spec_debug_type_label(0x824F) == "Portability"@,
        spec_debug_type_label(0x8250) == "Performance"@,
        spec_debug_type_label(0x8251) == "Other"@,
        spec_debug_type_label(0x8268) == "Marker"@,
        spec_debug_type_label(0x8269) == "Push Group"@,
        spec_debug_type_label(0x826A) == "Pop Group"@,
        !(0x824C <= code <= 0x8251) && !(0x8268 <= code <= 0x826A) ==> spec_debug_type_label(code)
            == "Unknown"@,
        spec_debug_severity_label(0x9146) == "\x1b[31mHigh\x1b[0m"@,
        spec_debug_severity_label(0x9147) == "\x1b[33mMedium\x1b[0m"@,
        spec_debug_severity_label(0x9148) == "\x1b[32mLow\x1b[0m"@,
        spec_debug_severity_label(0x826B) == "\x1b[34mNote\x1b[0m"@,
        !(0x9146 <= code <= 0x9148) && code != 0x826B ==> spec_debug_severity_label(code) == "Unknown"@,
{
}

} // verus!
