use flappy_bird::graphics::debug::{debug_severity_label, debug_source_label, debug_type_label};

#[test]
fn debug_message_labels() {
    assert_eq!(debug_source_label(gl::DEBUG_SOURCE_API), "API");
    assert_eq!(debug_source_label(gl::DEBUG_SOURCE_WINDOW_SYSTEM), "Window System");
    assert_eq!(debug_source_label(gl::DEBUG_SOURCE_SHADER_COMPILER), "Shader Compiler");
    assert_eq!(debug_source_label(gl::DEBUG_SOURCE_THIRD_PARTY), "Third Party");
    assert_eq!(debug_source_label(gl::DEBUG_SOURCE_APPLICATION), "Application");
    assert_eq!(debug_source_label(gl::DEBUG_SOURCE_OTHER), "Other");
    assert_eq!(debug_source_label(0), "Unknown");
    assert_eq!(debug_type_label(gl::DEBUG_TYPE_ERROR), "Error");
    assert_eq!(debug_type_label(gl::DEBUG_TYPE_DEPRECATED_BEHAVIOR), "Deprecated");
    assert_eq!(debug_type_label(gl::DEBUG_TYPE_UNDEFINED_BEHAVIOR), "Undefined Behavior");
    assert_eq!(debug_type_label(gl::DEBUG_TYPE_PORTABILITY), "Portability");
    assert_eq!(debug_type_label(gl::DEBUG_TYPE_PERFORMANCE), "Performance");
    assert_eq!(debug_type_label(gl::DEBUG_TYPE_MARKER), "Marker");
    assert_eq!(debug_type_label(gl::DEBUG_TYPE_PUSH_GROUP), "Push Group");
    assert_eq!(debug_type_label(gl::DEBUG_TYPE_POP_GROUP), "Pop Group");
    assert_eq!(debug_type_label(gl::DEBUG_TYPE_OTHER), "Other");
    assert_eq!(debug_type_label(gl::DEBUG_SOURCE_API), "Unknown");
    assert_eq!(debug_severity_label(gl::DEBUG_SEVERITY_HIGH), "\x1b[31mHigh\x1b[0m");
    assert_eq!(debug_severity_label(gl::DEBUG_SEVERITY_MEDIUM), "\x1b[33mMedium\x1b[0m");
    assert_eq!(debug_severity_label(gl::DEBUG_SEVERITY_LOW), "\x1b[32mLow\x1b[0m");
    assert_eq!(debug_severity_label(gl::DEBUG_SEVERITY_NOTIFICATION), "\x1b[34mNote\x1b[0m");
    assert_eq!(debug_severity_label(1), "Unknown");
}
