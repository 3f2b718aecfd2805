use ash::vk;
use vkcore::debug::{
    message_category, message_level, DebugOptions, DebugSeverity, DebugType, MessageCategory,
    MessageLevel, SEVERITY_ERROR, SEVERITY_INFO, SEVERITY_VERBOSE, SEVERITY_WARNING, TYPE_GENERAL,
    TYPE_PERFORMANCE, TYPE_VALIDATION,
};

#[test]
fn severity_and_type_selections() {
    let all = DebugSeverity::all();
    assert!(all.verbose && all.info && all.warning && all.error);
    assert!(DebugSeverity::none().is_none());
    assert!(!all.is_none());
    assert_eq!(all.bits(), 0x1111);
    assert_eq!(DebugSeverity { warning: true, ..DebugSeverity::none() }.bits(), SEVERITY_WARNING);
    assert_eq!(DebugSeverity::none().bits(), 0);
    assert_eq!(DebugType::all().bits(), 0x7);
    assert_eq!(DebugType { validation: true, ..DebugType::none() }.bits(), TYPE_VALIDATION);
    assert!(DebugType::none().is_none());
    let t = DebugType::all();
    assert!(t.general && t.validation && t.performance);
}

#[test]
fn debugging_needs_a_severity_and_a_type() {
    assert!(!DebugOptions::default().debug_enabled());
    let o = DebugOptions { debug_severity: DebugSeverity::all(), debug_type: DebugType::none() };
    assert!(!o.debug_enabled());
    let o = DebugOptions {
        debug_severity: DebugSeverity { error: true, ..DebugSeverity::none() },
        debug_type: DebugType { performance: true, ..DebugType::none() },
    };
    assert!(o.debug_enabled());
}

#[test]
fn message_routing() {
    assert_eq!(message_level(SEVERITY_VERBOSE | SEVERITY_ERROR), Some(MessageLevel::Trace));
    assert_eq!(message_level(SEVERITY_INFO), Some(MessageLevel::Info));
    assert_eq!(message_level(SEVERITY_WARNING | SEVERITY_ERROR), Some(MessageLevel::Warn));
    assert_eq!(message_level(SEVERITY_ERROR), Some(MessageLevel::Error));
    assert_eq!(message_level(0x2), None);
    assert_eq!(message_category(TYPE_GENERAL | TYPE_VALIDATION), MessageCategory::General);
    assert_eq!(message_category(TYPE_VALIDATION), MessageCategory::Validation);
    assert_eq!(message_category(TYPE_PERFORMANCE), MessageCategory::Performance);
    assert_eq!(message_category(0), MessageCategory::Performance);
    assert_eq!(MessageCategory::General.prefix(), "General Layer");
    assert_eq!(MessageCategory::Validation.prefix(), "Validation layer");
    assert_eq!(MessageCategory::Performance.prefix(), "Performance Layer");
}

#[test]
fn debug_constants_match_vulkan() {
    assert_eq!(SEVERITY_VERBOSE, vk::DebugUtilsMessageSeverityFlagsEXT::VERBOSE.as_raw());
    assert_eq!(SEVERITY_INFO, vk::DebugUtilsMessageSeverityFlagsEXT::INFO.as_raw());
    assert_eq!(SEVERITY_WARNING, vk::DebugUtilsMessageSeverityFlagsEXT::WARNING.as_raw());
    assert_eq!(SEVERITY_ERROR, vk::DebugUtilsMessageSeverityFlagsEXT::ERROR.as_raw());
    assert_eq!(TYPE_GENERAL, vk::DebugUtilsMessageTypeFlagsEXT::GENERAL.as_raw());
    assert_eq!(TYPE_VALIDATION, vk::DebugUtilsMessageTypeFlagsEXT::VALIDATION.as_raw());
    assert_eq!(TYPE_PERFORMANCE, vk::DebugUtilsMessageTypeFlagsEXT::PERFORMANCE.as_raw());
}
