use vstd::prelude::*;

verus! {

/// `VK_DEBUG_UTILS_MESSAGE_SEVERITY_VERBOSE_BIT_EXT`.
pub const SEVERITY_VERBOSE: u32 = 0x1;
/// `VK_DEBUG_UTILS_MESSAGE_SEVERITY_INFO_BIT_EXT`.
pub const SEVERITY_INFO: u32 = 0x10;
/// `VK_DEBUG_UTILS_MESSAGE_SEVERITY_WARNING_BIT_EXT`.
pub const SEVERITY_WARNING: u32 = 0x100;
/// `VK_DEBUG_UTILS_MESSAGE_SEVERITY_ERROR_BIT_EXT`.
pub const SEVERITY_ERROR: u32 = 0x1000;
/// `VK_DEBUG_UTILS_MESSAGE_TYPE_GENERAL_BIT_EXT`.
pub const TYPE_GENERAL: u32 = 0x1;
/// `VK_DEBUG_UTILS_MESSAGE_TYPE_VALIDATION_BIT_EXT`.
pub const TYPE_VALIDATION: u32 = 0x2;
/// `VK_DEBUG_UTILS_MESSAGE_TYPE_PERFORMANCE_BIT_EXT`.
pub const TYPE_PERFORMANCE: u32 = 0x4;

/// Which validation messages reach the logger, and of which kinds.
#[derive(Debug, Default, Clone, Copy, PartialEq, Eq, Structural)]
pub struct DebugOptions {
    pub debug_severity: DebugSeverity,
    pub debug_type: DebugType,
}

/// Message severities to subscribe to.
#[derive(Debug, Default, Clone, Copy, PartialEq, Eq, Structural)]
pub struct DebugSeverity {
    pub verbose: bool,
    pub info: bool,
    pub warning: bool,
    pub error: bool,
}

/// Message categories to subscribe to.
#[derive(Debug, Default, Clone, Copy, PartialEq, Eq, Structural)]
pub struct DebugType {
    pub general: bool,
    pub validation: bool,
    pub performance: bool,
}

/// The logger level a validation message is forwarded at.
#[derive(Debug, Clone, Copy, PartialEq, Eq, Structural)]
pub enum MessageLevel {
    Trace,
    Info,
    Warn,
    Error,
}

/// The category a validation message is reported under.
#[derive(Debug, Clone, Copy, PartialEq, Eq, Structural)]
pub enum MessageCategory {
    General,
    Validation,
    Performance,
}

impl DebugSeverity {
    /// Every severity.
    pub fn all() -> (r: Self)
        ensures
            r.verbose && r.info && r.warning && r.error,
    {
        DebugSeverity { verbose: true, info: true, warning: true, error: true }
    }

    /// No severity.
    pub fn none() -> (r: Self)
        ensures
            !r.verbose && !r.info && !r.warning && !r.error,
    {
        DebugSeverity { verbose: false, info: false, warning: false, error: false }
    }

    pub open spec fn is_none_spec(self) -> bool {
        !self.verbose && !self.info && !self.warning && !self.error
    }

    pub open spec fn bits_spec(self) -> u32 {
        (if self.verbose { SEVERITY_VERBOSE } else { 0u32 }) | (if self.info {
            SEVERITY_INFO
        } else {
            0u32
        }) | (if self.warning { SEVERITY_WARNING } else { 0u32 }) | (if self.error {
            SEVERITY_ERROR
        } else {
            0u32
        })
    }

    /// Whether no severity is selected.
    pub fn is_none(&self) -> (r: bool)
        ensures
            r == self.is_none_spec(),
    {
        !self.verbose && !self.info && !self.warning && !self.error
    }

    /// The selection as a Vulkan severity mask.
    pub fn bits(&self) -> (r: u32)
        ensures
            r == self.bits_spec(),
    {
        (if self.verbose { SEVERITY_VERBOSE } else { 0u32 }) | (if self.info {
            SEVERITY_INFO
        } else {
            0u32
        }) | (if self.warning { SEVERITY_WARNING } else { 0u32 }) | (if self.error {
            SEVERITY_ERROR
        } else {
            0u32
        })
    }
}

impl DebugType {
    /// Every category.
    pub fn all() -> (r: Self)
        ensures
            r.general && r.validation && r.performance,
    {
        DebugType { general: true, validation: true, performance: true }
    }

    /// No category.
    pub fn none() -> (r: Self)
        ensures
            !r.general && !r.validation && !r.performance,
    {
        DebugType { general: false, validation: false, performance: false }
    }

    pub open spec fn is_none_spec(self) -> bool {
        !self.general && !self.validation && !self.performance
    }

    pub open spec fn bits_spec(self) -> u32 {
        (if self.general { TYPE_GENERAL } else { 0u32 }) | (if self.validation {
            TYPE_VALIDATION
        } else {
            0u32
        }) | (if self.performance { TYPE_PERFORMANCE } else { 0u32 })
    }

    /// Whether no category is selected.
    pub fn is_none(&self) -> (r: bool)
        ensures
            r == self.is_none_spec(),
    {
        !self.general && !self.validation && !self.performance
    }

    /// The selection as a Vulkan message-type mask.
    pub fn bits(&self) -> (r: u32)
        ensures
            r == self.bits_spec(),
    {
        (if self.general { TYPE_GENERAL } else { 0u32 }) | (if self.validation {
            TYPE_VALIDATION
        } else {
            0u32
        }) | (if self.performance { TYPE_PERFORMANCE } else { 0u32 })
    }
}

impl DebugOptions {
    pub open spec fn enabled_spec(self) -> bool {
        !self.debug_severity.is_none_spec() && !self.debug_type.is_none_spec()
    }

    /// The validation layer and messenger are installed only when at least
    /// one severity and one category are selected.
    pub fn debug_enabled(&self) -> (r: bool)
        ensures
            r == self.enabled_spec(),
    {
        !self.debug_severity.is_none() && !self.debug_type.is_none()
    }
}

pub open spec fn message_level_spec(severity: u32) -> Option<MessageLevel> {
    if severity & SEVERITY_VERBOSE != 0 {
        Some(MessageLevel::Trace)
    } else if severity & SEVERITY_INFO != 0 {
        Some(MessageLevel::Info)
    } else if severity & SEVERITY_WARNING != 0 {
        Some(MessageLevel::Warn)
    } else if severity & SEVERITY_ERROR != 0 {
        Some(MessageLevel::Error)
    } else {
        None
    }
}

pub open spec fn message_category_spec(message_type: u32) -> MessageCategory {
    if message_type & TYPE_GENERAL != 0 {
        MessageCategory::General
    } else if message_type & TYPE_VALIDATION != 0 {
        MessageCategory::Validation
    } else {
        MessageCategory::Performance
    }
}

/// The logger level of a message with the given severity mask: the lowest
/// severity bit set decides; a mask with no known bit is not forwarded.
pub fn message_level(severity: u32) -> (r: Option<MessageLevel>)
    ensures
        r == message_level_spec(severity),
{
    if severity & SEVERITY_VERBOSE != 0 {
        Some(MessageLevel::Trace)
    } else if severity & SEVERITY_INFO != 0 {
        Some(MessageLevel::Info)
    } else if severity & SEVERITY_WARNING != 0 {
        Some(MessageLevel::Warn)
    } else if severity & SEVERITY_ERROR != 0 {
        Some(MessageLevel::Error)
    } else {
        None
    }
}

/// The category of a message with the given type mask; general wins over
/// validation, which wins over performance.
pub fn message_category(message_type: u32) -> (r: MessageCategory)
    ensures
        r == message_category_spec(message_type),
{
    if message_type & TYPE_GENERAL != 0 {
        MessageCategory::General
    } else if message_type & TYPE_VALIDATION != 0 {
        MessageCategory::Validation
    } else {
        MessageCategory::Performance
    }
}

impl MessageCategory {
    /// The prefix that the logger line starts with.
    pub fn prefix(&self) -> (r: &'static str)
        ensures
            *self == MessageCategory::General ==> r@ == "General Layer"@,
            *self == MessageCategory::Validation ==> r@ == "Validation layer"@,
            *self == MessageCategory::Performance ==> r@ == "Performance Layer"@,
    {
        proof {
            reveal_strlit("General Layer");
            reveal_strlit("Validation layer");
            reveal_strlit("Performance Layer");
        }
        match self {
            MessageCategory::General => "General Layer",
            MessageCategory::Validation => "Validation layer",
            MessageCategory::Performance => "Performance Layer",
        }
    }
}

} // verus!
