//! The debug messenger: which validation messages the engine asks for and how it labels them.
use vstd::prelude::*;

verus! {

/// `VK_DEBUG_UTILS_MESSAGE_SEVERITY_VERBOSE_BIT_EXT`
pub const SEVERITY_VERBOSE: u32 = 0x1u32;

/// `VK_DEBUG_UTILS_MESSAGE_SEVERITY_INFO_BIT_EXT`
pub const SEVERITY_INFO: u32 = 0x10u32;

/// `VK_DEBUG_UTILS_MESSAGE_SEVERITY_WARNING_BIT_EXT`
pub const SEVERITY_WARNING: u32 = 0x100u32;

/// `VK_DEBUG_UTILS_MESSAGE_SEVERITY_ERROR_BIT_EXT`
pub const SEVERITY_ERROR: u32 = 0x1000u32;

/// `VK_DEBUG_UTILS_MESSAGE_TYPE_GENERAL_BIT_EXT`
pub const TYPE_GENERAL: u32 = 0x1u32;

/// `VK_DEBUG_UTILS_MESSAGE_TYPE_VALIDATION_BIT_EXT`
pub const TYPE_VALIDATION: u32 = 0x2u32;

/// `VK_DEBUG_UTILS_MESSAGE_TYPE_PERFORMANCE_BIT_EXT`
pub const TYPE_PERFORMANCE: u32 = 0x4u32;

/// Which messages the debug messenger reports.
#[derive(Clone, Copy, Debug, PartialEq, Eq)]
pub struct DebugMessengerCreateInfo {
    /// `VkDebugUtilsMessageSeverityFlagsEXT` bits.
    pub message_severity: u32,
    /// `VkDebugUtilsMessageTypeFlagsEXT` bits.
    pub message_type: u32,
}

/// Warnings and errors of every message type.
pub fn populate_debug_messenger_create_info() -> (r: DebugMessengerCreateInfo)
    ensures
        r.message_severity == SEVERITY_WARNING | SEVERITY_ERROR,
        r.message_type == TYPE_GENERAL | TYPE_PERFORMANCE | TYPE_VALIDATION,
{
    DebugMessengerCreateInfo {
        message_severity: SEVERITY_WARNING | SEVERITY_ERROR,
        message_type: TYPE_GENERAL | TYPE_PERFORMANCE | TYPE_VALIDATION,
    }
}

/// The label of a message severity; only a single known severity bit has a name.
pub open spec fn severity_text(severity: u32) -> Seq<char> {
    if severity == SEVERITY_VERBOSE {
        "[Verbose]"@
    } else if severity == SEVERITY_WARNING {
        "[Warning]"@
    } else if severity == SEVERITY_ERROR {
        "[Error]"@
    } else if severity == SEVERITY_INFO {
        "[Info]"@
    } else {
        "[Unknown]"@
    }
}

/// The label of a message type; only a single known type bit has a name.
pub open spec fn message_type_text(message_type: u32) -> Seq<char> {
    if message_type == TYPE_GENERAL {
        "[General]"@
    } else if message_type == TYPE_PERFORMANCE {
        "[Performance]"@
    } else if message_type == TYPE_VALIDATION {
        "[Validation]"@
    } else {
        "[Unknown]"@
    }
}

/// The label that a debug message of this severity is printed with.
pub fn severity_label(severity: u32) -> (r: &'static str)
    ensures
        r@ == severity_text(severity),
{
    if severity == SEVERITY_VERBOSE {
        "[Verbose]"
    } else if severity == SEVERITY_WARNING {
        "[Warning]"
    } else if severity == SEVERITY_ERROR {
        "[Error]"
    } else if severity == SEVERITY_INFO {
        "[Info]"
    } else {
        "[Unknown]"
    }
}

/// The label that a debug message of this type is printed with.
pub fn message_type_label(message_type: u32) -> (r: &'static str)
    ensures
        r@ == message_type_text(message_type),
{
    if message_type == TYPE_GENERAL {
        "[General]"
    } else if message_type == TYPE_PERFORMANCE {
        "[Performance]"
    } else if message_type == TYPE_VALIDATION {
        "[Validation]"
    } else {
        "[Unknown]"
    }
}

} // verus!
