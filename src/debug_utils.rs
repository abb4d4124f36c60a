use vstd::prelude::*;

verus! {

// Raw `VkDebugUtilsMessageSeverityFlagBitsEXT` values.
pub const SEVERITY_VERBOSE: u32 = 0x1;

pub const SEVERITY_INFO: u32 = 0x10;

pub const SEVERITY_WARNING: u32 = 0x100;

pub const SEVERITY_ERROR: u32 = 0x1000;

// Raw `VkDebugUtilsMessageTypeFlagBitsEXT` values.
pub const TYPE_GENERAL: u32 = 0x1;

pub const TYPE_VALIDATION: u32 = 0x2;

pub const TYPE_PERFORMANCE: u32 = 0x4;

/// The severities the messenger is registered for: all of them.
pub const ALL_SEVERITIES: u32 = SEVERITY_VERBOSE | SEVERITY_INFO | SEVERITY_WARNING | SEVERITY_ERROR;

/// The message types the messenger is registered for: all of them.
pub const ALL_MESSAGE_TYPES: u32 = TYPE_GENERAL | TYPE_VALIDATION | TYPE_PERFORMANCE;

/// Whether a message is written out: all but the verbose or informational general ones.
pub open spec fn is_reported(severity: u32, message_type: u32) -> bool {
    !((severity == SEVERITY_VERBOSE || severity == SEVERITY_INFO) && message_type == TYPE_GENERAL)
}

/// Decides whether the debug callback writes out a message of the given severity and type.
pub fn should_report(severity: u32, message_type: u32) -> (r: bool)
    ensures
        r == is_reported(severity, message_type),
{
    !((severity == SEVERITY_VERBOSE || severity == SEVERITY_INFO) && message_type == TYPE_GENERAL)
}

} // verus!
