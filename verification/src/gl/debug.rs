//! What a debug message of the driver says of itself: where it comes from, what kind it is
//! of, and how severe it is.

use vstd::prelude::*;

verus! {

/// The number of the source `API`.
pub const DEBUG_SOURCE_API: u32 = 0x8246;

/// The number of the source `WINDOW_SYSTEM`.
pub const DEBUG_SOURCE_WINDOW_SYSTEM: u32 = 0x8247;

/// The number of the source `SHADER_COMPILER`.
pub const DEBUG_SOURCE_SHADER_COMPILER: u32 = 0x8248;

/// The number of the source `THIRD_PARTY`.
pub const DEBUG_SOURCE_THIRD_PARTY: u32 = 0x8249;

/// The number of the source `APPLICATION`.
pub const DEBUG_SOURCE_APPLICATION: u32 = 0x824A;

/// The number of the source `OTHER`.
pub const DEBUG_SOURCE_OTHER: u32 = 0x824B;

/// Where a debug message comes from.
#[derive(Clone, Copy, Debug, PartialEq, Eq, Structural, Hash)]
pub struct DebugMessageSource(pub u32);

impl DebugMessageSource {
    /// The name of the source, or `UNKNOWN` where the number is none that is known.
    pub open spec fn spec_name(self) -> Seq<char> {
        if self.0 == DEBUG_SOURCE_API {
            "API"@
        } else if self.0 == DEBUG_SOURCE_WINDOW_SYSTEM {
            "WINDOW_SYSTEM"@
        } else if self.0 == DEBUG_SOURCE_SHADER_COMPILER {
            "SHADER_COMPILER"@
        } else if self.0 == DEBUG_SOURCE_THIRD_PARTY {
            "THIRD_PARTY"@
        } else if self.0 == DEBUG_SOURCE_APPLICATION {
            "APPLICATION"@
        } else if self.0 == DEBUG_SOURCE_OTHER {
            "OTHER"@
        } else {
            "UNKNOWN"@
        }
    }

    /// The name of the source, or `UNKNOWN` where the number is none that is known.
    pub fn name(&self) -> (name: &'static str)
        ensures
            name@ == self.spec_name(),
    {
        if self.0 == DEBUG_SOURCE_API {
            "API"
        } else if self.0 == DEBUG_SOURCE_WINDOW_SYSTEM {
            "WINDOW_SYSTEM"
        } else if self.0 == DEBUG_SOURCE_SHADER_COMPILER {
            "SHADER_COMPILER"
        } else if self.0 == DEBUG_SOURCE_THIRD_PARTY {
            "THIRD_PARTY"
        } else if self.0 == DEBUG_SOURCE_APPLICATION {
            "APPLICATION"
        } else if self.0 == DEBUG_SOURCE_OTHER {
            "OTHER"
        } else {
            "UNKNOWN"
        }
    }
}

/// The number of the kind `ERROR`.
pub const DEBUG_TYPE_ERROR: u32 = 0x824C;

/// The number of the kind `DEPRECATED_BEHAVIOR`.
pub const DEBUG_TYPE_DEPRECATED_BEHAVIOR: u32 = 0x824D;

/// The number of the kind `UNDEFINED_BEHAVIOR`.
pub const DEBUG_TYPE_UNDEFINED_BEHAVIOR: u32 = 0x824E;

/// The number of the kind `PORTABILITY`.
pub const DEBUG_TYPE_PORTABILITY: u32 = 0x824F;

/// The number of the kind `PERFORMANCE`.
pub const DEBUG_TYPE_PERFORMANCE: u32 = 0x8250;

/// The number of the kind `OTHER`.
pub const DEBUG_TYPE_OTHER: u32 = 0x8251;

/// The number of the kind `MARKER`.
pub const DEBUG_TYPE_MARKER: u32 = 0x8268;

/// What kind a debug message is of.
#[derive(Clone, Copy, Debug, PartialEq, Eq, Structural, Hash)]
pub struct DebugMessageType(pub u32);

impl DebugMessageType {
    /// The name of the kind, or `UNKNOWN` where the number is none that is known.
    pub open spec fn spec_name(self) -> Seq<char> {
        if self.0 == DEBUG_TYPE_ERROR {
            "ERROR"@
        } else if self.0 == DEBUG_TYPE_DEPRECATED_BEHAVIOR {
            "DEPRECATED_BEHAVIOR"@
        } else if self.0 == DEBUG_TYPE_UNDEFINED_BEHAVIOR {
            "UNDEFINED_BEHAVIOR"@
        } else if self.0 == DEBUG_TYPE_PORTABILITY {
            "PORTABILITY"@
        } else if self.0 == DEBUG_TYPE_PERFORMANCE {
            "PERFORMANCE"@
        } else if self.0 == DEBUG_TYPE_OTHER {
            "OTHER"@
        } else if self.0 == DEBUG_TYPE_MARKER {
            "MARKER"@
        } else {
            "UNKNOWN"@
        }
    }

    /// The name of the kind, or `UNKNOWN` where the number is none that is known.
    pub fn name(&self) -> (name: &'static str)
        ensures
            name@ == self.spec_name(),
    {
        if self.0 == DEBUG_TYPE_ERROR {
            "ERROR"
        } else if self.0 == DEBUG_TYPE_DEPRECATED_BEHAVIOR {
            "DEPRECATED_BEHAVIOR"
        } else if self.0 == DEBUG_TYPE_UNDEFINED_BEHAVIOR {
            "UNDEFINED_BEHAVIOR"
        } else if self.0 == DEBUG_TYPE_PORTABILITY {
            "PORTABILITY"
        } else if self.0 == DEBUG_TYPE_PERFORMANCE {
            "PERFORMANCE"
        } else if self.0 == DEBUG_TYPE_OTHER {
            "OTHER"
        } else if self.0 == DEBUG_TYPE_MARKER {
            "MARKER"
        } else {
            "UNKNOWN"
        }
    }
}

/// The number of the severity `HIGH`.
pub const DEBUG_SEVERITY_HIGH: u32 = 0x9146;

/// The number of the severity `MEDIUM`.
pub const DEBUG_SEVERITY_MEDIUM: u32 = 0x9147;

/// The number of the severity `LOW`.
pub const DEBUG_SEVERITY_LOW: u32 = 0x9148;

/// The number of the severity `NOTIFICATION`.
pub const DEBUG_SEVERITY_NOTIFICATION: u32 = 0x826B;

/// How severe a debug message is.
#[derive(Clone, Copy, Debug, PartialEq, Eq, Structural, Hash)]
pub struct DebugMessageSeverity(pub u32);

impl DebugMessageSeverity {
    /// The name of the severity, or `UNKNOWN` where the number is none that is known.
    pub open spec fn spec_name(self) -> Seq<char> {
        if self.0 == DEBUG_SEVERITY_HIGH {
            "HIGH"@
        } else if self.0 == DEBUG_SEVERITY_MEDIUM {
            "MEDIUM"@
        } else if self.0 == DEBUG_SEVERITY_LOW {
            "LOW"@
        } else if self.0 == DEBUG_SEVERITY_NOTIFICATION {
            "NOTIFICATION"@
        } else {
            "UNKNOWN"@
        }
    }

    /// The name of the severity, or `UNKNOWN` where the number is none that is known.
    pub fn name(&self) -> (name: &'static str)
        ensures
            name@ == self.spec_name(),
    {
        if self.0 == DEBUG_SEVERITY_HIGH {
            "HIGH"
        } else if self.0 == DEBUG_SEVERITY_MEDIUM {
            "MEDIUM"
        } else if self.0 == DEBUG_SEVERITY_LOW {
            "LOW"
        } else if self.0 == DEBUG_SEVERITY_NOTIFICATION {
            "NOTIFICATION"
        } else {
            "UNKNOWN"
        }
    }
}
} // verus!
