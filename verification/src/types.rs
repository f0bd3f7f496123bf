//! The data carried by a security-test annotation and by its binary record.

use vstd::prelude::*;

verus! {

/// How severe a weakness in the annotated function would be.
#[derive(Clone, Copy, Debug, PartialEq, Eq, Structural)]
pub enum ThreatLevel {
    Low,
    Medium,
    High,
    Critical,
}

impl ThreatLevel {
    /// The number that stands for this level in a record: 0 for low up to 3 for critical.
    pub open spec fn ordinal_spec(self) -> u8 {
        match self {
            ThreatLevel::Low => 0,
            ThreatLevel::Medium => 1,
            ThreatLevel::High => 2,
            ThreatLevel::Critical => 3,
        }
    }

    /// The level that a number stands for, if it stands for one.
    pub open spec fn from_ordinal_spec(ordinal: u8) -> Option<ThreatLevel> {
        if ordinal == 0 {
            Some(ThreatLevel::Low)
        } else if ordinal == 1 {
            Some(ThreatLevel::Medium)
        } else if ordinal == 2 {
            Some(ThreatLevel::High)
        } else if ordinal == 3 {
            Some(ThreatLevel::Critical)
        } else {
            None
        }
    }

    /// The number that stands for this level in a record.
    #[verifier::when_used_as_spec(ordinal_spec)]
    pub fn ordinal(self) -> (ordinal: u8)
        ensures
            ordinal == self.ordinal_spec(),
            ordinal <= 3,
    {
        match self {
            ThreatLevel::Low => 0,
            ThreatLevel::Medium => 1,
            ThreatLevel::High => 2,
            ThreatLevel::Critical => 3,
        }
    }

    /// The level that a number stands for; none for a number above 3.
    #[verifier::when_used_as_spec(from_ordinal_spec)]
    pub fn from_ordinal(ordinal: u8) -> (level: Option<ThreatLevel>)
        ensures
            level == ThreatLevel::from_ordinal_spec(ordinal),
            level is Some <==> ordinal <= 3,
            level matches Some(l) ==> l.ordinal_spec() == ordinal,
    {
        match ordinal {
            0 => Some(ThreatLevel::Low),
            1 => Some(ThreatLevel::Medium),
            2 => Some(ThreatLevel::High),
            3 => Some(ThreatLevel::Critical),
            _ => None,
        }
    }
}

impl Default for ThreatLevel {
    /// An annotation that names no level is of medium severity.
    fn default() -> (level: ThreatLevel)
        ensures
            level == ThreatLevel::Medium,
    {
        ThreatLevel::Medium
    }
}

/// What an annotation asks for: which classes of weakness to probe, and how
/// severe the function is.
#[derive(Clone, Copy, Debug, PartialEq, Eq, Structural)]
pub struct SecurityTestConfig {
    pub sql_injection: bool,
    pub race_condition: bool,
    pub timing_attack: bool,
    pub buffer_overflow: bool,
    pub threat_level: ThreatLevel,
}

impl SecurityTestConfig {
    /// The configuration of an annotation without text: no probe, medium severity.
    pub open spec fn empty() -> SecurityTestConfig {
        SecurityTestConfig {
            sql_injection: false,
            race_condition: false,
            timing_attack: false,
            buffer_overflow: false,
            threat_level: ThreatLevel::Medium,
        }
    }
}

impl Default for SecurityTestConfig {
    /// The configuration of an annotation without text.
    fn default() -> (config: SecurityTestConfig)
        ensures
            config == SecurityTestConfig::empty(),
    {
        SecurityTestConfig {
            sql_injection: false,
            race_condition: false,
            timing_attack: false,
            buffer_overflow: false,
            threat_level: ThreatLevel::Medium,
        }
    }
}

/// The fields of one binary record: the marker by which a scanner finds it,
/// the length of the annotated function's name, and the configuration.
#[derive(Clone, Copy, Debug, PartialEq, Eq, Structural)]
pub struct SecurityTestMetadata {
    /// Marks a record among arbitrary data; `MAGIC` in every record that is
    /// meant to be found.
    pub magic: u64,
    /// The number of bytes of the function's name, as far as one byte holds it.
    pub name_length: u8,
    pub test_config: SecurityTestConfig,
}

} // verus!
