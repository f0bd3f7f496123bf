//! Where the generated items are placed in the compiled object.
//!
//! Records and names go to two sections of their own, whose names follow
//! the conventions of the target's object format.

use vstd::prelude::*;

verus! {

/// The operating systems whose object formats have section names here.
#[derive(Clone, Copy, Debug, PartialEq, Eq, Structural)]
pub enum TargetOs {
    Linux,
    Macos,
    Windows,
}

impl TargetOs {
    /// The value of `target_os` that selects this system.
    pub open spec fn name_spec(self) -> Seq<char> {
        match self {
            TargetOs::Linux => "linux"@,
            TargetOs::Macos => "macos"@,
            TargetOs::Windows => "windows"@,
        }
    }

    /// The section that holds the records.
    pub open spec fn record_section_spec(self) -> Seq<char> {
        match self {
            TargetOs::Linux => ".security_tests"@,
            TargetOs::Macos => "__DATA,__sectests"@,
            TargetOs::Windows => ".sectests"@,
        }
    }

    /// The section that holds the function names.
    pub open spec fn name_section_spec(self) -> Seq<char> {
        match self {
            TargetOs::Linux => ".security_names"@,
            TargetOs::Macos => "__DATA,__secnames"@,
            TargetOs::Windows => ".secnames"@,
        }
    }

    /// The value of `target_os` that selects this system.
    pub fn name(self) -> (name: &'static str)
        ensures
            name@ == self.name_spec(),
    {
        match self {
            TargetOs::Linux => "linux",
            TargetOs::Macos => "macos",
            TargetOs::Windows => "windows",
        }
    }

    /// The section that holds the records on this system.
    pub fn record_section(self) -> (section: &'static str)
        ensures
            section@ == self.record_section_spec(),
    {
        match self {
            TargetOs::Linux => ".security_tests",
            TargetOs::Macos => "__DATA,__sectests",
            TargetOs::Windows => ".sectests",
        }
    }

    /// The section that holds the function names on this system.
    pub fn name_section(self) -> (section: &'static str)
        ensures
            section@ == self.name_section_spec(),
    {
        match self {
            TargetOs::Linux => ".security_names",
            TargetOs::Macos => "__DATA,__secnames",
            TargetOs::Windows => ".secnames",
        }
    }
}

/// On every system the records and the names go to two different sections,
/// so that a scanner can stride through the records alone.
pub proof fn lemma_sections_differ(os: TargetOs)
    ensures
        os.record_section_spec() != os.name_section_spec(),
{
    reveal_strlit(".security_tests");
    reveal_strlit(".security_names");
    reveal_strlit("__DATA,__sectests");
    reveal_strlit("__DATA,__secnames");
    reveal_strlit(".sectests");
    reveal_strlit(".secnames");
    match os {
        TargetOs::Linux => {
            assert(".security_tests"@[10] == 't');
            assert(".security_names"@[10] == 'n');
        },
        TargetOs::Macos => {
            assert("__DATA,__sectests"@[12] == 't');
            assert("__DATA,__secnames"@[12] == 'n');
        },
        TargetOs::Windows => {
            assert(".sectests"@[4] == 't');
            assert(".secnames"@[4] == 'n');
        },
    }
}

} // verus!
