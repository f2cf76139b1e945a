//! The decision rule of database initialisation: what to do with a database
//! directory given whether it is empty and what its version file holds. The
//! file and environment handling around it is I/O and lives with the caller.

use vstd::prelude::*;

verus! {

/// What a look at the database's version file found.
#[derive(Clone, Copy, Debug, PartialEq, Eq, Structural)]
pub enum VersionFileCheck {
    /// The file exists and holds the running version.
    Matches,
    /// The file does not exist.
    Missing,
    /// The file exists but cannot be parsed.
    Malformed,
    /// The file holds another version; carries it.
    Mismatch(u32),
}

/// What database initialisation must do next.
#[derive(Clone, Copy, Debug, PartialEq, Eq, Structural)]
pub enum InitDbAction {
    /// Create the database directory and its version file, then open.
    CreateDirAndVersionFile,
    /// Create the missing version file in the existing directory, then open.
    CreateVersionFile,
    /// Open the existing database as it is.
    OpenExisting,
    /// Refuse: the version file is malformed.
    FailMalformed,
    /// Refuse: the database was written by another version; carries it.
    FailVersionMismatch(u32),
}

/// The action initialisation takes for each finding.
pub open spec fn init_db_plan_spec(db_is_empty: bool, check: VersionFileCheck) -> InitDbAction {
    if db_is_empty {
        InitDbAction::CreateDirAndVersionFile
    } else {
        match check {
            VersionFileCheck::Matches => InitDbAction::OpenExisting,
            VersionFileCheck::Missing => InitDbAction::CreateVersionFile,
            VersionFileCheck::Malformed => InitDbAction::FailMalformed,
            VersionFileCheck::Mismatch(v) => InitDbAction::FailVersionMismatch(v),
        }
    }
}

/// Decides what database initialisation does: an empty directory is set up
/// from scratch; an existing one is opened when its version file matches or
/// is recreated when the file is missing; a malformed or mismatching version
/// file refuses initialisation.
pub fn init_db_plan(db_is_empty: bool, check: VersionFileCheck) -> (r: InitDbAction)
    ensures
        r == init_db_plan_spec(db_is_empty, check),
{
    if db_is_empty {
        InitDbAction::CreateDirAndVersionFile
    } else {
        match check {
            VersionFileCheck::Matches => InitDbAction::OpenExisting,
            VersionFileCheck::Missing => InitDbAction::CreateVersionFile,
            VersionFileCheck::Malformed => InitDbAction::FailMalformed,
            VersionFileCheck::Mismatch(v) => InitDbAction::FailVersionMismatch(v),
        }
    }
}

} // verus!
