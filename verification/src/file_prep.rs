//! What a benchmark does to its target file before writing, given what a
//! probe of the path found. The probe and the action are I/O; the choice
//! between them is made here.

use vstd::prelude::*;

verus! {

/// What a probe of the target path found.
#[derive(Debug, Clone, Copy, PartialEq, Eq, Structural)]
pub enum PathProbe {
    /// The path exists.
    Exists,
    /// The probe failed because nothing is at the path.
    Missing,
    /// The probe failed for another reason.
    Failed,
}

/// What to do to the target file before the writes.
#[derive(Debug, Clone, Copy, PartialEq, Eq, Structural)]
pub enum PrepAction {
    /// Leave the path as it is.
    Keep,
    /// Create an empty file at the path.
    Create,
    /// Remove the file at the path.
    Remove,
}

/// Before appending to a worker's file: create it when it is missing, and
/// otherwise leave the path alone, also when the probe failed.
pub fn prepare_for_append(probe: PathProbe) -> (r: PrepAction)
    ensures
        r == (if probe == PathProbe::Missing { PrepAction::Create } else { PrepAction::Keep }),
{
    match probe {
        PathProbe::Missing => PrepAction::Create,
        _ => PrepAction::Keep,
    }
}

/// Before a run that starts from a fresh file through an HDFS client that
/// creates files itself: remove what exists, create what is missing, and leave
/// the path alone when the probe failed otherwise.
pub fn prepare_fresh_file(probe: PathProbe) -> (r: PrepAction)
    ensures
        r == match probe {
            PathProbe::Exists => PrepAction::Remove,
            PathProbe::Missing => PrepAction::Create,
            PathProbe::Failed => PrepAction::Keep,
        },
{
    match probe {
        PathProbe::Exists => PrepAction::Remove,
        PathProbe::Missing => PrepAction::Create,
        PathProbe::Failed => PrepAction::Keep,
    }
}

/// Before a run whose writer creates the file afterwards: remove what exists
/// and leave the path alone otherwise.
pub fn clear_existing(probe: PathProbe) -> (r: PrepAction)
    ensures
        r == (if probe == PathProbe::Exists { PrepAction::Remove } else { PrepAction::Keep }),
{
    match probe {
        PathProbe::Exists => PrepAction::Remove,
        _ => PrepAction::Keep,
    }
}

} // verus!
