//! Adding a location: which path stands for the one the user picked, and
//! whether it may become a location. The file system is asked by the
//! caller; what is decided from its answers is decided here.

use vstd::prelude::*;
use crate::text::join;
use crate::translate::{parse_uuid, parsed_uuid, reading_view};

verus! {

/// Why an action is refused or fails.
#[derive(Debug, PartialEq, Eq)]
pub enum ActionError {
    /// An input of the action is not acceptable.
    Validation { field: String, message: String },
    /// Something went wrong inside.
    Internal(String),
}

pub enum ActionErrorView {
    Validation { field: Seq<char>, message: Seq<char> },
    Internal(Seq<char>),
}

impl View for ActionError {
    type V = ActionErrorView;

    open spec fn view(&self) -> ActionErrorView {
        match self {
            ActionError::Validation { field, message } => ActionErrorView::Validation {
                field: field@,
                message: message@,
            },
            ActionError::Internal(message) => ActionErrorView::Internal(message@),
        }
    }
}

/// What the file system says of a path that is to be resolved.
#[derive(Debug, PartialEq, Eq)]
pub struct PathProbe {
    /// The canonical form of the path, or the words of the failure to get
    /// it.
    pub canonical: Result<String, String>,
    /// The canonical form of the parent, joined with the file name, where
    /// the path has both and the parent resolves.
    pub partial: Option<String>,
    /// Whether the path exists.
    pub exists: bool,
}

pub struct PathProbeView {
    pub canonical: Result<Seq<char>, Seq<char>>,
    pub partial: Option<Seq<char>>,
    pub exists: bool,
}

impl View for PathProbe {
    type V = PathProbeView;

    open spec fn view(&self) -> PathProbeView {
        PathProbeView {
            canonical: match self.canonical {
                Ok(path) => Ok(path@),
                Err(reason) => Err(reason@),
            },
            partial: match self.partial {
                Some(path) => Some(path@),
                None => None,
            },
            exists: self.exists,
        }
    }
}

/// The refusal of a path, under the field `path`.
pub open spec fn path_refused(message: Seq<char>) -> ActionErrorView {
    ActionErrorView::Validation { field: "path"@, message }
}

/// The path that stands for `path`: its canonical form where there is one;
/// else its file name under the canonical form of its parent; else the
/// path as it is, if it exists. A path that does not exist and cannot be
/// resolved is refused.
pub open spec fn resolved(path: Seq<char>, probe: PathProbeView) -> Result<
    Seq<char>,
    ActionErrorView,
> {
    match probe.canonical {
        Ok(canonical) => Ok(canonical),
        Err(reason) => match probe.partial {
            Some(partial) => Ok(partial),
            None => if probe.exists {
                Ok(path)
            } else {
                Err(path_refused("Cannot resolve path: "@ + reason))
            },
        },
    }
}

/// The view of a resolution.
pub open spec fn resolution_view(r: Result<String, ActionError>) -> Result<
    Seq<char>,
    ActionErrorView,
> {
    match r {
        Ok(path) => Ok(path@),
        Err(e) => Err(e@),
    }
}

fn refuse_path(message: String) -> (e: ActionError)
    ensures
        e@ == path_refused(message@),
{
    ActionError::Validation { field: "path".to_string(), message }
}

/// Resolves a path from what the file system says of it, falling back step
/// by step where the path cannot be made canonical.
pub fn safe_canonicalize(path: &str, probe: PathProbe) -> (r: Result<String, ActionError>)
    ensures
        resolution_view(r) == resolved(path@, probe@),
{
    let PathProbe { canonical, partial, exists } = probe;
    match canonical {
        Ok(canonical) => Ok(canonical),
        Err(reason) => match partial {
            Some(partial) => Ok(partial),
            None => {
                if exists {
                    Ok(path.to_string())
                } else {
                    Err(refuse_path(join("Cannot resolve path: ", reason.as_str())))
                }
            },
        },
    }
}

/// Why a directory could not be read.
#[derive(Debug, PartialEq, Eq)]
pub enum ReadFailure {
    PermissionDenied,
    Other(String),
}

/// What the file system says of a resolved path that is to become a
/// location.
#[derive(Debug, PartialEq, Eq)]
pub struct DirectoryProbe {
    pub exists: bool,
    pub is_dir: bool,
    /// Whether its entries can be listed.
    pub readable: Result<(), ReadFailure>,
}

/// What is to become a location, with what was found out about it.
#[derive(Debug, PartialEq, Eq)]
pub enum LocationTarget {
    /// A path on this device, resolved, with the file system's word on it.
    Physical { canonical: String, directory: DirectoryProbe },
    /// A path on a cloud volume, and whether that volume is known.
    Cloud { scheme: String, identifier: String, volume_found: bool },
    /// A path that names content.
    Content,
    /// A path that names a sidecar.
    Sidecar,
}

/// Whether a target may become a location, and if not, why not. A physical
/// path must exist, be a directory and be readable; a cloud path must lie on
/// a known volume; content and sidecar paths are never locations.
pub open spec fn validation(target: LocationTarget) -> Result<(), ActionErrorView> {
    match target {
        LocationTarget::Physical { canonical, directory } => if !directory.exists {
            Err(path_refused("Path does not exist"@))
        } else if !directory.is_dir {
            Err(path_refused("Path must be a directory"@))
        } else {
            match directory.readable {
                Ok(_) => Ok(()),
                Err(ReadFailure::PermissionDenied) => Err(
                    path_refused("Permission denied reading directory: "@ + canonical@),
                ),
                Err(ReadFailure::Other(reason)) => Err(
                    path_refused("Cannot read directory: "@ + reason@),
                ),
            }
        },
        LocationTarget::Cloud { scheme, identifier, volume_found } => if volume_found {
            Ok(())
        } else {
            Err(
                ActionErrorView::Validation {
                    field: "cloud_volume"@,
                    message: "Cloud volume not found: "@ + scheme@ + "://"@ + identifier@,
                },
            )
        },
        LocationTarget::Content => Err(
            path_refused("Content paths cannot be used as locations"@),
        ),
        LocationTarget::Sidecar => Err(
            path_refused("Sidecar paths cannot be used as locations"@),
        ),
    }
}

/// The view of a verdict.
pub open spec fn verdict_view(r: Result<(), ActionError>) -> Result<(), ActionErrorView> {
    match r {
        Ok(_) => Ok(()),
        Err(e) => Err(e@),
    }
}

/// Decides whether a target may become a location.
pub fn validate(target: &LocationTarget) -> (r: Result<(), ActionError>)
    ensures
        verdict_view(r) == validation(*target),
{
    match target {
        LocationTarget::Physical { canonical, directory } => {
            if !directory.exists {
                Err(refuse_path("Path does not exist".to_string()))
            } else if !directory.is_dir {
                Err(refuse_path("Path must be a directory".to_string()))
            } else {
                match &directory.readable {
                    Ok(_) => Ok(()),
                    Err(ReadFailure::PermissionDenied) => Err(
                        refuse_path(
                            join("Permission denied reading directory: ", canonical.as_str()),
                        ),
                    ),
                    Err(ReadFailure::Other(reason)) => Err(
                        refuse_path(join("Cannot read directory: ", reason.as_str())),
                    ),
                }
            }
        },
        LocationTarget::Cloud { scheme, identifier, volume_found } => {
            if *volume_found {
                Ok(())
            } else {
                let mut message = join("Cloud volume not found: ", scheme.as_str());
                message.append("://");
                message.append(identifier.as_str());
                Err(ActionError::Validation { field: "cloud_volume".to_string(), message })
            }
        },
        LocationTarget::Content => Err(
            refuse_path("Content paths cannot be used as locations".to_string()),
        ),
        LocationTarget::Sidecar => Err(
            refuse_path("Sidecar paths cannot be used as locations".to_string()),
        ),
    }
}

/// The job that indexes a new location, as the location manager names it:
/// no job for an empty name, the job's identifier for a name that reads as
/// one, and an internal error for any other name.
pub open spec fn job_id_of(name: Seq<char>) -> Result<Option<u128>, ActionErrorView> {
    if name.len() == 0 {
        Ok(None)
    } else {
        match parsed_uuid(name) {
            Ok(id) => Ok(Some(id)),
            Err(reason) => Err(ActionErrorView::Internal("Failed to parse job ID: "@ + reason)),
        }
    }
}

/// The view of a job reading.
pub open spec fn job_view(r: Result<Option<u128>, ActionError>) -> Result<
    Option<u128>,
    ActionErrorView,
> {
    match r {
        Ok(job) => Ok(job),
        Err(e) => Err(e@),
    }
}

/// Reads the job identifier out of a name whose identifier was read as
/// `reading`.
pub fn job_id_from(name: &str, reading: Result<u128, String>) -> (r: Result<
    Option<u128>,
    ActionError,
>)
    ensures
        job_view(r) == if name@.len() == 0 {
            Ok(None)
        } else {
            match reading_view(reading) {
                Ok(id) => Ok(Some(id)),
                Err(reason) => Err(
                    ActionErrorView::Internal("Failed to parse job ID: "@ + reason),
                ),
            }
        },
{
    if name.is_empty() {
        Ok(None)
    } else {
        match reading {
            Ok(id) => Ok(Some(id)),
            Err(reason) => Err(
                ActionError::Internal(join("Failed to parse job ID: ", reason.as_str())),
            ),
        }
    }
}

/// Reads the job identifier out of the name the location manager gave.
pub fn parse_job_id(name: &str) -> (r: Result<Option<u128>, ActionError>)
    ensures
        job_view(r) == job_id_of(name@),
{
    if name.is_empty() {
        Ok(None)
    } else {
        let reading = parse_uuid(name);
        job_id_from(name, reading)
    }
}

} // verus!
