//! The check that a target's source path names a file and not a directory.

use crate::error::{text_view, ValidationError, ValidationErrorView};
use crate::kind::{Entrypoint, TargetKind};
use vstd::prelude::*;

verus! {

/// The conventional entrypoint files that exist inside a directory: for each
/// of the two, the text of its path if the file is there.
#[derive(Clone, Debug, PartialEq, Eq)]
pub struct SuggestedEntrypoints {
    pub main: Option<String>,
    pub lib: Option<String>,
}

/// A `SuggestedEntrypoints` with each text as a sequence of characters.
pub struct SuggestedEntrypointsView {
    pub main: Option<Seq<char>>,
    pub lib: Option<Seq<char>>,
}

impl SuggestedEntrypointsView {
    /// The file to suggest for a target of the given kind: the entrypoint that
    /// convention gives the kind, if the directory holds it. The other file is
    /// never suggested, whether it exists or not.
    pub open spec fn for_kind(self, kind: TargetKind) -> Option<Seq<char>> {
        match kind.spec_entrypoint() {
            Some(Entrypoint::Main) => self.main,
            Some(Entrypoint::Lib) => self.lib,
            None => None,
        }
    }
}

impl View for SuggestedEntrypoints {
    type V = SuggestedEntrypointsView;

    open spec fn view(&self) -> SuggestedEntrypointsView {
        SuggestedEntrypointsView { main: text_view(self.main), lib: text_view(self.lib) }
    }
}

impl SuggestedEntrypoints {
    /// Picks the file to suggest for a target of the given kind.
    pub fn for_kind(&self, kind: &TargetKind) -> (file: Option<String>)
        ensures
            text_view(file) == self@.for_kind(*kind),
    {
        let found = match kind.entrypoint() {
            Some(Entrypoint::Main) => &self.main,
            Some(Entrypoint::Lib) => &self.lib,
            None => { return None; },
        };
        match found {
            Some(file) => Some(file.clone()),
            None => None,
        }
    }
}

/// What the filesystem says about a path.
#[derive(Clone, Debug, PartialEq, Eq)]
pub enum PathStatus {
    /// Nothing exists at the path.
    Missing,
    /// The path exists and is not a directory.
    File,
    /// The path is a directory, holding these conventional entrypoints.
    Directory(SuggestedEntrypoints),
}

/// A `PathStatus` with each text as a sequence of characters.
pub enum PathStatusView {
    Missing,
    File,
    Directory(SuggestedEntrypointsView),
}

impl View for PathStatus {
    type V = PathStatusView;

    open spec fn view(&self) -> PathStatusView {
        match *self {
            PathStatus::Missing => PathStatusView::Missing,
            PathStatus::File => PathStatusView::File,
            PathStatus::Directory(found) => PathStatusView::Directory(found@),
        }
    }
}

/// The outcome of validating a target's source path: success for anything that
/// exists and is not a directory, `NotFound` where nothing exists, and
/// `DirectoryNotFile` for a directory, with the entrypoint of the target's kind
/// as the suggestion when the directory holds it.
pub open spec fn validation_outcome(
    path: Seq<char>,
    target_name: Seq<char>,
    target_kind: TargetKind,
    status: PathStatusView,
) -> Result<(), ValidationErrorView> {
    match status {
        PathStatusView::File => Ok(()),
        PathStatusView::Missing => Err(
            ValidationErrorView::NotFound { path, target_name, target_kind },
        ),
        PathStatusView::Directory(found) => Err(
            ValidationErrorView::DirectoryNotFile {
                path,
                target_name,
                target_kind,
                suggestion: found.for_kind(target_kind),
            },
        ),
    }
}

/// A validation result with each text as a sequence of characters.
pub open spec fn outcome_view(outcome: Result<(), ValidationError>) -> Result<
    (),
    ValidationErrorView,
> {
    match outcome {
        Ok(()) => Ok(()),
        Err(error) => Err(error@),
    }
}

/// Checks that the source path of a target exists and is a source file, not a
/// directory.
///
/// `path` is the path as it is shown to the user, `status` what the filesystem
/// says about it. Nothing is read or written here.
pub fn validate_target_path_as_source_file(
    path: &str,
    target_name: &str,
    target_kind: &TargetKind,
    status: &PathStatus,
) -> (outcome: Result<(), ValidationError>)
    ensures
        outcome_view(outcome) == validation_outcome(path@, target_name@, *target_kind, status@),
        outcome is Ok <==> status is File,
{
    match status {
        PathStatus::File => Ok(()),
        PathStatus::Missing => Err(
            ValidationError::NotFound {
                path: path.to_owned(),
                target_name: target_name.to_owned(),
                target_kind: *target_kind,
            },
        ),
        PathStatus::Directory(found) => Err(
            ValidationError::DirectoryNotFile {
                path: path.to_owned(),
                target_name: target_name.to_owned(),
                target_kind: *target_kind,
                suggestion: found.for_kind(target_kind),
            },
        ),
    }
}

} // verus!
