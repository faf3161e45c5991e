//! What holds of every validation, stated over the outcome and its message.

use crate::error::{directory_text, help_text, not_found_text, ValidationError, ValidationErrorView};
use crate::kind::TargetKind;
use crate::path::{outcome_view, validation_outcome, PathStatusView, SuggestedEntrypointsView};
use vstd::prelude::*;

verus! {

/// `part` stands in `text` from position `at` on.
pub open spec fn occurs_at(text: Seq<char>, part: Seq<char>, at: int) -> bool {
    0 <= at && at + part.len() <= text.len() && text.subrange(at, at + part.len()) == part
}

/// `text` holds `part` somewhere, character for character.
pub open spec fn contains_text(text: Seq<char>, part: Seq<char>) -> bool {
    exists|at: int| occurs_at(text, part, at)
}

/// A path that exists and is not a directory is accepted, whatever the
/// target's kind and name.
pub proof fn lemma_existing_file_is_accepted(
    path: Seq<char>,
    target_name: Seq<char>,
    target_kind: TargetKind,
)
    ensures
        validation_outcome(path, target_name, target_kind, PathStatusView::File) == Ok::<
            (),
            ValidationErrorView,
        >(()),
{
}

/// Only a path that exists and is not a directory is accepted.
pub proof fn lemma_accepted_only_if_file(
    path: Seq<char>,
    target_name: Seq<char>,
    target_kind: TargetKind,
    status: PathStatusView,
)
    ensures
        validation_outcome(path, target_name, target_kind, status) is Ok <==> status is File,
{
}

/// A path at which nothing exists fails as not found, and the message holds
/// the path and the target's name as they were given.
pub proof fn lemma_missing_path_is_not_found(
    path: Seq<char>,
    target_name: Seq<char>,
    target_kind: TargetKind,
)
    ensures
        validation_outcome(path, target_name, target_kind, PathStatusView::Missing) == Err::<
            (),
            ValidationErrorView,
        >(ValidationErrorView::NotFound { path, target_name, target_kind }),
        (ValidationErrorView::NotFound { path, target_name, target_kind }).message()
            == not_found_text(path, target_name, target_kind),
        contains_text(not_found_text(path, target_name, target_kind), path),
        contains_text(not_found_text(path, target_name, target_kind), target_name),
{
    let text = not_found_text(path, target_name, target_kind);
    let before_name = "can't find "@ + target_kind.spec_description() + " `"@;
    let before_path = before_name + target_name + "` at path `"@;
    let name_at: int = before_name.len() as int;
    let path_at: int = before_path.len() as int;
    assert(text =~= before_path + path + "`"@);
    assert(text.subrange(path_at, path_at + path.len()) =~= path);
    assert(occurs_at(text, path, path_at));
    assert(text.subrange(name_at, name_at + target_name.len()) =~= target_name);
    assert(occurs_at(text, target_name, name_at));
}

/// A directory fails as a directory, whatever it holds, and the message starts
/// with the line that says so.
pub proof fn lemma_directory_is_rejected(
    path: Seq<char>,
    target_name: Seq<char>,
    target_kind: TargetKind,
    found: SuggestedEntrypointsView,
)
    ensures
        validation_outcome(path, target_name, target_kind, PathStatusView::Directory(found))
            == Err::<(), ValidationErrorView>(
            ValidationErrorView::DirectoryNotFile {
                path,
                target_name,
                target_kind,
                suggestion: found.for_kind(target_kind),
            },
        ),
        directory_text(path, target_name, target_kind).is_prefix_of(
            (ValidationErrorView::DirectoryNotFile {
                path,
                target_name,
                target_kind,
                suggestion: found.for_kind(target_kind),
            }).message(),
        ),
{
}

/// A directory that holds neither entrypoint fails without a suggestion: the
/// message is the first line alone, with no help line after it.
pub proof fn lemma_empty_directory_has_no_help(
    path: Seq<char>,
    target_name: Seq<char>,
    target_kind: TargetKind,
    found: SuggestedEntrypointsView,
)
    requires
        found.main is None,
        found.lib is None,
    ensures
        validation_outcome(path, target_name, target_kind, PathStatusView::Directory(found))
            == Err::<(), ValidationErrorView>(
            ValidationErrorView::DirectoryNotFile {
                path,
                target_name,
                target_kind,
                suggestion: None,
            },
        ),
        (ValidationErrorView::DirectoryNotFile {
            path,
            target_name,
            target_kind,
            suggestion: None,
        }).message() == directory_text(path, target_name, target_kind),
{
}

/// For a library target, a directory that holds the library entrypoint and not
/// the other one has that file suggested: the message is the first line and one
/// help line, which names the file.
pub proof fn lemma_lib_only_suggests_lib(
    path: Seq<char>,
    target_name: Seq<char>,
    found: SuggestedEntrypointsView,
)
    requires
        found.main is None,
        found.lib is Some,
    ensures
        validation_outcome(path, target_name, TargetKind::Lib, PathStatusView::Directory(found))
            == Err::<(), ValidationErrorView>(
            ValidationErrorView::DirectoryNotFile {
                path,
                target_name,
                target_kind: TargetKind::Lib,
                suggestion: found.lib,
            },
        ),
        (ValidationErrorView::DirectoryNotFile {
            path,
            target_name,
            target_kind: TargetKind::Lib,
            suggestion: found.lib,
        }).message() == directory_text(path, target_name, TargetKind::Lib) + help_text(
            found.lib->0,
        ),
{
}

/// For a binary target, a directory that holds the executable entrypoint and
/// not the other one has that file suggested.
pub proof fn lemma_main_only_suggests_main(
    path: Seq<char>,
    target_name: Seq<char>,
    found: SuggestedEntrypointsView,
)
    requires
        found.main is Some,
        found.lib is None,
    ensures
        validation_outcome(path, target_name, TargetKind::Bin, PathStatusView::Directory(found))
            == Err::<(), ValidationErrorView>(
            ValidationErrorView::DirectoryNotFile {
                path,
                target_name,
                target_kind: TargetKind::Bin,
                suggestion: found.main,
            },
        ),
        (ValidationErrorView::DirectoryNotFile {
            path,
            target_name,
            target_kind: TargetKind::Bin,
            suggestion: found.main,
        }).message() == directory_text(path, target_name, TargetKind::Bin) + help_text(
            found.main->0,
        ),
{
}

/// A directory that holds both entrypoints has one of them suggested, the one
/// that belongs to the target's kind: the library entrypoint for what is
/// linked, the executable entrypoint for what is run, and none for a build
/// script. The two are never offered together.
pub proof fn lemma_both_present_suggests_by_kind(
    path: Seq<char>,
    target_name: Seq<char>,
    target_kind: TargetKind,
    found: SuggestedEntrypointsView,
)
    requires
        found.main is Some,
        found.lib is Some,
    ensures
        found.for_kind(target_kind) == match target_kind {
            TargetKind::Lib | TargetKind::ExampleLib => found.lib,
            TargetKind::Bin | TargetKind::Test | TargetKind::ExampleBin | TargetKind::Bench => {
                found.main
            },
            TargetKind::CustomBuild => None,
        },
        (ValidationErrorView::DirectoryNotFile {
            path,
            target_name,
            target_kind,
            suggestion: found.for_kind(target_kind),
        }).message() == match found.for_kind(target_kind) {
            Some(file) => directory_text(path, target_name, target_kind) + help_text(file),
            None => directory_text(path, target_name, target_kind),
        },
{
}

/// The suggestion for a kind does not depend on the entrypoint of the other
/// family: two directories that agree on the kind's own entrypoint give the
/// same outcome.
pub proof fn lemma_other_entrypoint_is_ignored(
    path: Seq<char>,
    target_name: Seq<char>,
    target_kind: TargetKind,
    found: SuggestedEntrypointsView,
    other: SuggestedEntrypointsView,
)
    requires
        found.for_kind(target_kind) == other.for_kind(target_kind),
    ensures
        validation_outcome(path, target_name, target_kind, PathStatusView::Directory(found))
            == validation_outcome(
            path,
            target_name,
            target_kind,
            PathStatusView::Directory(other),
        ),
{
}

/// Validating the same path, name and kind twice against the same state of
/// the filesystem gives the same result both times, down to the message.
pub proof fn lemma_validation_is_repeatable(
    path: Seq<char>,
    target_name: Seq<char>,
    target_kind: TargetKind,
    status: PathStatusView,
    first: Result<(), ValidationError>,
    second: Result<(), ValidationError>,
)
    requires
        outcome_view(first) == validation_outcome(path, target_name, target_kind, status),
        outcome_view(second) == validation_outcome(path, target_name, target_kind, status),
    ensures
        outcome_view(first) == outcome_view(second),
        first is Ok <==> second is Ok,
        first is Err ==> first->Err_0@.message() == second->Err_0@.message(),
{
}

} // verus!
