//! Why a target's source path was turned down, and the text shown for it.

use crate::kind::TargetKind;
use vstd::prelude::*;
use vstd::string::StringExecFns;

verus! {

/// A failed validation of one target's source path.
///
/// The fields are the values that the message is made of; `message` renders
/// them.
#[derive(Clone, Debug, PartialEq, Eq)]
pub enum ValidationError {
    /// Nothing exists at the path.
    NotFound { path: String, target_name: String, target_kind: TargetKind },
    /// The path is a directory where a source file was expected. `suggestion`
    /// is the file inside it that was probably meant, if there is one.
    DirectoryNotFile {
        path: String,
        target_name: String,
        target_kind: TargetKind,
        suggestion: Option<String>,
    },
}

/// A `ValidationError` with each text as a sequence of characters.
pub enum ValidationErrorView {
    NotFound { path: Seq<char>, target_name: Seq<char>, target_kind: TargetKind },
    DirectoryNotFile {
        path: Seq<char>,
        target_name: Seq<char>,
        target_kind: TargetKind,
        suggestion: Option<Seq<char>>,
    },
}

/// The characters of an optional text.
pub open spec fn text_view(text: Option<String>) -> Option<Seq<char>> {
    match text {
        Some(s) => Some(s@),
        None => None,
    }
}

/// The text of a not-found error:
/// ``can't find KIND `NAME` at path `PATH` ``.
pub open spec fn not_found_text(path: Seq<char>, target_name: Seq<char>, kind: TargetKind) -> Seq<
    char,
> {
    "can't find "@ + kind.spec_description() + " `"@ + target_name + "` at path `"@ + path + "`"@
}

/// The first line of a directory error:
/// ``path `PATH` for KIND `NAME` is a directory, but a source file was expected.``
pub open spec fn directory_text(path: Seq<char>, target_name: Seq<char>, kind: TargetKind) -> Seq<
    char,
> {
    "path `"@ + path + "` for "@ + kind.spec_description() + " `"@ + target_name
        + "` is a directory, but a source file was expected."@
}

/// The help line that follows the first line of a directory error when a file
/// can be suggested, with the line break before it.
pub open spec fn help_text(suggestion: Seq<char>) -> Seq<char> {
    "\nhelp: specify the path to the intended entrypoint file instead: `"@ + suggestion + "`"@
}

impl ValidationErrorView {
    /// The text shown to the user for this error.
    pub open spec fn message(self) -> Seq<char> {
        match self {
            ValidationErrorView::NotFound { path, target_name, target_kind } => not_found_text(
                path,
                target_name,
                target_kind,
            ),
            ValidationErrorView::DirectoryNotFile {
                path,
                target_name,
                target_kind,
                suggestion,
            } => match suggestion {
                None => directory_text(path, target_name, target_kind),
                Some(file) => directory_text(path, target_name, target_kind) + help_text(file),
            },
        }
    }
}

impl View for ValidationError {
    type V = ValidationErrorView;

    open spec fn view(&self) -> ValidationErrorView {
        match *self {
            ValidationError::NotFound { path, target_name, target_kind } => {
                ValidationErrorView::NotFound {
                    path: path@,
                    target_name: target_name@,
                    target_kind,
                }
            },
            ValidationError::DirectoryNotFile { path, target_name, target_kind, suggestion } => {
                ValidationErrorView::DirectoryNotFile {
                    path: path@,
                    target_name: target_name@,
                    target_kind,
                    suggestion: text_view(suggestion),
                }
            },
        }
    }
}

impl ValidationError {
    /// Renders the error as the text shown to the user.
    pub fn message(&self) -> (text: String)
        ensures
            text@ == self@.message(),
    {
        let mut text = String::new();
        match self {
            ValidationError::NotFound { path, target_name, target_kind } => {
                text.append("can't find ");
                text.append(target_kind.description());
                text.append(" `");
                text.append(target_name.as_str());
                text.append("` at path `");
                text.append(path.as_str());
                text.append("`");
            },
            ValidationError::DirectoryNotFile { path, target_name, target_kind, suggestion } => {
                text.append("path `");
                text.append(path.as_str());
                text.append("` for ");
                text.append(target_kind.description());
                text.append(" `");
                text.append(target_name.as_str());
                text.append("` is a directory, but a source file was expected.");
                match suggestion {
                    Some(file) => {
                        let ghost first_line = text@;
                        text.append(
                            "\nhelp: specify the path to the intended entrypoint file instead: `",
                        );
                        text.append(file.as_str());
                        text.append("`");
                        assert(text@ =~= first_line + help_text(file@));
                    },
                    None => {},
                }
            },
        }
        assert(text@ =~= self@.message());
        text
    }
}

} // verus!
