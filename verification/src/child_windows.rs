//! What the file dialogs of the application decide.

use crate::save_file::{JSON_EXTENSION, SAVE_EXTENSION};
use vstd::prelude::*;

verus! {

/// What a file dialog is opened for.
#[derive(Debug, Clone, Copy, PartialEq, Eq, Structural)]
pub enum FileDialogType {
    Load,
    Save,
}

/// The kind of file that a dialog picks.
#[derive(Debug, Clone, Copy, PartialEq, Eq, Structural)]
pub enum FileTarget {
    /// A file of the application's own format.
    Internal,
    /// A file of exported data.
    Export,
}

impl FileTarget {
    /// The extension of files of this kind.
    pub open spec fn spec_extension(self) -> Seq<char> {
        match self {
            FileTarget::Internal => SAVE_EXTENSION@,
            FileTarget::Export => JSON_EXTENSION@,
        }
    }

    /// The extension of files of this kind.
    pub fn extension(self) -> (r: &'static str)
        ensures
            r@ == self.spec_extension(),
    {
        match self {
            FileTarget::Internal => SAVE_EXTENSION,
            FileTarget::Export => JSON_EXTENSION,
        }
    }
}

/// The extension to give to a path that was picked: that of the dialog's kind
/// of file where the dialog saves and the path has none, else none.
pub fn extension_to_add(
    current_mode: Option<FileDialogType>,
    target: FileTarget,
    has_extension: bool,
) -> (r: Option<&'static str>)
    ensures
        match r {
            Some(e) => current_mode == Some(FileDialogType::Save) && !has_extension && e@
                == target.spec_extension(),
            None => !(current_mode == Some(FileDialogType::Save) && !has_extension),
        },
{
    match current_mode {
        Some(FileDialogType::Save) => {
            if has_extension {
                None
            } else {
                Some(target.extension())
            }
        },
        _ => None,
    }
}

} // verus!
