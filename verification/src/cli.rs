//! The command line, as the dialog logic reads it. Parsing the arguments
//! is done by the caller; sizes are of the renderer's float type `F`.
use std::path::PathBuf;
use vstd::prelude::*;

verus! {

#[verifier::external_type_specification]
#[verifier::external_body]
pub struct ExPathBuf(PathBuf);

/// `PathBuf::clone`. Trusted: the clone is the same path.
#[verifier::external_body]
pub(crate) fn clone_path(p: &PathBuf) -> (r: PathBuf)
    ensures
        r == *p,
{
    p.clone()
}

/// The options of one invocation. Exactly one of `text_info`, `info`,
/// `warning` and `error` is meant to be set.
#[derive(Debug)]
pub struct Cli<F> {
    /// Display a text information dialog.
    pub text_info: bool,
    /// Display an info message dialog.
    pub info: bool,
    /// Display a warning message dialog.
    pub warning: bool,
    /// Display an error message dialog.
    pub error: bool,
    /// The dialog text (static content for a text-info dialog).
    pub text: Option<String>,
    /// Read content from a file (text-info only).
    pub filename: Option<PathBuf>,
    /// Watch a file and refresh when its content changes (text-info only).
    pub watch: Option<PathBuf>,
    /// Placeholder text shown before any data arrives (text-info only).
    pub initial: Option<String>,
    /// Polling interval in milliseconds for `watch`.
    pub poll_interval: u64,
    /// Do not wrap long lines (text-info only).
    pub no_wrap: bool,
    /// The window title.
    pub title: Option<String>,
    /// The window width.
    pub width: Option<F>,
    /// The window height.
    pub height: Option<F>,
    /// Close the dialog automatically after this many seconds.
    pub timeout: Option<u64>,
    /// The label of the OK button.
    pub ok_label: Option<String>,
    /// The label of the Cancel button.
    pub cancel_label: Option<String>,
    /// Keep the window above all other windows.
    pub always_on_top: bool,
    /// Font family (overrides the theme).
    pub font: Option<String>,
    /// Font size (overrides the theme).
    pub font_size: Option<F>,
    /// Path to a theme file (overrides the default location).
    pub theme: Option<PathBuf>,
}

/// Which dialog was requested on the command line.
#[derive(Debug, Clone, Copy, PartialEq, Eq, Structural)]
pub enum DialogKind {
    TextInfo,
    Info,
    Warning,
    Error,
}

/// The dialog that the flags select: the first set flag in the order
/// text-info, info, warning; error otherwise.
pub open spec fn dialog_kind_spec(text_info: bool, info: bool, warning: bool) -> DialogKind {
    if text_info {
        DialogKind::TextInfo
    } else if info {
        DialogKind::Info
    } else if warning {
        DialogKind::Warning
    } else {
        DialogKind::Error
    }
}

impl<F> Cli<F> {
    pub open spec fn kind_spec(&self) -> DialogKind {
        dialog_kind_spec(self.text_info, self.info, self.warning)
    }

    /// Which dialog was requested.
    pub fn dialog_kind(&self) -> (k: DialogKind)
        ensures
            k == self.kind_spec(),
    {
        if self.text_info {
            DialogKind::TextInfo
        } else if self.info {
            DialogKind::Info
        } else if self.warning {
            DialogKind::Warning
        } else {
            DialogKind::Error
        }
    }
}

} // verus!
