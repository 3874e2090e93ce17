//! mado (窓): the logic of a cross-platform dialog window for the command
//! line. Message dialogs (info, warning, error) and a text-info dialog
//! whose content is fixed, read from standard input as it arrives, or
//! refreshed from a watched file; a theme file and command-line options
//! set the look; outcomes map to Zenity-compatible exit codes.
//!
//! Drawing the window, reading files and standard input, and parsing the
//! command line and TOML are done by the program around this library.
pub mod cli;
pub mod dialog;
pub mod exit;
pub mod source;
pub mod text;
pub mod theme;
