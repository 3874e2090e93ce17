//! What the dialog window decides: which content to fetch before the
//! window opens, which view to build, default sizes and titles, how a
//! frame ends the dialog, and the exit code.
use vstd::prelude::*;
use std::path::PathBuf;
use crate::cli::{Cli, DialogKind, clone_path};
use crate::exit::{Outcome, outcome_code};
use crate::text::clone_opt_string;

pub mod message;
pub mod text_info;

verus! {

/// The exit code when the dialog cannot be shown at all.
pub const FAILURE_EXIT_CODE: i32 = 255;

/// The shortest polling interval for a watched file, in milliseconds.
pub const MIN_POLL_INTERVAL_MS: u64 = 16;

/// Content to resolve before the window opens.
#[derive(Debug)]
pub enum PrefetchPlan {
    /// Read this file; if it cannot be read, fail before any window shows.
    ReadFile(PathBuf),
    /// Use this content (the `text` option) as it is.
    Given(Option<String>),
}

/// A text-info dialog with a file reads the file; every other dialog uses
/// the `text` option.
pub open spec fn prefetch_spec<F>(cli: Cli<F>, plan: PrefetchPlan) -> bool {
    if cli.kind_spec() == DialogKind::TextInfo && cli.filename is Some {
        plan == PrefetchPlan::ReadFile(cli.filename->Some_0)
    } else {
        plan == PrefetchPlan::Given(cli.text)
    }
}

/// Decide what content to resolve before the window opens, so that an
/// unreadable file fails fast instead of flashing a window.
pub fn prefetch_plan<F>(cli: &Cli<F>) -> (plan: PrefetchPlan)
    ensures
        prefetch_spec(*cli, plan),
{
    if cli.dialog_kind() == DialogKind::TextInfo {
        if let Some(path) = &cli.filename {
            return PrefetchPlan::ReadFile(clone_path(path));
        }
    }
    PrefetchPlan::Given(clone_opt_string(&cli.text))
}

/// The dialog view to build.
#[derive(Debug)]
pub enum ViewPlan {
    /// A text-info dialog with fixed content.
    Static { content: String, wrap: bool, ok_label: String },
    /// A text-info dialog fed by polling a file: an endless source, so
    /// `stream` is false and closing the dialog is a normal close.
    Watch {
        path: PathBuf,
        interval_ms: u64,
        stream: bool,
        initial: Option<String>,
        wrap: bool,
        ok_label: String,
    },
    /// A text-info dialog fed by standard input: a source with an end, so
    /// `stream` is true and closing before that end is a cancel.
    Stdin { stream: bool, initial: Option<String>, wrap: bool, ok_label: String },
    /// A message dialog.
    Message { kind: DialogKind, text: String, ok_label: String },
}

/// The label of the OK button, with the default for the dialog.
pub open spec fn ok_label_spec(given: Option<String>, default: Seq<char>) -> Seq<char> {
    match given {
        Some(l) => l@,
        None => default,
    }
}

pub open spec fn max_u64(a: u64, b: u64) -> u64 {
    if a >= b {
        a
    } else {
        b
    }
}

/// Which view the options and the prefetched content call for.
pub open spec fn plan_view_spec<F>(cli: Cli<F>, prefetched: Option<String>, plan: ViewPlan) -> bool {
    if cli.kind_spec() == DialogKind::TextInfo {
        let wrap = !cli.no_wrap;
        let ok = ok_label_spec(cli.ok_label, "Close"@);
        match prefetched {
            Some(content) => match plan {
                ViewPlan::Static { content: c, wrap: w, ok_label: l } => c == content && w == wrap
                    && l@ == ok,
                _ => false,
            },
            None => match cli.watch {
                Some(path) => match plan {
                    ViewPlan::Watch { path: p, interval_ms, stream, initial, wrap: w, ok_label: l } => p
                        == path && interval_ms == max_u64(cli.poll_interval, MIN_POLL_INTERVAL_MS)
                        && !stream && initial == cli.initial && w == wrap && l@ == ok,
                    _ => false,
                },
                None => match plan {
                    ViewPlan::Stdin { stream, initial, wrap: w, ok_label: l } => stream && initial
                        == cli.initial && w == wrap && l@ == ok,
                    _ => false,
                },
            },
        }
    } else {
        match plan {
            ViewPlan::Message { kind, text, ok_label } => kind == cli.kind_spec() && text@ == (
            match prefetched {
                Some(t) => t@,
                None => Seq::empty(),
            }) && ok_label@ == ok_label_spec(cli.ok_label, "OK"@),
            _ => false,
        }
    }
}

fn ok_label_or(given: &Option<String>, default: &str) -> (l: String)
    ensures
        l@ == ok_label_spec(*given, default@),
{
    match given {
        Some(l) => l.clone(),
        None => default.to_owned(),
    }
}

/// Decide the dialog view for the options: fixed content when it was
/// prefetched, else a watched file, else standard input; message dialogs
/// show the prefetched text (empty without one).
pub fn plan_view<F>(cli: &Cli<F>, prefetched: Option<String>) -> (plan: ViewPlan)
    ensures
        plan_view_spec(*cli, prefetched, plan),
        cli.kind_spec() != DialogKind::TextInfo ==> match plan {
            ViewPlan::Message { kind, text, .. } => kind == cli.kind_spec() && match prefetched {
                Some(t) => text@ == t@,
                None => text@.len() == 0,
            },
            _ => false,
        },
        cli.kind_spec() == DialogKind::TextInfo && prefetched is Some ==> match plan {
            ViewPlan::Static { content, .. } => Some(content) == prefetched,
            _ => false,
        },
{
    match cli.dialog_kind() {
        DialogKind::TextInfo => {
            let wrap = !cli.no_wrap;
            let ok_label = ok_label_or(&cli.ok_label, "Close");
            if let Some(content) = prefetched {
                ViewPlan::Static { content, wrap, ok_label }
            } else if let Some(path) = &cli.watch {
                let interval_ms = if cli.poll_interval >= MIN_POLL_INTERVAL_MS {
                    cli.poll_interval
                } else {
                    MIN_POLL_INTERVAL_MS
                };
                ViewPlan::Watch {
                    path: clone_path(path),
                    interval_ms,
                    stream: false,
                    initial: clone_opt_string(&cli.initial),
                    wrap,
                    ok_label,
                }
            } else {
                ViewPlan::Stdin {
                    stream: true,
                    initial: clone_opt_string(&cli.initial),
                    wrap,
                    ok_label,
                }
            }
        },
        kind => {
            let ok_label = ok_label_or(&cli.ok_label, "OK");
            let text = match prefetched {
                Some(t) => t,
                None => String::new(),
            };
            ViewPlan::Message { kind, text, ok_label }
        },
    }
}

/// The window title: the `title` option, or `mado`.
pub fn window_title<F>(cli: &Cli<F>) -> (t: String)
    ensures
        t@ == ok_label_spec(cli.title, "mado"@),
{
    ok_label_or(&cli.title, "mado")
}

/// The default inner size of the window, in points: 650 x 360 for a
/// text-info dialog, 380 x 150 for a message.
pub fn default_window_size(kind: DialogKind) -> (size: (u32, u32))
    ensures
        size == (if kind == DialogKind::TextInfo {
            (650u32, 360u32)
        } else {
            (380u32, 150u32)
        }),
{
    match kind {
        DialogKind::TextInfo => (650, 360),
        _ => (380, 150),
    }
}

pub open spec fn close_outcome_spec(stream_active: bool) -> Outcome {
    if stream_active {
        Outcome::Cancel
    } else {
        Outcome::Confirmed
    }
}

/// Closing the window (close button, Close, or from outside) while a
/// stream is still running is a Cancel; otherwise it is a normal close.
pub fn close_outcome(stream_active: bool) -> (o: Outcome)
    ensures
        o == close_outcome_spec(stream_active),
{
    if stream_active {
        Outcome::Cancel
    } else {
        Outcome::Confirmed
    }
}

/// What ends a frame before anything is drawn: the timeout, then Esc.
pub fn frame_start(deadline_reached: bool, escape_pressed: bool) -> (o: Option<Outcome>)
    ensures
        o == (if deadline_reached {
            Some(Outcome::Timeout)
        } else if escape_pressed {
            Some(Outcome::Cancel)
        } else {
            None
        }),
{
    if deadline_reached {
        Some(Outcome::Timeout)
    } else if escape_pressed {
        Some(Outcome::Cancel)
    } else {
        None
    }
}

/// What ends a frame after drawing: the dialog body's answer, else the
/// title bar's close button.
pub fn frame_end(titlebar: Option<Outcome>, view: Option<Outcome>) -> (o: Option<Outcome>)
    ensures
        o == (if view is Some {
            view
        } else {
            titlebar
        }),
{
    if view.is_some() {
        view
    } else {
        titlebar
    }
}

/// The process exit code: the stored outcome code when the window ran,
/// the failure code otherwise.
pub fn exit_code(window_ran: bool, stored_code: i32) -> (c: i32)
    ensures
        c == (if window_ran {
            stored_code
        } else {
            FAILURE_EXIT_CODE
        }),
{
    if window_ran {
        stored_code
    } else {
        FAILURE_EXIT_CODE
    }
}

/// The code stored before any outcome: closing the window without
/// cancelling counts as a normal close.
pub fn initial_exit_code() -> (c: i32)
    ensures
        c == outcome_code(Outcome::Confirmed),
{
    Outcome::Confirmed.code()
}


/// Which view a dialog gets and what it shows: a message dialog shows the
/// prefetched text (nothing when there is none) under its own kind, with
/// "OK" unless a label is given; a text-info dialog shows prefetched
/// content as it is, else follows a watched file (an endless source:
/// closing is a normal close) polled no faster than the minimum interval,
/// else standard input (a source with an end), with "Close" unless a label
/// is given.
pub proof fn lemma_plan_view_shows_content<F>(cli: Cli<F>, prefetched: Option<String>, plan: ViewPlan)
    requires
        plan_view_spec(cli, prefetched, plan),
    ensures
        cli.kind_spec() != DialogKind::TextInfo ==> match plan {
            ViewPlan::Message { kind, text, ok_label } => {
                &&& kind == cli.kind_spec()
                &&& prefetched is Some ==> text@ == prefetched->Some_0@
                &&& prefetched is None ==> text@.len() == 0
                &&& cli.ok_label is Some ==> ok_label@ == cli.ok_label->Some_0@
                &&& cli.ok_label is None ==> ok_label@ == "OK"@
            },
            _ => false,
        },
        cli.kind_spec() == DialogKind::TextInfo ==> match plan {
            ViewPlan::Static { content, wrap, ok_label } => {
                &&& prefetched == Some(content)
                &&& wrap == !cli.no_wrap
                &&& cli.ok_label is None ==> ok_label@ == "Close"@
            },
            ViewPlan::Watch { path, interval_ms, stream, initial, .. } => {
                &&& prefetched is None && cli.watch == Some(path) && !stream
                &&& interval_ms >= MIN_POLL_INTERVAL_MS && interval_ms >= cli.poll_interval
                &&& (interval_ms == MIN_POLL_INTERVAL_MS || interval_ms == cli.poll_interval)
                &&& initial == cli.initial
            },
            ViewPlan::Stdin { stream, initial, .. } => {
                &&& prefetched is None && cli.watch is None && stream
                &&& initial == cli.initial
            },
            ViewPlan::Message { .. } => false,
        },
{
}

/// A message dialog shows the `text` option: the content resolved before
/// the window opens is that text, and the view shows it.
pub proof fn lemma_message_shows_text<F>(cli: Cli<F>, pre: PrefetchPlan, plan: ViewPlan)
    requires
        cli.kind_spec() != DialogKind::TextInfo,
        prefetch_spec(cli, pre),
        plan_view_spec(cli, cli.text, plan),
    ensures
        pre == PrefetchPlan::Given(cli.text),
        match plan {
            ViewPlan::Message { text, .. } => match cli.text {
                Some(t) => text@ == t@,
                None => text@.len() == 0,
            },
            _ => false,
        },
{
}


/// A label given on the command line is used as it is; without one the
/// default stands. Closing while a stream runs cancels; otherwise it is a
/// normal close.
pub proof fn lemma_labels_and_close(given: Option<String>, default: Seq<char>)
    ensures
        given is Some ==> ok_label_spec(given, default) == given->Some_0@,
        given is None ==> ok_label_spec(given, default) == default,
        close_outcome_spec(true) == Outcome::Cancel,
        close_outcome_spec(false) == Outcome::Confirmed,
{
}

/// A text-info dialog with a file reads that file before the window
/// opens; every other dialog takes the `text` option as it is.
pub proof fn lemma_prefetch_reads_file<F>(cli: Cli<F>, pre: PrefetchPlan)
    requires
        prefetch_spec(cli, pre),
    ensures
        cli.kind_spec() == DialogKind::TextInfo && cli.filename is Some ==> pre
            == PrefetchPlan::ReadFile(cli.filename->Some_0),
        !(cli.kind_spec() == DialogKind::TextInfo && cli.filename is Some) ==> pre
            == PrefetchPlan::Given(cli.text),
{
}

} // verus!
