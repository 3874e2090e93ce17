//! Message dialogs: info, warning and error.
use vstd::prelude::*;
use crate::cli::DialogKind;
use crate::dialog::{close_outcome, close_outcome_spec};
use crate::exit::Outcome;
use crate::theme::color::Color;
use crate::theme::tokens::Tokens;

verus! {

/// A message dialog: an icon for its kind, the text, and an OK button.
#[derive(Debug)]
pub struct MessageView {
    kind: DialogKind,
    text: String,
    ok_label: String,
}

/// The content of a message dialog.
pub struct MessageModel {
    pub kind: DialogKind,
    pub text: Seq<char>,
    pub ok_label: Seq<char>,
}

impl View for MessageView {
    type V = MessageModel;

    closed spec fn view(&self) -> MessageModel {
        MessageModel { kind: self.kind, text: self.text@, ok_label: self.ok_label@ }
    }
}

/// The glyph of the icon of a dialog kind.
pub open spec fn icon_glyph(kind: DialogKind) -> Seq<char> {
    match kind {
        DialogKind::Warning => "!"@,
        DialogKind::Error => "✕"@,
        _ => "i"@,
    }
}

/// The color of the icon of a dialog kind.
pub open spec fn icon_color<F>(kind: DialogKind, t: Tokens<F>) -> Color {
    match kind {
        DialogKind::Warning => t.warning,
        DialogKind::Error => t.danger,
        _ => t.accent,
    }
}

impl MessageView {
    pub fn new(kind: DialogKind, text: String, ok_label: String) -> (v: MessageView)
        ensures
            v@.kind == kind,
            v@.text == text@,
            v@.ok_label == ok_label@,
    {
        MessageView { kind, text, ok_label }
    }

    pub fn kind(&self) -> (k: DialogKind)
        ensures
            k == self@.kind,
    {
        self.kind
    }

    pub fn text(&self) -> (t: &str)
        ensures
            t@ == self@.text,
    {
        self.text.as_str()
    }

    pub fn ok_label(&self) -> (l: &str)
        ensures
            l@ == self@.ok_label,
    {
        self.ok_label.as_str()
    }

    /// A message dialog runs no data stream.
    pub fn stream_active(&self) -> (active: bool)
        ensures
            !active,
    {
        false
    }

    /// Closing a message dialog, however it is closed, is a normal close.
    pub fn close_outcome(&self) -> (o: Outcome)
        ensures
            o == close_outcome_spec(false),
            o == Outcome::Confirmed,
    {
        close_outcome(self.stream_active())
    }

    /// The icon: `!` in the warning color, `✕` in the danger color, `i` in
    /// the accent color for an info message.
    pub fn icon<F>(&self, t: &Tokens<F>) -> (icon: (&'static str, Color))
        ensures
            icon.0@ == icon_glyph(self@.kind),
            icon.1 == icon_color(self@.kind, *t),
    {
        match self.kind {
            DialogKind::Warning => ("!", t.warning),
            DialogKind::Error => ("✕", t.danger),
            _ => ("i", t.accent),
        }
    }
}

} // verus!
