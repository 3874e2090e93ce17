//! The text-info dialog: read-only text with Copy and Close. The content
//! is fixed, or fed by a background source (stdin or a watched file).
use std::sync::mpsc::Receiver;
use vstd::prelude::*;
use crate::dialog::{close_outcome, close_outcome_spec};
use crate::exit::Outcome;
use crate::source::{Received, SourceEvent, try_receive};
use crate::text::opt_chars;

verus! {

/// The text-info dialog.
pub struct TextInfoView {
    content: String,
    source: Option<Receiver<SourceEvent>>,
    stream_active: bool,
    initial: Option<String>,
    stick_to_bottom: bool,
    wrap: bool,
    ok_label: String,
}

/// The state of a text-info dialog.
pub struct TextInfoModel {
    /// The text shown.
    pub content: Seq<char>,
    /// The receiver of the connected source, while there is one.
    pub source: Option<Receiver<SourceEvent>>,
    /// A stream with an end (stdin) is still running: closing now cancels.
    pub stream_active: bool,
    /// Placeholder shown while there is no content.
    pub initial: Option<Seq<char>>,
    /// Keep the view scrolled to the end as content arrives.
    pub stick_to_bottom: bool,
    /// Wrap long lines.
    pub wrap: bool,
    /// The label of the Close button.
    pub ok_label: Seq<char>,
}

impl View for TextInfoView {
    type V = TextInfoModel;

    closed spec fn view(&self) -> TextInfoModel {
        TextInfoModel {
            content: self.content@,
            source: self.source,
            stream_active: self.stream_active,
            initial: opt_chars(self.initial),
            stick_to_bottom: self.stick_to_bottom,
            wrap: self.wrap,
            ok_label: self.ok_label@,
        }
    }
}

/// What one message from the source does: (new state, whether to keep
/// draining the source). Appends add to the content, a replacement
/// replaces it; the end of the stream or a lost source stops the stream.
pub open spec fn absorb_spec(m: TextInfoModel, msg: Received) -> (TextInfoModel, bool) {
    match msg {
        Received::Event(SourceEvent::Append(chunk)) => (
            TextInfoModel { content: m.content + chunk@, ..m },
            true,
        ),
        Received::Event(SourceEvent::Replace(content)) => (
            TextInfoModel { content: content@, ..m },
            true,
        ),
        Received::Event(SourceEvent::Finished) | Received::Disconnected => (
            TextInfoModel { source: None, stream_active: false, ..m },
            false,
        ),
        Received::Empty => (m, false),
    }
}

impl TextInfoView {
    /// A dialog with fixed content.
    pub fn new_static(content: String, wrap: bool, ok_label: String) -> (v: TextInfoView)
        ensures
            v@ == (TextInfoModel {
                content: content@,
                source: None,
                stream_active: false,
                initial: None,
                stick_to_bottom: false,
                wrap,
                ok_label: ok_label@,
            }),
    {
        TextInfoView {
            content,
            source: None,
            stream_active: false,
            initial: None,
            stick_to_bottom: false,
            wrap,
            ok_label,
        }
    }

    /// A dialog fed by a source. `stream` is true for stdin (it has an end;
    /// closing earlier means Cancel), false for a watched file (endless
    /// polling; closing is a normal close).
    pub fn new_streaming(
        source: Receiver<SourceEvent>,
        stream: bool,
        initial: Option<String>,
        wrap: bool,
        ok_label: String,
    ) -> (v: TextInfoView)
        ensures
            v@ == (TextInfoModel {
                content: Seq::empty(),
                source: Some(source),
                stream_active: stream,
                initial: opt_chars(initial),
                stick_to_bottom: true,
                wrap,
                ok_label: ok_label@,
            }),
    {
        TextInfoView {
            content: String::new(),
            source: Some(source),
            stream_active: stream,
            initial,
            stick_to_bottom: true,
            wrap,
            ok_label,
        }
    }

    /// Take one message from the source; returns whether to keep
    /// draining.
    pub fn absorb(&mut self, msg: Received) -> (more: bool)
        ensures
            (final(self)@, more) == absorb_spec(old(self)@, msg),
            final(self)@.initial == old(self)@.initial,
            final(self)@.stick_to_bottom == old(self)@.stick_to_bottom,
            final(self)@.wrap == old(self)@.wrap,
            final(self)@.ok_label == old(self)@.ok_label,
            ({
                let n = final(self)@;
                let o = old(self)@;
                match msg {
                    Received::Event(SourceEvent::Append(chunk)) => more && n.content == o.content
                        + chunk@ && n.source == o.source && n.stream_active == o.stream_active,
                    Received::Event(SourceEvent::Replace(content)) => more && n.content
                        == content@ && n.source == o.source && n.stream_active == o.stream_active,
                    Received::Event(SourceEvent::Finished) | Received::Disconnected => !more
                        && n.content == o.content && n.source is None && !n.stream_active,
                    Received::Empty => !more && n == o,
                }
            }),
    {
        match msg {
            Received::Event(SourceEvent::Append(chunk)) => {
                self.content.append(chunk.as_str());
                true
            },
            Received::Event(SourceEvent::Replace(content)) => {
                self.content = content;
                true
            },
            Received::Event(SourceEvent::Finished) | Received::Disconnected => {
                self.source = None;
                self.stream_active = false;
                false
            },
            Received::Empty => false,
        }
    }

    /// Look at the source once and take what it holds; returns whether to
    /// keep draining. Without a source nothing changes. Which message
    /// comes depends on the sending thread, so the result is stated for
    /// whatever message it is.
    pub fn poll_source(&mut self) -> (more: bool)
        ensures
            old(self)@.source is None ==> final(self)@ == old(self)@ && !more,
            old(self)@.source is Some ==> exists|msg: Received|
                (final(self)@, more) == #[trigger] absorb_spec(old(self)@, msg),
            final(self)@.stream_active ==> old(self)@.stream_active,
            final(self)@.initial == old(self)@.initial && final(self)@.wrap == old(self)@.wrap
                && final(self)@.ok_label == old(self)@.ok_label,
    {
        let msg = match &self.source {
            Some(source) => try_receive(source),
            None => {
                return false;
            },
        };
        let ghost m = msg;
        let more = self.absorb(msg);
        assert((self@, more) == absorb_spec(old(self)@, m));
        more
    }

    /// The text shown.
    pub fn content(&self) -> (c: &str)
        ensures
            c@ == self@.content,
    {
        self.content.as_str()
    }

    /// The placeholder, if there is one.
    pub fn initial(&self) -> (i: Option<&str>)
        ensures
            match i {
                Some(s) => self@.initial == Some(s@),
                None => self@.initial is None,
            },
    {
        match &self.initial {
            Some(s) => Some(s.as_str()),
            None => None,
        }
    }

    /// The placeholder is shown while there is no content.
    pub fn show_placeholder(&self) -> (b: bool)
        ensures
            b == (self@.content.len() == 0 && self@.initial is Some),
    {
        self.content.as_str().is_empty() && self.initial.is_some()
    }

    pub fn wrap(&self) -> (w: bool)
        ensures
            w == self@.wrap,
    {
        self.wrap
    }

    pub fn stick_to_bottom(&self) -> (s: bool)
        ensures
            s == self@.stick_to_bottom,
    {
        self.stick_to_bottom
    }

    pub fn ok_label(&self) -> (l: &str)
        ensures
            l@ == self@.ok_label,
    {
        self.ok_label.as_str()
    }

    /// A stream with an end is still running.
    pub fn stream_active(&self) -> (a: bool)
        ensures
            a == self@.stream_active,
    {
        self.stream_active
    }

    /// What the Close button means now.
    pub fn close_outcome(&self) -> (o: Outcome)
        ensures
            o == close_outcome_spec(self@.stream_active),
    {
        close_outcome(self.stream_active)
    }
}

/// Once the stream has finished (or its source is gone), closing the
/// dialog is a normal close, and the source is not polled again.
pub proof fn lemma_finished_closes_normally(m: TextInfoModel)
    ensures
        close_outcome_spec(absorb_spec(m, Received::Event(SourceEvent::Finished)).0.stream_active)
            == Outcome::Confirmed,
        close_outcome_spec(absorb_spec(m, Received::Disconnected).0.stream_active)
            == Outcome::Confirmed,
        absorb_spec(m, Received::Event(SourceEvent::Finished)).0.source is None,
{
}

/// A stream counts as running only while its source is connected.
pub open spec fn stream_has_source(m: TextInfoModel) -> bool {
    m.stream_active ==> m.source is Some
}

/// Every message keeps a running stream tied to a connected source (both
/// constructors start that way), so a dialog whose source is gone never
/// cancels on close.
pub proof fn lemma_absorb_keeps_stream_source(m: TextInfoModel, msg: Received)
    requires
        stream_has_source(m),
    ensures
        stream_has_source(absorb_spec(m, msg).0),
        absorb_spec(m, msg).0.source is None ==> close_outcome_spec(
            absorb_spec(m, msg).0.stream_active,
        ) == Outcome::Confirmed,
{
}


/// The state after a sequence of messages, one after the other.
pub open spec fn absorb_all(m: TextInfoModel, msgs: Seq<Received>) -> TextInfoModel
    decreases msgs.len(),
{
    if msgs.len() == 0 {
        m
    } else {
        absorb_spec(absorb_all(m, msgs.drop_last()), msgs.last()).0
    }
}

/// A message changes the content only as it says (an append adds to the
/// end, a replacement is the new content) and never starts a stream: a
/// running stream stays running after content arrives, and a dialog
/// whose stream is not running never becomes one that cancels on close.
pub proof fn lemma_absorb_content_only(m: TextInfoModel, msg: Received)
    ensures
        absorb_spec(m, msg).0.stream_active ==> m.stream_active,
        absorb_spec(m, msg).0.wrap == m.wrap && absorb_spec(m, msg).0.ok_label == m.ok_label,
        absorb_spec(m, msg).0.initial == m.initial,
        match msg {
            Received::Event(SourceEvent::Append(c)) => {
                let r = absorb_spec(m, msg).0;
                r.content == m.content + c@ && r.stream_active == m.stream_active && r.source
                    == m.source
            },
            Received::Event(SourceEvent::Replace(c)) => {
                let r = absorb_spec(m, msg).0;
                r.content == c@ && r.stream_active == m.stream_active && r.source == m.source
            },
            _ => true,
        },
{
}

/// A dialog whose stream is not running (a watched file, fixed content)
/// closes normally whatever messages it takes.
pub proof fn lemma_no_stream_closes_normally(m: TextInfoModel, msgs: Seq<Received>)
    requires
        !m.stream_active,
    ensures
        !absorb_all(m, msgs).stream_active,
        close_outcome_spec(absorb_all(m, msgs).stream_active) == Outcome::Confirmed,
    decreases msgs.len(),
{
    if msgs.len() > 0 {
        lemma_no_stream_closes_normally(m, msgs.drop_last());
    }
}

} // verus!
