//! Data sources for the text-info dialog: standard input, read in chunks
//! that may split a UTF-8 sequence, and a watched file that is read again
//! and again. The threads and the reading itself belong to the caller;
//! this module decides what each read means for the dialog.
use std::sync::mpsc::{Receiver, TryRecvError};
use vstd::prelude::*;
use vstd::slice::{slice_subrange, slice_to_vec};
use vstd::utf8::{
    decode_first_scalar, decode_utf8, length_of_first_scalar, pop_first_scalar, valid_first_scalar,
    valid_utf8,
};

verus! {

/// What a source tells the dialog.
#[derive(Debug)]
pub enum SourceEvent {
    /// New stdin data arrived; append it to the current content.
    Append(String),
    /// The watched file changed; replace the whole content.
    Replace(String),
    /// The stream ended (stdin EOF); closing now counts as a normal close.
    Finished,
}

#[verifier::external_type_specification]
#[verifier::external_body]
#[verifier::reject_recursive_types(T)]
pub struct ExReceiver<T>(Receiver<T>);

/// One look at a channel of source events.
#[derive(Debug)]
pub enum Received {
    /// An event was waiting.
    Event(SourceEvent),
    /// Nothing is waiting right now.
    Empty,
    /// The sending side is gone.
    Disconnected,
}

/// `Receiver::try_recv`. Trusted only to return one of the three
/// outcomes: which one, and which event, depends on what the sending
/// thread has done by then, so nothing more is stated.
#[verifier::external_body]
pub(crate) fn try_receive(rx: &Receiver<SourceEvent>) -> (r: Received) {
    match rx.try_recv() {
        Ok(event) => Received::Event(event),
        Err(TryRecvError::Empty) => Received::Empty,
        Err(TryRecvError::Disconnected) => Received::Disconnected,
    }
}

/// The longest `m <= k` such that the first `m` bytes are valid UTF-8.
pub open spec fn longest_valid_within(b: Seq<u8>, k: int) -> int
    decreases k,
{
    if k <= 0 {
        0
    } else if valid_utf8(b.take(k)) {
        k
    } else {
        longest_valid_within(b, k - 1)
    }
}

/// The length of the longest prefix of `b` that is valid UTF-8, which
/// `Utf8Error::valid_up_to` reports.
pub open spec fn utf8_valid_up_to(b: Seq<u8>) -> int {
    longest_valid_within(b, b.len() as int)
}

pub proof fn lemma_longest_valid_within(b: Seq<u8>, k: int)
    requires
        k <= b.len(),
    ensures
        0 <= longest_valid_within(b, k),
        longest_valid_within(b, k) <= k || k < 0,
        valid_utf8(b.take(longest_valid_within(b, k))),
    decreases k,
{
    if k <= 0 {
        assert(b.take(0) =~= Seq::<u8>::empty());
    } else if !valid_utf8(b.take(k)) {
        lemma_longest_valid_within(b, k - 1);
    }
}

/// `str::from_utf8`, and `Utf8Error::valid_up_to` on its error: the length
/// of the longest prefix of `bytes` that is valid UTF-8 (the whole length
/// when `from_utf8` succeeds). Trusted to be `utf8_valid_up_to`: the
/// standard library documents `valid_up_to` as the largest index up to
/// which `from_utf8` would succeed.
#[verifier::external_body]
fn valid_prefix_len(bytes: &[u8]) -> (n: usize)
    ensures
        n == utf8_valid_up_to(bytes@),
{
    match std::str::from_utf8(bytes) {
        Ok(_) => bytes.len(),
        Err(err) => err.valid_up_to(),
    }
}

/// The text that `String::from_utf8_lossy` makes of bytes: invalid
/// sequences become U+FFFD.
pub uninterp spec fn utf8_lossy(bytes: Seq<u8>) -> Seq<char>;

/// `String::from_utf8_lossy`, owned. Trusted: the result is `utf8_lossy`
/// of the bytes. std documents the conversion as keeping valid UTF-8 and
/// replacing each invalid sequence with U+FFFD, and the contract states
/// what follows from that: valid UTF-8 gives exactly the text it encodes;
/// bytes that are not empty give text that is not empty; and, as the
/// conversion reads from the front and a valid text ends at a character
/// boundary, a valid text `a` put before the bytes is decoded on its own,
/// followed by this result. How the invalid sequences are delimited is
/// left to the name.
#[verifier::external_body]
fn decode_lossy(bytes: &[u8]) -> (s: String)
    ensures
        s@ == utf8_lossy(bytes@),
        valid_utf8(bytes@) ==> s@ == decode_utf8(bytes@),
        bytes@.len() > 0 ==> s@.len() > 0,
        forall|a: Seq<u8>|
            valid_utf8(a) ==> #[trigger] utf8_lossy(a + bytes@) == decode_utf8(a) + s@,
{
    String::from_utf8_lossy(bytes).into_owned()
}

/// What one read from stdin does to the pending bytes: the longest valid
/// UTF-8 prefix of the pending bytes followed by the new ones is consumed,
/// the rest stays pending. Returns (consumed, still pending).
pub open spec fn feed_spec(pending: Seq<u8>, bytes: Seq<u8>) -> (Seq<u8>, Seq<u8>) {
    let all = pending + bytes;
    let n = utf8_valid_up_to(all);
    (all.take(n), all.skip(n))
}

/// The text that an event adds to the dialog's content by appending.
pub open spec fn appended_text(e: SourceEvent) -> Seq<char> {
    match e {
        SourceEvent::Append(s) => s@,
        _ => Seq::empty(),
    }
}

/// The text that a sequence of events appends, in order.
pub open spec fn events_text(es: Seq<SourceEvent>) -> Seq<char>
    decreases es.len(),
{
    if es.len() == 0 {
        Seq::empty()
    } else {
        events_text(es.drop_last()) + appended_text(es.last())
    }
}

/// Splits stdin into text chunks without breaking a UTF-8 sequence that
/// straddles two reads.
pub struct StdinDecoder {
    pending: Vec<u8>,
    consumed: Ghost<Seq<u8>>,
}

/// The state of a stdin decoder.
pub struct DecoderModel {
    /// The bytes of an unfinished UTF-8 sequence kept for the next read.
    pub pending: Seq<u8>,
    /// Every byte read so far, in order.
    pub read: Seq<u8>,
    /// The text handed out so far, chunk after chunk.
    pub shown: Seq<char>,
}

impl View for StdinDecoder {
    type V = DecoderModel;

    closed spec fn view(&self) -> DecoderModel {
        DecoderModel {
            pending: self.pending@,
            read: self.consumed@ + self.pending@,
            shown: decode_utf8(self.consumed@),
        }
    }
}

impl StdinDecoder {
    /// The bytes turned into text so far are valid UTF-8.
    pub closed spec fn wf(&self) -> bool {
        valid_utf8(self.consumed@)
    }

    /// A decoder with nothing read.
    pub fn new() -> (d: StdinDecoder)
        ensures
            d.wf(),
            d@.pending == Seq::<u8>::empty(),
            d@.read == Seq::<u8>::empty(),
            d@.shown == Seq::<char>::empty(),
    {
        let d = StdinDecoder { pending: Vec::new(), consumed: Ghost(Seq::empty()) };
        assert(d@.read =~= Seq::<u8>::empty());
        d
    }

    /// Take the bytes of one read. When a valid UTF-8 prefix of the
    /// pending and new bytes is not empty, it becomes an `Append` event of
    /// the text it encodes; the rest waits for the next read.
    pub fn feed(&mut self, bytes: &[u8]) -> (e: Option<SourceEvent>)
        requires
            old(self).wf(),
        ensures
            final(self).wf(),
            final(self)@.pending == feed_spec(old(self)@.pending, bytes@).1,
            final(self)@.read == old(self)@.read + bytes@,
            final(self)@.shown == old(self)@.shown + match e {
                Some(ev) => appended_text(ev),
                None => Seq::empty(),
            },
            ({
                let consumed = feed_spec(old(self)@.pending, bytes@).0;
                match e {
                    Some(SourceEvent::Append(s)) => consumed.len() > 0 && valid_utf8(consumed)
                        && s@ == decode_utf8(consumed) && s@.len() > 0,
                    Some(_) => false,
                    None => consumed.len() == 0,
                }
            }),
    {
        let ghost old_pending = self.pending@;
        let ghost done = self.consumed@;
        self.pending.extend_from_slice(bytes);
        let ghost all = old_pending + bytes@;
        assert(self.pending@ =~= all);
        let len = self.pending.len();
        let n = valid_prefix_len(self.pending.as_slice());
        proof {
            lemma_longest_valid_within(all, all.len() as int);
        }
        if n == 0 {
            assert(all.skip(0) =~= all);
            assert(self@.read =~= old(self)@.read + bytes@);
            assert(self@.shown =~= old(self)@.shown + Seq::<char>::empty());
            return None;
        }
        let chunk = decode_lossy(slice_subrange(self.pending.as_slice(), 0, n));
        let rest = slice_to_vec(slice_subrange(self.pending.as_slice(), n, len));
        let ghost taken = all.take(n as int);
        assert(all.subrange(0, n as int) =~= taken);
        assert(rest@ =~= all.skip(n as int));
        proof {
            lemma_decode_concat(done, taken);
            lemma_decode_nonempty(taken);
            assert(taken + all.skip(n as int) =~= all);
            assert(done + taken + rest@ =~= done + old_pending + bytes@);
        }
        self.pending = rest;
        self.consumed = Ghost(done + taken);
        Some(SourceEvent::Append(chunk))
    }

    /// The end of stdin: pending bytes (an unfinished sequence) become a
    /// last `Append` of their lossy decoding, then `Finished`. All the text
    /// handed out, before and now, is the lossy decoding of every byte
    /// read, whatever the read boundaries were.
    pub fn finish(&mut self) -> (events: Vec<SourceEvent>)
        requires
            old(self).wf(),
        ensures
            final(self).wf(),
            final(self)@.pending == Seq::<u8>::empty(),
            final(self)@.read + old(self)@.pending == old(self)@.read,
            final(self)@.shown == old(self)@.shown,
            old(self)@.pending.len() == 0 ==> events@.len() == 1,
            old(self)@.pending.len() > 0 ==> events@.len() == 2 && (match events@[0] {
                SourceEvent::Append(s) => s@ == utf8_lossy(old(self)@.pending) && s@.len() > 0,
                _ => false,
            }),
            events@.last() is Finished,
            old(self)@.shown + events_text(events@) == utf8_lossy(old(self)@.read),
    {
        let ghost done = self.consumed@;
        let ghost pend = self.pending@;
        let tail = decode_lossy(self.pending.as_slice());
        proof {
            assert(utf8_lossy(done + pend) == decode_utf8(done) + tail@);
        }
        let mut events: Vec<SourceEvent> = Vec::new();
        if self.pending.len() > 0 {
            events.push(SourceEvent::Append(tail));
        } else {
            assert(valid_utf8(pend));
        }
        events.push(SourceEvent::Finished);
        proof {
            reveal_with_fuel(events_text, 3);
            if pend.len() > 0 {
                assert(events@.drop_last().drop_last() =~= Seq::<SourceEvent>::empty());
                assert(events_text(events@) =~= tail@);
            } else {
                assert(events@.drop_last() =~= Seq::<SourceEvent>::empty());
                assert(events_text(events@) =~= Seq::<char>::empty());
            }
            assert(decode_utf8(done) + events_text(events@) =~= utf8_lossy(done + pend));
        }
        self.pending = Vec::new();
        assert(self@.read =~= done);
        events
    }
}

/// All the bytes of a sequence of reads, in order.
pub open spec fn concat_reads(reads: Seq<Seq<u8>>) -> Seq<u8>
    decreases reads.len(),
{
    if reads.len() == 0 {
        Seq::empty()
    } else {
        concat_reads(reads.drop_last()) + reads.last()
    }
}

/// Feeding a sequence of reads: (all bytes consumed into text, still pending).
pub open spec fn feed_run(pending: Seq<u8>, reads: Seq<Seq<u8>>) -> (Seq<u8>, Seq<u8>)
    decreases reads.len(),
{
    if reads.len() == 0 {
        (Seq::empty(), pending)
    } else {
        let (c, p) = feed_run(pending, reads.drop_last());
        let (c2, p2) = feed_spec(p, reads.last());
        (c + c2, p2)
    }
}

/// No byte read from stdin is lost or repeated: whatever the read
/// boundaries, the bytes turned into text, followed by the pending ones,
/// are exactly the bytes read.
pub proof fn lemma_feed_conserves_bytes(pending: Seq<u8>, reads: Seq<Seq<u8>>)
    ensures
        feed_run(pending, reads).0 + feed_run(pending, reads).1 == pending + concat_reads(reads),
    decreases reads.len(),
{
    if reads.len() > 0 {
        lemma_feed_conserves_bytes(pending, reads.drop_last());
        let (c, p) = feed_run(pending, reads.drop_last());
        let all = p + reads.last();
        let n = utf8_valid_up_to(all);
        lemma_longest_valid_within(all, all.len() as int);
        assert(all.take(n) + all.skip(n) =~= all);
        assert(c + (all.take(n) + all.skip(n)) =~= (c + all.take(n)) + all.skip(n));
        assert((c + p) + reads.last() =~= c + all);
        assert(pending + concat_reads(reads) =~= (pending + concat_reads(reads.drop_last()))
            + reads.last());
    }
}

/// A watched file, compared with what was last shown.
pub struct WatchState {
    last: Option<String>,
}

pub open spec fn opt_text(s: Option<String>) -> Option<Seq<char>> {
    match s {
        Some(s) => Some(s@),
        None => None,
    }
}

impl View for WatchState {
    type V = Option<Seq<char>>;

    /// The content last shown, if any.
    closed spec fn view(&self) -> Option<Seq<char>> {
        opt_text(self.last)
    }
}

/// The content of a read of the watched file: a file that cannot be read
/// counts as empty ("no content yet").
pub open spec fn read_content(read: Option<String>) -> Seq<char> {
    match read {
        Some(s) => s@,
        None => Seq::empty(),
    }
}

/// One poll: (content now shown, whether the dialog is to be refreshed).
pub open spec fn observe_spec(last: Option<Seq<char>>, content: Seq<char>) -> (Option<Seq<char>>, bool) {
    if last == Some(content) {
        (last, false)
    } else {
        (Some(content), true)
    }
}

impl WatchState {
    /// Nothing shown yet.
    pub fn new() -> (w: WatchState)
        ensures
            w@ is None,
    {
        WatchState { last: None }
    }

    /// One poll of the watched file (`None` when it could not be read). A
    /// content different from the last one shown becomes a `Replace`.
    pub fn observe(&mut self, read: Option<String>) -> (e: Option<SourceEvent>)
        ensures
            final(self)@ == observe_spec(old(self)@, read_content(read)).0,
            match e {
                Some(SourceEvent::Replace(s)) => observe_spec(old(self)@, read_content(read)).1
                    && s@ == read_content(read),
                Some(_) => false,
                None => !observe_spec(old(self)@, read_content(read)).1,
            },
            old(self)@ == Some(read_content(read)) ==> e is None && final(self)@ == old(self)@,
            old(self)@ != Some(read_content(read)) ==> final(self)@ == Some(read_content(read))
                && match e {
                Some(SourceEvent::Replace(s)) => s@ == read_content(read),
                _ => false,
            },
    {
        let content = match read {
            Some(s) => s,
            None => String::new(),
        };
        let same = match &self.last {
            Some(last) => *last == content,
            None => false,
        };
        if same {
            None
        } else {
            self.last = Some(content.clone());
            Some(SourceEvent::Replace(content))
        }
    }
}

/// A poll refreshes the dialog exactly when the content differs from the
/// last content shown, and then shows that content; identical content is
/// skipped and the state kept.
pub proof fn lemma_watch_refreshes_on_change(last: Option<Seq<char>>, content: Seq<char>)
    ensures
        last != Some(content) ==> observe_spec(last, content) == (Some(content), true),
        last == Some(content) ==> observe_spec(last, content) == (last, false),
{
}

/// A missing or unreadable file counts as empty: after content was shown,
/// losing the file refreshes the dialog to empty content.
pub proof fn lemma_watch_missing_is_empty(last: Option<Seq<char>>)
    ensures
        read_content(None) == Seq::<char>::empty(),
        last != Some(Seq::<char>::empty()) ==> observe_spec(last, read_content(None)) == (
            Some(Seq::<char>::empty()),
            true,
        ),
{
}

/// Polling an unchanged file does not refresh the dialog again.
pub proof fn lemma_watch_no_repeat(last: Option<Seq<char>>, content: Seq<char>)
    ensures
        !observe_spec(observe_spec(last, content).0, content).1,
{
}

} // verus!

verus! {

proof fn lemma_first_scalar_concat(a: Seq<u8>, b: Seq<u8>)
    requires
        a.len() > 0,
        valid_first_scalar(a),
    ensures
        valid_first_scalar(a + b),
        decode_first_scalar(a + b) == decode_first_scalar(a),
        length_of_first_scalar(a + b) == length_of_first_scalar(a),
        pop_first_scalar(a + b) =~= pop_first_scalar(a) + b,
{
    let ab = a + b;
    assert(ab[0] == a[0]);
    if a.len() >= 2 {
        assert(ab[1] == a[1]);
    }
    if a.len() >= 3 {
        assert(ab[2] == a[2]);
    }
    if a.len() >= 4 {
        assert(ab[3] == a[3]);
    }
}

/// Decoding two valid UTF-8 texts one after the other is decoding them
/// together.
proof fn lemma_decode_concat(a: Seq<u8>, b: Seq<u8>)
    requires
        valid_utf8(a),
        valid_utf8(b),
    ensures
        valid_utf8(a + b),
        decode_utf8(a + b) == decode_utf8(a) + decode_utf8(b),
    decreases a.len(),
{
    vstd::utf8::valid_utf8_concat(a, b);
    if a.len() == 0 {
        assert(a + b =~= b);
        assert(decode_utf8(a) =~= Seq::<char>::empty());
        assert(decode_utf8(a) + decode_utf8(b) =~= decode_utf8(b));
    } else {
        let rest = pop_first_scalar(a);
        lemma_first_scalar_concat(a, b);
        assert(rest.len() < a.len());
        lemma_decode_concat(rest, b);
        let c = decode_first_scalar(a) as char;
        assert(decode_utf8(a) == seq![c] + decode_utf8(rest));
        assert(decode_utf8(a + b) == seq![c] + decode_utf8(rest + b));
        assert(seq![c] + (decode_utf8(rest) + decode_utf8(b)) =~= (seq![c] + decode_utf8(rest))
            + decode_utf8(b));
    }
}

/// Valid UTF-8 that is not empty encodes at least one character.
proof fn lemma_decode_nonempty(b: Seq<u8>)
    requires
        valid_utf8(b),
        b.len() > 0,
    ensures
        decode_utf8(b).len() > 0,
{
}

/// What follows a valid UTF-8 prefix of a valid UTF-8 text is valid UTF-8.
proof fn lemma_valid_suffix(a: Seq<u8>, b: Seq<u8>)
    requires
        valid_utf8(a + b),
        valid_utf8(a),
    ensures
        valid_utf8(b),
{
    let ab = a + b;
    assert(ab.subrange(0, a.len() as int) =~= a);
    assert(ab.subrange(a.len() as int, ab.len() as int) =~= b);
    if !valid_utf8(b) {
        vstd::utf8::partial_valid_partial_invalid_utf8(ab, a.len() as int);
    }
}

/// The text that a sequence of reads turns into, chunk after chunk.
pub open spec fn text_run(pending: Seq<u8>, reads: Seq<Seq<u8>>) -> Seq<char>
    decreases reads.len(),
{
    if reads.len() == 0 {
        Seq::empty()
    } else {
        let p = feed_run(pending, reads.drop_last()).1;
        text_run(pending, reads.drop_last()) + decode_utf8(feed_spec(p, reads.last()).0)
    }
}

proof fn lemma_feed_run_valid(reads: Seq<Seq<u8>>)
    ensures
        valid_utf8(feed_run(Seq::empty(), reads).0),
        decode_utf8(feed_run(Seq::empty(), reads).0) == text_run(Seq::empty(), reads),
    decreases reads.len(),
{
    if reads.len() == 0 {
        assert(valid_utf8(Seq::<u8>::empty()));
    } else {
        lemma_feed_run_valid(reads.drop_last());
        let (c, p) = feed_run(Seq::empty(), reads.drop_last());
        let all = p + reads.last();
        lemma_longest_valid_within(all, all.len() as int);
        lemma_decode_concat(c, feed_spec(p, reads.last()).0);
    }
}

/// Reading stdin in chunks shows the same text as reading it whole: when
/// the bytes read are valid UTF-8, the text of the chunks followed by the
/// text of the bytes still pending at the end is the text of all of them.
pub proof fn lemma_stream_text_is_whole_text(reads: Seq<Seq<u8>>)
    requires
        valid_utf8(concat_reads(reads)),
    ensures
        valid_utf8(feed_run(Seq::empty(), reads).1),
        text_run(Seq::empty(), reads) + decode_utf8(feed_run(Seq::empty(), reads).1) == decode_utf8(
            concat_reads(reads),
        ),
{
    let (c, p) = feed_run(Seq::empty(), reads);
    lemma_feed_conserves_bytes(Seq::empty(), reads);
    assert(Seq::<u8>::empty() + concat_reads(reads) =~= concat_reads(reads));
    lemma_feed_run_valid(reads);
    lemma_valid_suffix(c, p);
    lemma_decode_concat(c, p);
}

} // verus!

verus! {

proof fn lemma_longest_valid_is_longest(b: Seq<u8>, k: int, m: int)
    requires
        0 <= m <= k <= b.len(),
        valid_utf8(b.take(m)),
    ensures
        m <= longest_valid_within(b, k),
    decreases k,
{
    if k > 0 && !valid_utf8(b.take(k)) && m < k {
        lemma_longest_valid_is_longest(b, k - 1, m);
    }
}

/// Text is never held back: after a read, no complete character waits at
/// the front of the pending bytes (every non-empty prefix of them is
/// invalid UTF-8).
pub proof fn lemma_feed_holds_back_no_character(pending: Seq<u8>, bytes: Seq<u8>, k: int)
    requires
        0 < k <= feed_spec(pending, bytes).1.len(),
    ensures
        !valid_utf8(feed_spec(pending, bytes).1.take(k)),
{
    let all = pending + bytes;
    let n = utf8_valid_up_to(all);
    lemma_longest_valid_within(all, all.len() as int);
    let rest = all.skip(n);
    if valid_utf8(rest.take(k)) {
        lemma_decode_concat(all.take(n), rest.take(k));
        assert(all.take(n) + rest.take(k) =~= all.take(n + k));
        lemma_longest_valid_is_longest(all, all.len() as int, n + k);
    }
}

} // verus!
