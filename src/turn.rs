//! One turn of a conversation: the state machine that assembles frames from
//! the response's byte chunks, decodes them, and accumulates the assistant's
//! text, until the stream completes, is cancelled, or fails.
//!
//! The stream is cut into candidate frames at every line feed and at every
//! occurrence of the marker `data:`. Whatever follows the last cut is kept
//! until a later chunk completes it, so that where a chunk ends never matters.
use crate::event::{decode_payload, event_of, DecodeCause, Event, EventView};
use vstd::prelude::*;
use vstd::string::*;

verus! {

/// Where a turn stands.
#[derive(Debug, PartialEq, Eq)]
pub enum TurnState {
    /// The request is on its way; no response yet.
    Sending,
    /// The response is being read.
    Streaming,
    /// The stream ended, by its termination sentinel or by its end.
    Completed,
    /// Cancellation was requested.
    Cancelled,
    /// The request could not be sent, or no response came back.
    RequestFailure,
    /// Reading a chunk of the response failed.
    TransportError,
    /// The server reported an error.
    ServerError { kind: Option<String>, message: Option<String> },
    /// A frame could not be decoded.
    DecodeFailure { raw: Vec<u8>, cause: DecodeCause },
}

/// The mathematical value of a [`TurnState`].
pub enum StateView {
    Sending,
    Streaming,
    Completed,
    Cancelled,
    RequestFailure,
    TransportError,
    ServerError { kind: Option<Seq<char>>, message: Option<Seq<char>> },
    DecodeFailure { raw: Seq<u8>, cause: DecodeCause },
}

impl View for TurnState {
    type V = StateView;

    open spec fn view(&self) -> StateView {
        match self {
            TurnState::Sending => StateView::Sending,
            TurnState::Streaming => StateView::Streaming,
            TurnState::Completed => StateView::Completed,
            TurnState::Cancelled => StateView::Cancelled,
            TurnState::RequestFailure => StateView::RequestFailure,
            TurnState::TransportError => StateView::TransportError,
            TurnState::ServerError { kind, message } => StateView::ServerError {
                kind: crate::event::opt_view(*kind),
                message: crate::event::opt_view(*message),
            },
            TurnState::DecodeFailure { raw, cause } => StateView::DecodeFailure { raw: raw@, cause: *cause },
        }
    }
}

/// The mathematical value of a [`Turn`]: its state, the bytes not yet resolved
/// into a frame, the text accumulated so far, and each delta that was added.
pub struct TurnView {
    pub state: StateView,
    pub pending: Seq<u8>,
    pub text: Seq<char>,
    pub deltas: Seq<Seq<char>>,
}

pub open spec fn is_ws(b: u8) -> bool {
    b == 32 || b == 9 || b == 10 || b == 13 || b == 12
}

pub open spec fn trim_start(s: Seq<u8>) -> Seq<u8>
    decreases s.len(),
{
    if s.len() > 0 && is_ws(s[0]) {
        trim_start(s.drop_first())
    } else {
        s
    }
}

pub open spec fn trim_end(s: Seq<u8>) -> Seq<u8>
    decreases s.len(),
{
    if s.len() > 0 && is_ws(s.last()) {
        trim_end(s.drop_last())
    } else {
        s
    }
}

/// The bytes without leading and trailing ASCII whitespace.
pub open spec fn trim(s: Seq<u8>) -> Seq<u8> {
    trim_end(trim_start(s))
}

/// `data:`, the marker that introduces a frame.
pub open spec fn marker() -> Seq<u8> {
    seq![100u8, 97u8, 116u8, 97u8, 58u8]
}

/// `[DONE]`, the frame that ends the stream.
pub open spec fn sentinel() -> Seq<u8> {
    seq![91u8, 68u8, 79u8, 78u8, 69u8, 93u8]
}

pub open spec fn ends_with_marker(s: Seq<u8>) -> bool {
    s.len() >= 5 && s.subrange(s.len() - 5, s.len() as int) == marker()
}

/// The concatenation of a sequence of texts.
pub open spec fn concat_all(ds: Seq<Seq<char>>) -> Seq<char>
    decreases ds.len(),
{
    if ds.len() == 0 {
        Seq::empty()
    } else {
        concat_all(ds.drop_last()) + ds.last()
    }
}

pub open spec fn views(v: Seq<String>) -> Seq<Seq<char>> {
    v.map_values(|s: String| s@)
}

pub open spec fn initial() -> TurnView {
    TurnView { state: StateView::Sending, pending: Seq::empty(), text: Seq::empty(), deltas: Seq::empty() }
}

/// What one candidate frame does to a streaming turn.
pub open spec fn apply_frame(t: TurnView, candidate: Seq<u8>) -> TurnView {
    let c = trim(candidate);
    if c.len() == 0 {
        t
    } else if c == sentinel() {
        TurnView { state: StateView::Completed, ..t }
    } else {
        match event_of(c) {
            EventView::ContentDelta { text: Some(x) } => if x.len() > 0 {
                TurnView { text: t.text + x, deltas: t.deltas.push(x), ..t }
            } else {
                t
            },
            EventView::ContentDelta { text: None } => t,
            EventView::ServerError { kind, message } => TurnView {
                state: StateView::ServerError { kind, message },
                ..t
            },
            EventView::DecodeFailure { raw, cause } => TurnView {
                state: StateView::DecodeFailure { raw, cause },
                ..t
            },
        }
    }
}

/// What one byte of the response does to a turn.
pub open spec fn feed_byte(t: TurnView, b: u8) -> TurnView {
    let p = t.pending.push(b);
    if !(t.state is Streaming) {
        t
    } else if b == 10 {
        apply_frame(TurnView { pending: Seq::empty(), ..t }, t.pending)
    } else if ends_with_marker(p) {
        apply_frame(TurnView { pending: Seq::empty(), ..t }, p.subrange(0, p.len() - 5))
    } else {
        TurnView { pending: p, ..t }
    }
}

/// What a run of bytes of the response does to a turn.
pub open spec fn feed(t: TurnView, bytes: Seq<u8>) -> TurnView
    decreases bytes.len(),
{
    if bytes.len() == 0 {
        t
    } else {
        feed_byte(feed(t, bytes.drop_last()), bytes.last())
    }
}

/// Moves a turn that is in `from` to `to`, dropping the unresolved bytes.
pub open spec fn settle(t: TurnView, from: StateView, to: StateView) -> TurnView {
    if t.state == from {
        TurnView { state: to, pending: Seq::empty(), ..t }
    } else {
        t
    }
}

/// Cancellation ends a turn that is sending or streaming, keeping its text.
pub open spec fn cancel(t: TurnView) -> TurnView {
    if t.state is Sending || t.state is Streaming {
        TurnView { state: StateView::Cancelled, pending: Seq::empty(), ..t }
    } else {
        t
    }
}

/// The exit status that a finished turn asks of the process, if any: a payload
/// that could not be decoded asks for 1, an error from the server for 0.
pub open spec fn exit_status_of(s: StateView) -> Option<u8> {
    match s {
        StateView::DecodeFailure { .. } => Some(1),
        StateView::ServerError { .. } => Some(0),
        _ => None,
    }
}

pub open spec fn delta_seq(d: Option<String>) -> Seq<Seq<char>> {
    match d {
        Some(s) => seq![s@],
        None => Seq::empty(),
    }
}

/// One request/response cycle: its state, the bytes received but not yet
/// resolved into a frame, and the assistant text accumulated so far.
pub struct Turn {
    state: TurnState,
    pending: Vec<u8>,
    text: String,
    deltas: Ghost<Seq<Seq<char>>>,
}

impl View for Turn {
    type V = TurnView;

    closed spec fn view(&self) -> TurnView {
        TurnView { state: self.state@, pending: self.pending@, text: self.text@, deltas: self.deltas@ }
    }
}

fn is_ws_byte(b: u8) -> (r: bool)
    ensures
        r == is_ws(b),
{
    b == 32 || b == 9 || b == 10 || b == 13 || b == 12
}

/// The bytes without leading and trailing ASCII whitespace.
pub fn trim_bytes(s: &Vec<u8>) -> (r: Vec<u8>)
    ensures
        r@ == trim(s@),
{
    let n = s.len();
    let mut i: usize = 0;
    assert(s@.subrange(0, n as int) =~= s@);
    while i < n && is_ws_byte(s[i])
        invariant
            i <= n,
            n == s@.len(),
            trim_start(s@) == trim_start(s@.subrange(i as int, n as int)),
        decreases n - i,
    {
        assert(s@.subrange(i as int, n as int).drop_first() =~= s@.subrange(i + 1, n as int));
        i += 1;
    }
    assert(trim_start(s@) == s@.subrange(i as int, n as int));
    let mut j: usize = n;
    while j > i && is_ws_byte(s[j - 1])
        invariant
            i <= j <= n,
            n == s@.len(),
            trim(s@) == trim_end(s@.subrange(i as int, j as int)),
        decreases j,
    {
        assert(s@.subrange(i as int, j as int).drop_last() =~= s@.subrange(i as int, j - 1));
        j -= 1;
    }
    assert(trim(s@) == s@.subrange(i as int, j as int));
    let mut r: Vec<u8> = Vec::new();
    let mut k: usize = i;
    while k < j
        invariant
            i <= k <= j <= n,
            n == s@.len(),
            r@ == s@.subrange(i as int, k as int),
        decreases j - k,
    {
        r.push(s[k]);
        assert(r@ =~= s@.subrange(i as int, k + 1));
        k += 1;
    }
    r
}

fn is_sentinel(c: &Vec<u8>) -> (r: bool)
    ensures
        r == (c@ == sentinel()),
{
    let r = c.len() == 6 && c[0] == 91 && c[1] == 68 && c[2] == 79 && c[3] == 78 && c[4] == 69
        && c[5] == 93;
    if r {
        assert(c@ =~= sentinel());
    }
    r
}

impl Turn {
    /// A turn whose request is on its way.
    pub fn new() -> (r: Turn)
        ensures
            r@ == initial(),
    {
        Turn { state: TurnState::Sending, pending: Vec::new(), text: String::new(), deltas: Ghost(Seq::empty()) }
    }

    pub fn state(&self) -> (r: &TurnState)
        ensures
            r@ == self@.state,
    {
        &self.state
    }

    /// The assistant text accumulated so far.
    pub fn text(&self) -> (r: &String)
        ensures
            r@ == self@.text,
    {
        &self.text
    }

    /// Whether the turn has ended, one way or another.
    pub fn is_finished(&self) -> (r: bool)
        ensures
            r == !(self@.state is Sending || self@.state is Streaming),
    {
        !matches!(self.state, TurnState::Sending | TurnState::Streaming)
    }

    /// The response was established: chunks may now be read.
    pub fn connected(&mut self)
        ensures
            final(self)@ == settle(old(self)@, StateView::Sending, StateView::Streaming),
    {
        if matches!(self.state, TurnState::Sending) {
            self.state = TurnState::Streaming;
            self.pending = Vec::new();
        }
    }

    /// The request could not be sent, or no response came back.
    pub fn request_failed(&mut self)
        ensures
            final(self)@ == settle(old(self)@, StateView::Sending, StateView::RequestFailure),
    {
        if matches!(self.state, TurnState::Sending) {
            self.state = TurnState::RequestFailure;
            self.pending = Vec::new();
        }
    }

    /// Reading the next chunk failed.
    pub fn transport_failed(&mut self)
        ensures
            final(self)@ == settle(old(self)@, StateView::Streaming, StateView::TransportError),
    {
        if matches!(self.state, TurnState::Streaming) {
            self.state = TurnState::TransportError;
            self.pending = Vec::new();
        }
    }

    /// The response has no more chunks. A partial frame left over is dropped.
    pub fn end_of_stream(&mut self)
        ensures
            final(self)@ == settle(old(self)@, StateView::Streaming, StateView::Completed),
    {
        if matches!(self.state, TurnState::Streaming) {
            self.state = TurnState::Completed;
            self.pending = Vec::new();
        }
    }

    /// Cancellation was requested: the partial frame is dropped and the turn
    /// ends with the text it has.
    pub fn cancel(&mut self)
        ensures
            final(self)@ == cancel(old(self)@),
    {
        if matches!(self.state, TurnState::Sending | TurnState::Streaming) {
            self.state = TurnState::Cancelled;
            self.pending = Vec::new();
        }
    }

    /// The exit status that the turn's end asks of the process, if any.
    pub fn exit_status(&self) -> (r: Option<u8>)
        ensures
            r == exit_status_of(self@.state),
    {
        match self.state {
            TurnState::DecodeFailure { .. } => Some(1),
            TurnState::ServerError { .. } => Some(0),
            _ => None,
        }
    }

    /// Gives up the turn for its accumulated text.
    pub fn into_text(self) -> (r: String)
        ensures
            r@ == self@.text,
    {
        self.text
    }

    /// Handles one candidate frame; returns the delta it added, if any.
    fn take_frame(&mut self, candidate: &Vec<u8>) -> (r: Option<String>)
        ensures
            final(self)@ == apply_frame(old(self)@, candidate@),
            final(self)@.deltas == old(self)@.deltas + delta_seq(r),
    {
        let c = trim_bytes(candidate);
        if c.len() == 0 {
            return None;
        }
        if is_sentinel(&c) {
            self.state = TurnState::Completed;
            return None;
        }
        let ghost payload = c@;
        let event = decode_payload(c);
        assert(event@ == event_of(payload));
        match event {
            Event::ContentDelta { text: Some(x) } => {
                if x.as_str().is_empty() {
                    None
                } else {
                    self.text.append(x.as_str());
                    self.deltas = Ghost(self.deltas@.push(x@));
                    Some(x)
                }
            },
            Event::ContentDelta { text: None } => None,
            Event::ServerError { kind, message } => {
                self.state = TurnState::ServerError { kind, message };
                None
            },
            Event::DecodeFailure { raw, cause } => {
                self.state = TurnState::DecodeFailure { raw, cause };
                None
            },
        }
    }

    /// Handles one byte of the response; returns the delta it added, if any.
    fn take_byte(&mut self, b: u8) -> (r: Option<String>)
        ensures
            final(self)@ == feed_byte(old(self)@, b),
            final(self)@.deltas == old(self)@.deltas + delta_seq(r),
    {
        if !matches!(self.state, TurnState::Streaming) {
            return None;
        }
        if b == 10 {
            let mut candidate: Vec<u8> = Vec::new();
            std::mem::swap(&mut candidate, &mut self.pending);
            return self.take_frame(&candidate);
        }
        self.pending.push(b);
        let n = self.pending.len();
        if n >= 5 && self.pending[n - 5] == 100 && self.pending[n - 4] == 97
            && self.pending[n - 3] == 116 && self.pending[n - 2] == 97 && self.pending[n - 1] == 58 {
            assert(self.pending@.subrange(n - 5, n as int) =~= marker());
            let ghost p = self.pending@;
            let mut candidate: Vec<u8> = Vec::new();
            std::mem::swap(&mut candidate, &mut self.pending);
            let mut k: usize = 0;
            while k < 5
                invariant
                    k <= 5,
                    n == p.len(),
                    n >= 5,
                    candidate@ == p.subrange(0, n - k),
                decreases 5 - k,
            {
                candidate.pop();
                assert(candidate@ =~= p.subrange(0, n - k - 1));
                k += 1;
            }
            self.take_frame(&candidate)
        } else {
            proof {
                if ends_with_marker(self.pending@) {
                    let s = self.pending@.subrange(n - 5, n as int);
                    assert(s[0] == marker()[0] && s[1] == marker()[1] && s[2] == marker()[2]
                        && s[3] == marker()[3] && s[4] == marker()[4]);
                }
            }
            None
        }
    }

    /// Feeds the next chunk of the response. Returns, in order, the deltas
    /// that the chunk's frames added to the text.
    pub fn feed_chunk(&mut self, chunk: &[u8]) -> (emitted: Vec<String>)
        ensures
            final(self)@ == feed(old(self)@, chunk@),
            final(self)@.deltas == old(self)@.deltas + views(emitted@),
            !(old(self)@.state is Streaming) ==> final(self)@ == old(self)@ && emitted@.len() == 0,
    {
        proof {
            if !(self@.state is Streaming) {
                lemma_ended_turn_is_inert(self@, chunk@);
            }
        }
        let mut out: Vec<String> = Vec::new();
        let mut i: usize = 0;
        assert(chunk@.subrange(0, 0) =~= Seq::<u8>::empty());
        while i < chunk.len()
            invariant
                i <= chunk@.len(),
                self@ == feed(old(self)@, chunk@.subrange(0, i as int)),
                self@.deltas == old(self)@.deltas + views(out@),
            decreases chunk@.len() - i,
        {
            assert(chunk@.subrange(0, i + 1).drop_last() =~= chunk@.subrange(0, i as int));
            let d = self.take_byte(chunk[i]);
            match d {
                Some(s) => {
                    assert(views(out@.push(s)) =~= views(out@).push(s@));
                    out.push(s);
                },
                None => {},
            }
            assert(self@.deltas =~= old(self)@.deltas + views(out@));
            i += 1;
        }
        assert(chunk@.subrange(0, chunk@.len() as int) =~= chunk@);
        out
    }
}


/// The concatenation of a sequence of chunks.
pub open spec fn flatten(chunks: Seq<Seq<u8>>) -> Seq<u8>
    decreases chunks.len(),
{
    if chunks.len() == 0 {
        Seq::empty()
    } else {
        flatten(chunks.drop_last()) + chunks.last()
    }
}

/// What a sequence of chunks, fed one after another, does to a turn.
pub open spec fn feed_chunks(t: TurnView, chunks: Seq<Seq<u8>>) -> TurnView
    decreases chunks.len(),
{
    if chunks.len() == 0 {
        t
    } else {
        feed(feed_chunks(t, chunks.drop_last()), chunks.last())
    }
}

/// Feeding a stream in two pieces leaves a turn exactly as feeding it whole.
pub proof fn lemma_feed_split(t: TurnView, a: Seq<u8>, b: Seq<u8>)
    ensures
        feed(t, a + b) == feed(feed(t, a), b),
    decreases b.len(),
{
    if b.len() == 0 {
        assert(a + b =~= a);
    } else {
        assert((a + b).drop_last() =~= a + b.drop_last());
        lemma_feed_split(t, a, b.drop_last());
    }
}

/// Frame reassembly does not depend on where the chunks are cut: however a
/// stream is divided, feeding its chunks one by one gives the same state, the
/// same text and the same deltas, in the same order, as feeding it whole.
pub proof fn lemma_chunking_invariant(t: TurnView, chunks: Seq<Seq<u8>>)
    ensures
        feed_chunks(t, chunks) == feed(t, flatten(chunks)),
    decreases chunks.len(),
{
    if chunks.len() > 0 {
        lemma_chunking_invariant(t, chunks.drop_last());
        lemma_feed_split(t, flatten(chunks.drop_last()), chunks.last());
    }
}

/// A marker cut anywhere across two chunks is found as one marker: the turn
/// ends as if the marker had come whole.
pub proof fn lemma_marker_cut(t: TurnView, before: Seq<u8>, after: Seq<u8>, k: int)
    requires
        0 <= k <= 5,
    ensures
        feed(feed(t, before + marker().take(k)), marker().skip(k) + after) == feed(t, before + marker() + after),
{
    lemma_feed_split(t, before + marker().take(k), marker().skip(k) + after);
    assert(before + marker().take(k) + (marker().skip(k) + after) =~= before + marker() + after);
}

/// A turn that is not streaming takes no more bytes.
pub proof fn lemma_ended_turn_is_inert(t: TurnView, bytes: Seq<u8>)
    requires
        !(t.state is Streaming),
    ensures
        feed(t, bytes) == t,
    decreases bytes.len(),
{
    if bytes.len() > 0 {
        lemma_ended_turn_is_inert(t, bytes.drop_last());
    }
}

/// Once the stream has completed, as on its termination sentinel, whatever
/// bytes follow change nothing: no further deltas and no further state.
pub proof fn lemma_nothing_after_completion(t: TurnView, done: Seq<u8>, rest: Seq<u8>)
    requires
        feed(t, done).state is Completed,
    ensures
        feed(t, done + rest) == feed(t, done),
{
    lemma_feed_split(t, done, rest);
    lemma_ended_turn_is_inert(feed(t, done), rest);
}

/// Cancelling a turn before any chunk has arrived ends it as cancelled, with
/// no text.
pub proof fn lemma_cancel_before_chunks(connected: bool)
    ensures
        ({
            let t = if connected {
                settle(initial(), StateView::Sending, StateView::Streaming)
            } else {
                initial()
            };
            &&& cancel(t).state is Cancelled
            &&& cancel(t).text == Seq::<char>::empty()
            &&& cancel(t).deltas == Seq::<Seq<char>>::empty()
        }),
{
}

proof fn lemma_concat_push(ds: Seq<Seq<char>>, x: Seq<char>)
    ensures
        concat_all(ds.push(x)) == concat_all(ds) + x,
{
    assert(ds.push(x).drop_last() =~= ds);
}

/// Each delta reaches the text exactly once: as long as the text is the
/// concatenation of the deltas added so far, it stays so whatever bytes come.
pub proof fn lemma_text_is_deltas(t: TurnView, bytes: Seq<u8>)
    requires
        t.text == concat_all(t.deltas),
    ensures
        feed(t, bytes).text == concat_all(feed(t, bytes).deltas),
    decreases bytes.len(),
{
    if bytes.len() > 0 {
        lemma_text_is_deltas(t, bytes.drop_last());
        let u = feed(t, bytes.drop_last());
        let b = bytes.last();
        let p = u.pending.push(b);
        let cand = if b == 10 { u.pending } else { p.subrange(0, p.len() - 5) };
        let c = trim(cand);
        if u.state is Streaming && (b == 10 || ends_with_marker(p)) && c.len() > 0 && c != sentinel() {
            if let EventView::ContentDelta { text: Some(x) } = event_of(c) {
                lemma_concat_push(u.deltas, x);
            }
        }
    }
}

} // verus!
