use vstd::prelude::*;
use vstd::string::StringExecFns;

verus! {

/// Shortest time between two applied text updates (about 15 per second).
pub const TEXT_UPDATE_INTERVAL_MS: u64 = 67;

/// Text of a result window: what it shows, its undo history, the refinement
/// flags, and the buffer through which streamed text reaches the screen.
pub struct TextState {
    /// The text the window shows.
    pub full_text: String,
    /// Texts shown before each refinement not yet undone, oldest first.
    pub text_history: Vec<String>,
    /// A refinement request is in flight and no chunk of it has arrived.
    pub is_refining: bool,
    /// The inline instruction box is open.
    pub is_editing: bool,
    /// Text waiting for the next throttled repaint.
    pub pending_text: Option<String>,
    /// When pending text was last applied, in milliseconds.
    pub last_text_update_time: u64,
    /// The text layer must be drawn again.
    pub font_cache_dirty: bool,
    /// Number of the latest refinement request; chunks and results of older ones are ignored.
    pub refine_generation: u64,
    /// The latest refinement request has not ended and was not undone.
    pub refine_in_flight: bool,
}

/// The content of a `TextState`, with strings as character sequences.
pub struct TextView {
    pub full: Seq<char>,
    pub history: Seq<Seq<char>>,
    pub refining: bool,
    pub editing: bool,
    pub pending: Option<Seq<char>>,
    pub last_update: u64,
    pub dirty: bool,
    pub generation: u64,
    pub in_flight: bool,
}

pub open spec fn option_view(o: Option<String>) -> Option<Seq<char>> {
    match o {
        Some(s) => Some(s@),
        None => None,
    }
}

impl View for TextState {
    type V = TextView;

    open spec fn view(&self) -> TextView {
        TextView {
            full: self.full_text@,
            history: self.text_history@.map_values(|s: String| s@),
            refining: self.is_refining,
            editing: self.is_editing,
            pending: option_view(self.pending_text),
            last_update: self.last_text_update_time,
            dirty: self.font_cache_dirty,
            generation: self.refine_generation,
            in_flight: self.refine_in_flight,
        }
    }
}

/// What a refinement request carries from the window's text.
pub struct RefineRequest {
    /// The text being refined.
    pub previous_text: String,
    /// The user's instruction.
    pub instruction: String,
    /// Number of this request, to pass back with its chunks and result.
    pub generation: u64,
}

/// Prefix of the message shown when a request fails.
pub open spec fn error_prefix() -> Seq<char> {
    seq!['E', 'r', 'r', 'o', 'r', ':', ' ']
}

/// Whether enough time has passed since `last` for another text update at `now`.
pub open spec fn update_due(last: u64, now: u64) -> bool {
    now >= last && now - last >= TEXT_UPDATE_INTERVAL_MS
}

impl TextView {
    /// A streamed or final text arrives for the window.
    pub open spec fn with_text(self, text: Seq<char>) -> TextView {
        TextView { full: text, pending: Some(text), ..self }
    }

    /// The text the render tick at time `now` hands out for display: the pending
    /// text, when there is one and an update is due.
    pub open spec fn due_text(self, now: u64) -> Option<Seq<char>> {
        if self.pending is Some && update_due(self.last_update, now) { self.pending } else { None }
    }

    /// The render tick at time `now` applies pending text when an update is due.
    pub open spec fn drained(self, now: u64) -> TextView {
        if self.pending is Some && update_due(self.last_update, now) {
            TextView { pending: None, last_update: now, dirty: true, ..self }
        } else {
            self
        }
    }

    /// A refinement is submitted: the shown text goes on the history and the display clears.
    pub open spec fn submitted(self) -> TextView {
        TextView {
            full: Seq::empty(),
            history: self.history.push(self.full),
            refining: true,
            editing: false,
            pending: None,
            dirty: true,
            generation: self.generation.wrapping_add(1),
            in_flight: true,
            ..self
        }
    }

    /// A chunk arrives from refinement request `generation`; only the latest request,
    /// while in flight, changes the text.
    pub open spec fn with_chunk(self, chunk: Seq<char>, generation: u64) -> TextView {
        if self.in_flight && generation == self.generation {
            let full = self.full + chunk;
            TextView { full, refining: false, pending: Some(full), ..self }
        } else {
            self
        }
    }

    /// Refinement request `generation` ends, with its full text or an error message;
    /// only the latest request, while in flight, changes the text.
    pub open spec fn finished(self, result: Result<Seq<char>, Seq<char>>, generation: u64) -> TextView {
        if self.in_flight && generation == self.generation {
            let full = match result {
                Ok(t) => t,
                Err(e) => error_prefix() + e,
            };
            TextView { full, refining: false, pending: Some(full), in_flight: false, ..self }
        } else {
            self
        }
    }

    /// Undo: the last history entry comes back, replacing any pending text, and a
    /// refinement in flight is abandoned; nothing happens on an empty history.
    pub open spec fn undone(self) -> TextView {
        if self.history.len() == 0 {
            self
        } else {
            TextView {
                full: self.history.last(),
                history: self.history.drop_last(),
                dirty: true,
                pending: None,
                refining: false,
                in_flight: false,
                ..self
            }
        }
    }
}

impl TextState {
    /// An empty window text with nothing pending.
    pub fn new() -> (r: TextState)
        ensures
            r@ == (TextView {
                full: Seq::empty(),
                history: Seq::empty(),
                refining: false,
                editing: false,
                pending: None,
                last_update: 0,
                dirty: true,
                generation: 0,
                in_flight: false,
            }),
    {
        let r = TextState {
            full_text: String::new(),
            text_history: Vec::new(),
            is_refining: false,
            is_editing: false,
            pending_text: None,
            last_text_update_time: 0,
            font_cache_dirty: true,
            refine_generation: 0,
            refine_in_flight: false,
        };
        proof {
            assert(r@.history =~= Seq::<Seq<char>>::empty());
        }
        r
    }

    /// New text for the window (a streamed chunk or a final result); it is shown at
    /// once in `full_text` and reaches the screen at the next due update.
    pub fn set_text(&mut self, text: &str)
        ensures
            final(self)@ == old(self)@.with_text(text@),
    {
        self.full_text = String::from_str(text);
        self.pending_text = Some(String::from_str(text));
    }

    /// Called by the render tick at time `now` (milliseconds): returns the pending
    /// text when one is waiting and the last update is at least the interval old.
    pub fn take_pending_text(&mut self, now: u64) -> (r: Option<String>)
        ensures
            final(self)@ == old(self)@.drained(now),
            option_view(r) == old(self)@.due_text(now),
    {
        if self.pending_text.is_some() && now >= self.last_text_update_time
            && now - self.last_text_update_time >= TEXT_UPDATE_INTERVAL_MS {
            let r = self.pending_text.take();
            self.last_text_update_time = now;
            self.font_cache_dirty = true;
            r
        } else {
            None
        }
    }

    /// Opens the instruction box.
    pub fn begin_edit(&mut self)
        ensures
            final(self)@ == (TextView { editing: true, ..old(self)@ }),
    {
        self.is_editing = true;
    }

    /// Closes the instruction box; the window and its text stay as they are.
    pub fn cancel_edit(&mut self)
        ensures
            final(self)@ == (TextView { editing: false, ..old(self)@ }),
    {
        self.is_editing = false;
    }

    /// Submits `instruction`: the current text goes on the history, the display
    /// clears and the refining animation starts. Returns what the request carries.
    pub fn submit_refinement(&mut self, instruction: &str) -> (r: RefineRequest)
        ensures
            final(self)@ == old(self)@.submitted(),
            r.previous_text@ == old(self)@.full,
            r.instruction@ == instruction@,
            r.generation == final(self)@.generation,
    {
        let previous = self.full_text.clone();
        let ghost old_hist = self.text_history@;
        self.text_history.push(previous.clone());
        proof {
            assert(self.text_history@.map_values(|s: String| s@)
                =~= old_hist.map_values(|s: String| s@).push(previous@));
        }
        self.full_text = String::new();
        self.is_refining = true;
        self.is_editing = false;
        self.pending_text = None;
        self.font_cache_dirty = true;
        self.refine_generation = self.refine_generation.wrapping_add(1);
        self.refine_in_flight = true;
        RefineRequest {
            previous_text: previous,
            instruction: String::from_str(instruction),
            generation: self.refine_generation,
        }
    }

    /// A chunk of refined text from request `generation` arrives: the first one ends
    /// the refining animation, and each is appended to the shown text. Chunks of a
    /// request that was undone or superseded are dropped.
    pub fn apply_refine_chunk(&mut self, chunk: &str, generation: u64)
        ensures
            final(self)@ == old(self)@.with_chunk(chunk@, generation),
    {
        if !self.refine_in_flight || generation != self.refine_generation {
            return;
        }
        self.full_text.append(chunk);
        self.is_refining = false;
        self.pending_text = Some(self.full_text.clone());
    }

    /// Refinement request `generation` ended: its full text, or `"Error: "` and the
    /// error. The result of a request that was undone or superseded is dropped.
    pub fn finish_refinement(&mut self, result: Result<String, String>, generation: u64)
        ensures
            final(self)@ == old(self)@.finished(match result {
                Ok(t) => Ok(t@),
                Err(e) => Err(e@),
            }, generation),
    {
        if !self.refine_in_flight || generation != self.refine_generation {
            return;
        }
        let full = match result {
            Ok(t) => t,
            Err(e) => {
                let mut msg = String::from_str("Error: ");
                proof {
                    reveal_strlit("Error: ");
                    assert(msg@ =~= error_prefix());
                }
                msg.append(e.as_str());
                msg
            },
        };
        self.full_text = full.clone();
        self.is_refining = false;
        self.pending_text = Some(full);
        self.refine_in_flight = false;
    }

    /// Whether the undo control is offered.
    pub fn can_undo(&self) -> (r: bool)
        ensures
            r == (self@.history.len() > 0),
    {
        self.text_history.len() > 0
    }

    /// Restores the text shown before the last refinement, abandoning a refinement in
    /// flight and any pending text; does nothing without history.
    pub fn undo(&mut self)
        ensures
            final(self)@ == old(self)@.undone(),
    {
        let ghost old_hist = self.text_history@;
        match self.text_history.pop() {
            Some(prev) => {
                proof {
                    assert(self.text_history@.map_values(|s: String| s@)
                        =~= old_hist.map_values(|s: String| s@).drop_last());
                }
                self.full_text = prev;
                self.font_cache_dirty = true;
                self.pending_text = None;
                self.is_refining = false;
                self.refine_in_flight = false;
            },
            None => {},
        }
    }
}

/// Undo after submitting a refinement gives back exactly the text and history
/// from before the submission, and later chunks or results of that request change
/// nothing; undo on an empty history changes nothing.
pub proof fn lemma_undo_reverses_refinement(t: TextView, chunk: Seq<char>, result: Result<Seq<char>, Seq<char>>)
    ensures
        t.submitted().undone().full == t.full,
        t.submitted().undone().history == t.history,
        t.submitted().undone().with_chunk(chunk, t.submitted().generation) == t.submitted().undone(),
        t.submitted().undone().finished(result, t.submitted().generation) == t.submitted().undone(),
        t.history.len() == 0 ==> t.undone() == t,
{
    assert(t.submitted().history.drop_last() =~= t.history);
}

/// Each chunk of a refinement is appended, in order, to what came before.
pub proof fn lemma_chunks_accumulate(t: TextView, a: Seq<char>, b: Seq<char>)
    ensures
        ({
            let g = t.submitted().generation;
            &&& t.submitted().with_chunk(a, g).with_chunk(b, g).full == a + b
            &&& !t.submitted().with_chunk(a, g).refining
        }),
{
    assert(Seq::<char>::empty() + a =~= a);
}

/// Whatever arrives while updates are throttled, the shown text is the last text
/// received, and once an update is due the render tick hands exactly that text on.
pub proof fn lemma_last_text_wins(t: TextView, texts: Seq<Seq<char>>, now: u64)
    requires
        texts.len() > 0,
    ensures
        texts_received(t, texts).full == texts.last(),
        update_due(t.last_update, now) ==> texts_received(t, texts).drained(now).pending is None,
        texts_received(t, texts).pending == Some(texts.last()),
        texts_received(t, texts).last_update == t.last_update,
    decreases texts.len(),
{
    if texts.len() > 1 {
        lemma_last_text_wins(t, texts.drop_last(), now);
    } else {
        assert(texts_received(t, texts.drop_last()) == t);
    }
}

/// The state after the texts `texts` arrive one after another.
pub open spec fn texts_received(t: TextView, texts: Seq<Seq<char>>) -> TextView
    decreases texts.len(),
{
    if texts.len() == 0 {
        t
    } else {
        texts_received(t, texts.drop_last()).with_text(texts.last())
    }
}

/// Times at which text updates were applied: each one a full interval after the previous.
pub open spec fn spaced_updates(times: Seq<int>) -> bool {
    forall|i: int| 0 <= i < times.len() - 1 ==> times[i] + TEXT_UPDATE_INTERVAL_MS <= #[trigger] times[i + 1]
}

/// Throttling bounds the number of applied updates by the elapsed time: over
/// `elapsed` milliseconds at most `elapsed * 15 / 1000 + 1` updates (15 per second)
/// reach the screen.
pub proof fn lemma_throttled_update_count(times: Seq<int>)
    requires
        times.len() > 0,
        spaced_updates(times),
    ensures
        times.len() <= (times.last() - times[0]) * 15 / 1000 + 1,
        times.last() - times[0] >= (times.len() - 1) * TEXT_UPDATE_INTERVAL_MS,
    decreases times.len(),
{
    if times.len() > 1 {
        let prefix = times.drop_last();
        assert forall|i: int| 0 <= i < prefix.len() - 1 implies prefix[i] + TEXT_UPDATE_INTERVAL_MS
            <= #[trigger] prefix[i + 1] by {
            assert(times[i] + TEXT_UPDATE_INTERVAL_MS <= times[i + 1]);
        }
        lemma_throttled_update_count(prefix);
        let k = times.len() - 2;
        assert(times[k] + TEXT_UPDATE_INTERVAL_MS <= times[k + 1]);
    }
    let n = times.len() - 1;
    let d = times.last() - times[0];
    assert(n <= d * 15 / 1000) by (nonlinear_arith) requires d >= n * 67, n >= 0;
}

/// An update applied by the render tick is always due: consecutive applied
/// updates are at least the interval apart.
pub proof fn lemma_drain_spacing(t: TextView, now: u64)
    requires
        t.drained(now).last_update != t.last_update,
    ensures
        t.drained(now).last_update >= t.last_update + TEXT_UPDATE_INTERVAL_MS,
{
}

} // verus!
