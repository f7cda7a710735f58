use vstd::prelude::*;
use std::collections::HashMap;
use crate::physics::{AnimationMode, PhysicsView};
use crate::interaction::InteractionMode;
use crate::text_state::{TextView, RefineRequest, option_view};
use crate::placement::Placement;
use crate::window::{WindowState, RefineContext, FADE_FLOOR, INITIAL_ALPHA, faded};

verus! {

broadcast use vstd::std_specs::hash::group_hash_axioms;

/// Identity of a live window (the platform's window handle as an integer).
pub type WindowId = u64;

/// The single owner of all live windows' state, keyed by window identity.
/// Operations on an identity that is no longer registered do nothing.
pub struct WindowRegistry {
    pub windows: HashMap<u64, WindowState>,
}

/// A refinement to run in the background for one window.
pub struct RefineJob {
    pub window: WindowId,
    pub previous_text: String,
    pub instruction: String,
    pub model_id: String,
    pub provider: String,
    pub streaming_enabled: bool,
    pub context: RefineContext,
    /// Number of this request, to pass back with its chunks and result.
    pub generation: u64,
}

/// What one animation tick of a window produced.
pub struct TickOutcome {
    /// Windows destroyed by this tick (the window and its linked partner, when it faded out).
    pub closed: Vec<WindowId>,
    /// Text that the window must now display, when a throttled update was due.
    pub text: Option<String>,
}

impl View for WindowRegistry {
    type V = Map<u64, WindowState>;

    open spec fn view(&self) -> Map<u64, WindowState> {
        self.windows@
    }
}

/// Window `id` fades by itself: it is not a follower whose partner is still there
/// to set its opacity.
pub open spec fn fades_itself(m: Map<u64, WindowState>, id: u64) -> bool {
    match m[id].linked_window {
        Some(p) => !(m[id].fade_follower && p != id && m.contains_key(p)),
        None => true,
    }
}

/// `s` with a different text state and nothing else changed.
pub open spec fn text_changed(old_s: WindowState, new_s: WindowState, t: TextView) -> bool {
    new_s.text@ == t && new_s == (WindowState { text: new_s.text, ..old_s })
}

impl WindowRegistry {
    pub open spec fn wf(&self) -> bool {
        forall|id: u64| #[trigger] self@.contains_key(id) ==> self@[id].wf()
    }

    pub fn new() -> (r: WindowRegistry)
        ensures
            r@ == Map::<u64, WindowState>::empty(),
            r.wf(),
    {
        WindowRegistry { windows: HashMap::new() }
    }

    /// Whether `id` is a live window.
    pub fn contains(&self, id: WindowId) -> (r: bool)
        ensures
            r == self@.contains_key(id),
    {
        self.windows.contains_key(&id)
    }

    /// Registers the state of a new window, or puts back one taken with `remove_window`.
    pub fn insert_window(&mut self, id: WindowId, state: WindowState)
        requires
            old(self).wf(),
            state.wf(),
        ensures
            final(self)@ == old(self)@.insert(id, state),
            final(self).wf(),
    {
        self.windows.insert(id, state);
        proof {
            assert forall|k: u64| #[trigger] self@.contains_key(k) implies self@[k].wf() by {
                if k != id {
                    assert(old(self)@.contains_key(k));
                }
            }
        }
    }

    /// Removes a window's state and hands it over, when the window is registered.
    pub fn remove_window(&mut self, id: WindowId) -> (r: Option<WindowState>)
        requires
            old(self).wf(),
        ensures
            final(self)@ == old(self)@.remove(id),
            final(self).wf(),
            old(self)@.contains_key(id) ==> r == Some(old(self)@[id]),
            !old(self)@.contains_key(id) ==> r is None,
            r matches Some(s) ==> s.wf(),
    {
        self.windows.remove(&id)
    }

    /// Registers the state of a new result window `id` placed at `placement`: empty
    /// text, initial opacity, resting cursor, and the model that produced it.
    pub fn create_result_window(
        &mut self,
        id: WindowId,
        placement: Placement,
        context: RefineContext,
        model_id: String,
        provider: String,
        streaming_enabled: bool,
    )
        requires
            old(self).wf(),
        ensures
            final(self).wf(),
            final(self)@ == old(self)@.insert(id, final(self)@[id]),
            final(self)@[id].alpha == INITIAL_ALPHA,
            final(self)@[id].bg_color == placement.bg_color,
            final(self)@[id].linked_window is None,
            final(self)@[id].physics@.mode == AnimationMode::Idle,
            final(self)@[id].physics@.particles.len() == 0,
            final(self)@[id].text@ == (TextView {
                full: Seq::empty(),
                history: Seq::empty(),
                refining: false,
                editing: false,
                pending: None,
                last_update: 0,
                dirty: true,
                generation: 0,
                in_flight: false,
            }),
            final(self)@[id].interaction.interaction_mode == InteractionMode::Inactive,
            !final(self)@[id].interaction.has_moved_significantly,
            !final(self)@[id].copy_success,
            !final(self)@[id].hover.is_hovered,
            !final(self)@[id].fade_follower,
            final(self)@[id].model_id == model_id,
            final(self)@[id].provider == provider,
            final(self)@[id].streaming_enabled == streaming_enabled,
    {
        let state = WindowState::new(placement, context, model_id, provider, streaming_enabled);
        self.insert_window(id, state);
    }

    /// Links two windows so that the dismissal of either takes the other along.
    /// Each registered one of the two gets the other as its partner.
    pub fn link_windows(&mut self, a: WindowId, b: WindowId)
        requires
            old(self).wf(),
        ensures
            final(self).wf(),
            final(self)@.dom() == old(self)@.dom(),
            forall|id: u64| #[trigger] final(self)@.contains_key(id) && id != a && id != b
                ==> final(self)@[id] == old(self)@[id],
            old(self)@.contains_key(a) ==> final(self)@[a] == (WindowState { linked_window: Some(b), ..old(self)@[a] }),
            old(self)@.contains_key(b) ==> final(self)@[b] == (WindowState { linked_window: Some(a), ..old(self)@[b] }),
    {
        match self.windows.remove(&a) {
            Some(mut s) => {
                s.linked_window = Some(b);
                self.windows.insert(a, s);
            },
            None => {},
        }
        match self.windows.remove(&b) {
            Some(mut s) => {
                s.linked_window = Some(a);
                self.windows.insert(b, s);
            },
            None => {},
        }
        proof {
            assert(final(self)@.dom() =~= old(self)@.dom());
        }
    }

    /// New text for window `id` from a background worker; nothing happens once the
    /// window is gone.
    pub fn update_window_text(&mut self, id: WindowId, text: &str)
        requires
            old(self).wf(),
        ensures
            final(self).wf(),
            !old(self)@.contains_key(id) ==> final(self)@ == old(self)@,
            old(self)@.contains_key(id) ==> {
                &&& final(self)@ == old(self)@.insert(id, final(self)@[id])
                &&& text_changed(old(self)@[id], final(self)@[id], old(self)@[id].text@.with_text(text@))
            },
    {
        match self.windows.remove(&id) {
            Some(mut s) => {
                s.text.set_text(text);
                self.windows.insert(id, s);
            },
            None => {},
        }
        proof {
            if !old(self)@.contains_key(id) {
                assert(final(self)@ =~= old(self)@);
            }
        }
    }

    /// Submits `instruction` for window `id`: its text goes on the undo history and the
    /// job to run is returned. `None` when the window is gone.
    pub fn submit_refinement(&mut self, id: WindowId, instruction: &str) -> (r: Option<RefineJob>)
        requires
            old(self).wf(),
        ensures
            final(self).wf(),
            !old(self)@.contains_key(id) ==> final(self)@ == old(self)@ && r is None,
            old(self)@.contains_key(id) ==> {
                &&& final(self)@ == old(self)@.insert(id, final(self)@[id])
                &&& text_changed(old(self)@[id], final(self)@[id], old(self)@[id].text@.submitted())
                &&& r matches Some(job) && job.window == id && job.previous_text@ == old(self)@[id].text@.full
                    && job.instruction@ == instruction@ && job.model_id == old(self)@[id].model_id
                    && job.provider == old(self)@[id].provider
                    && job.streaming_enabled == old(self)@[id].streaming_enabled
                    && job.generation == final(self)@[id].text@.generation
            },
    {
        let r = match self.windows.remove(&id) {
            Some(mut s) => {
                let req: RefineRequest = s.text.submit_refinement(instruction);
                let job = RefineJob {
                    window: id,
                    previous_text: req.previous_text,
                    instruction: req.instruction,
                    model_id: s.model_id.clone(),
                    provider: s.provider.clone(),
                    streaming_enabled: s.streaming_enabled,
                    context: s.context_data.clone(),
                    generation: req.generation,
                };
                self.windows.insert(id, s);
                Some(job)
            },
            None => None,
        };
        proof {
            if !old(self)@.contains_key(id) {
                assert(final(self)@ =~= old(self)@);
            }
        }
        r
    }

    /// A chunk of refined text for window `id` from request `generation`; nothing
    /// happens once the window is gone.
    pub fn apply_refine_chunk(&mut self, id: WindowId, chunk: &str, generation: u64)
        requires
            old(self).wf(),
        ensures
            final(self).wf(),
            !old(self)@.contains_key(id) ==> final(self)@ == old(self)@,
            old(self)@.contains_key(id) ==> {
                &&& final(self)@ == old(self)@.insert(id, final(self)@[id])
                &&& text_changed(old(self)@[id], final(self)@[id], old(self)@[id].text@.with_chunk(chunk@, generation))
            },
    {
        match self.windows.remove(&id) {
            Some(mut s) => {
                s.text.apply_refine_chunk(chunk, generation);
                self.windows.insert(id, s);
            },
            None => {},
        }
        proof {
            if !old(self)@.contains_key(id) {
                assert(final(self)@ =~= old(self)@);
            }
        }
    }

    /// Refinement request `generation` for window `id` ended with `result`; nothing
    /// happens once the window is gone.
    pub fn finish_refinement(&mut self, id: WindowId, result: Result<String, String>, generation: u64)
        requires
            old(self).wf(),
        ensures
            final(self).wf(),
            !old(self)@.contains_key(id) ==> final(self)@ == old(self)@,
            old(self)@.contains_key(id) ==> {
                &&& final(self)@ == old(self)@.insert(id, final(self)@[id])
                &&& text_changed(old(self)@[id], final(self)@[id], old(self)@[id].text@.finished(match result {
                    Ok(t) => Ok(t@),
                    Err(e) => Err(e@),
                }, generation))
            },
    {
        match self.windows.remove(&id) {
            Some(mut s) => {
                s.text.finish_refinement(result, generation);
                self.windows.insert(id, s);
            },
            None => {},
        }
        proof {
            if !old(self)@.contains_key(id) {
                assert(final(self)@ =~= old(self)@);
            }
        }
    }

    /// Closes window `id` and its linked partner; returns the windows removed.
    pub fn close_window(&mut self, id: WindowId) -> (closed: Vec<WindowId>)
        requires
            old(self).wf(),
        ensures
            final(self).wf(),
            !old(self)@.contains_key(id) ==> final(self)@ == old(self)@ && closed@.len() == 0,
            old(self)@.contains_key(id) ==> match old(self)@[id].linked_window {
                Some(p) => final(self)@ == old(self)@.remove(id).remove(p)
                    && closed@ == (if old(self)@.contains_key(p) && p != id { seq![id, p] } else { seq![id] }),
                None => final(self)@ == old(self)@.remove(id) && closed@ == seq![id],
            },
    {
        let mut closed: Vec<WindowId> = Vec::new();
        match self.windows.remove(&id) {
            Some(s) => {
                closed.push(id);
                match s.linked_window {
                    Some(p) => {
                        if self.windows.remove(&p).is_some() {
                            closed.push(p);
                        }
                    },
                    None => {},
                }
            },
            None => {},
        }
        proof {
            if !old(self)@.contains_key(id) {
                assert(final(self)@ =~= old(self)@);
            }
            if old(self)@.contains_key(id) {
                match old(self)@[id].linked_window {
                    Some(p) => {
                        if !old(self)@.contains_key(p) || p == id {
                            assert(old(self)@.remove(id).remove(p) =~= old(self)@.remove(id));
                        }
                    },
                    None => {},
                }
            }
        }
        closed
    }

    /// One animation tick of window `id` at time `now` (milliseconds). A window whose
    /// fade reached the floor is destroyed together with its linked partner. A window
    /// that is dragging out by itself drives its partner into the same fade, as a
    /// follower at the same opacity; a follower keeps the opacity its partner sets.
    /// Due pending text is handed out for display.
    pub fn tick(&mut self, id: WindowId, now: u64) -> (r: TickOutcome)
        requires
            old(self).wf(),
        ensures
            final(self).wf(),
            !old(self)@.contains_key(id) ==> final(self)@ == old(self)@ && r.closed@.len() == 0 && r.text is None,
            old(self)@.contains_key(id) ==> {
                let s = old(self)@[id];
                let leads = fades_itself(old(self)@, id);
                let closing = leads && s.physics@.mode == AnimationMode::DragOut && s.alpha <= FADE_FLOOR;
                if closing {
                    &&& r.text is None
                    &&& match s.linked_window {
                        Some(p) => final(self)@ == old(self)@.remove(id).remove(p)
                            && r.closed@ == (if old(self)@.contains_key(p) && p != id { seq![id, p] } else { seq![id] }),
                        None => final(self)@ == old(self)@.remove(id) && r.closed@ == seq![id],
                    }
                } else {
                    let t = final(self)@[id];
                    &&& r.closed@.len() == 0
                    &&& final(self)@.contains_key(id)
                    &&& t.physics@ == s.physics@.ticked()
                    &&& t.alpha == (if leads && s.physics@.mode == AnimationMode::DragOut { faded(s.alpha) } else { s.alpha })
                    &&& t.text@ == s.text@.drained(now)
                    &&& option_view(r.text) == s.text@.due_text(now)
                    &&& t == (WindowState {
                        physics: t.physics,
                        alpha: t.alpha,
                        animation_offset: t.animation_offset,
                        text: t.text,
                        ..s
                    })
                    &&& final(self)@.dom() == old(self)@.dom()
                    &&& forall|q: u64| #[trigger] final(self)@.contains_key(q) && q != id
                        && Some(q) != s.linked_window ==> final(self)@[q] == old(self)@[q]
                    &&& match s.linked_window {
                        Some(p) => (p != id && old(self)@.contains_key(p)) ==> {
                            if leads && t.physics@.mode == AnimationMode::DragOut {
                                &&& final(self)@[p].physics@ == (PhysicsView {
                                    mode: AnimationMode::DragOut,
                                    ..old(self)@[p].physics@
                                })
                                &&& final(self)@[p] == (WindowState {
                                    alpha: t.alpha,
                                    fade_follower: true,
                                    physics: final(self)@[p].physics,
                                    ..old(self)@[p]
                                })
                            } else {
                                final(self)@[p] == old(self)@[p]
                            }
                        },
                        None => true,
                    }
                }
            },
    {
        let mut closed: Vec<WindowId> = Vec::new();
        match self.windows.remove(&id) {
            Some(mut s) => {
                let fade_self = match s.linked_window {
                    Some(p) => !(s.fade_follower && p != id && self.windows.contains_key(&p)),
                    None => true,
                };
                let close = s.tick(fade_self);
                if close {
                    closed.push(id);
                    match s.linked_window {
                        Some(p) => {
                            if self.windows.remove(&p).is_some() {
                                closed.push(p);
                            }
                        },
                        None => {},
                    }
                    proof {
                        match old(self)@[id].linked_window {
                            Some(p) => {
                                if !old(self)@.contains_key(p) || p == id {
                                    assert(old(self)@.remove(id).remove(p) =~= old(self)@.remove(id));
                                }
                            },
                            None => {},
                        }
                    }
                    TickOutcome { closed, text: None }
                } else {
                    let text = s.text.take_pending_text(now);
                    let linked = s.linked_window;
                    let fading = fade_self && s.physics.mode == AnimationMode::DragOut;
                    let alpha = s.alpha;
                    self.windows.insert(id, s);
                    let ghost mid = self@;
                    match linked {
                        Some(p) => {
                            if fading && p != id {
                                match self.windows.remove(&p) {
                                    Some(mut partner) => {
                                        partner.follow_fade(alpha);
                                        self.windows.insert(p, partner);
                                    },
                                    None => {},
                                }
                            }
                        },
                        None => {},
                    }
                    proof {
                        assert(self@.dom() =~= old(self)@.dom());
                        match linked {
                            Some(p) => {
                                if !(fading && p != id && old(self)@.contains_key(p)) {
                                    assert(self@ =~= mid);
                                }
                            },
                            None => {},
                        }
                    }
                    TickOutcome { closed, text }
                }
            },
            None => {
                proof {
                    assert(self@ =~= old(self)@);
                }
                TickOutcome { closed, text: None }
            },
        }
    }
}

} // verus!
