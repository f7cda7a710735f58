use vstd::prelude::*;
use crate::geometry::{Point, Rect, abs};
use crate::layout::{Control, ResizeEdge, hit_test, hit_test_spec, valid_size};
use crate::physics::{
    AnimationMode, BurstKind, CursorPhysics, PhysicsView, SPARKLE_PARTICLES, MAX_TILT_VELOCITY, TILT_PER_PIXEL, burst,
    clamp_abs, scaled,
};
use crate::placement::Placement;
use crate::text_state::{TextState, TextView};
use crate::interaction::{HoverState, InteractionMode, InteractionState, hover_spec, press_mode, CLICK_SLOP};

verus! {

/// Opacity of a freshly created window.
pub const INITIAL_ALPHA: u8 = 220;

/// Opacity lost per tick while a window drags out.
pub const FADE_STEP: u8 = 15;

/// Opacity at or below which a fading window is destroyed.
pub const FADE_FLOOR: u8 = 10;

/// Degrees the refinement glow turns per tick.
pub const GLOW_STEP_DEGREES: u32 = 4;

/// What the window was captured from, sent along with a refinement.
#[derive(Clone, Debug)]
pub enum RefineContext {
    NoMedia,
    Image(Vec<u8>),
    Audio(Vec<u8>),
}

/// What a completed click asks the caller to do.
#[derive(Clone, Copy, Debug, PartialEq, Eq, Structural)]
pub enum ClickAction {
    /// The press was a drag or resize, or no press was tracked.
    NoAction,
    /// Copy the window text to the clipboard, then report success with `copy_succeeded`.
    Copy,
    /// The instruction box was opened; show and focus it.
    Edit,
    /// The text was restored from history; repaint.
    Undo,
    /// The dismissal animation started (or was already running).
    Dismiss,
}

/// Grey of a button at rest.
pub const BUTTON_REST_GREY: u8 = 80;

/// Grey of a button under the pointer.
pub const BUTTON_HOVER_GREY: u8 = 128;

/// Fill colour (red, green, blue) of a button: green after a successful copy for the
/// copy button, lighter grey under the pointer, darker grey otherwise.
pub open spec fn button_tint_spec(control: Control, hover: HoverState, copy_success: bool) -> (u8, u8, u8) {
    let hovered = match control {
        Control::Copy => hover.on_copy_btn,
        Control::Edit => hover.on_edit_btn,
        Control::Undo => hover.on_undo_btn,
        Control::Background => false,
    };
    if control == Control::Copy && copy_success {
        (30, 180, 30)
    } else if hovered {
        (BUTTON_HOVER_GREY, BUTTON_HOVER_GREY, BUTTON_HOVER_GREY)
    } else {
        (BUTTON_REST_GREY, BUTTON_REST_GREY, BUTTON_REST_GREY)
    }
}

pub fn button_tint(control: Control, hover: HoverState, copy_success: bool) -> (r: (u8, u8, u8))
    ensures
        r == button_tint_spec(control, hover, copy_success),
{
    let hovered = match control {
        Control::Copy => hover.on_copy_btn,
        Control::Edit => hover.on_edit_btn,
        Control::Undo => hover.on_undo_btn,
        Control::Background => false,
    };
    if control == Control::Copy && copy_success {
        (30, 180, 30)
    } else if hovered {
        (BUTTON_HOVER_GREY, BUTTON_HOVER_GREY, BUTTON_HOVER_GREY)
    } else {
        (BUTTON_REST_GREY, BUTTON_REST_GREY, BUTTON_REST_GREY)
    }
}

/// The system pointer shape over a window.
#[derive(Clone, Copy, Debug, PartialEq, Eq, Structural)]
pub enum CursorShape {
    /// Hidden: the animated cursor icon is drawn instead.
    Hidden,
    /// A hand over a button.
    Hand,
    /// Left-right arrows on a vertical edge.
    SizeWestEast,
    /// Up-down arrows on a horizontal edge.
    SizeNorthSouth,
    /// Diagonal arrows on the top-left and bottom-right corners.
    SizeNorthWestSouthEast,
    /// Diagonal arrows on the top-right and bottom-left corners.
    SizeNorthEastSouthWest,
}

pub open spec fn cursor_shape_spec(hover: HoverState) -> CursorShape {
    if hover.on_button() {
        CursorShape::Hand
    } else {
        match hover.current_resize_edge {
            ResizeEdge::Left | ResizeEdge::Right => CursorShape::SizeWestEast,
            ResizeEdge::Top | ResizeEdge::Bottom => CursorShape::SizeNorthSouth,
            ResizeEdge::TopLeft | ResizeEdge::BottomRight => CursorShape::SizeNorthWestSouthEast,
            ResizeEdge::TopRight | ResizeEdge::BottomLeft => CursorShape::SizeNorthEastSouthWest,
            ResizeEdge::NoEdge => CursorShape::Hidden,
        }
    }
}

/// Pointer shape for the hover flags: a hand on buttons, resize arrows on edges,
/// none elsewhere.
pub fn cursor_shape(hover: HoverState) -> (r: CursorShape)
    ensures
        r == cursor_shape_spec(hover),
{
    if hover.on_copy_btn || hover.on_edit_btn || hover.on_undo_btn {
        CursorShape::Hand
    } else {
        match hover.current_resize_edge {
            ResizeEdge::Left | ResizeEdge::Right => CursorShape::SizeWestEast,
            ResizeEdge::Top | ResizeEdge::Bottom => CursorShape::SizeNorthSouth,
            ResizeEdge::TopLeft | ResizeEdge::BottomRight => CursorShape::SizeNorthWestSouthEast,
            ResizeEdge::TopRight | ResizeEdge::BottomLeft => CursorShape::SizeNorthEastSouthWest,
            ResizeEdge::NoEdge => CursorShape::Hidden,
        }
    }
}

/// A key pressed in the instruction box.
#[derive(Clone, Copy, Debug, PartialEq, Eq, Structural)]
pub enum EditKey {
    Enter,
    Escape,
    Other,
}

/// What the instruction box does with a key.
#[derive(Clone, Copy, Debug, PartialEq, Eq, Structural)]
pub enum EditBoxAction {
    /// Send the instruction.
    Submit,
    /// Insert a line break into the instruction.
    InsertNewline,
    /// Clear and hide the box; the window stays.
    Cancel,
    /// Let the box handle the key itself.
    PassThrough,
}

/// Enter submits; a modifier with Enter inserts a newline; Escape closes the box.
pub fn edit_box_key(key: EditKey, modifier_held: bool) -> (r: EditBoxAction)
    ensures
        r == (match key {
            EditKey::Enter => if modifier_held { EditBoxAction::InsertNewline } else { EditBoxAction::Submit },
            EditKey::Escape => EditBoxAction::Cancel,
            EditKey::Other => EditBoxAction::PassThrough,
        }),
{
    match key {
        EditKey::Enter => if modifier_held { EditBoxAction::InsertNewline } else { EditBoxAction::Submit },
        EditKey::Escape => EditBoxAction::Cancel,
        EditKey::Other => EditBoxAction::PassThrough,
    }
}

/// Which layers a paint must regenerate or draw.
#[derive(Clone, Copy, Debug, PartialEq, Eq, Structural)]
pub struct FramePlan {
    /// The gradient background must be generated again.
    pub redraw_background: bool,
    /// The text layer must be laid out and drawn again.
    pub redraw_text: bool,
    /// Draw the refinement glow instead of the text layer.
    pub draw_glow: bool,
    /// Draw the button row (while hovered and not refining).
    pub show_buttons: bool,
    /// Draw the undo button.
    pub show_undo: bool,
    /// Draw the animated cursor icon.
    pub show_cursor: bool,
}

/// State of one live result window.
pub struct WindowState {
    pub alpha: u8,
    pub copy_success: bool,
    pub bg_color: u32,
    pub linked_window: Option<u64>,
    pub physics: CursorPhysics,
    pub interaction: InteractionState,
    pub hover: HoverState,
    pub text: TextState,
    pub cached_font_size: i32,
    /// Size the text layer was last drawn for.
    pub last_w: i32,
    pub last_h: i32,
    /// Size the background layer was last generated for, if any.
    pub bg_size: Option<(i32, i32)>,
    /// Angle of the refinement glow, in degrees.
    pub animation_offset: u32,
    pub model_id: String,
    pub provider: String,
    pub streaming_enabled: bool,
    pub context_data: RefineContext,
    /// Fading because the linked partner fades: the partner sets this window's
    /// opacity on each of its ticks, and this window does not fade by itself.
    pub fade_follower: bool,
}

/// The animated cursor shows while the pointer is over the window away from the
/// buttons and edges, and throughout the smash.
pub open spec fn cursor_visible(hover: HoverState, mode: AnimationMode) -> bool {
    (hover.is_hovered && !hover.on_button() && hover.current_resize_edge == ResizeEdge::NoEdge)
        || mode == AnimationMode::Smashing
}

/// Opacity after `k` drag-out ticks starting at `alpha`; it stops changing at the floor.
pub open spec fn fade_after(alpha: u8, k: nat) -> u8
    decreases k,
{
    if k == 0 {
        alpha
    } else {
        let a = fade_after(alpha, (k - 1) as nat);
        if a > FADE_FLOOR { faded(a) } else { a }
    }
}

/// A fading window reaches the opacity floor, at which it is destroyed, within
/// 17 drag-out ticks from any opacity.
pub proof fn lemma_fade_reaches_floor(alpha: u8)
    ensures
        fade_after(alpha, 17) <= FADE_FLOOR,
{
    lemma_fade_steps(alpha, 17);
}

/// Number of drag-out ticks a window at opacity `alpha` takes to reach the floor.
pub open spec fn fade_ticks(alpha: u8) -> nat {
    if alpha <= FADE_FLOOR { 0 } else { ((alpha - FADE_FLOOR + FADE_STEP - 1) / (FADE_STEP as int)) as nat }
}

/// From opacity `alpha` the fade never brightens and reaches the floor after
/// `fade_ticks(alpha)` ticks (14 from the initial opacity); the tick after that
/// closes the window.
pub proof fn lemma_fade_bound(alpha: u8, k: nat)
    ensures
        fade_after(alpha, k + 1) <= fade_after(alpha, k),
        fade_after(alpha, fade_ticks(alpha)) <= FADE_FLOOR,
        fade_ticks(INITIAL_ALPHA) == 14,
{
    lemma_fade_steps(alpha, fade_ticks(alpha));
}

proof fn lemma_fade_steps(alpha: u8, k: nat)
    ensures
        fade_after(alpha, k) <= FADE_FLOOR || fade_after(alpha, k) + 15 * k <= alpha,
    decreases k,
{
    if k > 0 {
        lemma_fade_steps(alpha, (k - 1) as nat);
        if fade_after(alpha, (k - 1) as nat) <= FADE_FLOOR {
            assert(fade_after(alpha, k) == fade_after(alpha, (k - 1) as nat));
        }
    }
}

/// Opacity after one drag-out tick.
pub open spec fn faded(alpha: u8) -> u8 {
    if alpha >= FADE_STEP { (alpha - FADE_STEP) as u8 } else { 0 }
}

impl WindowState {
    pub open spec fn wf(&self) -> bool {
        &&& self.physics@.wf()
        &&& self.animation_offset < 360
    }

    /// A new window at `placement`, fully opaque but for the initial alpha, with empty text.
    pub fn new(
        placement: Placement,
        context_data: RefineContext,
        model_id: String,
        provider: String,
        streaming_enabled: bool,
    ) -> (r: WindowState)
        ensures
            r.wf(),
            r.alpha == INITIAL_ALPHA,
            r.bg_color == placement.bg_color,
            r.linked_window is None,
            r.physics@.mode == AnimationMode::Idle,
            r.physics@.particles.len() == 0,
            r.interaction.interaction_mode == InteractionMode::Inactive,
            !r.hover.is_hovered,
            !r.copy_success,
            r.text@ == (TextView {
                full: Seq::empty(),
                history: Seq::empty(),
                refining: false,
                editing: false,
                pending: None,
                last_update: 0,
                dirty: true,
                generation: 0,
                in_flight: false,
            }),
            !r.interaction.has_moved_significantly,
            !r.fade_follower,
            r.model_id == model_id,
            r.provider == provider,
            r.streaming_enabled == streaming_enabled,
    {
        WindowState {
            alpha: INITIAL_ALPHA,
            copy_success: false,
            bg_color: placement.bg_color,
            linked_window: None,
            physics: CursorPhysics::new(),
            interaction: InteractionState::new(),
            hover: HoverState::new(),
            text: TextState::new(),
            cached_font_size: 72,
            last_w: 0,
            last_h: 0,
            bg_size: None,
            animation_offset: 0,
            model_id,
            provider,
            streaming_enabled,
            context_data,
            fade_follower: false,
        }
    }

    /// Whether the animated cursor icon is drawn.
    pub fn show_cursor_icon(&self) -> (r: bool)
        ensures
            r == cursor_visible(self.hover, self.physics@.mode),
    {
        (self.hover.is_hovered && !self.hover.on_copy_btn && !self.hover.on_edit_btn && !self.hover.on_undo_btn
            && self.hover.current_resize_edge == ResizeEdge::NoEdge) || self.physics.mode == AnimationMode::Smashing
    }

    /// Decides which layers a paint of a `width` x `height` client area regenerates,
    /// and records the caches as rebuilt.
    pub fn plan_frame(&mut self, width: i32, height: i32) -> (r: FramePlan)
        requires
            old(self).wf(),
        ensures
            final(self).wf(),
            r.redraw_background == (old(self).bg_size != Some((width, height))),
            final(self).bg_size == Some((width, height)),
            r.draw_glow == old(self).text@.refining,
            r.redraw_text == (!old(self).text@.refining && (old(self).text@.dirty || old(self).last_w != width
                || old(self).last_h != height)),
            final(self).text@ == (TextView {
                dirty: (old(self).text@.dirty || old(self).last_w != width || old(self).last_h != height) && !r.redraw_text,
                ..old(self).text@
            }),
            final(self).last_w == width,
            final(self).last_h == height,
            r.show_buttons == (old(self).hover.is_hovered && !old(self).text@.refining),
            r.show_undo == (old(self).text@.history.len() > 0),
            r.show_cursor == cursor_visible(old(self).hover, old(self).physics@.mode),
            *final(self) == (WindowState {
                bg_size: final(self).bg_size,
                last_w: final(self).last_w,
                last_h: final(self).last_h,
                text: final(self).text,
                ..*old(self)
            }),
    {
        let redraw_background = match self.bg_size {
            Some((w, h)) => w != width || h != height,
            None => true,
        };
        self.bg_size = Some((width, height));
        if self.last_w != width || self.last_h != height {
            self.text.font_cache_dirty = true;
            self.last_w = width;
            self.last_h = height;
        }
        let redraw_text = !self.text.is_refining && self.text.font_cache_dirty;
        if redraw_text {
            self.text.font_cache_dirty = false;
        }
        FramePlan {
            redraw_background,
            redraw_text,
            draw_glow: self.text.is_refining,
            show_buttons: self.hover.is_hovered && !self.text.is_refining,
            show_undo: self.text.can_undo(),
            show_cursor: self.show_cursor_icon(),
        }
    }

    /// Button pressed at client point `(x, y)` (screen point `screen`) of a window whose
    /// screen rectangle is `window_rect`. An edge band starts a resize, anywhere else a
    /// drag; while the instruction box is open the window is never resized, only dragged.
    pub fn pointer_down(&mut self, x: i32, y: i32, screen: Point, window_rect: Rect)
        requires
            old(self).wf(),
            0 <= window_rect.right - window_rect.left <= i32::MAX,
            0 <= window_rect.bottom - window_rect.top <= i32::MAX,
        ensures
            final(self).wf(),
            final(self).interaction.interaction_mode == (if old(self).text@.editing {
                InteractionMode::DraggingWindow
            } else {
                press_mode(window_rect.right - window_rect.left, window_rect.bottom - window_rect.top, x as int, y as int)
            }),
            final(self).interaction.drag_start_mouse == screen,
            final(self).interaction.drag_start_window_rect == window_rect,
            !final(self).interaction.has_moved_significantly,
            *final(self) == (WindowState { interaction: final(self).interaction, ..*old(self) }),
    {
        self.interaction.pointer_down(x, y, screen, window_rect);
        if self.text.is_editing {
            self.interaction.interaction_mode = InteractionMode::DraggingWindow;
        }
    }

    /// The pointer moved to client point `(x, y)` (screen point `screen`) of a
    /// `width` x `height` window. The cursor physics follow it; with a button held
    /// the window's new rectangle is returned, otherwise the hover flags are updated.
    pub fn pointer_move(&mut self, x: i32, y: i32, screen: Point, width: i32, height: i32) -> (r: Option<Rect>)
        requires
            old(self).wf(),
            valid_size(width as int, height as int),
            crate::interaction::rect_ok(old(self).interaction.drag_start_window_rect),
            crate::interaction::coord_ok(screen.x as int) && crate::interaction::coord_ok(screen.y as int),
            crate::interaction::coord_ok(old(self).interaction.drag_start_mouse.x as int),
            crate::interaction::coord_ok(old(self).interaction.drag_start_mouse.y as int),
        ensures
            final(self).wf(),
            old(self).interaction.interaction_mode == InteractionMode::Inactive ==> {
                &&& r is None
                &&& final(self).hover == hover_spec(width as int, height as int, x as int, y as int,
                    old(self).text@.history.len() > 0)
            },
            old(self).interaction.interaction_mode == InteractionMode::Inactive ==> final(self).interaction
                == old(self).interaction,
            old(self).interaction.interaction_mode != InteractionMode::Inactive ==> {
                &&& r == Some(crate::interaction::drag_target(old(self).interaction, screen))
                &&& final(self).hover == old(self).hover
                &&& final(self).interaction == (InteractionState {
                    has_moved_significantly: old(self).interaction.has_moved_significantly
                        || abs(screen.x - old(self).interaction.drag_start_mouse.x) > CLICK_SLOP
                        || abs(screen.y - old(self).interaction.drag_start_mouse.y) > CLICK_SLOP,
                    ..old(self).interaction
                })
            },
            final(self).physics@ == (PhysicsView {
                x: (x * 1000) as i64,
                y: (y * 1000) as i64,
                velocity: clamp_abs(old(self).physics@.velocity + scaled(x * 1000 - old(self).physics@.x,
                    TILT_PER_PIXEL as int), MAX_TILT_VELOCITY as int) as i64,
                ..old(self).physics@
            }),
            *final(self) == (WindowState {
                physics: final(self).physics,
                interaction: final(self).interaction,
                hover: final(self).hover,
                ..*old(self)
            }),
    {
        self.physics.apply_pointer_move(x, y);
        let r = self.interaction.pointer_drag(screen);
        if r.is_none() {
            self.hover = HoverState::at(width, height, x, y, self.text.can_undo());
        }
        r
    }

    /// The pointer left the window.
    pub fn pointer_leave(&mut self)
        ensures
            !final(self).hover.is_hovered,
            *final(self) == (WindowState { hover: final(self).hover, ..*old(self) }),
    {
        self.hover = HoverState::new();
    }

    /// The button was released at client point `(x, y)` of a `width` x `height` window.
    /// A click (no significant movement) reaches the control under the pointer; a
    /// click on the background starts the dismissal animation.
    pub fn pointer_up(&mut self, x: i32, y: i32, width: i32, height: i32) -> (r: ClickAction)
        requires
            old(self).wf(),
            valid_size(width as int, height as int),
        ensures
            final(self).wf(),
            final(self).interaction == (InteractionState {
                interaction_mode: InteractionMode::Inactive,
                ..old(self).interaction
            }),
            *final(self) == (WindowState {
                interaction: final(self).interaction,
                text: final(self).text,
                physics: final(self).physics,
                ..*old(self)
            }),
            ({
                let clicked = old(self).interaction.interaction_mode != InteractionMode::Inactive
                    && !old(self).interaction.has_moved_significantly;
                let control = hit_test_spec(width as int, height as int, x as int, y as int,
                    old(self).text@.history.len() > 0);
                if !clicked {
                    &&& r == ClickAction::NoAction
                    &&& final(self).text@ == old(self).text@
                    &&& final(self).physics@ == old(self).physics@
                } else {
                    match control {
                        Control::Copy => r == ClickAction::Copy && final(self).text@ == old(self).text@
                            && final(self).physics@ == old(self).physics@,
                        Control::Edit => r == ClickAction::Edit
                            && final(self).text@ == (TextView { editing: true, ..old(self).text@ })
                            && final(self).physics@ == old(self).physics@,
                        Control::Undo => r == ClickAction::Undo && final(self).text@ == old(self).text@.undone()
                            && final(self).physics@ == old(self).physics@,
                        Control::Background => r == ClickAction::Dismiss && final(self).text@ == old(self).text@
                            && final(self).physics@ == (if old(self).physics@.mode == AnimationMode::Idle {
                                PhysicsView { mode: AnimationMode::Smashing, timer: 0, ..old(self).physics@ }
                            } else {
                                old(self).physics@
                            }),
                    }
                }
            }),
    {
        let clicked = self.interaction.pointer_up();
        if !clicked {
            return ClickAction::NoAction;
        }
        match hit_test(width, height, x, y, self.text.can_undo()) {
            Control::Copy => ClickAction::Copy,
            Control::Edit => {
                self.text.begin_edit();
                ClickAction::Edit
            },
            Control::Undo => {
                self.text.undo();
                ClickAction::Undo
            },
            Control::Background => {
                if self.physics.mode == AnimationMode::Idle {
                    self.physics.start_smash();
                }
                ClickAction::Dismiss
            },
        }
    }

    /// The clipboard took the text: show the success mark.
    pub fn copy_succeeded(&mut self)
        ensures
            *final(self) == (WindowState { copy_success: true, ..*old(self) }),
    {
        self.copy_success = true;
    }

    /// The success mark's time is over: it goes, and a burst of sparkles
    /// rises from the cursor.
    pub fn copy_feedback_expired(&mut self)
        requires
            old(self).wf(),
        ensures
            final(self).wf(),
            !final(self).copy_success,
            final(self).physics@ == (PhysicsView {
                particles: old(self).physics@.particles + burst(old(self).physics@.seed, SPARKLE_PARTICLES as nat,
                    BurstKind::Sparkle, old(self).physics@.x as int, old(self).physics@.y as int).0,
                seed: burst(old(self).physics@.seed, SPARKLE_PARTICLES as nat, BurstKind::Sparkle,
                    old(self).physics@.x as int, old(self).physics@.y as int).1,
                ..old(self).physics@
            }),
            *final(self) == (WindowState { copy_success: false, physics: final(self).physics, ..*old(self) }),
    {
        self.copy_success = false;
        let cx = self.physics.x;
        let cy = self.physics.y;
        self.physics.spawn_burst(SPARKLE_PARTICLES, BurstKind::Sparkle, cx, cy);
    }

    /// One animation tick. Returns whether the window has faded out and must close.
    /// With `fade_self`, a window that was dragging out loses `FADE_STEP` of opacity,
    /// or closes once its opacity is at the floor; without it (a follower whose partner
    /// sets its opacity) the opacity stays.
    pub fn tick(&mut self, fade_self: bool) -> (close: bool)
        requires
            old(self).wf(),
        ensures
            final(self).wf(),
            final(self).physics@ == old(self).physics@.ticked(),
            close == (fade_self && old(self).physics@.mode == AnimationMode::DragOut && old(self).alpha <= FADE_FLOOR),
            final(self).alpha == (if fade_self && old(self).physics@.mode == AnimationMode::DragOut
                && old(self).alpha > FADE_FLOOR {
                faded(old(self).alpha)
            } else {
                old(self).alpha
            }),
            final(self).animation_offset == (if old(self).text@.refining {
                ((old(self).animation_offset + GLOW_STEP_DEGREES) % 360) as u32
            } else {
                old(self).animation_offset
            }),
            *final(self) == (WindowState {
                physics: final(self).physics,
                alpha: final(self).alpha,
                animation_offset: final(self).animation_offset,
                ..*old(self)
            }),
    {
        let was_drag_out = fade_self && self.physics.mode == AnimationMode::DragOut;
        self.physics.tick();
        if self.text.is_refining {
            self.animation_offset = (self.animation_offset + GLOW_STEP_DEGREES) % 360;
        }
        if was_drag_out {
            if self.alpha > FADE_FLOOR {
                self.alpha = self.alpha.saturating_sub(FADE_STEP);
                false
            } else {
                true
            }
        } else {
            false
        }
    }

    /// Drives this window into the drag-out fade at opacity `alpha`, as its linked partner fades.
    pub fn follow_fade(&mut self, alpha: u8)
        requires
            old(self).wf(),
        ensures
            final(self).wf(),
            final(self).physics@ == (PhysicsView { mode: AnimationMode::DragOut, ..old(self).physics@ }),
            *final(self) == (WindowState {
                alpha,
                fade_follower: true,
                physics: final(self).physics,
                ..*old(self)
            }),
    {
        self.physics.start_drag_out();
        self.alpha = alpha;
        self.fade_follower = true;
    }
}

} // verus!
