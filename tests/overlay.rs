use overlay_core::font_fit::{text_offset_y, FontSearch, MIN_FONT_SIZE};
use overlay_core::geometry::{Point, Rect};
use overlay_core::interaction::{resized_rect, InteractionMode, MIN_WINDOW_W};
use overlay_core::layout::{
    get_copy_btn_rect, get_edit_btn_rect, get_resize_edge, get_undo_btn_rect, hit_test, Control, ResizeEdge,
};
use overlay_core::physics::{AnimationMode, BurstKind, CursorPhysics, DustParticle, SMASH_PARTICLES};
use overlay_core::placement::{place_window, WindowType, PRIMARY_BG_COLOR, SECONDARY_BG_COLOR};
use overlay_core::registry::WindowRegistry;
use overlay_core::text_state::TextState;
use overlay_core::interaction::HoverState;
use overlay_core::window::{
    button_tint, cursor_shape, edit_box_key, ClickAction, CursorShape, EditBoxAction, EditKey, RefineContext, WindowState,
};

fn rect(left: i32, top: i32, right: i32, bottom: i32) -> Rect {
    Rect { left, top, right, bottom }
}

fn inside(r: Rect, outer: Rect) -> bool {
    outer.left <= r.left && r.right <= outer.right && outer.top <= r.top && r.bottom <= outer.bottom
}

fn new_window(anchor: Rect, kind: WindowType) -> WindowState {
    let work = rect(0, 0, 1920, 1080);
    let p = place_window(anchor, kind, work);
    WindowState::new(p, RefineContext::NoMedia, "maverick".to_string(), "groq".to_string(), true)
}

/// Runs a font search where text of size `s` is `s * 3 / 2` high per line and the
/// text wraps into more lines as the size grows.
fn run_search(width: i32, height: i32, measure: impl Fn(i32, i32) -> (i32, i32)) -> i32 {
    let mut search = FontSearch::new(width, height);
    while let Some(size) = search.next_size() {
        let (h, w) = measure(size, search.available_w);
        search.record(h, w);
    }
    search.result()
}

#[test]
fn font_search_picks_largest_fitting_size() {
    // 20 characters, each as wide as half the size; lines as high as the size.
    let measure = |size: i32, max_w: i32| {
        let char_w = size / 2;
        let per_line = (max_w / char_w.max(1)).max(1);
        let lines = (20 + per_line - 1) / per_line;
        (lines * size, per_line.min(20) * char_w)
    };
    let best = run_search(212, 104, measure);
    // Check against a brute-force scan.
    let mut expected = MIN_FONT_SIZE;
    for s in MIN_FONT_SIZE..=100 {
        let (h, w) = measure(s, 200);
        if h <= 100 && w <= 200 {
            expected = s;
        }
    }
    assert_eq!(best, expected);
    assert!(best > MIN_FONT_SIZE);
}

#[test]
fn font_search_falls_back_to_minimum() {
    let best = run_search(300, 200, |_s, _w| (10_000, 10));
    assert_eq!(best, MIN_FONT_SIZE);
    // A window too short for the minimum size.
    let best = run_search(300, 5, |_s, _w| (1, 1));
    assert_eq!(best, MIN_FONT_SIZE);
}

#[test]
fn font_search_everything_fits() {
    assert_eq!(run_search(1000, 1000, |_s, _w| (1, 1)), 100);
    assert_eq!(run_search(1000, 54, |_s, _w| (1, 1)), 50);
}

#[test]
fn text_is_centred_vertically() {
    assert_eq!(text_offset_y(100, 40), 30);
    assert_eq!(text_offset_y(40, 100), 0);
}

#[test]
fn undo_restores_text_before_refinement() {
    let mut t = TextState::new();
    t.set_text("hello world");
    let req = t.submit_refinement("make it formal");
    assert_eq!(req.previous_text, "hello world");
    assert_eq!(req.instruction, "make it formal");
    assert!(t.is_refining);
    assert_eq!(t.full_text, "");
    assert!(t.can_undo());
    t.apply_refine_chunk("Greetings, ", req.generation);
    assert!(!t.is_refining);
    t.apply_refine_chunk("world.", req.generation);
    assert_eq!(t.full_text, "Greetings, world.");
    t.undo();
    assert_eq!(t.full_text, "hello world");
    assert!(!t.can_undo());
    // Undo on an empty history changes nothing.
    t.undo();
    assert_eq!(t.full_text, "hello world");
    assert!(t.text_history.is_empty());
}

#[test]
fn refinement_error_is_shown() {
    let mut t = TextState::new();
    t.set_text("abc");
    let req = t.submit_refinement("x");
    t.finish_refinement(Err("timeout".to_string()), req.generation);
    assert_eq!(t.full_text, "Error: timeout");
    assert!(!t.is_refining);
    // The request has ended: a late result changes nothing.
    t.finish_refinement(Ok("done".to_string()), req.generation);
    assert_eq!(t.full_text, "Error: timeout");
    let req2 = t.submit_refinement("y");
    t.finish_refinement(Ok("done".to_string()), req2.generation);
    assert_eq!(t.full_text, "done");
}

#[test]
fn secondary_placement_stays_on_work_area() {
    let work = rect(0, 0, 1920, 1080);
    let anchors = [
        rect(0, 0, 300, 200),
        rect(1620, 0, 1920, 200),
        rect(0, 880, 300, 1080),
        rect(1620, 880, 1920, 1080),
        rect(-50, -50, 2000, 1200),
        rect(5, 5, 1915, 1075),
    ];
    for a in anchors {
        let p = place_window(a, WindowType::Secondary, work);
        let r = rect(p.x, p.y, p.x + p.width, p.y + p.height);
        assert!(inside(r, work), "{:?} for anchor {:?}", r, a);
        assert_eq!(p.bg_color, SECONDARY_BG_COLOR);
    }
}

#[test]
fn secondary_placement_prefers_right_then_below() {
    let work = rect(0, 0, 1920, 1080);
    let p = place_window(rect(100, 100, 400, 300), WindowType::Secondary, work);
    assert_eq!((p.x, p.y, p.width, p.height), (410, 100, 300, 200));
    let p = place_window(rect(1600, 100, 1900, 300), WindowType::Secondary, work);
    assert_eq!((p.x, p.y), (1600, 310));
    let p = place_window(rect(1600, 800, 1900, 1000), WindowType::Secondary, work);
    assert_eq!((p.x, p.y), (1290, 800));
}

#[test]
fn primary_placement_is_at_anchor() {
    let work = rect(0, 0, 1920, 1080);
    let p = place_window(rect(300, 200, 100, 50), WindowType::Primary, work);
    assert_eq!((p.x, p.y, p.width, p.height, p.bg_color), (300, 200, 200, 150, PRIMARY_BG_COLOR));
    let p = place_window(rect(10, 20, 110, 220), WindowType::SecondaryExplicit, work);
    assert_eq!((p.x, p.y, p.width, p.height, p.bg_color), (10, 20, 100, 200, SECONDARY_BG_COLOR));
}

#[test]
fn button_layout_right_to_left() {
    assert_eq!(get_copy_btn_rect(300, 200), rect(260, 160, 288, 188));
    assert_eq!(get_edit_btn_rect(300, 200), rect(224, 160, 252, 188));
    assert_eq!(get_undo_btn_rect(300, 200), rect(188, 160, 216, 188));
    // A short window centres the row vertically.
    assert_eq!(get_copy_btn_rect(300, 40), rect(260, 6, 288, 34));
    assert_eq!(hit_test(300, 200, 270, 170, false), Control::Copy);
    assert_eq!(hit_test(300, 200, 230, 170, false), Control::Edit);
    assert_eq!(hit_test(300, 200, 200, 170, false), Control::Background);
    assert_eq!(hit_test(300, 200, 200, 170, true), Control::Undo);
}

#[test]
fn resize_edges_and_corners() {
    assert_eq!(get_resize_edge(300, 200, 2, 2), ResizeEdge::TopLeft);
    assert_eq!(get_resize_edge(300, 200, 295, 100), ResizeEdge::Right);
    assert_eq!(get_resize_edge(300, 200, 150, 195), ResizeEdge::Bottom);
    assert_eq!(get_resize_edge(300, 200, 150, 100), ResizeEdge::NoEdge);
}

#[test]
fn right_edge_resize_grows_width_only() {
    let start = rect(100, 100, 400, 300);
    let r = resized_rect(start, ResizeEdge::Right, 40, 0);
    assert_eq!(r.right - r.left, 340);
    assert_eq!(r.bottom - r.top, 200);
    assert_eq!(r.left, 100);
    // Shrinking stops at the minimum width.
    let r = resized_rect(start, ResizeEdge::Right, -1000, 0);
    assert_eq!(r.right - r.left, MIN_WINDOW_W);
    assert_eq!(r.bottom - r.top, 200);
}

#[test]
fn drag_resize_through_pointer_events() {
    let mut w = new_window(rect(100, 100, 400, 300), WindowType::Primary);
    let window_rect = rect(100, 100, 400, 300);
    // Press on the right edge band.
    w.pointer_down(296, 100, Point { x: 396, y: 200 }, window_rect);
    assert_eq!(w.interaction.interaction_mode, InteractionMode::Resizing(ResizeEdge::Right));
    let r = w.pointer_move(296, 100, Point { x: 436, y: 200 }, 300, 200).unwrap();
    assert_eq!(r, rect(100, 100, 440, 300));
    assert_eq!(w.pointer_up(336, 100, 340, 200), ClickAction::NoAction);
    assert_eq!(w.interaction.interaction_mode, InteractionMode::Inactive);
}

#[test]
fn background_click_dismisses_with_smash() {
    let mut reg = WindowRegistry::new();
    let mut w = new_window(rect(100, 100, 400, 300), WindowType::Primary);
    let window_rect = rect(100, 100, 400, 300);
    w.pointer_down(150, 80, Point { x: 250, y: 180 }, window_rect);
    assert_eq!(w.interaction.interaction_mode, InteractionMode::DraggingWindow);
    // Pointer wobbles by 2px: still a click.
    w.pointer_move(152, 81, Point { x: 252, y: 181 }, 300, 200);
    assert_eq!(w.pointer_up(152, 81, 300, 200), ClickAction::Dismiss);
    assert_eq!(w.physics.mode, AnimationMode::Smashing);
    reg.insert_window(7, w);
    let mut ticks = 0;
    let mut saw_drag_out = false;
    let mut max_particles = 0;
    loop {
        let out = reg.tick(7, ticks * 16);
        ticks += 1;
        if !out.closed.is_empty() {
            assert_eq!(out.closed, vec![7]);
            break;
        }
        let s = reg.windows.get(&7).unwrap();
        if ticks == 4 {
            assert_eq!(s.physics.particles.len(), SMASH_PARTICLES);
            assert_eq!(s.physics.squish_factor, 400);
        }
        if s.physics.mode == AnimationMode::DragOut {
            saw_drag_out = true;
        }
        max_particles = max_particles.max(s.physics.particles.len());
        assert!(ticks < 100);
    }
    assert!(saw_drag_out);
    assert_eq!(max_particles, SMASH_PARTICLES);
    assert!(!reg.contains(7));
}

#[test]
fn drag_is_not_a_click() {
    let mut w = new_window(rect(100, 100, 400, 300), WindowType::Primary);
    w.pointer_down(150, 80, Point { x: 250, y: 180 }, rect(100, 100, 400, 300));
    let r = w.pointer_move(150, 80, Point { x: 260, y: 180 }, 300, 200).unwrap();
    assert_eq!(r, rect(110, 100, 410, 300));
    assert_eq!(w.pointer_up(150, 80, 300, 200), ClickAction::NoAction);
    assert_eq!(w.physics.mode, AnimationMode::Idle);
}

#[test]
fn linked_windows_fade_and_close_together() {
    let mut reg = WindowRegistry::new();
    reg.insert_window(1, new_window(rect(100, 100, 400, 300), WindowType::Primary));
    reg.insert_window(2, new_window(rect(100, 100, 400, 300), WindowType::Secondary));
    reg.link_windows(1, 2);
    assert_eq!(reg.windows.get(&1).unwrap().linked_window, Some(2));
    assert_eq!(reg.windows.get(&2).unwrap().linked_window, Some(1));
    let mut a = reg.remove_window(1).unwrap();
    a.physics.start_smash();
    reg.insert_window(1, a);
    let mut t = 0u64;
    let mut faded_together = false;
    loop {
        let o1 = reg.tick(1, t);
        if !o1.closed.is_empty() {
            assert_eq!(o1.closed, vec![1, 2]);
            break;
        }
        let s1 = reg.windows.get(&1).unwrap();
        let s2 = reg.windows.get(&2).unwrap();
        if s1.physics.mode == AnimationMode::DragOut {
            assert_eq!(s2.physics.mode, AnimationMode::DragOut);
            assert_eq!(s1.alpha, s2.alpha);
            faded_together = true;
        }
        let o2 = reg.tick(2, t);
        if !o2.closed.is_empty() {
            assert_eq!(o2.closed, vec![2, 1]);
            break;
        }
        t += 16;
        assert!(t < 16 * 200);
    }
    assert!(faded_together);
    assert!(!reg.contains(1));
    assert!(!reg.contains(2));
}

#[test]
fn stale_window_updates_are_ignored() {
    let mut reg = WindowRegistry::new();
    reg.update_window_text(42, "late chunk");
    reg.apply_refine_chunk(42, "x", 1);
    reg.finish_refinement(42, Ok("y".to_string()), 1);
    assert!(reg.submit_refinement(42, "z").is_none());
    assert!(!reg.contains(42));
    let o = reg.tick(42, 0);
    assert!(o.closed.is_empty() && o.text.is_none());
}

#[test]
fn particles_age_and_vanish() {
    let mut p = CursorPhysics::new();
    p.spawn_burst(SMASH_PARTICLES, BurstKind::Smash, 0, 0);
    assert_eq!(p.particles.len(), 15);
    for q in &p.particles {
        assert_eq!(q.life, 1000);
        assert!(q.vy <= -2000 && q.vy >= -8000);
        assert!(q.vx.abs() <= 8000);
    }
    let lives: Vec<i64> = p.particles.iter().map(|q| q.life).collect();
    p.step_particles();
    for (q, l) in p.particles.iter().zip(lives) {
        assert_eq!(q.life, l - 30);
    }
    for _ in 0..33 {
        p.step_particles();
    }
    assert!(p.particles.is_empty());
}

#[test]
fn particle_is_removed_exactly_at_zero_life() {
    let mut p = CursorPhysics::new();
    let q = DustParticle { x: 0, y: 0, vx: 1000, vy: 0, life: 30, size: 2000, color: 1 };
    let r = DustParticle { life: 31, ..q };
    p.particles = vec![q, r];
    p.step_particles();
    assert_eq!(p.particles.len(), 1);
    assert_eq!(p.particles[0].life, 1);
    assert_eq!(p.particles[0].x, 1000);
    assert_eq!(p.particles[0].vx, 920);
    assert_eq!(p.particles[0].vy, 500);
}

#[test]
fn copy_feedback_spawns_sparkles() {
    let mut w = new_window(rect(0, 0, 300, 200), WindowType::Primary);
    w.copy_succeeded();
    assert!(w.copy_success);
    w.copy_feedback_expired();
    assert!(!w.copy_success);
    assert_eq!(w.physics.particles.len(), 8);
    assert!(w.physics.particles.iter().all(|p| p.color == 0xFF00FF00));
}

#[test]
fn throttled_updates_bounded_and_last_text_wins() {
    let mut t = TextState::new();
    let mut applied = 0;
    let mut shown = String::new();
    // 200 chunks, one every 5 ms, over one second; render tick every 16 ms.
    let mut now: u64 = 1000;
    let mut next_chunk = 0;
    while now < 2100 {
        while next_chunk < 200 && (next_chunk as u64) * 5 + 1000 <= now {
            t.set_text(&format!("chunk {}", next_chunk));
            next_chunk += 1;
        }
        if let Some(s) = t.take_pending_text(now) {
            applied += 1;
            shown = s;
        }
        now += 16;
    }
    assert!(applied <= 1100 * 15 / 1000 + 1, "applied {}", applied);
    assert_eq!(t.full_text, "chunk 199");
    assert_eq!(shown, "chunk 199");
}

#[test]
fn spring_returns_tilt_to_rest() {
    let mut p = CursorPhysics::new();
    p.apply_pointer_move(100, 0);
    assert!(p.tilt_velocity > 0);
    for _ in 0..300 {
        p.tick();
    }
    assert!(p.current_tilt.abs() <= 100);
    assert!(p.current_tilt.abs() <= 22500);
    assert_eq!(p.squish_factor, 1000);
}

#[test]
fn frame_plan_caches_layers() {
    let mut w = new_window(rect(0, 0, 300, 200), WindowType::Primary);
    let f = w.plan_frame(300, 200);
    assert!(f.redraw_background && f.redraw_text && !f.draw_glow && !f.show_undo);
    let f = w.plan_frame(300, 200);
    assert!(!f.redraw_background && !f.redraw_text);
    let f = w.plan_frame(320, 200);
    assert!(f.redraw_background && f.redraw_text);
    w.text.submit_refinement("x");
    let f = w.plan_frame(320, 200);
    assert!(f.draw_glow && !f.redraw_text && f.show_undo);
}

#[test]
fn edit_box_keys() {
    assert_eq!(edit_box_key(EditKey::Enter, false), EditBoxAction::Submit);
    assert_eq!(edit_box_key(EditKey::Enter, true), EditBoxAction::InsertNewline);
    assert_eq!(edit_box_key(EditKey::Escape, false), EditBoxAction::Cancel);
    assert_eq!(edit_box_key(EditKey::Other, true), EditBoxAction::PassThrough);
}

#[test]
fn refinement_through_registry() {
    let mut reg = WindowRegistry::new();
    let p = place_window(rect(0, 0, 300, 200), WindowType::Primary, rect(0, 0, 1920, 1080));
    reg.create_result_window(5, p, RefineContext::Image(vec![1, 2, 3]), "maverick".to_string(), "groq".to_string(), true);
    assert_eq!(reg.windows.get(&5).unwrap().alpha, 220);
    reg.update_window_text(5, "original");
    let job = reg.submit_refinement(5, "shorter").unwrap();
    assert_eq!(job.window, 5);
    assert_eq!(job.previous_text, "original");
    assert_eq!(job.model_id, "maverick");
    assert_eq!(job.provider, "groq");
    assert!(job.streaming_enabled);
    assert!(matches!(job.context, RefineContext::Image(ref b) if b == &vec![1, 2, 3]));
    reg.apply_refine_chunk(5, "orig", job.generation);
    assert_eq!(reg.windows.get(&5).unwrap().text.full_text, "orig");
    let mut w = reg.remove_window(5).unwrap();
    w.text.undo();
    assert_eq!(w.text.full_text, "original");
    reg.insert_window(5, w);
    let closed = reg.close_window(5);
    assert_eq!(closed, vec![5]);
}

#[test]
fn button_tints_and_pointer_shapes() {
    let mut hover = HoverState::at(300, 200, 270, 170, false);
    assert!(hover.on_copy_btn);
    assert_eq!(button_tint(Control::Copy, hover, false), (128, 128, 128));
    assert_eq!(button_tint(Control::Copy, hover, true), (30, 180, 30));
    assert_eq!(button_tint(Control::Edit, hover, true), (80, 80, 80));
    assert_eq!(cursor_shape(hover), CursorShape::Hand);
    hover = HoverState::at(300, 200, 2, 195, false);
    assert_eq!(hover.current_resize_edge, ResizeEdge::BottomLeft);
    assert_eq!(cursor_shape(hover), CursorShape::SizeNorthEastSouthWest);
    hover = HoverState::at(300, 200, 150, 100, false);
    assert_eq!(cursor_shape(hover), CursorShape::Hidden);
}

#[test]
fn no_resize_while_editing() {
    let mut w = new_window(rect(100, 100, 400, 300), WindowType::Primary);
    w.text.begin_edit();
    w.pointer_down(296, 100, Point { x: 396, y: 200 }, rect(100, 100, 400, 300));
    assert_eq!(w.interaction.interaction_mode, InteractionMode::DraggingWindow);
    w.text.cancel_edit();
    w.pointer_down(296, 100, Point { x: 396, y: 200 }, rect(100, 100, 400, 300));
    assert_eq!(w.interaction.interaction_mode, InteractionMode::Resizing(ResizeEdge::Right));
}

#[test]
fn undo_abandons_refinement_in_flight() {
    let mut t = TextState::new();
    t.set_text("before");
    let req = t.submit_refinement("rewrite");
    t.apply_refine_chunk("par", req.generation);
    t.set_text("partial");
    t.undo();
    assert_eq!(t.full_text, "before");
    assert!(t.pending_text.is_none());
    assert!(!t.is_refining);
    // Chunks and the result of the abandoned request are dropped.
    t.apply_refine_chunk("tial", req.generation);
    t.finish_refinement(Ok("after".to_string()), req.generation);
    assert_eq!(t.full_text, "before");
    assert_eq!(t.take_pending_text(10_000), None);
}

#[test]
fn idle_squash_returns_to_rest() {
    let mut p = CursorPhysics::new();
    p.squish_factor = 995;
    p.tick();
    assert!(p.squish_factor > 995);
    p.squish_factor = 400;
    for _ in 0..200 {
        p.tick();
    }
    assert_eq!(p.squish_factor, 1000);
    p.squish_factor = 1300;
    for _ in 0..200 {
        p.tick();
    }
    assert_eq!(p.squish_factor, 1000);
}

#[test]
fn drag_out_stretch_reaches_target() {
    let mut p = CursorPhysics::new();
    p.mode = AnimationMode::DragOut;
    for _ in 0..200 {
        p.tick();
    }
    assert_eq!(p.squish_factor, 1200);
}

#[test]
fn tick_hands_out_due_text() {
    let mut reg = WindowRegistry::new();
    reg.insert_window(3, new_window(rect(0, 0, 300, 200), WindowType::Primary));
    reg.update_window_text(3, "hello");
    assert_eq!(reg.tick(3, 100).text.as_deref(), Some("hello"));
    reg.update_window_text(3, "hello world");
    assert_eq!(reg.tick(3, 120).text, None);
    assert_eq!(reg.tick(3, 167).text.as_deref(), Some("hello world"));
    assert_eq!(reg.tick(3, 400).text, None);
}
