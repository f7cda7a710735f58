use vstd::prelude::*;
use crate::geometry::{tdiv, abs};

verus! {

/// Fixed-point unit: 1000 stands for 1.0 (pixels, degrees, life).
pub const UNIT: i64 = 1000;

/// Spring stiffness of the cursor tilt, in thousandths.
pub const SPRING_STIFFNESS: i64 = 150;

/// Velocity kept per tick by the tilt damping, in thousandths.
pub const SPRING_DAMPING: i64 = 850;

/// Share of the previous bristle bend kept per tick, in thousandths.
pub const BEND_KEEP: i64 = 800;

/// Largest tilt either way, in thousandths of a degree.
pub const MAX_TILT: i64 = 22500;

/// Largest tilt velocity either way, in thousandths of a degree per tick.
pub const MAX_TILT_VELOCITY: i64 = 20000;

/// Tilt impulse per pixel of horizontal pointer movement, in thousandths.
pub const TILT_PER_PIXEL: i64 = 200;

/// Downward acceleration of a particle, in thousandths of a pixel per tick squared.
pub const GRAVITY: i64 = 500;

/// Horizontal velocity kept per tick by air drag, in thousandths.
pub const AIR_DRAG: i64 = 920;

/// Squash of a cursor at rest, in thousandths.
pub const REST_SQUISH: i64 = 1000;

/// Stretch a dragging-out cursor relaxes toward, in thousandths.
pub const DRAG_OUT_SQUISH: i64 = 1200;

/// Life of a fresh particle.
pub const FULL_LIFE: i64 = 1000;

/// Life a particle loses per tick.
pub const LIFE_STEP: i64 = 30;

/// Particles thrown out at the impact frame of a dismissal.
pub const SMASH_PARTICLES: usize = 15;

/// Particles of the burst that follows a successful copy.
pub const SPARKLE_PARTICLES: usize = 8;

/// Colour of the dust thrown out on impact (0xAARRGGBB).
pub const DUST_COLOR: u32 = 0xFFDDDDDD;

/// Colour of the copy-success sparkles (0xAARRGGBB).
pub const SPARKLE_COLOR: u32 = 0xFF00FF00;

/// Bound on the cursor position, in thousandths of a pixel.
pub const POS_LIMIT: i64 = 3_000_000_000_000;

/// One particle; all quantities in thousandths.
#[derive(Clone, Copy, Debug, PartialEq, Eq, Structural)]
pub struct DustParticle {
    pub x: i64,
    pub y: i64,
    pub vx: i64,
    pub vy: i64,
    pub life: i64,
    pub size: i64,
    pub color: u32,
}

/// Phase of the dismissal animation.
#[derive(Clone, Copy, Debug, PartialEq, Eq, Structural)]
pub enum AnimationMode {
    Idle,
    Smashing,
    DragOut,
}

/// The two kinds of particle bursts.
#[derive(Clone, Copy, Debug, PartialEq, Eq, Structural)]
pub enum BurstKind {
    /// Dust thrown upward at the impact frame.
    Smash,
    /// Green sparkles after a successful copy.
    Sparkle,
}

/// Animated cursor state of one window; quantities in thousandths.
pub struct CursorPhysics {
    pub x: i64,
    pub y: i64,
    pub current_tilt: i64,
    pub tilt_velocity: i64,
    pub squish_factor: i64,
    pub bristle_bend: i64,
    pub mode: AnimationMode,
    pub state_timer: u32,
    pub particles: Vec<DustParticle>,
    /// State of the particle jitter generator.
    pub seed: u32,
}

/// Everything a `CursorPhysics` holds, with the particles as a sequence.
pub struct PhysicsView {
    pub x: i64,
    pub y: i64,
    pub tilt: i64,
    pub velocity: i64,
    pub squish: i64,
    pub bend: i64,
    pub mode: AnimationMode,
    pub timer: u32,
    pub particles: Seq<DustParticle>,
    pub seed: u32,
}

impl View for CursorPhysics {
    type V = PhysicsView;

    open spec fn view(&self) -> PhysicsView {
        PhysicsView {
            x: self.x,
            y: self.y,
            tilt: self.current_tilt,
            velocity: self.tilt_velocity,
            squish: self.squish_factor,
            bend: self.bristle_bend,
            mode: self.mode,
            timer: self.state_timer,
            particles: self.particles@,
            seed: self.seed,
        }
    }
}


/// `a * num / 1000`, rounded toward zero.
pub open spec fn scaled(a: int, num: int) -> int {
    tdiv(a * num, UNIT as int)
}

/// `value` moved toward `target`, keeping `keep` thousandths of the distance
/// (the distance rounded toward zero, so the value reaches the target).
pub open spec fn relaxed(value: int, target: int, keep: int) -> int {
    target - scaled(target - value, keep)
}

pub open spec fn clamp_abs(a: int, bound: int) -> int {
    if a > bound { bound } else if a < -bound { -bound } else { a }
}

/// Bounds that keep every particle's arithmetic in range: the older the
/// particle, the further it may have travelled.
pub open spec fn particle_wf(p: DustParticle) -> bool {
    let age = FULL_LIFE - p.life;
    &&& 0 < p.life <= FULL_LIFE
    &&& abs(p.vx as int) <= 10_000
    &&& abs(p.vy as int) <= 10_000 + age * 17
    &&& abs(p.x as int) <= 4_000_000_000_000 + age * 10_000
    &&& abs(p.y as int) <= 4_000_000_000_000 + age * 30_000
}

/// One tick of particle motion: move, fall, slow down, age.
pub open spec fn step_particle(p: DustParticle) -> DustParticle {
    DustParticle {
        x: (p.x + p.vx) as i64,
        y: (p.y + p.vy) as i64,
        vx: scaled(p.vx as int, AIR_DRAG as int) as i64,
        vy: (p.vy + GRAVITY) as i64,
        life: (p.life - LIFE_STEP) as i64,
        ..p
    }
}

/// The particles after one tick: each one stepped, in order, dropping those whose life ran out.
pub open spec fn step_particles(ps: Seq<DustParticle>) -> Seq<DustParticle>
    decreases ps.len(),
{
    if ps.len() == 0 {
        ps
    } else {
        let rest = step_particles(ps.drop_last());
        let q = step_particle(ps.last());
        if q.life > 0 { rest.push(q) } else { rest }
    }
}

pub open spec fn lcg_next(seed: u32) -> u32 {
    seed.wrapping_mul(1103515245).wrapping_add(12345)
}

/// A value between `lo` and `hi` (either order) drawn from the generator, and the next seed.
pub open spec fn random_between(seed: u32, lo: int, hi: int) -> (int, u32) {
    let s = lcg_next(seed);
    (lo + tdiv(s * (hi - lo), u32::MAX as int), s)
}

/// Ranges of a burst kind: x jitter, x velocity, y velocity, size (pairs of bounds).
pub open spec fn burst_ranges(kind: BurstKind) -> (int, int, int, int, int, int, int, int) {
    match kind {
        BurstKind::Smash => (-10_000, 10_000, -8_000, 8_000, -2_000, -8_000, 2_000, 5_000),
        BurstKind::Sparkle => (-10_000, 10_000, -2_000, 2_000, -2_000, -5_000, 1_000, 3_000),
    }
}

pub open spec fn burst_color(kind: BurstKind) -> u32 {
    match kind {
        BurstKind::Smash => DUST_COLOR,
        BurstKind::Sparkle => SPARKLE_COLOR,
    }
}

/// One fresh particle of `kind` near `(cx, cy)`, and the next seed.
pub open spec fn new_particle(seed: u32, kind: BurstKind, cx: int, cy: int) -> (DustParticle, u32) {
    let g = burst_ranges(kind);
    let (jx, s1) = random_between(seed, g.0, g.1);
    let (vx, s2) = random_between(s1, g.2, g.3);
    let (vy, s3) = random_between(s2, g.4, g.5);
    let (size, s4) = random_between(s3, g.6, g.7);
    (DustParticle {
        x: (cx + jx) as i64,
        y: cy as i64,
        vx: vx as i64,
        vy: vy as i64,
        life: FULL_LIFE,
        size: size as i64,
        color: burst_color(kind),
    }, s4)
}

/// The `n` particles of a burst, in order of creation, and the seed after them.
pub open spec fn burst(seed: u32, n: nat, kind: BurstKind, cx: int, cy: int) -> (Seq<DustParticle>, u32)
    decreases n,
{
    if n == 0 {
        (Seq::empty(), seed)
    } else {
        let (ps, s) = burst(seed, (n - 1) as nat, kind, cx, cy);
        let (p, s2) = new_particle(s, kind, cx, cy);
        (ps.push(p), s2)
    }
}

impl PhysicsView {
    pub open spec fn wf(self) -> bool {
        &&& abs(self.x as int) <= POS_LIMIT
        &&& abs(self.y as int) <= POS_LIMIT
        &&& abs(self.tilt as int) <= MAX_TILT
        &&& abs(self.velocity as int) <= MAX_TILT_VELOCITY
        &&& 0 <= self.squish <= 2000
        &&& abs(self.bend as int) <= 10_000
        &&& forall|i: int| 0 <= i < self.particles.len() ==> particle_wf(#[trigger] self.particles[i])
    }

    /// The physics after one animation tick.
    pub open spec fn ticked(self) -> PhysicsView {
        // Damped spring toward an upright cursor.
        let v1 = self.velocity + scaled(-self.tilt, SPRING_STIFFNESS as int);
        let v2 = scaled(v1, SPRING_DAMPING as int);
        let tilt1 = clamp_abs(self.tilt + v2, MAX_TILT as int);
        let bend1 = tdiv(self.bend * BEND_KEEP + tdiv(tilt1, 10) * (UNIT - BEND_KEEP), UNIT as int);
        let timer1: u32 = if self.timer < u32::MAX { (self.timer + 1) as u32 } else { self.timer };
        let s = PhysicsView { velocity: v2 as i64, tilt: tilt1 as i64, bend: bend1 as i64, ..self };
        let s = match self.mode {
            AnimationMode::Idle => PhysicsView { squish: relaxed(s.squish as int, REST_SQUISH as int, 900) as i64, ..s },
            AnimationMode::Smashing => {
                if timer1 < 4 {
                    PhysicsView {
                        timer: timer1,
                        squish: 900,
                        tilt: clamp_abs(tilt1 - 5000, MAX_TILT as int) as i64,
                        ..s
                    }
                } else if timer1 == 4 {
                    let b = burst(self.seed, SMASH_PARTICLES as nat, BurstKind::Smash, self.x as int,
                        self.y + 20_000);
                    PhysicsView { timer: timer1, squish: 400, tilt: 0, particles: s.particles + b.0, seed: b.1, ..s }
                } else if timer1 > 8 {
                    PhysicsView { timer: timer1, mode: AnimationMode::DragOut, ..s }
                } else {
                    PhysicsView { timer: timer1, ..s }
                }
            },
            AnimationMode::DragOut => PhysicsView { timer: timer1, squish: relaxed(s.squish as int, DRAG_OUT_SQUISH as int, 800) as i64, ..s },
        };
        PhysicsView { particles: step_particles(s.particles), ..s }
    }
}

proof fn lemma_scaled_bound(a: int, num: int)
    requires
        0 <= num <= UNIT,
    ensures
        abs(scaled(a, num)) <= abs(a),
        a >= 0 ==> scaled(a, num) >= 0,
{
    if a >= 0 {
        assert(0 <= a * num <= a * UNIT) by (nonlinear_arith) requires 0 <= num <= UNIT, a >= 0;
    } else {
        assert(0 <= (-a) * num <= (-a) * UNIT) by (nonlinear_arith) requires 0 <= num <= UNIT, a < 0;
        assert(a * num == -((-a) * num)) by (nonlinear_arith);
    }
}

/// `a * num / 1000`, rounded toward zero.
fn scale(a: i64, num: i64) -> (r: i64)
    requires
        abs(a as int) <= 1_000_000_000_000_000,
        0 <= num <= UNIT,
    ensures
        r == scaled(a as int, num as int),
        abs(r as int) <= abs(a as int),
{
    proof {
        lemma_scaled_bound(a as int, num as int);
        if a >= 0 {
            assert(0 <= a * num <= a * UNIT) by (nonlinear_arith) requires 0 <= num <= UNIT, a >= 0;
        } else {
            assert(0 <= (-a) * num <= (-a) * UNIT) by (nonlinear_arith) requires 0 <= num <= UNIT, a < 0;
            assert(a * num == -((-a) * num)) by (nonlinear_arith);
        }
    }
    let p: i64 = a * num;
    if p >= 0 {
        p / UNIT
    } else {
        -((-p) / UNIT)
    }
}

fn clamp_i64(a: i64, bound: i64) -> (r: i64)
    requires
        bound >= 0,
    ensures
        r == clamp_abs(a as int, bound as int),
{
    if a > bound {
        bound
    } else if a < -bound {
        -bound
    } else {
        a
    }
}

fn next_random(seed: u32, lo: i64, hi: i64) -> (r: (i64, u32))
    requires
        abs(lo as int) <= 1_000_000,
        abs(hi as int) <= 1_000_000,
    ensures
        r.0 == random_between(seed, lo as int, hi as int).0,
        r.1 == random_between(seed, lo as int, hi as int).1,
        abs(r.0 - lo) <= abs(hi - lo),
{
    let s: u32 = seed.wrapping_mul(1103515245).wrapping_add(12345);
    let span: i64 = hi - lo;
    let m: i64 = u32::MAX as i64;
    proof {
        let si = s as int;
        let m = m as int;
        let span = span as int;
        assert(0 <= si <= m);
        if span >= 0 {
            assert(0 <= si * span <= m * span) by (nonlinear_arith) requires 0 <= si <= m, span >= 0;
            assert((si * span) / m <= span) by (nonlinear_arith) requires 0 <= si * span <= m * span, m > 0;
        } else {
            assert(0 <= si * (-span) <= m * (-span)) by (nonlinear_arith) requires 0 <= si <= m, span < 0;
            assert(si * span == -(si * (-span))) by (nonlinear_arith);
            assert((si * (-span)) / m <= -span) by (nonlinear_arith) requires 0 <= si * (-span) <= m * (-span), m > 0;
        }
    }
    let p: i64 = (s as i64) * span;
    let q: i64 = if p >= 0 { p / m } else { -((-p) / m) };
    (lo + q, s)
}

impl CursorPhysics {
    /// A resting cursor at the origin with no particles.
    pub fn new() -> (r: CursorPhysics)
        ensures
            r@.wf(),
            r@.mode == AnimationMode::Idle,
            r@.particles.len() == 0,
            r@.squish == UNIT,
            r@.tilt == 0,
            r@.velocity == 0,
            r@.timer == 0,
    {
        CursorPhysics {
            x: 0,
            y: 0,
            current_tilt: 0,
            tilt_velocity: 0,
            squish_factor: UNIT,
            bristle_bend: 0,
            mode: AnimationMode::Idle,
            state_timer: 0,
            particles: Vec::new(),
            seed: 12345,
        }
    }

    /// Appends a burst of `n` fresh particles of `kind` near `(cx, cy)`.
    pub fn spawn_burst(&mut self, n: usize, kind: BurstKind, cx: i64, cy: i64)
        requires
            old(self)@.wf(),
            abs(cx as int) <= POS_LIMIT,
            abs(cy as int) <= POS_LIMIT + 20_000,
        ensures
            final(self)@ == (PhysicsView {
                particles: old(self)@.particles + burst(old(self).seed, n as nat, kind, cx as int, cy as int).0,
                seed: burst(old(self).seed, n as nat, kind, cx as int, cy as int).1,
                ..old(self)@
            }),
            final(self)@.wf(),
    {
        let ghost start = self.particles@;
        let ghost seed0 = self.seed;
        let mut i: usize = 0;
        while i < n
            invariant
                0 <= i <= n,
                self.particles@ == start + burst(seed0, i as nat, kind, cx as int, cy as int).0,
                self.seed == burst(seed0, i as nat, kind, cx as int, cy as int).1,
                self.x == old(self).x,
                self.y == old(self).y,
                self.current_tilt == old(self).current_tilt,
                self.tilt_velocity == old(self).tilt_velocity,
                self.squish_factor == old(self).squish_factor,
                self.bristle_bend == old(self).bristle_bend,
                self.mode == old(self).mode,
                self.state_timer == old(self).state_timer,
                start == old(self)@.particles,
                seed0 == old(self).seed,
                old(self)@.wf(),
                abs(cx as int) <= POS_LIMIT,
                abs(cy as int) <= POS_LIMIT + 20_000,
                forall|k: int| 0 <= k < self.particles@.len() ==> particle_wf(#[trigger] self.particles@[k]),
            decreases n - i,
        {
            let (lo_x, hi_x, lo_vx, hi_vx, lo_vy, hi_vy, lo_s, hi_s, color): (i64, i64, i64, i64, i64, i64, i64, i64, u32) =
                match kind {
                    BurstKind::Smash => (-10_000, 10_000, -8_000, 8_000, -2_000, -8_000, 2_000, 5_000, DUST_COLOR),
                    BurstKind::Sparkle => (-10_000, 10_000, -2_000, 2_000, -2_000, -5_000, 1_000, 3_000, SPARKLE_COLOR),
                };
            let (jx, s1) = next_random(self.seed, lo_x, hi_x);
            let (vx, s2) = next_random(s1, lo_vx, hi_vx);
            let (vy, s3) = next_random(s2, lo_vy, hi_vy);
            let (size, s4) = next_random(s3, lo_s, hi_s);
            let p = DustParticle { x: cx + jx, y: cy, vx, vy, life: FULL_LIFE, size, color };
            proof {
                let prev = burst(seed0, i as nat, kind, cx as int, cy as int);
                assert(burst(seed0, (i + 1) as nat, kind, cx as int, cy as int)
                    == (prev.0.push(new_particle(prev.1, kind, cx as int, cy as int).0),
                        new_particle(prev.1, kind, cx as int, cy as int).1));
                assert(p == new_particle(prev.1, kind, cx as int, cy as int).0);
                assert(particle_wf(p));
            }
            self.particles.push(p);
            self.seed = s4;
            i = i + 1;
            proof {
                let prev = burst(seed0, (i - 1) as nat, kind, cx as int, cy as int);
                assert(start + prev.0.push(p) =~= (start + prev.0).push(p));
            }
        }
    }
}


proof fn lemma_step_particle_wf(p: DustParticle)
    requires
        particle_wf(p),
        step_particle(p).life > 0,
    ensures
        particle_wf(step_particle(p)),
{
    lemma_scaled_bound(p.vx as int, AIR_DRAG as int);
}

/// Every particle that survives a tick is the step of one that was there before.
pub proof fn lemma_step_particles_origin(ps: Seq<DustParticle>)
    ensures
        step_particles(ps).len() <= ps.len(),
        forall|j: int| 0 <= j < step_particles(ps).len() ==> exists|i: int| 0 <= i < ps.len()
            && #[trigger] step_particles(ps)[j] == step_particle(#[trigger] ps[i]),
        forall|j: int| 0 <= j < step_particles(ps).len() ==> (#[trigger] step_particles(ps)[j]).life > 0,
    decreases ps.len(),
{
    if ps.len() > 0 {
        let rest = ps.drop_last();
        lemma_step_particles_origin(rest);
        let r = step_particles(ps);
        assert forall|j: int| 0 <= j < r.len() implies exists|i: int| 0 <= i < ps.len()
            && #[trigger] r[j] == step_particle(#[trigger] ps[i]) by {
            if j < step_particles(rest).len() {
                let i = choose|i: int| 0 <= i < rest.len() && step_particles(rest)[j] == step_particle(rest[i]);
                assert(ps[i] == rest[i]);
            } else {
                assert(r[j] == step_particle(ps[ps.len() - 1]));
            }
        }
    }
}

proof fn lemma_step_particles_wf(ps: Seq<DustParticle>)
    requires
        forall|i: int| 0 <= i < ps.len() ==> particle_wf(#[trigger] ps[i]),
    ensures
        forall|j: int| 0 <= j < step_particles(ps).len() ==> particle_wf(#[trigger] step_particles(ps)[j]),
{
    lemma_step_particles_origin(ps);
    assert forall|j: int| 0 <= j < step_particles(ps).len() implies particle_wf(#[trigger] step_particles(ps)[j]) by {
        let i = choose|i: int| 0 <= i < ps.len() && step_particles(ps)[j] == step_particle(ps[i]);
        lemma_step_particle_wf(ps[i]);
    }
}

proof fn lemma_concat_wf(a: Seq<DustParticle>, b: Seq<DustParticle>)
    requires
        forall|i: int| 0 <= i < a.len() ==> particle_wf(#[trigger] a[i]),
        forall|i: int| 0 <= i < b.len() ==> particle_wf(#[trigger] b[i]),
    ensures
        forall|i: int| 0 <= i < (a + b).len() ==> particle_wf(#[trigger] (a + b)[i]),
{
    assert forall|i: int| 0 <= i < (a + b).len() implies particle_wf(#[trigger] (a + b)[i]) by {
        if i >= a.len() {
            assert((a + b)[i] == b[i - a.len()]);
        }
    }
}

/// Particle integration: a tick moves every particle, lowers its life by exactly one
/// step, and removes it exactly when its life is no longer positive.
pub proof fn lemma_particle_tick(ps: Seq<DustParticle>, i: int)
    requires
        0 <= i < ps.len(),
        0 < ps[i].life <= FULL_LIFE,
    ensures
        step_particle(ps[i]).life == ps[i].life - LIFE_STEP,
        step_particles(ps).len() <= ps.len(),
        step_particle(ps[i]).life <= 0 ==> forall|j: int| 0 <= j < step_particles(ps).len()
            ==> (#[trigger] step_particles(ps)[j]).life > 0,
{
    lemma_step_particles_origin(ps);
}

/// The particles after `k` ticks with no new burst.
pub open spec fn particles_after(ps: Seq<DustParticle>, k: nat) -> Seq<DustParticle>
    decreases k,
{
    if k == 0 {
        ps
    } else {
        step_particles(particles_after(ps, (k - 1) as nat))
    }
}

/// With no new burst, particles of life at most `FULL_LIFE` are all gone after
/// 34 ticks, and after `k` ticks every survivor has lost `k` steps of life.
pub proof fn lemma_particles_expire(ps: Seq<DustParticle>, k: nat)
    requires
        forall|i: int| 0 <= i < ps.len() ==> 0 < (#[trigger] ps[i]).life <= FULL_LIFE,
    ensures
        particles_after(ps, k).len() <= ps.len(),
        forall|j: int| 0 <= j < particles_after(ps, k).len() ==> (#[trigger] particles_after(ps, k)[j]).life > 0,
        forall|j: int| 0 <= j < particles_after(ps, k).len()
            ==> (#[trigger] particles_after(ps, k)[j]).life <= FULL_LIFE - LIFE_STEP * k,
        k >= 34 ==> particles_after(ps, k).len() == 0,
    decreases k,
{
    if k > 0 {
        lemma_particles_expire(ps, (k - 1) as nat);
        let prev = particles_after(ps, (k - 1) as nat);
        lemma_step_particles_origin(prev);
        assert forall|j: int| 0 <= j < particles_after(ps, k).len()
            implies (#[trigger] particles_after(ps, k)[j]).life <= FULL_LIFE - LIFE_STEP * k by {
            let i = choose|i: int| 0 <= i < prev.len() && step_particles(prev)[j] == step_particle(prev[i]);
            assert(prev[i].life <= FULL_LIFE - LIFE_STEP * (k - 1));
        }
        if k >= 34 && particles_after(ps, k).len() > 0 {
            assert(particles_after(ps, k)[0].life > 0);
            assert(particles_after(ps, k)[0].life <= FULL_LIFE - LIFE_STEP * k);
        }
    }
}

impl CursorPhysics {
    /// Advances every particle by one tick and drops those whose life ran out.
    pub fn step_particles(&mut self)
        requires
            old(self)@.wf(),
        ensures
            final(self)@ == (PhysicsView { particles: step_particles(old(self)@.particles), ..old(self)@ }),
            final(self)@.wf(),
    {
        let ghost ps = self.particles@;
        let mut kept: Vec<DustParticle> = Vec::new();
        let mut i: usize = 0;
        while i < self.particles.len()
            invariant
                0 <= i <= self.particles@.len(),
                self.particles@ == ps,
                kept@ == step_particles(ps.subrange(0, i as int)),
                forall|k: int| 0 <= k < ps.len() ==> particle_wf(#[trigger] ps[k]),
            decreases self.particles@.len() - i,
        {
            let p = self.particles[i];
            proof {
                lemma_scaled_bound(p.vx as int, AIR_DRAG as int);
                assert(particle_wf(ps[i as int]));
                assert(ps.subrange(0, i + 1).drop_last() =~= ps.subrange(0, i as int));
                assert(ps.subrange(0, i + 1).last() == p);
            }
            let q = DustParticle {
                x: p.x + p.vx,
                y: p.y + p.vy,
                vx: scale(p.vx, AIR_DRAG),
                vy: p.vy + GRAVITY,
                life: p.life - LIFE_STEP,
                size: p.size,
                color: p.color,
            };
            if q.life > 0 {
                kept.push(q);
            }
            i = i + 1;
        }
        proof {
            assert(ps.subrange(0, ps.len() as int) =~= ps);
            lemma_step_particles_wf(ps);
        }
        self.particles = kept;
    }

    /// Feeds a pointer move to `(x, y)` (pixels): the horizontal movement becomes a
    /// tilt impulse, bounded, and the cursor follows the pointer.
    pub fn apply_pointer_move(&mut self, x: i32, y: i32)
        requires
            old(self)@.wf(),
        ensures
            final(self)@ == (PhysicsView {
                x: (x * UNIT) as i64,
                y: (y * UNIT) as i64,
                velocity: clamp_abs(old(self)@.velocity + scaled(x * UNIT - old(self)@.x, TILT_PER_PIXEL as int),
                    MAX_TILT_VELOCITY as int) as i64,
                ..old(self)@
            }),
            final(self)@.wf(),
    {
        let nx: i64 = x as i64 * UNIT;
        let ny: i64 = y as i64 * UNIT;
        let impulse = scale(nx - self.x, TILT_PER_PIXEL);
        self.tilt_velocity = clamp_i64(self.tilt_velocity + impulse, MAX_TILT_VELOCITY);
        self.x = nx;
        self.y = ny;
    }

    /// Starts the dismissal animation (wind-up, impact, drag-out).
    pub fn start_smash(&mut self)
        requires
            old(self)@.wf(),
        ensures
            final(self)@ == (PhysicsView { mode: AnimationMode::Smashing, timer: 0, ..old(self)@ }),
            final(self)@.wf(),
    {
        self.mode = AnimationMode::Smashing;
        self.state_timer = 0;
    }

    /// Enters the drag-out phase directly, as a linked window does when its partner fades.
    pub fn start_drag_out(&mut self)
        requires
            old(self)@.wf(),
        ensures
            final(self)@ == (PhysicsView { mode: AnimationMode::DragOut, ..old(self)@ }),
            final(self)@.wf(),
    {
        self.mode = AnimationMode::DragOut;
    }

    /// One animation tick: the tilt spring, the dismissal state machine, and the particles.
    pub fn tick(&mut self)
        requires
            old(self)@.wf(),
        ensures
            final(self)@ == old(self)@.ticked(),
            final(self)@.wf(),
    {
        proof {
            lemma_scaled_bound(-self.current_tilt as int, SPRING_STIFFNESS as int);
        }
        let v1: i64 = self.tilt_velocity + scale(-self.current_tilt, SPRING_STIFFNESS);
        let v2: i64 = scale(v1, SPRING_DAMPING);
        let tilt1: i64 = clamp_i64(self.current_tilt + v2, MAX_TILT);
        let t10: i64 = if tilt1 >= 0 { tilt1 / 10 } else { -((-tilt1) / 10) };
        proof {
            let b = self.bristle_bend as int;
            assert(-8_000_000 <= b * BEND_KEEP <= 8_000_000) by (nonlinear_arith) requires -10_000 <= b <= 10_000;
        }
        let mix: i64 = self.bristle_bend * BEND_KEEP + t10 * (UNIT - BEND_KEEP);
        let bend1: i64 = if mix >= 0 { mix / UNIT } else { -((-mix) / UNIT) };
        let timer1: u32 = if self.state_timer < u32::MAX { self.state_timer + 1 } else { self.state_timer };
        self.tilt_velocity = v2;
        self.current_tilt = tilt1;
        self.bristle_bend = bend1;
        match self.mode {
            AnimationMode::Idle => {
                proof { lemma_scaled_bound(REST_SQUISH - self.squish_factor, 900); }
                self.squish_factor = REST_SQUISH - scale(REST_SQUISH - self.squish_factor, 900);
            },
            AnimationMode::Smashing => {
                if timer1 < 4 {
                    self.state_timer = timer1;
                    self.squish_factor = 900;
                    self.current_tilt = clamp_i64(tilt1 - 5000, MAX_TILT);
                } else if timer1 == 4 {
                    self.state_timer = timer1;
                    self.squish_factor = 400;
                    self.current_tilt = 0;
                    let cx = self.x;
                    let cy = self.y + 20_000;
                    self.spawn_burst(SMASH_PARTICLES, BurstKind::Smash, cx, cy);
                } else if timer1 > 8 {
                    self.state_timer = timer1;
                    self.mode = AnimationMode::DragOut;
                } else {
                    self.state_timer = timer1;
                }
            },
            AnimationMode::DragOut => {
                proof { lemma_scaled_bound(DRAG_OUT_SQUISH - self.squish_factor, 800); }
                self.state_timer = timer1;
                self.squish_factor = DRAG_OUT_SQUISH - scale(DRAG_OUT_SQUISH - self.squish_factor, 800);
            },
        }
        self.step_particles();
    }
}

proof fn lemma_burst_len(seed: u32, n: nat, kind: BurstKind, cx: int, cy: int)
    ensures
        burst(seed, n, kind, cx, cy).0.len() == n,
    decreases n,
{
    if n > 0 {
        lemma_burst_len(seed, (n - 1) as nat, kind, cx, cy);
    }
}

/// A tick adds at most one smash burst to the particles: the list never grows by more
/// than `SMASH_PARTICLES` per tick, and only a smash at its impact frame adds any.
pub proof fn lemma_tick_particle_growth(v: PhysicsView)
    ensures
        v.ticked().particles.len() <= v.particles.len() + SMASH_PARTICLES,
        !(v.mode == AnimationMode::Smashing && v.timer == 3) ==> v.ticked().particles.len() <= v.particles.len(),
{
    lemma_burst_len(v.seed, SMASH_PARTICLES as nat, BurstKind::Smash, v.x as int, v.y + 20_000);
    let b = burst(v.seed, SMASH_PARTICLES as nat, BurstKind::Smash, v.x as int, v.y + 20_000);
    lemma_step_particles_origin(v.particles);
    lemma_step_particles_origin(v.particles + b.0);
}

proof fn lemma_scaled_shrinks(d: int, keep: int)
    requires
        0 <= keep < UNIT,
    ensures
        abs(scaled(d, keep)) <= abs(d),
        d != 0 ==> abs(scaled(d, keep)) < abs(d),
        d > 0 ==> scaled(d, keep) >= 0,
        d < 0 ==> scaled(d, keep) <= 0,
{
    lemma_scaled_bound(d, keep);
    if d > 0 {
        assert(d * keep < d * UNIT) by (nonlinear_arith) requires d > 0, keep < UNIT;
        assert(0 <= d * keep) by (nonlinear_arith) requires d > 0, keep >= 0;
    } else if d < 0 {
        assert((-d) * keep < (-d) * UNIT) by (nonlinear_arith) requires d < 0, keep < UNIT;
        assert(0 <= (-d) * keep) by (nonlinear_arith) requires d < 0, keep >= 0;
        assert(d * keep == -((-d) * keep)) by (nonlinear_arith);
    }
}

/// At rest the cursor's squash relaxes toward 1.0: each tick it stays on the same
/// side of 1.0 and strictly closer to it, and 1.0 itself does not move. While it
/// drags out the stretch relaxes toward 1.2 the same way.
pub proof fn lemma_squish_relaxes(v: PhysicsView)
    requires
        v.wf(),
        v.mode == AnimationMode::Idle || v.mode == AnimationMode::DragOut,
    ensures
        ({
            let target = if v.mode == AnimationMode::Idle { REST_SQUISH as int } else { DRAG_OUT_SQUISH as int };
            let before = v.squish - target;
            let after = v.ticked().squish - target;
            &&& (before > 0 ==> 0 <= after < before)
            &&& (before < 0 ==> before < after <= 0)
            &&& (before == 0 ==> after == 0)
        }),
{
    if v.mode == AnimationMode::Idle {
        lemma_scaled_shrinks(REST_SQUISH - v.squish, 900);
    } else {
        lemma_scaled_shrinks(DRAG_OUT_SQUISH - v.squish, 800);
    }
}

/// An upright cursor at rest stays upright: zero tilt and zero tilt velocity are a
/// fixed point of the spring.
pub proof fn lemma_spring_rest(v: PhysicsView)
    requires
        v.wf(),
        v.tilt == 0,
        v.velocity == 0,
        v.mode == AnimationMode::Idle,
    ensures
        v.ticked().tilt == 0,
        v.ticked().velocity == 0,
{
}

proof fn lemma_random_between_bound(seed: u32, lo: int, hi: int)
    ensures
        lo <= hi ==> lo <= random_between(seed, lo, hi).0 <= hi,
        hi <= lo ==> hi <= random_between(seed, lo, hi).0 <= lo,
{
    let si = lcg_next(seed) as int;
    let m = u32::MAX as int;
    let span = hi - lo;
    assert(0 <= si <= m);
    if span >= 0 {
        assert(0 <= si * span <= m * span) by (nonlinear_arith) requires 0 <= si <= m, span >= 0;
        assert((si * span) / m <= span) by (nonlinear_arith) requires 0 <= si * span <= m * span, m > 0;
        assert(0 <= (si * span) / m) by (nonlinear_arith) requires 0 <= si * span, m > 0;
    } else {
        assert(0 <= si * (-span) <= m * (-span)) by (nonlinear_arith) requires 0 <= si <= m, span < 0;
        assert(si * span == -(si * (-span))) by (nonlinear_arith);
        assert((si * (-span)) / m <= -span) by (nonlinear_arith) requires 0 <= si * (-span) <= m * (-span), m > 0;
        assert(0 <= (si * (-span)) / m) by (nonlinear_arith) requires 0 <= si * (-span), m > 0;
    }
}

/// Every particle of a smash burst is fresh, dust-coloured and thrown upward.
pub proof fn lemma_smash_burst(seed: u32, n: nat, cx: int, cy: int)
    ensures
        burst(seed, n, BurstKind::Smash, cx, cy).0.len() == n,
        forall|i: int| 0 <= i < n ==> {
            let p = #[trigger] burst(seed, n, BurstKind::Smash, cx, cy).0[i];
            &&& p.life == FULL_LIFE
            &&& p.color == DUST_COLOR
            &&& -8_000 <= p.vy <= -2_000
        },
    decreases n,
{
    lemma_burst_len(seed, n, BurstKind::Smash, cx, cy);
    if n > 0 {
        lemma_smash_burst(seed, (n - 1) as nat, cx, cy);
        let (ps, s) = burst(seed, (n - 1) as nat, BurstKind::Smash, cx, cy);
        let (_jx, s1) = random_between(s, -10_000, 10_000);
        let (_vx, s2) = random_between(s1, -8_000, 8_000);
        lemma_random_between_bound(s2, -2_000, -8_000);
        assert forall|i: int| 0 <= i < n implies {
            let p = #[trigger] burst(seed, n, BurstKind::Smash, cx, cy).0[i];
            &&& p.life == FULL_LIFE
            &&& p.color == DUST_COLOR
            &&& -8_000 <= p.vy <= -2_000
        } by {
            if i < n - 1 {
                assert(burst(seed, n, BurstKind::Smash, cx, cy).0[i] == ps[i]);
            }
        }
    }
}

proof fn lemma_step_particles_concat(a: Seq<DustParticle>, b: Seq<DustParticle>)
    ensures
        step_particles(a + b) == step_particles(a) + step_particles(b),
    decreases b.len(),
{
    if b.len() == 0 {
        assert(a + b =~= a);
        assert(step_particles(a) + step_particles(b) =~= step_particles(a));
    } else {
        assert((a + b).drop_last() =~= a + b.drop_last());
        assert((a + b).last() == b.last());
        lemma_step_particles_concat(a, b.drop_last());
        let q = step_particle(b.last());
        if q.life > 0 {
            assert(step_particles(a) + step_particles(b.drop_last()).push(q)
                =~= (step_particles(a) + step_particles(b.drop_last())).push(q));
        }
    }
}

/// A tick without an impact moves the particles and nothing more: every survivor is
/// the step of one particle before it, in the same order, with one step less life.
pub proof fn lemma_tick_without_impact(v: PhysicsView)
    requires
        !(v.mode == AnimationMode::Smashing && v.timer == 3),
    ensures
        v.ticked().particles == step_particles(v.particles),
{
}

/// The impact frame: the fourth tick of a smash flattens the cursor, stands it up,
/// and throws a burst of dust upward from below the pointer, after the old particles.
pub proof fn lemma_impact_frame(v: PhysicsView)
    requires
        v.mode == AnimationMode::Smashing,
        v.timer == 3,
    ensures
        v.ticked().timer == 4,
        v.ticked().mode == AnimationMode::Smashing,
        v.ticked().squish == 400,
        v.ticked().tilt == 0,
        ({
            let b = burst(v.seed, SMASH_PARTICLES as nat, BurstKind::Smash, v.x as int, v.y + 20_000).0;
            &&& b.len() == SMASH_PARTICLES
            &&& v.ticked().particles == step_particles(v.particles) + step_particles(b)
            &&& step_particles(b).len() == SMASH_PARTICLES
            &&& forall|i: int| 0 <= i < SMASH_PARTICLES ==> {
                let p = #[trigger] step_particles(b)[i];
                &&& p.life == FULL_LIFE - LIFE_STEP
                &&& p.color == DUST_COLOR
                &&& p.vy < 0
            }
        }),
{
    let b = burst(v.seed, SMASH_PARTICLES as nat, BurstKind::Smash, v.x as int, v.y + 20_000).0;
    lemma_smash_burst(v.seed, SMASH_PARTICLES as nat, v.x as int, v.y + 20_000);
    lemma_step_particles_concat(v.particles, b);
    lemma_step_all_survive(b);
}

proof fn lemma_step_all_survive(b: Seq<DustParticle>)
    requires
        forall|i: int| 0 <= i < b.len() ==> (#[trigger] b[i]).life == FULL_LIFE && -8_000 <= b[i].vy <= -2_000,
    ensures
        step_particles(b) == b.map_values(|p: DustParticle| step_particle(p)),
        forall|i: int| 0 <= i < b.len() ==> (#[trigger] step_particles(b)[i]) == step_particle(b[i]),
    decreases b.len(),
{
    if b.len() > 0 {
        let r = b.drop_last();
        assert forall|i: int| 0 <= i < r.len() implies (#[trigger] r[i]).life == FULL_LIFE && -8_000 <= r[i].vy <= -2_000 by {
            assert(r[i] == b[i]);
        }
        lemma_step_all_survive(r);
        assert(b.map_values(|p: DustParticle| step_particle(p))
            =~= r.map_values(|p: DustParticle| step_particle(p)).push(step_particle(b.last())));
    } else {
        assert(b.map_values(|p: DustParticle| step_particle(p)) =~= b);
    }
}

/// The smash timer counts ticks; the smash turns into the drag-out exactly when the
/// count passes 8, that is on the ninth tick after the click.
pub proof fn lemma_smash_timer(v: PhysicsView)
    requires
        v.mode == AnimationMode::Smashing,
        v.timer < u32::MAX,
    ensures
        v.ticked().timer == v.timer + 1,
        v.ticked().mode == (if v.timer + 1 > 8 { AnimationMode::DragOut } else { AnimationMode::Smashing }),
{
}

} // verus!
