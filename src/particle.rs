//! One particle's lifecycle: spawn check, randomized launch, per-tick
//! integration, and termination when it falls through the arena floor.
use vstd::prelude::*;
use crate::config::{
    ACCELERATION_Y, INITIAL_VELOCITY_X, INITIAL_VELOCITY_Y, JITTER_X_BOUND, JITTER_Y_BOUND,
    PIISPIS_WIDTH,
};
use crate::entity::{Entity, EntityCounter};
use crate::geometry::{is_valid_position, left_of, screen_offset, top_of, valid_height};
use crate::random::{fair_coin, uniform_below};

verus! {

/// A point in arena space, `y` measured upward from the floor.
#[derive(Debug, Clone, Copy, PartialEq, Eq, Structural)]
pub struct Position {
    pub x: i32,
    pub y: i32,
}

/// Pixels per tick along each axis, `y` positive upward.
#[derive(Debug, Clone, Copy, PartialEq, Eq, Structural)]
pub struct Velocity {
    pub x: i32,
    pub y: i32,
}

/// What one tick did, and so what the host has to do with the particle's
/// visual element.
#[derive(Debug, Clone, Copy, PartialEq, Eq, Structural)]
pub enum Step {
    /// Still inside the arena: place the element at these screen offsets.
    Moved { top: i32, left: i32 },
    /// Fell out of the arena on this tick: remove the element.
    Removed,
    /// Was already terminated: nothing to do.
    Stopped,
}

impl Step {
    /// Whether the particle is still alive after this step, i.e. whether the
    /// host should keep ticking it.
    pub fn continues(&self) -> (r: bool)
        ensures
            r == (*self is Moved),
    {
        match self {
            Step::Moved { .. } => true,
            _ => false,
        }
    }
}

/// `v` can be held in an `i32`.
pub open spec fn in_i32(v: int) -> bool {
    i32::MIN <= v <= i32::MAX
}

/// The mathematical state of a particle.
pub struct PiispisView {
    pub id: nat,
    pub x: int,
    pub y: int,
    pub vx: int,
    pub vy: int,
    /// Whether the particle still holds its visual element.
    pub alive: bool,
}

impl PiispisView {
    /// The state after one tick: a terminated particle is unchanged; a live
    /// one first feels gravity, then moves by its velocity, and stays alive
    /// only if its new height is valid.
    pub open spec fn next(self) -> PiispisView {
        if !self.alive {
            self
        } else {
            let vy = self.vy + ACCELERATION_Y;
            let x = self.x + self.vx;
            let y = self.y + vy;
            PiispisView { id: self.id, x, y, vx: self.vx, vy, alive: valid_height(y) }
        }
    }

    /// What one tick reports.
    pub open spec fn outcome(self) -> Step {
        if !self.alive {
            Step::Stopped
        } else if !self.next().alive {
            Step::Removed
        } else {
            Step::Moved { top: top_of(self.next().y) as i32, left: left_of(self.next().x) as i32 }
        }
    }

    /// The state after `n` ticks.
    pub open spec fn after(self, n: nat) -> PiispisView
        decreases n,
    {
        if n == 0 {
            self
        } else {
            self.next().after((n - 1) as nat)
        }
    }

    /// Every quantity that the next tick computes fits in an `i32`.
    pub open spec fn step_fits(self) -> bool {
        self.alive ==> {
            let n = self.next();
            in_i32(n.vy) && in_i32(n.x) && in_i32(n.y) && in_i32(left_of(n.x))
        }
    }
}

/// The launch velocity for a drawn direction and jitter: horizontally
/// `sign * INITIAL_VELOCITY_X + jitter_x` with `sign` -1 when `leftward`,
/// vertically `INITIAL_VELOCITY_Y + jitter_y`.
pub open spec fn launch_velocity(leftward: bool, jitter_x: int, jitter_y: int) -> (int, int) {
    (
        (if leftward { -1int } else { 1int }) * INITIAL_VELOCITY_X + jitter_x,
        INITIAL_VELOCITY_Y + jitter_y,
    )
}

/// The velocities that a launch can draw.
pub open spec fn launch_range(vx: int, vy: int) -> bool {
    &&& (-INITIAL_VELOCITY_X <= vx < -INITIAL_VELOCITY_X + JITTER_X_BOUND
        || INITIAL_VELOCITY_X <= vx < INITIAL_VELOCITY_X + JITTER_X_BOUND)
    &&& INITIAL_VELOCITY_Y <= vy < INITIAL_VELOCITY_Y + JITTER_Y_BOUND
}

/// A live particle at `(x, y)` with velocity `(vx, vy)`, before any tick.
pub open spec fn launched(id: nat, x: int, y: int, vx: int, vy: int) -> PiispisView {
    PiispisView { id, x, y, vx, vy, alive: true }
}

/// `p` is a particle with id `id` launched from `(x, y)` with a velocity that
/// a launch can draw, after exactly one tick, and `step` is what that tick
/// reported. The drawn vertical velocity is recovered by undoing one tick of
/// gravity.
pub open spec fn spawned_from(p: PiispisView, step: Step, id: nat, x: int, y: int) -> bool {
    let s = launched(id, x, y, p.vx, p.vy - ACCELERATION_Y);
    &&& launch_range(s.vx, s.vy)
    &&& p == s.next()
    &&& step == s.outcome()
}

/// Spawn points whose first tick fits in `i32` whatever velocity is drawn.
pub open spec fn spawn_in_range(x: int, y: int) -> bool {
    &&& i32::MIN + PIISPIS_WIDTH / 2 + INITIAL_VELOCITY_X <= x
    &&& x <= i32::MAX - (INITIAL_VELOCITY_X + JITTER_X_BOUND)
    &&& y <= i32::MAX - (INITIAL_VELOCITY_Y + JITTER_Y_BOUND)
}

/// A particle: identity, position, velocity and whether it still holds its
/// visual element. Each particle is owned by the one controller that ticks it.
#[derive(Debug)]
pub struct Piispis {
    id: Entity,
    position: Position,
    velocity: Velocity,
    rendered: bool,
}

impl View for Piispis {
    type V = PiispisView;

    closed spec fn view(&self) -> PiispisView {
        PiispisView {
            id: self.id.0 as nat,
            x: self.position.x as int,
            y: self.position.y as int,
            vx: self.velocity.x as int,
            vy: self.velocity.y as int,
            alive: self.rendered,
        }
    }
}

impl Piispis {
    /// Whether `(x, y)` is far enough from the ends of `i32` for [`Piispis::spawn`].
    pub fn can_spawn_at(x: i32, y: i32) -> (r: bool)
        ensures
            r == spawn_in_range(x as int, y as int),
    {
        let min_x: i32 = i32::MIN + PIISPIS_WIDTH / 2 + INITIAL_VELOCITY_X;
        let max_x: i32 = i32::MAX - (INITIAL_VELOCITY_X + JITTER_X_BOUND);
        let max_y: i32 = i32::MAX - (INITIAL_VELOCITY_Y + JITTER_Y_BOUND);
        min_x <= x && x <= max_x && y <= max_y
    }

    /// Whether the next [`Piispis::update`] stays within `i32`.
    pub fn can_update(&self) -> (r: bool)
        ensures
            r == self@.step_fits(),
    {
        if !self.rendered {
            return true;
        }
        let vy = self.velocity.y as i64 + ACCELERATION_Y as i64;
        let x = self.position.x as i64 + self.velocity.x as i64;
        let y = self.position.y as i64 + vy;
        let left = x - PIISPIS_WIDTH as i64 / 2;
        let lo = i32::MIN as i64;
        let hi = i32::MAX as i64;
        lo <= vy && vy <= hi && lo <= x && x <= hi && lo <= y && y <= hi && lo <= left && left <= hi
    }

    /// A particle launched from `(x, y)` in the drawn direction with the
    /// drawn jitter, after its first tick, and what that tick reports.
    pub fn launch(id: Entity, x: i32, y: i32, leftward: bool, jitter_x: i32, jitter_y: i32) -> (r: (
        Piispis,
        Step,
    ))
        requires
            spawn_in_range(x as int, y as int),
            0 <= jitter_x < JITTER_X_BOUND,
            0 <= jitter_y < JITTER_Y_BOUND,
        ensures
            ({
                let v = launch_velocity(leftward, jitter_x as int, jitter_y as int);
                let s = launched(id.0 as nat, x as int, y as int, v.0, v.1);
                r.0@ == s.next() && r.1 == s.outcome()
            }),
    {
        let direction: i32 = if leftward { -1 } else { 1 };
        let mut piispis = Piispis {
            id,
            position: Position { x, y },
            velocity: Velocity {
                x: direction * INITIAL_VELOCITY_X + jitter_x,
                y: INITIAL_VELOCITY_Y + jitter_y,
            },
            rendered: true,
        };
        let step = piispis.update();
        (piispis, step)
    }

    /// Spawns a particle at `(x, y)`. A point that is not a valid position
    /// spawns nothing and allocates no id. Otherwise the particle takes the
    /// next id, draws a random launch velocity, and is ticked once at once,
    /// so that one born outside the arena is removed before it is shown.
    pub fn spawn(ids: &mut EntityCounter, x: i32, y: i32) -> (r: Option<(Piispis, Step)>)
        requires
            old(ids)@ < u64::MAX,
            spawn_in_range(x as int, y as int),
        ensures
            r is None <==> !valid_height(y as int),
            r is None ==> final(ids)@ == old(ids)@,
            r matches Some((p, step)) ==> {
                &&& final(ids)@ == old(ids)@ + 1
                &&& spawned_from(p@, step, old(ids)@, x as int, y as int)
            },
    {
        if !is_valid_position(x, y) {
            return None;
        }
        let mut rng = rand::thread_rng();
        let leftward = fair_coin(&mut rng);
        let jitter_x = uniform_below(&mut rng, 0, JITTER_X_BOUND);
        let jitter_y = uniform_below(&mut rng, 0, JITTER_Y_BOUND);
        let id = ids.next_id();
        Some(Piispis::launch(id, x, y, leftward, jitter_x, jitter_y))
    }

    /// Spawns `count` particles at `(x, y)`, each with its own random launch
    /// velocity and the next id. All of them are accepted or none is, since
    /// the decision depends on the point alone.
    pub fn spawn_burst(ids: &mut EntityCounter, x: i32, y: i32, count: usize) -> (r: Vec<
        (Piispis, Step),
    >)
        requires
            old(ids)@ + count <= u64::MAX,
            spawn_in_range(x as int, y as int),
        ensures
            !valid_height(y as int) ==> r@.len() == 0 && final(ids)@ == old(ids)@,
            valid_height(y as int) ==> r@.len() == count && final(ids)@ == old(ids)@ + count,
            forall|i: int|
                0 <= i < r@.len() ==> spawned_from(
                    (#[trigger] r@[i]).0@,
                    r@[i].1,
                    (old(ids)@ + i) as nat,
                    x as int,
                    y as int,
                ),
            forall|i: int, j: int|
                0 <= i < j < r@.len() ==> (#[trigger] r@[i]).0@.id < (#[trigger] r@[j]).0@.id,
    {
        let ghost start = ids@;
        let mut out: Vec<(Piispis, Step)> = Vec::new();
        let mut i: usize = 0;
        while i < count
            invariant
                i <= count,
                start + count <= u64::MAX,
                spawn_in_range(x as int, y as int),
                ids@ == start + out@.len(),
                out@.len() == (if valid_height(y as int) { i as int } else { 0 }),
                forall|k: int|
                    0 <= k < out@.len() ==> spawned_from(
                        (#[trigger] out@[k]).0@,
                        out@[k].1,
                        (start + k) as nat,
                        x as int,
                        y as int,
                    ),
            decreases count - i,
        {
            match Piispis::spawn(ids, x, y) {
                Some(spawned) => out.push(spawned),
                None => {},
            }
            i = i + 1;
        }
        out
    }

    /// One tick. A terminated particle reports [`Step::Stopped`] and does
    /// nothing else. A live one applies gravity to its vertical velocity,
    /// moves by its velocity, and then either reports its new screen
    /// offsets or, if its new height is not valid, terminates and reports
    /// [`Step::Removed`].
    pub fn update(&mut self) -> (r: Step)
        requires
            old(self)@.step_fits(),
        ensures
            final(self)@ == old(self)@.next(),
            r == old(self)@.outcome(),
    {
        if !self.rendered {
            return Step::Stopped;
        }
        self.velocity.y = self.velocity.y + ACCELERATION_Y;
        self.position.x = self.position.x + self.velocity.x;
        self.position.y = self.position.y + self.velocity.y;
        if !is_valid_position(self.position.x, self.position.y) {
            self.rendered = false;
            return Step::Removed;
        }
        let (top, left) = screen_offset(self.position.x, self.position.y);
        Step::Moved { top, left }
    }

    pub fn id(&self) -> (r: Entity)
        ensures
            r.0 == self@.id,
    {
        self.id
    }

    pub fn position(&self) -> (r: Position)
        ensures
            r.x == self@.x,
            r.y == self@.y,
    {
        self.position
    }

    pub fn velocity(&self) -> (r: Velocity)
        ensures
            r.x == self@.vx,
            r.y == self@.vy,
    {
        self.velocity
    }

    /// Whether the particle still holds its visual element.
    pub fn is_alive(&self) -> (r: bool)
        ensures
            r == self@.alive,
    {
        self.rendered
    }
}

/// Death is idempotent: a terminated particle is left unchanged by any
/// number of further ticks, and every one of them reports
/// [`Step::Stopped`], so no render call follows.
pub proof fn lemma_terminated_is_fixed(s: PiispisView, n: nat)
    requires
        !s.alive,
    ensures
        s.after(n) == s,
        s.after(n).outcome() == Step::Stopped,
    decreases n,
{
    if n > 0 {
        lemma_terminated_is_fixed(s, (n - 1) as nat);
    }
}

/// Termination is one-way: once a tick reports that the particle does not
/// continue, the particle is terminated and no later tick ever reports a
/// move.
pub proof fn lemma_termination_is_final(s: PiispisView, n: nat)
    requires
        !(s.outcome() is Moved),
    ensures
        !s.next().alive,
        !(s.next().after(n).outcome() is Moved),
{
    lemma_terminated_is_fixed(s.next(), n);
}

} // verus!
