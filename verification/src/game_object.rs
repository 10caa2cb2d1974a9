//! The entity records and the aggregate simulation state.
//!
//! Every quantity is fixed point: distances carry 1000 steps per world
//! unit, angles 1_000_000 steps per turn, times are whole milliseconds.
//! `state_wf` is the well-formedness invariant that `State::init`
//! establishes and every engine step preserves: all positions sit between
//! the deep defensive floor and one velocity bound past the playfield
//! edge, and every velocity is bounded by its entity's cap.

use vstd::prelude::*;
use crate::geometry::Vec2;
use crate::rng::RandomStream;

verus! {

/// Playfield width, in fixed-point steps (1280 world units).
pub const WIDTH: i64 = 1_280_000;

/// Playfield height, in fixed-point steps (960 world units).
pub const HEIGHT: i64 = 960_000;

/// The base drawing scale of the playfield: 38 world units.
pub const SCALE_FIX: i64 = 38_000;

/// Largest frame delta accepted, in milliseconds; larger host deltas clamp.
pub const DELTA_MAX: u64 = 500;

/// Velocity cap of the ship (per frame, fixed point).
pub const SHIP_VMAX: i64 = 900_000;

/// Velocity cap of an asteroid.
pub const AST_VMAX: i64 = 16_000;

/// Velocity cap of an alien's per-frame step.
pub const ALIEN_VMAX: i64 = 6_000;

/// Velocity cap of a projectile.
pub const PROJ_VMAX: i64 = 12_000;

/// Velocity cap of a particle.
pub const PART_VMAX: i64 = 16_000;

/// Extra positive-edge margin a projectile's spawn offset may add.
pub const PROJ_MARGIN: i64 = 960_000;

/// The three asteroid size classes.
#[derive(Clone, Copy, PartialEq, Eq, Structural, Debug)]
pub enum AsteroidSize {
    SMALL,
    MEDIUM,
    BIG,
}

/// The two alien size classes.
#[derive(Clone, Copy, PartialEq, Eq, Structural, Debug)]
pub enum AlienSize {
    SMALL,
    BIG,
}

/// The visual payload of a particle: a rotated line or a dot.
#[derive(Clone, Copy, PartialEq, Eq, Structural, Debug)]
pub enum ParticleType {
    LINE { rot: i64, length: i64 },
    DOT { radius: i64 },
}

impl AsteroidSize {
    /// Points awarded for destroying an asteroid of this size.
    pub open spec fn score_spec(self) -> int {
        match self {
            AsteroidSize::SMALL => 20,
            AsteroidSize::MEDIUM => 50,
            AsteroidSize::BIG => 100,
        }
    }

    /// Drawn radius in fixed point: 0.8, 1.4 or 3.0 times the scale.
    pub open spec fn size_spec(self) -> int {
        match self {
            AsteroidSize::SMALL => 30_400,
            AsteroidSize::MEDIUM => 53_200,
            AsteroidSize::BIG => 114_000,
        }
    }

    /// Collision shrink factor in thousandths: 1.0, 0.6 or 0.4.
    pub open spec fn coll_scale_spec(self) -> int {
        match self {
            AsteroidSize::SMALL => 1000,
            AsteroidSize::MEDIUM => 600,
            AsteroidSize::BIG => 400,
        }
    }

    /// Collision radius: drawn size scaled by the shrink factor.
    pub open spec fn coll_radius_spec(self) -> int {
        self.size_spec() * self.coll_scale_spec() / 1000
    }

    /// Speed factor handed to split children, in thousandths.
    pub open spec fn vel_scale_spec(self) -> int {
        match self {
            AsteroidSize::SMALL => 3000,
            AsteroidSize::MEDIUM => 1800,
            AsteroidSize::BIG => 750,
        }
    }

    /// The size of this asteroid's split children (one class smaller).
    pub open spec fn split_size_spec(self) -> AsteroidSize {
        match self {
            AsteroidSize::BIG => AsteroidSize::MEDIUM,
            _ => AsteroidSize::SMALL,
        }
    }

    pub fn score(&self) -> (r: usize)
        ensures
            r == self.score_spec(),
    {
        match self {
            AsteroidSize::SMALL => 20,
            AsteroidSize::MEDIUM => 50,
            AsteroidSize::BIG => 100,
        }
    }

    pub fn size(&self) -> (r: i64)
        ensures
            r == self.size_spec(),
    {
        match self {
            AsteroidSize::SMALL => 30_400,
            AsteroidSize::MEDIUM => 53_200,
            AsteroidSize::BIG => 114_000,
        }
    }

    pub fn coll_scale(&self) -> (r: i64)
        ensures
            r == self.coll_scale_spec(),
    {
        match self {
            AsteroidSize::SMALL => 1000,
            AsteroidSize::MEDIUM => 600,
            AsteroidSize::BIG => 400,
        }
    }

    /// The collision radius actually compared against distances.
    pub fn coll_radius(&self) -> (r: i64)
        ensures
            r == self.coll_radius_spec(),
            0 < r <= 114_000,
    {
        match self {
            AsteroidSize::SMALL => 30_400,
            AsteroidSize::MEDIUM => 31_920,
            AsteroidSize::BIG => 45_600,
        }
    }

    pub fn vel_scale(&self) -> (r: i64)
        ensures
            r == self.vel_scale_spec(),
    {
        match self {
            AsteroidSize::SMALL => 3000,
            AsteroidSize::MEDIUM => 1800,
            AsteroidSize::BIG => 750,
        }
    }
}

impl AlienSize {
    /// Collision radius: half or 0.8 of the scale.
    pub open spec fn coll_size_spec(self) -> int {
        match self {
            AlienSize::SMALL => 19_000,
            AlienSize::BIG => 30_400,
        }
    }

    /// Milliseconds between random heading changes.
    pub open spec fn dir_change_time_spec(self) -> int {
        match self {
            AlienSize::SMALL => 350,
            AlienSize::BIG => 850,
        }
    }

    /// Milliseconds between shots.
    pub open spec fn shot_time_spec(self) -> int {
        match self {
            AlienSize::SMALL => 500,
            AlienSize::BIG => 1250,
        }
    }

    /// Distance moved per frame along the heading, in world units.
    pub open spec fn speed_spec(self) -> int {
        match self {
            AlienSize::SMALL => 3,
            AlienSize::BIG => 6,
        }
    }

    pub fn coll_size(&self) -> (r: i64)
        ensures
            r == self.coll_size_spec(),
            0 < r <= 30_400,
    {
        match self {
            AlienSize::SMALL => 19_000,
            AlienSize::BIG => 30_400,
        }
    }

    pub fn dir_change_time(&self) -> (r: u64)
        ensures
            r == self.dir_change_time_spec(),
    {
        match self {
            AlienSize::SMALL => 350,
            AlienSize::BIG => 850,
        }
    }

    pub fn shot_time(&self) -> (r: u64)
        ensures
            r == self.shot_time_spec(),
    {
        match self {
            AlienSize::SMALL => 500,
            AlienSize::BIG => 1250,
        }
    }

    pub fn speed(&self) -> (r: i64)
        ensures
            r == self.speed_spec(),
    {
        match self {
            AlienSize::SMALL => 3,
            AlienSize::BIG => 6,
        }
    }
}

/// The player's ship.  `death_time == 0` means alive; any other value is
/// the timestamp of death, gating the respawn grace period.
#[derive(Clone, Copy, PartialEq, Eq, Structural, Debug)]
pub struct Ship {
    pub pos: Vec2,
    pub vel: Vec2,
    pub rot: i64,
    pub death_time: u64,
}

#[derive(Clone, Copy, PartialEq, Eq, Structural, Debug)]
pub struct Asteroid {
    pub pos: Vec2,
    pub vel: Vec2,
    pub size: AsteroidSize,
    pub seed: u64,
    pub remove: bool,
}

#[derive(Clone, Copy, PartialEq, Eq, Structural, Debug)]
pub struct Alien {
    pub pos: Vec2,
    pub dir: Vec2,
    pub size: AlienSize,
    pub remove: bool,
    pub last_shot: u64,
    pub last_dir: u64,
}

#[derive(Clone, Copy, PartialEq, Eq, Structural, Debug)]
pub struct Particle {
    pub pos: Vec2,
    pub vel: Vec2,
    pub ttl: u64,
    pub values: ParticleType,
}

#[derive(Clone, Copy, PartialEq, Eq, Structural, Debug)]
pub struct Projectile {
    pub pos: Vec2,
    pub vel: Vec2,
    pub ttl: u64,
    pub spawn: u64,
    pub remove: bool,
}

/// The aggregate simulation state threaded through every engine step.
pub struct State {
    pub now: u64,
    pub delta: u64,
    pub stage_start: u64,
    pub ship: Ship,
    pub asteroids: Vec<Asteroid>,
    pub asteroids_queue: Vec<Asteroid>,
    pub particles: Vec<Particle>,
    pub projectiles: Vec<Projectile>,
    pub aliens: Vec<Alien>,
    pub rand: RandomStream,
    pub lives: usize,
    pub last_score: usize,
    pub score: usize,
    pub reset: bool,
    pub frame: usize,
}

/// A position: above the deep floor, and past each playfield edge by at
/// most the margin `m`.
pub open spec fn pos_ok(p: Vec2, m: int) -> bool {
    -1_100_000_000 <= p.x < 1_280_000 + m && -1_100_000_000 <= p.y < 960_000 + m
}

/// A velocity bounded by `m` in each component.
pub open spec fn vel_ok(v: Vec2, m: int) -> bool {
    -m <= v.x <= m && -m <= v.y <= m
}

pub open spec fn ship_wf(s: Ship) -> bool {
    pos_ok(s.pos, SHIP_VMAX as int) && vel_ok(s.vel, SHIP_VMAX as int) && crate::trig::angle_ok(
        s.rot as int,
    )
}

pub open spec fn asteroid_wf(a: Asteroid) -> bool {
    pos_ok(a.pos, AST_VMAX as int) && vel_ok(a.vel, AST_VMAX as int)
}

pub open spec fn alien_wf(a: Alien) -> bool {
    pos_ok(a.pos, ALIEN_VMAX as int) && vel_ok(a.dir, 1000)
}

pub open spec fn projectile_wf(p: Projectile) -> bool {
    pos_ok(p.pos, PROJ_MARGIN as int) && vel_ok(p.vel, PROJ_VMAX as int)
}

pub open spec fn particle_wf(p: Particle) -> bool {
    pos_ok(p.pos, PART_VMAX as int) && vel_ok(p.vel, PART_VMAX as int)
}

/// Well-formedness of the whole state: every entity is in bounds and the
/// frame delta has been clamped.
pub open spec fn state_wf(s: State) -> bool {
    &&& ship_wf(s.ship)
    &&& s.delta <= DELTA_MAX
    &&& forall|i: int| 0 <= i < s.asteroids@.len() ==> asteroid_wf(#[trigger] s.asteroids@[i])
    &&& forall|i: int|
        0 <= i < s.asteroids_queue@.len() ==> asteroid_wf(#[trigger] s.asteroids_queue@[i])
    &&& forall|i: int| 0 <= i < s.aliens@.len() ==> alien_wf(#[trigger] s.aliens@[i])
    &&& forall|i: int| 0 <= i < s.projectiles@.len() ==> projectile_wf(#[trigger] s.projectiles@[i])
    &&& forall|i: int| 0 <= i < s.particles@.len() ==> particle_wf(#[trigger] s.particles@[i])
}

/// The fresh ship placed at the playfield center, alive and at rest.
pub open spec fn spawn_ship_spec() -> Ship {
    Ship { pos: Vec2 { x: 640_000, y: 480_000 }, vel: Vec2 { x: 0, y: 0 }, rot: 0, death_time: 0 }
}

impl Ship {
    /// A fresh ship at the playfield center.
    pub fn init() -> (r: Ship)
        ensures
            r == spawn_ship_spec(),
    {
        Ship {
            pos: Vec2 { x: 640_000, y: 480_000 },
            vel: Vec2 { x: 0, y: 0 },
            rot: 0,
            death_time: 0,
        }
    }

    /// Whether the ship is currently dead (a nonzero death timestamp).
    pub fn is_dead(&self) -> (r: bool)
        ensures
            r == (self.death_time != 0),
    {
        self.death_time != 0
    }
}

impl State {
    /// The blank pre-game state: zero clocks, empty entity lists, a ship
    /// at the center, and a gameplay stream seeded from entropy.
    pub fn init() -> (r: State)
        ensures
            r.now == 0 && r.delta == 0 && r.stage_start == 0,
            r.ship == spawn_ship_spec(),
            r.asteroids@.len() == 0 && r.asteroids_queue@.len() == 0,
            r.particles@.len() == 0 && r.projectiles@.len() == 0 && r.aliens@.len() == 0,
            r.lives == 0 && r.last_score == 0 && r.score == 0,
            !r.reset && r.frame == 0,
            state_wf(r),
    {
        State {
            now: 0,
            delta: 0,
            stage_start: 0,
            ship: Ship::init(),
            asteroids: Vec::new(),
            asteroids_queue: Vec::new(),
            particles: Vec::new(),
            projectiles: Vec::new(),
            aliens: Vec::new(),
            rand: RandomStream::from_entropy(),
            lives: 0,
            last_score: 0,
            score: 0,
            reset: false,
            frame: 0,
        }
    }

    /// The blank pre-game state with a reproducibly seeded stream.
    pub fn init_with_seed(seed: u64) -> (r: State)
        ensures
            r.now == 0 && r.delta == 0 && r.stage_start == 0,
            r.ship == spawn_ship_spec(),
            r.asteroids@.len() == 0 && r.asteroids_queue@.len() == 0,
            r.particles@.len() == 0 && r.projectiles@.len() == 0 && r.aliens@.len() == 0,
            r.lives == 0 && r.last_score == 0 && r.score == 0,
            !r.reset && r.frame == 0,
            state_wf(r),
    {
        State {
            now: 0,
            delta: 0,
            stage_start: 0,
            ship: Ship::init(),
            asteroids: Vec::new(),
            asteroids_queue: Vec::new(),
            particles: Vec::new(),
            projectiles: Vec::new(),
            aliens: Vec::new(),
            rand: RandomStream::from_seed(seed),
            lives: 0,
            last_score: 0,
            score: 0,
            reset: false,
            frame: 0,
        }
    }
}

} // verus!
