//! Game and stage lifecycle: starting a game, respawning the ship, and
//! repopulating the asteroid field.

use vstd::prelude::*;
use crate::game_object::{Asteroid, AsteroidSize, Ship, State, spawn_ship_spec, asteroid_wf, WIDTH, HEIGHT};
use crate::geometry::Vec2;
use crate::trig::{angle_ok, cos_spec, sin_spec, cos_fix, sin_fix};

verus! {

/// A freshly queued field asteroid: unmarked, inside the playfield, with
/// a unit heading drawn from a uniform angle.
pub open spec fn fresh_field_asteroid(a: Asteroid) -> bool {
    &&& !a.remove
    &&& 0 <= a.pos.x < WIDTH && 0 <= a.pos.y < HEIGHT
    &&& exists|t: int|
        angle_ok(t) && a.vel.x == cos_spec(t) && a.vel.y == sin_spec(t)
}

/// Respawns the ship at the playfield center; if it was dead, either
/// spends a life or, with none left, flags a pending full game reset.
pub fn reset_stage(s: &mut State)
    ensures
        final(s).ship == spawn_ship_spec(),
        old(s).ship.death_time != 0 && old(s).lives == 0 ==> final(s).reset && final(s).lives
            == old(s).lives,
        old(s).ship.death_time != 0 && old(s).lives != 0 ==> final(s).lives == old(s).lives - 1
            && final(s).reset == old(s).reset,
        old(s).ship.death_time == 0 ==> final(s).lives == old(s).lives && final(s).reset == old(
            s,
        ).reset,
        final(s).now == old(s).now && final(s).delta == old(s).delta && final(s).stage_start == old(
            s,
        ).stage_start,
        final(s).asteroids@ == old(s).asteroids@,
        final(s).asteroids_queue@ == old(s).asteroids_queue@,
        final(s).particles@ == old(s).particles@,
        final(s).projectiles@ == old(s).projectiles@,
        final(s).aliens@ == old(s).aliens@,
        final(s).lives <= old(s).lives,
        final(s).last_score == old(s).last_score && final(s).score == old(s).score,
        final(s).frame == old(s).frame,
        final(s).rand == old(s).rand,
{
    if s.ship.is_dead() {
        if s.lives == 0 {
            s.reset = true;
        } else {
            s.lives = s.lives - 1;
        }
    }
    s.ship = Ship::init();
}

/// Clears the live asteroid field and queues `30 + score / 1500` fresh
/// asteroids, each with a random size, position and heading; records the
/// stage start time.
pub fn reset_asteroids(s: &mut State)
    ensures
        final(s).asteroids@.len() == 0,
        final(s).asteroids_queue@.len() == old(s).asteroids_queue@.len() + 30 + old(s).score as int
            / 1500,
        forall|i: int|
            0 <= i < old(s).asteroids_queue@.len() ==> final(s).asteroids_queue@[i] == old(
                s,
            ).asteroids_queue@[i],
        forall|i: int|
            old(s).asteroids_queue@.len() <= i < final(s).asteroids_queue@.len() ==> asteroid_wf(
                #[trigger] final(s).asteroids_queue@[i],
            ) && fresh_field_asteroid(final(s).asteroids_queue@[i]),
        final(s).stage_start == old(s).now,
        final(s).now == old(s).now && final(s).delta == old(s).delta,
        final(s).ship == old(s).ship,
        final(s).particles@ == old(s).particles@,
        final(s).projectiles@ == old(s).projectiles@,
        final(s).aliens@ == old(s).aliens@,
        final(s).lives == old(s).lives && final(s).reset == old(s).reset,
        final(s).last_score == old(s).last_score && final(s).score == old(s).score,
        final(s).frame == old(s).frame,
{
    s.asteroids = Vec::new();
    let n: usize = 30 + s.score / 1500;
    let ghost base = s.asteroids_queue@.len() as int;
    let mut k: usize = 0;
    while k < n
        invariant
            k <= n,
            0 <= base <= s.asteroids_queue@.len(),
            s.asteroids_queue@.len() == base + k,
            forall|i: int|
                0 <= i < base ==> s.asteroids_queue@[i] == old(s).asteroids_queue@[i],
            forall|i: int|
                base <= i < s.asteroids_queue@.len() ==> asteroid_wf(
                    #[trigger] s.asteroids_queue@[i],
                ) && fresh_field_asteroid(s.asteroids_queue@[i]),
            s.asteroids@.len() == 0,
            s.ship == old(s).ship,
            s.now == old(s).now && s.delta == old(s).delta && s.stage_start == old(s).stage_start,
            s.particles@ == old(s).particles@,
            s.projectiles@ == old(s).projectiles@,
            s.aliens@ == old(s).aliens@,
            s.lives == old(s).lives && s.reset == old(s).reset,
            s.last_score == old(s).last_score && s.score == old(s).score,
            s.frame == old(s).frame,
        decreases n - k,
    {
        let angle: i64 = s.rand.next_angle();
        let vx: i64 = cos_fix(angle);
        let vy: i64 = sin_fix(angle);
        let pick: u64 = s.rand.next_range(0, 3);
        let size: AsteroidSize = if pick == 0 {
            AsteroidSize::SMALL
        } else if pick == 1 {
            AsteroidSize::MEDIUM
        } else {
            AsteroidSize::BIG
        };
        let px: i64 = s.rand.next_range(0, 1_280_000) as i64;
        let py: i64 = s.rand.next_range(0, 960_000) as i64;
        let seed: u64 = s.rand.next_u64();
        let a = Asteroid {
            pos: Vec2 { x: px, y: py },
            vel: Vec2 { x: vx, y: vy },
            size,
            seed,
            remove: false,
        };
        proof {
            let t = angle as int;
            assert(angle_ok(t) && a.vel.x == cos_spec(t) && a.vel.y == sin_spec(t));
            assert(fresh_field_asteroid(a));
            assert(asteroid_wf(a));
        }
        let ghost pre = s.asteroids_queue@;
        let ghost ga = a;
        s.asteroids_queue.push(a);
        proof {
            assert(s.asteroids_queue@ == pre.push(ga));
            assert forall|i: int|
                base <= i < s.asteroids_queue@.len() implies asteroid_wf(
                    #[trigger] s.asteroids_queue@[i],
                ) && fresh_field_asteroid(s.asteroids_queue@[i]) by {
                if i < pre.len() {
                    assert(pre.push(ga)[i] == pre[i]);
                    assert(asteroid_wf(pre[i]) && fresh_field_asteroid(pre[i]));
                } else {
                    assert(pre.push(ga)[i] == ga);
                    assert(asteroid_wf(ga) && fresh_field_asteroid(ga));
                }
            }
        }
        k = k + 1;
    }
    s.stage_start = s.now;
}

/// Starts a new game: three lives, zero score, a respawned ship and a
/// fresh asteroid field.
pub fn reset_game(s: &mut State)
    ensures
        final(s).score == 0,
        old(s).ship.death_time == 0 ==> final(s).lives == 3,
        old(s).ship.death_time != 0 ==> final(s).lives == 2,
        final(s).ship == spawn_ship_spec(),
        final(s).asteroids@.len() == 0,
        final(s).asteroids_queue@.len() == old(s).asteroids_queue@.len() + 30,
        forall|i: int|
            0 <= i < old(s).asteroids_queue@.len() ==> final(s).asteroids_queue@[i] == old(
                s,
            ).asteroids_queue@[i],
        forall|i: int|
            old(s).asteroids_queue@.len() <= i < final(s).asteroids_queue@.len() ==> asteroid_wf(
                #[trigger] final(s).asteroids_queue@[i],
            ) && fresh_field_asteroid(final(s).asteroids_queue@[i]),
        final(s).stage_start == old(s).now,
        final(s).now == old(s).now && final(s).delta == old(s).delta,
        final(s).reset == old(s).reset,
        final(s).particles@ == old(s).particles@,
        final(s).projectiles@ == old(s).projectiles@,
        final(s).aliens@ == old(s).aliens@,
        final(s).last_score == old(s).last_score,
        final(s).frame == old(s).frame,
{
    s.lives = 3;
    s.score = 0;
    reset_stage(s);
    reset_asteroids(s);
}

} // verus!
