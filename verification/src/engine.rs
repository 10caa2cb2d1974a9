//! The per-frame update engine: entity motion, collisions, splitting,
//! spawning and stage progression.

use vstd::prelude::*;
use crate::game_object::{
    Alien, AlienSize, Asteroid, AsteroidSize, Particle, Projectile, Ship, State, alien_wf, asteroid_wf,
    particle_wf, projectile_wf, ship_wf, spawn_ship_spec, state_wf, DELTA_MAX, HEIGHT, SCALE_FIX,
    WIDTH,
};
use crate::geometry::{
    Vec2, hits, is_unit_of, integrate_coord, normalized, scale1000, vec2_ok, within, wrap_coord,
};
use crate::lifecycle::{reset_game, reset_stage};

verus! {

/// The input snapshot the host hands the engine each frame: held state
/// for the turn and thrust keys, pressed-this-frame state for fire.
#[derive(Clone, Copy, PartialEq, Eq, Structural, Debug)]
pub struct Inputs {
    pub left: bool,
    pub right: bool,
    pub thrust: bool,
    pub fire: bool,
}

/// The one engine fault: a runaway asteroid collection.  It signals a
/// logic defect and the host is expected to abort on it.
#[derive(Clone, Copy, PartialEq, Eq, Structural, Debug)]
pub enum EngineFault {
    AsteroidOverflow,
}

/// Score addition, saturating at the machine bound.
pub open spec fn sat_score(a: int, b: int) -> int {
    if a + b <= usize::MAX {
        a + b
    } else {
        usize::MAX as int
    }
}

/// Time addition, saturating at the machine bound.
pub open spec fn sat_time(a: int, b: int) -> int {
    if a + b <= u64::MAX {
        a + b
    } else {
        u64::MAX as int
    }
}

/// Records the host-supplied frame delta (clamped to `DELTA_MAX`) and
/// advances the simulation clock by it.
pub fn advance_time(s: &mut State, delta_ms: u64)
    ensures
        final(s).delta == if delta_ms <= DELTA_MAX {
            delta_ms as int
        } else {
            DELTA_MAX as int
        },
        final(s).now == sat_time(old(s).now as int, final(s).delta as int),
        final(s).ship == old(s).ship,
        final(s).asteroids@ == old(s).asteroids@,
        final(s).asteroids_queue@ == old(s).asteroids_queue@,
        final(s).particles@ == old(s).particles@,
        final(s).projectiles@ == old(s).projectiles@,
        final(s).aliens@ == old(s).aliens@,
        final(s).lives == old(s).lives && final(s).score == old(s).score && final(s).last_score
            == old(s).last_score,
        final(s).reset == old(s).reset && final(s).frame == old(s).frame,
        final(s).stage_start == old(s).stage_start,
{
    let d: u64 = if delta_ms <= DELTA_MAX {
        delta_ms
    } else {
        DELTA_MAX
    };
    s.delta = d;
    if s.now <= u64::MAX - d {
        s.now = s.now + d;
    } else {
        s.now = u64::MAX;
    }
}

/// The child-speed factor: the parent's velocity scale times 2.2 times
/// a unit draw `u`, in fixed point.
pub open spec fn child_speed(size: AsteroidSize, u: int) -> int {
    (size.vel_scale_spec() * 2200 * u) / 1_000_000
}

/// A split child carries the parent's position, the next smaller size,
/// and a velocity built from the parent's heading scaled by a random
/// unit draw `u`, plus seven tenths of the impacting object's heading.
pub open spec fn is_split_child(c: Asteroid, parent: Asteroid, dirn: Vec2, impact: Vec2) -> bool {
    exists|u: int|
        #![trigger child_speed(parent.size, u)]
        0 <= u < 1000 && c.pos == parent.pos && c.size == parent.size.split_size_spec()
            && !c.remove && c.vel.x == (dirn.x * child_speed(parent.size, u)) / 1000 + (impact.x
            * 700) / 1000 && c.vel.y == (dirn.y * child_speed(parent.size, u)) / 1000 + (impact.y
            * 700) / 1000
}

/// Awards the asteroid's points, marks it removed, and queues exactly
/// two one-size-smaller children unless it was already the smallest.
/// `impact` is the (unit) heading of whatever destroyed it.
pub fn hit_asteroid(s: &mut State, a: &mut Asteroid, impact: Vec2)
    requires
        asteroid_wf(*old(a)),
        -1000 <= impact.x <= 1000,
        -1000 <= impact.y <= 1000,
    ensures
        final(s).score == sat_score(old(s).score as int, old(a).size.score_spec()),
        final(a).remove,
        final(a).pos == old(a).pos && final(a).vel == old(a).vel && final(a).size == old(a).size
            && final(a).seed == old(a).seed,
        final(s).asteroids_queue@.len() == old(s).asteroids_queue@.len() + (if old(a).size
            is SMALL {
            0int
        } else {
            2int
        }),
        forall|i: int|
            0 <= i < old(s).asteroids_queue@.len() ==> final(s).asteroids_queue@[i] == old(s).asteroids_queue@[i],
        forall|i: int|
            old(s).asteroids_queue@.len() <= i < final(s).asteroids_queue@.len() ==> asteroid_wf(
                #[trigger] final(s).asteroids_queue@[i],
            ) && (exists|d: Vec2|
                is_unit_of(d, old(a).vel) && is_split_child(
                    final(s).asteroids_queue@[i],
                    *old(a),
                    d,
                    impact,
                )),
        final(s).ship == old(s).ship,
        final(s).asteroids@ == old(s).asteroids@,
        final(s).particles@ == old(s).particles@,
        final(s).projectiles@ == old(s).projectiles@,
        final(s).aliens@ == old(s).aliens@,
        final(s).lives == old(s).lives && final(s).last_score == old(s).last_score,
        final(s).reset == old(s).reset && final(s).frame == old(s).frame,
        final(s).now == old(s).now && final(s).delta == old(s).delta && final(s).stage_start == old(s).stage_start,
{
    let pts: usize = a.size.score();
    if s.score <= usize::MAX - pts {
        s.score = s.score + pts;
    } else {
        s.score = usize::MAX;
    }
    a.remove = true;
    if matches!(a.size, AsteroidSize::SMALL) {
        return ;
    }
    let child_size: AsteroidSize = match a.size {
        AsteroidSize::BIG => AsteroidSize::MEDIUM,
        _ => AsteroidSize::SMALL,
    };
    let dirn: Vec2 = normalized(&a.vel);
    let vscale: i64 = a.size.vel_scale();
    let mut k: usize = 0;
    let ghost base = s.asteroids_queue@.len() as int;
    while k < 2
        invariant
            k <= 2,
            0 <= base <= s.asteroids_queue@.len(),
            s.asteroids_queue@.len() == base + k,
            is_unit_of(dirn, old(a).vel),
            -1000 <= dirn.x <= 1000 && -1000 <= dirn.y <= 1000,
            -1000 <= impact.x <= 1000 && -1000 <= impact.y <= 1000,
            a.pos == old(a).pos && a.vel == old(a).vel && a.size == old(a).size && a.seed == old(a).seed,
            a.remove,
            asteroid_wf(*a),
            !(a.size is SMALL),
            child_size == a.size.split_size_spec(),
            vscale == a.size.vel_scale_spec(),
            0 < vscale <= 3000,
            forall|i: int|
                0 <= i < base ==> s.asteroids_queue@[i] == old(s).asteroids_queue@[i],
            forall|i: int|
                base <= i < s.asteroids_queue@.len() ==> asteroid_wf(
                    #[trigger] s.asteroids_queue@[i],
                ) && is_split_child(s.asteroids_queue@[i], *old(a), dirn, impact),
            s.score == sat_score(old(s).score as int, old(a).size.score_spec()),
            s.ship == old(s).ship,
            s.asteroids@ == old(s).asteroids@,
            s.particles@ == old(s).particles@,
            s.projectiles@ == old(s).projectiles@,
            s.aliens@ == old(s).aliens@,
            s.lives == old(s).lives && s.last_score == old(s).last_score,
            s.reset == old(s).reset && s.frame == old(s).frame,
            s.now == old(s).now && s.delta == old(s).delta && s.stage_start == old(s).stage_start,
        decreases 2 - k,
    {
        let u: i64 = s.rand.next_unit();
        let seed: u64 = s.rand.next_u64();
        proof {
            assert(0 <= vscale * 2200 * u <= 6_600_000_000) by (nonlinear_arith)
                requires 0 < vscale <= 3000, 0 <= u < 1000;
        }
        let f: i64 = (vscale * 2200 * u) / 1_000_000;
        proof {
            lemma_scaled_comp_bounds(dirn.x as int, f as int);
            lemma_scaled_comp_bounds(dirn.y as int, f as int);
            lemma_scaled_comp_bounds(impact.x as int, 700);
            lemma_scaled_comp_bounds(impact.y as int, 700);
        }
        let cvx: i64 = scale1000(dirn.x, f) + scale1000(impact.x, 700);
        let cvy: i64 = scale1000(dirn.y, f) + scale1000(impact.y, 700);
        let c = Asteroid { pos: a.pos, vel: Vec2 { x: cvx, y: cvy }, size: child_size, seed, remove: false };
        proof {
            assert(asteroid_wf(c));
            assert(f == child_speed(old(a).size, u as int));
            assert(is_split_child(c, *old(a), dirn, impact));
        }
        let ghost pre = s.asteroids_queue@;
        let ghost gc = c;
        s.asteroids_queue.push(c);
        proof {
            assert(s.asteroids_queue@ == pre.push(gc));
            assert forall|i: int|
                base <= i < s.asteroids_queue@.len() implies asteroid_wf(
                    #[trigger] s.asteroids_queue@[i],
                ) && is_split_child(s.asteroids_queue@[i], *old(a), dirn, impact) by {
                if i < pre.len() {
                    assert(pre.push(gc)[i] == pre[i]);
                } else {
                    assert(pre.push(gc)[i] == gc);
                }
            }
        }
        k = k + 1;
    }
}

/// A unit-range component times a nonnegative factor, rescaled by the
/// unit, stays within that factor.
proof fn lemma_scaled_comp_bounds(c: int, f: int)
    requires
        -1000 <= c <= 1000,
        0 <= f <= 10_000_000,
    ensures
        -f <= (c * f) / 1000 <= f,
{
    assert(-(1000 * f) <= c * f <= 1000 * f) by (nonlinear_arith)
        requires -1000 <= c <= 1000, 0 <= f;
    vstd::arithmetic::div_mod::lemma_div_is_ordered(c * f, 1000 * f, 1000);
    vstd::arithmetic::div_mod::lemma_div_is_ordered(-(1000 * f), c * f, 1000);
    assert(-(1000 * f) == 1000 * (-f));
    vstd::arithmetic::div_mod::lemma_div_multiples_vanish(f, 1000);
    vstd::arithmetic::div_mod::lemma_div_multiples_vanish(-f, 1000);
}

/// The ship's rotation after one frame's turn input: two full turns per
/// second in either direction, both keys independent.
pub open spec fn rot_after(rot: int, delta: int, left: bool, right: bool) -> int {
    let r1 = if left {
        crate::trig::angle_add_spec(rot, -(2000 * delta))
    } else {
        rot
    };
    if right {
        crate::trig::angle_add_spec(r1, 2000 * delta)
    } else {
        r1
    }
}

/// The x component of the ship's nose heading: a quarter turn past `rot`.
pub open spec fn heading_x(rot: int) -> int {
    crate::trig::cos_spec(crate::trig::angle_add_spec(rot, 250_000))
}

/// The y component of the ship's nose heading.
pub open spec fn heading_y(rot: int) -> int {
    crate::trig::sin_spec(crate::trig::angle_add_spec(rot, 250_000))
}

/// A velocity component after one frame's thrust: 24 units per second
/// along the heading while the key is held.
pub open spec fn thrusted(v: int, h: int, delta: int, on: bool) -> int {
    if on {
        v + (h * (24 * delta)) / 1000
    } else {
        v
    }
}

/// A velocity component after the unconditional 1.5 percent drag.
pub open spec fn dragged(v: int) -> int {
    (v * 985) / 1000
}

/// A velocity component after the firing recoil of half a unit.
pub open spec fn recoiled(v: int, h: int, fire: bool) -> int {
    if fire {
        v - (h * 500) / 1000
    } else {
        v
    }
}

/// A projectile that is at least half a second old and within 0.7 of the
/// scale of the ship kills it (the ship's own fire included).
pub open spec fn self_hit(p: Projectile, ship_pos: Vec2, now: int) -> bool {
    !p.remove && now - p.spawn > 500 && within(ship_pos, p.pos, 26_600)
}

/// A projectile younger than half a second never registers a hit on the
/// ship, however close it sits: the grace period keeps fresh fire from
/// destroying its own shooter on spawn.
pub proof fn lemma_projectile_grace(p: Projectile, ship_pos: Vec2, now: int)
    requires
        now - p.spawn <= 500,
    ensures
        !self_hit(p, ship_pos, now),
{
}

/// The whole ship pass as one relation between the states before and
/// after it, so the frame relation can compose the passes.
pub open spec fn ship_step_rel(pre: State, post: State, inputs: Inputs) -> bool {
    &&& (state_wf(post))
    &&& (pre.ship.death_time != 0 ==> post.ship == pre.ship && post.projectiles@
            == pre.projectiles@)
    &&& (pre.ship.death_time == 0 ==> ({
            let rot2 = rot_after(pre.ship.rot as int, pre.delta as int, inputs.left, inputs.right);
            let hx = heading_x(rot2);
            let hy = heading_y(rot2);
            let vx1 = dragged(thrusted(pre.ship.vel.x as int, hx, pre.delta as int, inputs.thrust));
            let vy1 = dragged(thrusted(pre.ship.vel.y as int, hy, pre.delta as int, inputs.thrust));
            let px = wrap_coord(pre.ship.pos.x as int, vx1, WIDTH as int);
            let py = wrap_coord(pre.ship.pos.y as int, vy1, HEIGHT as int);
            &&& post.ship.rot == rot2
            &&& post.ship.vel.x == recoiled(vx1, hx, inputs.fire)
            &&& post.ship.vel.y == recoiled(vy1, hy, inputs.fire)
            &&& post.ship.pos.x == px
            &&& post.ship.pos.y == py
            &&& post.projectiles@.len() == pre.projectiles@.len() + (if inputs.fire {
                1int
            } else {
                0int
            })
            &&& (inputs.fire ==> ({
                let np = post.projectiles@[pre.projectiles@.len() as int];
                &&& np.pos.x == px + (hx * 19_000) / 1000
                &&& np.pos.y == py + (hy * 19_000) / 1000
                &&& np.vel.x == (hx * 10_000) / 1000
                &&& np.vel.y == (hy * 10_000) / 1000
                &&& np.ttl == 2000
                &&& np.spawn == pre.now
                &&& !np.remove
            }))
            &&& forall|j: int|
                0 <= j < pre.projectiles@.len() ==> ({
                    let p0 = pre.projectiles@[j];
                    let p1 = #[trigger] post.projectiles@[j];
                    p1.pos == p0.pos && p1.vel == p0.vel && p1.ttl == p0.ttl && p1.spawn == p0.spawn
                        && p1.remove == (p0.remove || self_hit(
                        p0,
                        Vec2 { x: px as i64, y: py as i64 },
                        pre.now as int,
                    ))
                })
            &&& post.ship.death_time == (if (exists|j: int|
                0 <= j < pre.projectiles@.len() && self_hit(
                    #[trigger] pre.projectiles@[j],
                    Vec2 { x: px as i64, y: py as i64 },
                    pre.now as int,
                )) {
                pre.now as int
            } else {
                0int
            })
        }))
    &&& (post.asteroids@ == pre.asteroids@)
    &&& (post.asteroids_queue@ == pre.asteroids_queue@)
    &&& (post.particles@ == pre.particles@)
    &&& (post.aliens@ == pre.aliens@)
    &&& (post.score == pre.score && post.lives == pre.lives && post.last_score
            == pre.last_score)
    &&& (post.reset == pre.reset && post.frame == pre.frame)
    &&& (post.now == pre.now && post.delta == pre.delta && post.stage_start == pre.stage_start)
}


/// An asteroid after one frame of motion: position integrated by its
/// velocity and wrapped on the positive edges, everything else kept.
pub open spec fn moved_asteroid(a: Asteroid) -> Asteroid {
    Asteroid {
        pos: Vec2 {
            x: wrap_coord(a.pos.x as int, a.vel.x as int, WIDTH as int) as i64,
            y: wrap_coord(a.pos.y as int, a.vel.y as int, HEIGHT as int) as i64,
        },
        vel: a.vel,
        size: a.size,
        seed: a.seed,
        remove: a.remove,
    }
}

/// The asteroids one pass works through: the live list, with the staging
/// queue drained in behind it.
pub open spec fn drained_asteroids(pre: State) -> Seq<Asteroid> {
    pre.asteroids@ + pre.asteroids_queue@
}

/// A drained asteroid (at its moved position) that no frame-entry hazard
/// can touch: unmarked, away from the live ship, from every entry-live
/// alien and from every entry-unmarked projectile.  Such an asteroid
/// always survives the pass: the pass only kills aliens, marks
/// projectiles and the ship, never the reverse.
pub open spec fn asteroid_safe(a: Asteroid, pre: State) -> bool {
    let m = moved_asteroid(a);
    let r = a.size.coll_radius_spec();
    &&& !a.remove
    &&& (pre.ship.death_time == 0 ==> !within(m.pos, pre.ship.pos, r))
    &&& (forall|t: int|
        0 <= t < pre.aliens@.len() ==> (!(#[trigger] pre.aliens@[t]).remove ==> !within(
            m.pos,
            pre.aliens@[t].pos,
            r,
        )))
    &&& (forall|k: int|
        0 <= k < pre.projectiles@.len() ==> (!(#[trigger] pre.projectiles@[k]).remove ==> !within(
            m.pos,
            pre.projectiles@[k].pos,
            r,
        )))
}

/// A queue entry that is a split child of one of the worked asteroids:
/// its parent is some drained asteroid at its moved position, its
/// heading that parent's unit heading, its impact some unit vector.
pub open spec fn queued_child_of(c: Asteroid, ws: Seq<Asteroid>) -> bool {
    exists|j: int, d: Vec2, imp: Vec2|
        #![trigger is_split_child(c, moved_asteroid(ws[j]), d, imp)]
        0 <= j < ws.len() && is_unit_of(d, ws[j].vel) && -1000 <= imp.x <= 1000 && -1000 <= imp.y
            <= 1000 && is_split_child(c, moved_asteroid(ws[j]), d, imp)
}

/// The frame's score movement is exactly the saturating sum of the
/// awards of `hits` destroyed asteroids, each worth 20 to 100 points.
pub open spec fn score_award_ok(pre_score: int, post_score: int, hits: int, pts: int) -> bool {
    &&& 0 <= hits
    &&& 20 * hits <= pts <= 100 * hits
    &&& post_score == sat_score(pre_score, pts)
}

/// An order-keeping map `src` from the retained asteroids back to the
/// drained ones they came from, each exactly moved and wrapped; every
/// safe drained asteroid is guaranteed a slot.
pub open spec fn asteroid_survivors_ok(src: Seq<int>, pre: State, post: State) -> bool {
    &&& src.len() == post.asteroids@.len()
    &&& (forall|j: int| 0 <= j < src.len() ==> 0 <= #[trigger] src[j] < drained_asteroids(pre).len())
    &&& (forall|j1: int, j2: int| 0 <= j1 < j2 < src.len() ==> src[j1] < src[j2])
    &&& (forall|j: int|
        0 <= j < src.len() ==> post.asteroids@[j] == moved_asteroid(
            drained_asteroids(pre)[#[trigger] src[j]],
        ))
    &&& (forall|t: int|
        0 <= t < drained_asteroids(pre).len() && asteroid_safe(
            #[trigger] drained_asteroids(pre)[t],
            pre,
        ) ==> exists|j: int| 0 <= j < src.len() && src[j] == t)
}

/// The whole asteroid pass as one relation between the states before
/// and after it.
pub open spec fn asteroids_rel(pre: State, post: State) -> bool {
    &&& (state_wf(post))
    &&& (post.asteroids@.len() <= pre.asteroids@.len() + pre.asteroids_queue@.len())
    &&& (forall|i: int|
            0 <= i < post.asteroids@.len() ==> !(#[trigger] post.asteroids@[i]).remove)
    &&& (post.asteroids_queue@.len() <= 2 * (pre.asteroids@.len()
            + pre.asteroids_queue@.len()))
    &&& (forall|i: int|
            0 <= i < post.asteroids_queue@.len() ==> !(
            #[trigger] post.asteroids_queue@[i]).remove)
    &&& (post.aliens@.len() == pre.aliens@.len())
    &&& (forall|j: int|
            0 <= j < pre.aliens@.len() ==> alien_hit_only(
                pre.aliens@[j],
                #[trigger] post.aliens@[j],
            ))
    &&& (post.projectiles@.len() == pre.projectiles@.len())
    &&& (forall|j: int|
            0 <= j < pre.projectiles@.len() ==> proj_hit_only(
                pre.projectiles@[j],
                #[trigger] post.projectiles@[j],
            ))
    &&& (post.ship.pos == pre.ship.pos && post.ship.vel == pre.ship.vel && post.ship.rot == pre.ship.rot)
    &&& (pre.ship.death_time != 0 ==> post.ship.death_time == pre.ship.death_time)
    &&& (post.ship.death_time == pre.ship.death_time || post.ship.death_time == pre.now)
    &&& (post.score >= pre.score)
    &&& (post.particles@ == pre.particles@)
    &&& (post.lives == pre.lives && post.last_score == pre.last_score)
    &&& (post.reset == pre.reset && post.frame == pre.frame)
    &&& (post.now == pre.now && post.delta == pre.delta && post.stage_start == pre.stage_start)
    &&& (forall|q: int|
        0 <= q < post.asteroids_queue@.len() ==> queued_child_of(
            (#[trigger] post.asteroids_queue@[q]),
            drained_asteroids(pre),
        ))
    &&& (forall|t: int|
        0 <= t < pre.aliens@.len() && (#[trigger] post.aliens@[t]).remove && !pre.aliens@[t].remove
            ==> exists|j: int|
            #![trigger drained_asteroids(pre)[j]]
            0 <= j < drained_asteroids(pre).len() && within(
                moved_asteroid(drained_asteroids(pre)[j]).pos,
                pre.aliens@[t].pos,
                drained_asteroids(pre)[j].size.coll_radius_spec(),
            ))
    &&& (forall|k: int|
        0 <= k < pre.projectiles@.len() && (#[trigger] post.projectiles@[k]).remove
            && !pre.projectiles@[k].remove ==> exists|j: int|
            #![trigger drained_asteroids(pre)[j]]
            0 <= j < drained_asteroids(pre).len() && within(
                moved_asteroid(drained_asteroids(pre)[j]).pos,
                pre.projectiles@[k].pos,
                drained_asteroids(pre)[j].size.coll_radius_spec(),
            ))
    &&& (post.ship.death_time != pre.ship.death_time ==> post.ship.death_time == pre.now
        && pre.ship.death_time == 0 && (exists|j: int|
        #![trigger drained_asteroids(pre)[j]]
        0 <= j < drained_asteroids(pre).len() && within(
            moved_asteroid(drained_asteroids(pre)[j]).pos,
            pre.ship.pos,
            drained_asteroids(pre)[j].size.coll_radius_spec(),
        )))
    &&& (forall|t: int, k: int|
        #![trigger drained_asteroids(pre)[t], pre.aliens@[k]]
        0 <= t < drained_asteroids(pre).len() && 0 <= k < pre.aliens@.len()
            && !pre.aliens@[k].remove && within(
            moved_asteroid(drained_asteroids(pre)[t]).pos,
            pre.aliens@[k].pos,
            drained_asteroids(pre)[t].size.coll_radius_spec(),
        ) ==> post.aliens@[k].remove)
    &&& (forall|t: int, k: int|
        #![trigger drained_asteroids(pre)[t], pre.projectiles@[k]]
        0 <= t < drained_asteroids(pre).len() && 0 <= k < pre.projectiles@.len()
            && !pre.projectiles@[k].remove && within(
            moved_asteroid(drained_asteroids(pre)[t]).pos,
            pre.projectiles@[k].pos,
            drained_asteroids(pre)[t].size.coll_radius_spec(),
        ) ==> post.projectiles@[k].remove)
    &&& (forall|t: int|
        0 <= t < drained_asteroids(pre).len() && pre.ship.death_time == 0 && within(
            moved_asteroid(#[trigger] drained_asteroids(pre)[t]).pos,
            pre.ship.pos,
            drained_asteroids(pre)[t].size.coll_radius_spec(),
        ) ==> post.ship.death_time == pre.now)
    &&& (exists|pts: int, hits: int|
        #![trigger score_award_ok(pre.score as int, post.score as int, hits, pts)]
        hits <= drained_asteroids(pre).len() - post.asteroids@.len() && score_award_ok(
            pre.score as int,
            post.score as int,
            hits,
            pts,
        ))
    &&& (exists|src: Seq<int>|
        #![trigger asteroid_survivors_ok(src, pre, post)]
        asteroid_survivors_ok(src, pre, post))
}

/// The whole particle pass as one relation between the states before
/// and after it.
pub open spec fn particles_rel(pre: State, post: State) -> bool {
    &&& (state_wf(post))
    &&& (post.particles@ == particles_after(pre.particles@, pre.delta as int))
    &&& (post.ship == pre.ship)
    &&& (post.asteroids@ == pre.asteroids@)
    &&& (post.asteroids_queue@ == pre.asteroids_queue@)
    &&& (post.projectiles@ == pre.projectiles@)
    &&& (post.aliens@ == pre.aliens@)
    &&& (post.score == pre.score && post.lives == pre.lives && post.last_score
            == pre.last_score)
    &&& (post.reset == pre.reset && post.frame == pre.frame)
    &&& (post.now == pre.now && post.delta == pre.delta && post.stage_start == pre.stage_start)
}


/// The aim vector from an alien position toward the ship.
pub open spec fn aim_of(ship_pos: Vec2, ap: Vec2) -> Vec2 {
    Vec2 { x: (ship_pos.x - ap.x) as i64, y: (ship_pos.y - ap.y) as i64 }
}

/// A projectile an alien fired this frame: from some firing position,
/// aimed straight at the ship (a unit vector of the separation), spawned
/// 0.55 of the scale along the aim, at speed six, fresh and unmarked.
pub open spec fn alien_shot_ok(p: Projectile, ship_pos: Vec2, now: int) -> bool {
    exists|ap: Vec2, d: Vec2|
        #![trigger is_unit_of(d, aim_of(ship_pos, ap))]
        is_unit_of(d, aim_of(ship_pos, ap)) && p.pos.x == ap.x + (d.x * 20_900) / 1000 && p.pos.y
            == ap.y + (d.y * 20_900) / 1000 && p.vel.x == (d.x * 6_000) / 1000 && p.vel.y == (d.y
            * 6_000) / 1000 && p.ttl == 2000 && p.spawn == now && !p.remove
}

/// A retained alien against its entry value: timestamps advanced exactly
/// when their cadences elapsed, re-aimed to some uniform heading on its
/// cadence, then moved by its heading times its speed and wrapped.
pub open spec fn alien_survivor_rel(a0: Alien, a1: Alien, now: int) -> bool {
    let redue = now - a0.last_dir > a0.size.dir_change_time_spec();
    let shotdue = now - a0.last_shot > a0.size.shot_time_spec();
    &&& a1.size == a0.size
    &&& !a1.remove
    &&& a1.last_dir == (if redue {
        now
    } else {
        a0.last_dir as int
    })
    &&& a1.last_shot == (if shotdue {
        now
    } else {
        a0.last_shot as int
    })
    &&& (redue ==> exists|t: int|
        crate::trig::angle_ok(t) && a1.dir.x == crate::trig::cos_spec(t) && a1.dir.y
            == crate::trig::sin_spec(t))
    &&& (!redue ==> a1.dir == a0.dir)
    &&& a1.pos.x == wrap_coord(a0.pos.x as int, a1.dir.x * a0.size.speed_spec(), WIDTH as int)
    &&& a1.pos.y == wrap_coord(a0.pos.y as int, a1.dir.y * a0.size.speed_spec(), HEIGHT as int)
}

/// An entry alien no frame-entry hazard can touch: unmarked, outside the
/// ship's collision radius, and outside the radius of every projectile
/// already old enough to fire on aliens.  Such an alien always survives
/// the pass: the pass only marks more projectiles, and its own fresh
/// shots are too young to kill.
pub open spec fn alien_safe(a: Alien, pre: State) -> bool {
    &&& !a.remove
    &&& !within(a.pos, pre.ship.pos, a.size.coll_size_spec())
    &&& (forall|k: int|
        0 <= k < pre.projectiles@.len() ==> !(pre.now - (#[trigger] pre.projectiles@[k]).spawn
            > 150 && within(a.pos, pre.projectiles@[k].pos, a.size.coll_size_spec())))
}

/// How many of the surviving aliens (by their entry indices in `src`)
/// were due to fire this frame.
pub open spec fn count_shots(src: Seq<int>, aliens: Seq<Alien>, now: int) -> int
    decreases src.len(),
{
    if src.len() == 0 {
        0
    } else {
        count_shots(src.drop_last(), aliens, now) + if 0 <= src.last() < aliens.len() && now
            - aliens[src.last()].last_shot > aliens[src.last()].size.shot_time_spec() {
            1int
        } else {
            0int
        }
    }
}

/// An order-keeping map `src` from the retained aliens back to the entry
/// aliens they came from, each stepped per `alien_survivor_rel`; every
/// safe entry alien is guaranteed a slot; and destruction is mutual and
/// forced: an entry-unmarked projectile past its grace within range of
/// an entry-live alien ends the frame marked, or that alien is gone.
pub open spec fn alien_survivors_ok(src: Seq<int>, pre: State, post: State) -> bool {
    &&& src.len() == post.aliens@.len()
    &&& (forall|j: int| 0 <= j < src.len() ==> 0 <= #[trigger] src[j] < pre.aliens@.len())
    &&& (forall|j1: int, j2: int| 0 <= j1 < j2 < src.len() ==> src[j1] < src[j2])
    &&& (forall|j: int|
        0 <= j < src.len() ==> alien_survivor_rel(
            pre.aliens@[#[trigger] src[j]],
            post.aliens@[j],
            pre.now as int,
        ))
    &&& (forall|t: int|
        0 <= t < pre.aliens@.len() && alien_safe(#[trigger] pre.aliens@[t], pre) ==> exists|j: int|
            0 <= j < src.len() && src[j] == t)
    &&& (forall|t: int, k: int|
        0 <= t < pre.aliens@.len() && 0 <= k < pre.projectiles@.len() && !(
        #[trigger] pre.aliens@[t]).remove && !(#[trigger] pre.projectiles@[k]).remove && pre.now
            - pre.projectiles@[k].spawn > 150 && within(
            pre.aliens@[t].pos,
            pre.projectiles@[k].pos,
            pre.aliens@[t].size.coll_size_spec(),
        ) ==> post.projectiles@[k].remove || !(exists|j: int|
            0 <= j < src.len() && src[j] == t))
    &&& post.projectiles@.len() == pre.projectiles@.len() + count_shots(
        src,
        pre.aliens@,
        pre.now as int,
    )
}

/// The whole alien pass as one relation between the states before and
/// after it.
pub open spec fn aliens_rel(pre: State, post: State) -> bool {
    &&& (state_wf(post))
    &&& (post.aliens@.len() <= pre.aliens@.len())
    &&& (forall|i: int| 0 <= i < post.aliens@.len() ==> !(#[trigger] post.aliens@[i]).remove)
    &&& (post.projectiles@.len() >= pre.projectiles@.len())
    &&& (forall|k: int|
            0 <= k < pre.projectiles@.len() ==> proj_hit_only(
                pre.projectiles@[k],
                #[trigger] post.projectiles@[k],
            ))
    &&& (forall|k: int|
            0 <= k < pre.projectiles@.len() && pre.now - (
            #[trigger] pre.projectiles@[k]).spawn <= 150 ==> post.projectiles@[k].remove
                == pre.projectiles@[k].remove)
    &&& (forall|k: int|
            pre.projectiles@.len() <= k < post.projectiles@.len() ==> (
            #[trigger] post.projectiles@[k]).spawn == pre.now && !post.projectiles@[k].remove
        && alien_shot_ok(post.projectiles@[k], pre.ship.pos, pre.now as int))
    &&& (post.ship.pos == pre.ship.pos && post.ship.vel == pre.ship.vel && post.ship.rot == pre.ship.rot)
    &&& (post.ship.death_time == pre.ship.death_time || post.ship.death_time == pre.now)
    &&& (post.asteroids@ == pre.asteroids@)
    &&& (post.asteroids_queue@ == pre.asteroids_queue@)
    &&& (post.particles@ == pre.particles@)
    &&& (post.score == pre.score && post.lives == pre.lives && post.last_score
            == pre.last_score)
    &&& (post.reset == pre.reset && post.frame == pre.frame)
    &&& (post.now == pre.now && post.delta == pre.delta && post.stage_start == pre.stage_start)
    &&& (forall|k: int|
        0 <= k < pre.projectiles@.len() && (#[trigger] post.projectiles@[k]).remove
            && !pre.projectiles@[k].remove ==> exists|t: int|
            0 <= t < pre.aliens@.len() && pre.now - pre.projectiles@[k].spawn > 150 && within(
                pre.aliens@[t].pos,
                pre.projectiles@[k].pos,
                pre.aliens@[t].size.coll_size_spec(),
            ))
    &&& (post.ship.death_time != pre.ship.death_time ==> post.ship.death_time == pre.now && (
    exists|t: int|
        0 <= t < pre.aliens@.len() && within(
            pre.aliens@[t].pos,
            pre.ship.pos,
            pre.aliens@[t].size.coll_size_spec(),
        )))
    &&& (exists|src: Seq<int>|
        #![trigger alien_survivors_ok(src, pre, post)]
        alien_survivors_ok(src, pre, post))
}

/// The end-of-frame triggers as one relation between the states before
/// and after them.
pub open spec fn triggers_rel(pre: State, post: State) -> bool {
    &&& (state_wf(post))
    &&& (stage_reset_due(pre) ==> post.ship == spawn_ship_spec() && (pre.lives == 0
            ==> post.reset && post.lives == pre.lives) && (pre.lives != 0 ==> post.lives == pre.lives - 1 && post.reset == pre.reset))
    &&& (!stage_reset_due(pre) ==> post.ship == pre.ship && post.lives == pre.lives && post.reset == pre.reset)
    &&& (post.aliens@.len() == pre.aliens@.len() + (if pre.last_score / 5000 != pre.score / 5000 {
            1int
        } else {
            0int
        }) + (if pre.last_score / 8000 != pre.score / 8000 {
            1int
        } else {
            0int
        }))
    &&& (forall|i: int|
            0 <= i < pre.aliens@.len() ==> #[trigger] post.aliens@[i] == pre.aliens@[i])
    &&& (pre.last_score / 5000 != pre.score / 5000 ==> fresh_edge_alien(
            post.aliens@[pre.aliens@.len() as int],
            AlienSize::BIG,
        ))
    &&& (pre.last_score / 8000 != pre.score / 8000 ==> fresh_edge_alien(
            post.aliens@[post.aliens@.len() - 1],
            AlienSize::SMALL,
        ))
    &&& (post.last_score == post.score)
    &&& (post.score == pre.score)
    &&& (post.asteroids@ == pre.asteroids@)
    &&& (post.asteroids_queue@ == pre.asteroids_queue@)
    &&& (post.particles@ == pre.particles@)
    &&& (post.projectiles@ == pre.projectiles@)
    &&& (post.now == pre.now && post.delta == pre.delta)
    &&& (post.frame == pre.frame)
}

/// The pending-game-reset branch at the top of a frame: a set flag is
/// consumed and the game restarted; otherwise nothing happens.
pub open spec fn game_reset_applied(pre: State, post: State) -> bool {
    if !pre.reset {
        post == pre
    } else {
        &&& post.score == 0
        &&& post.lives == (if pre.ship.death_time == 0 {
            3int
        } else {
            2int
        })
        &&& post.ship == spawn_ship_spec()
        &&& post.asteroids@.len() == 0
        &&& post.asteroids_queue@.len() == pre.asteroids_queue@.len() + 30
        &&& (forall|i: int|
            0 <= i < pre.asteroids_queue@.len() ==> post.asteroids_queue@[i]
                == pre.asteroids_queue@[i])
        &&& (forall|i: int|
            pre.asteroids_queue@.len() <= i < post.asteroids_queue@.len() ==> asteroid_wf(
                #[trigger] post.asteroids_queue@[i],
            ) && crate::lifecycle::fresh_field_asteroid(post.asteroids_queue@[i]))
        &&& post.stage_start == pre.now
        &&& post.now == pre.now && post.delta == pre.delta
        &&& !post.reset
        &&& post.particles@ == pre.particles@
        &&& post.projectiles@ == pre.projectiles@
        &&& post.aliens@ == pre.aliens@
        &&& post.last_score == pre.last_score
        &&& post.frame == pre.frame
    }
}

/// One whole non-faulting frame: some chain of intermediate states links
/// the entry state to the exit state through the pending game reset, the
/// projectile pass, the ship pass, the asteroid pass, the particle pass,
/// the alien pass and the end-of-frame triggers, in that order.
pub open spec fn update_rel(pre: State, post: State, inputs: Inputs) -> bool {
    exists|s1: State, s2: State, s3: State, s4: State, s5: State, s6: State|
        #![trigger projectiles_rel(s1, s2), ship_step_rel(s2, s3, inputs), asteroids_rel(s3, s4), particles_rel(s4, s5), aliens_rel(s5, s6)]
        game_reset_applied(pre, s1) && projectiles_rel(s1, s2) && ship_step_rel(s2, s3, inputs)
            && asteroids_rel(s3, s4) && particles_rel(s4, s5) && aliens_rel(s5, s6)
            && triggers_rel(s6, post)
}

/// One frame of ship motion: turn, thrust, drag, integrate, wrap, fire
/// on a rising edge, then let any old-enough projectile kill the ship.
/// Skipped entirely while the ship is dead.
#[verifier::rlimit(100)]
#[verifier::spinoff_prover]
pub fn ship_step(s: &mut State, inputs: Inputs)
    requires
        state_wf(*old(s)),
    ensures
        ship_step_rel(*old(s), *final(s), inputs),
{
    if s.ship.death_time != 0 {
        return ;
    }
    let delta_i: i64 = s.delta as i64;
    let mut rot: i64 = s.ship.rot;
    if inputs.left {
        rot = crate::trig::angle_add(rot, -(2000 * delta_i));
    }
    if inputs.right {
        rot = crate::trig::angle_add(rot, 2000 * delta_i);
    }
    let ha: i64 = crate::trig::angle_add(rot, 250_000);
    let hx: i64 = crate::trig::cos_fix(ha);
    let hy: i64 = crate::trig::sin_fix(ha);
    let mut vx: i64 = s.ship.vel.x;
    let mut vy: i64 = s.ship.vel.y;
    if inputs.thrust {
        proof {
            lemma_scaled_comp_bounds(hx as int, 24 * delta_i as int);
            lemma_scaled_comp_bounds(hy as int, 24 * delta_i as int);
        }
        vx = vx + scale1000(hx, 24 * delta_i);
        vy = vy + scale1000(hy, 24 * delta_i);
    }
    vx = scale1000(vx, 985);
    vy = scale1000(vy, 985);
    let px: i64 = integrate_coord(s.ship.pos.x, vx, WIDTH);
    let py: i64 = integrate_coord(s.ship.pos.y, vy, HEIGHT);
    if inputs.fire {
        let np = Projectile {
            pos: Vec2 { x: px + scale1000(hx, 19_000), y: py + scale1000(hy, 19_000) },
            vel: Vec2 { x: scale1000(hx, 10_000), y: scale1000(hy, 10_000) },
            ttl: 2000,
            spawn: s.now,
            remove: false,
        };
        proof {
            assert(projectile_wf(np));
        }
        let ghost pre = s.projectiles@;
        s.projectiles.push(np);
        proof {
            assert(s.projectiles@ == pre.push(np));
        }
        vx = vx - scale1000(hx, 500);
        vy = vy - scale1000(hy, 500);
    }
    s.ship = Ship { pos: Vec2 { x: px, y: py }, vel: Vec2 { x: vx, y: vy }, rot, death_time: 0 };
    let ghost base = s.projectiles@;
    let ghost shippos = s.ship.pos;
    let n: usize = s.projectiles.len();
    let mut j: usize = 0;
    while j < n
        invariant
            j <= n,
            n == s.projectiles@.len(),
            n == base.len(),
            shippos == s.ship.pos,
            ship_wf(s.ship),
            vec2_ok(s.ship.pos),
            s.now == old(s).now,
            forall|i: int|
                j <= i < n ==> #[trigger] s.projectiles@[i] == base[i],
            forall|i: int|
                0 <= i < j ==> ({
                    let p0 = base[i];
                    let p1 = #[trigger] s.projectiles@[i];
                    p1.pos == p0.pos && p1.vel == p0.vel && p1.ttl == p0.ttl && p1.spawn == p0.spawn
                        && p1.remove == (p0.remove || self_hit(p0, shippos, s.now as int))
                }),
            forall|i: int| 0 <= i < n ==> projectile_wf(#[trigger] base[i]),
            s.ship.death_time == (if (exists|i: int|
                0 <= i < j && self_hit(#[trigger] base[i], shippos, s.now as int)) {
                s.now as int
            } else {
                0int
            }),
            s.ship.rot == rot && s.ship.vel.x == vx && s.ship.vel.y == vy && s.ship.pos.x == px
                && s.ship.pos.y == py,
            s.asteroids@ == old(s).asteroids@,
            s.asteroids_queue@ == old(s).asteroids_queue@,
            s.particles@ == old(s).particles@,
            s.aliens@ == old(s).aliens@,
            s.score == old(s).score && s.lives == old(s).lives && s.last_score == old(s).last_score,
            s.reset == old(s).reset && s.frame == old(s).frame,
            s.delta == old(s).delta && s.stage_start == old(s).stage_start,
        decreases n - j,
    {
        let p = s.projectiles[j];
        if !p.remove && p.spawn < s.now && s.now - p.spawn > 500 && hits(s.ship.pos, p.pos, 26_600) {
            let mut q = p;
            q.remove = true;
            let ghost pre = s.projectiles@;
            s.projectiles.set(j, q);
            s.ship.death_time = s.now;
            proof {
                assert(s.projectiles@ == pre.update(j as int, q));
                assert(self_hit(base[j as int], shippos, s.now as int));
            }
        } else {
            proof {
                assert(!self_hit(base[j as int], shippos, s.now as int));
            }
        }
        j = j + 1;
    }
    proof {
        let olen = old(s).projectiles@.len() as int;
        assert forall|i: int| 0 <= i < olen implies #[trigger] base[i] == old(s).projectiles@[i]
            by {
            if inputs.fire {
                assert(base[i] == old(s).projectiles@.push(base[olen])[i]);
            }
        }
        if inputs.fire {
            assert(base[olen].spawn == old(s).now);
            assert(!self_hit(base[olen], shippos, s.now as int));
        }
        if exists|i: int| 0 <= i < base.len() && self_hit(#[trigger] base[i], shippos, s.now as int) {
            let i = choose|i: int| 0 <= i < base.len() && self_hit(#[trigger] base[i], shippos, s.now as int);
            assert(i < olen);
            assert(self_hit(old(s).projectiles@[i], shippos, s.now as int));
        }
        if exists|i: int|
            0 <= i < olen && self_hit(#[trigger] old(s).projectiles@[i], shippos, s.now as int) {
            let i = choose|i: int|
                0 <= i < olen && self_hit(#[trigger] old(s).projectiles@[i], shippos, s.now as int);
            assert(self_hit(base[i], shippos, s.now as int));
        }
    }
}

/// An alien touched only by collision marking: every field kept, the
/// removal flag at most raised.
pub open spec fn alien_hit_only(a0: Alien, a1: Alien) -> bool {
    a1.pos == a0.pos && a1.dir == a0.dir && a1.size == a0.size && a1.last_shot == a0.last_shot
        && a1.last_dir == a0.last_dir && (a0.remove ==> a1.remove)
}

/// A projectile touched only by collision marking.
pub open spec fn proj_hit_only(p0: Projectile, p1: Projectile) -> bool {
    p1.pos == p0.pos && p1.vel == p0.vel && p1.ttl == p0.ttl && p1.spawn == p0.spawn && (p0.remove
        ==> p1.remove)
}

/// One frame of the asteroid pass: drain the staging queue, move and
/// wrap every asteroid, let the ship, the aliens and the projectiles
/// collide with it (mutual destruction), split and score the hits, and
/// retain only the survivors.
#[verifier::loop_isolation(false)]
#[verifier::rlimit(100)]
#[verifier::spinoff_prover]
pub fn asteroids_step(s: &mut State)
    requires
        state_wf(*old(s)),
    ensures
        asteroids_rel(*old(s), *final(s)),
{
    let mut work: Vec<Asteroid> = Vec::new();
    let an: usize = s.asteroids.len();
    let mut d: usize = 0;
    while d < an
        invariant
            d <= an,
            work@.len() == d,
            forall|i: int| 0 <= i < d ==> work@[i] == s.asteroids@[i],
        decreases an - d,
    {
        work.push(s.asteroids[d]);
        d = d + 1;
    }
    let qn: usize = s.asteroids_queue.len();
    let mut q: usize = 0;
    while q < qn
        invariant
            q <= qn,
            work@.len() == an + q,
            forall|i: int| 0 <= i < an ==> work@[i] == s.asteroids@[i],
            forall|i: int| an <= i < an + q ==> work@[i] == s.asteroids_queue@[i - an],
        decreases qn - q,
    {
        work.push(s.asteroids_queue[q]);
        q = q + 1;
    }
    s.asteroids = Vec::new();
    s.asteroids_queue = Vec::new();
    proof {
        assert(forall|i: int| 0 <= i < work@.len() ==> asteroid_wf(#[trigger] work@[i]));
        assert(work@ =~= drained_asteroids(*old(s)));
    }
    let wn: usize = work.len();
    let mut kept: Vec<Asteroid> = Vec::new();
    let ghost mut src: Seq<int> = Seq::empty();
    let ghost mut pts: int = 0;
    let ghost mut nhit: int = 0;
    let mut i: usize = 0;
    while i < wn
        invariant
            i <= wn,
            wn == work@.len(),
            work@ == drained_asteroids(*old(s)),
            0 <= nhit <= i - kept@.len(),
            20 * nhit <= pts <= 100 * nhit,
            s.score == sat_score(old(s).score as int, pts),
            forall|t: int| 0 <= t < wn ==> asteroid_wf(#[trigger] work@[t]),
            kept@.len() <= i,
            forall|t: int|
                0 <= t < kept@.len() ==> asteroid_wf(#[trigger] kept@[t]) && !kept@[t].remove,
            src.len() == kept@.len(),
            forall|j: int| 0 <= j < src.len() ==> 0 <= #[trigger] src[j] < i,
            forall|j1: int, j2: int| 0 <= j1 < j2 < src.len() ==> src[j1] < src[j2],
            forall|j: int|
                0 <= j < src.len() ==> kept@[j] == moved_asteroid(work@[#[trigger] src[j]]),
            forall|t: int|
                0 <= t < i && asteroid_safe(#[trigger] work@[t], *old(s)) ==> exists|j: int|
                    0 <= j < src.len() && src[j] == t,
            forall|t: int, k: int|
                #![trigger work@[t], old(s).aliens@[k]]
                0 <= t < i && 0 <= k < old(s).aliens@.len() && !old(s).aliens@[k].remove && within(
                    moved_asteroid(work@[t]).pos,
                    old(s).aliens@[k].pos,
                    work@[t].size.coll_radius_spec(),
                ) ==> s.aliens@[k].remove,
            forall|t: int, k: int|
                #![trigger work@[t], old(s).projectiles@[k]]
                0 <= t < i && 0 <= k < old(s).projectiles@.len() && !old(s).projectiles@[k].remove
                    && within(
                    moved_asteroid(work@[t]).pos,
                    old(s).projectiles@[k].pos,
                    work@[t].size.coll_radius_spec(),
                ) ==> s.projectiles@[k].remove,
            forall|t: int|
                0 <= t < i && old(s).ship.death_time == 0 && within(
                    moved_asteroid(#[trigger] work@[t]).pos,
                    old(s).ship.pos,
                    work@[t].size.coll_radius_spec(),
                ) ==> s.ship.death_time == old(s).now,
            s.asteroids@.len() == 0,
            s.asteroids_queue@.len() <= 2 * i,
            forall|t: int|
                0 <= t < s.asteroids_queue@.len() ==> asteroid_wf(#[trigger] s.asteroids_queue@[t])
                    && !s.asteroids_queue@[t].remove,
            forall|q: int|
                0 <= q < s.asteroids_queue@.len() ==> queued_child_of(
                    (#[trigger] s.asteroids_queue@[q]),
                    work@,
                ),
            s.aliens@.len() == old(s).aliens@.len(),
            forall|j: int|
                0 <= j < old(s).aliens@.len() ==> alien_hit_only(
                    old(s).aliens@[j],
                    #[trigger] s.aliens@[j],
                ) && alien_wf(s.aliens@[j]),
            forall|t: int|
                0 <= t < old(s).aliens@.len() && (#[trigger] s.aliens@[t]).remove && !old(s).aliens@[t].remove ==> exists|j: int|
                    #![trigger work@[j]]
                    0 <= j < wn && within(
                        moved_asteroid(work@[j]).pos,
                        old(s).aliens@[t].pos,
                        work@[j].size.coll_radius_spec(),
                    ),
            s.projectiles@.len() == old(s).projectiles@.len(),
            forall|j: int|
                0 <= j < old(s).projectiles@.len() ==> proj_hit_only(
                    old(s).projectiles@[j],
                    #[trigger] s.projectiles@[j],
                ) && projectile_wf(s.projectiles@[j]),
            forall|k: int|
                0 <= k < old(s).projectiles@.len() && (#[trigger] s.projectiles@[k]).remove
                    && !old(s).projectiles@[k].remove ==> exists|j: int|
                    #![trigger work@[j]]
                    0 <= j < wn && within(
                        moved_asteroid(work@[j]).pos,
                        old(s).projectiles@[k].pos,
                        work@[j].size.coll_radius_spec(),
                    ),
            s.ship.pos == old(s).ship.pos && s.ship.vel == old(s).ship.vel && s.ship.rot == old(s).ship.rot,
            ship_wf(s.ship),
            old(s).ship.death_time != 0 ==> s.ship.death_time == old(s).ship.death_time,
            s.ship.death_time == old(s).ship.death_time || (s.ship.death_time == old(s).now && old(s).ship.death_time == 0 && (exists|j: int|
                #![trigger work@[j]]
                0 <= j < wn && within(
                    moved_asteroid(work@[j]).pos,
                    old(s).ship.pos,
                    work@[j].size.coll_radius_spec(),
                ))),
            s.score >= old(s).score,
            s.particles@ == old(s).particles@,
            s.lives == old(s).lives && s.last_score == old(s).last_score,
            s.reset == old(s).reset && s.frame == old(s).frame,
            s.now == old(s).now && s.delta == old(s).delta && s.stage_start == old(s).stage_start,
        decreases wn - i,
    {
        let a = work[i];
        let npx: i64 = integrate_coord(a.pos.x, a.vel.x, WIDTH);
        let npy: i64 = integrate_coord(a.pos.y, a.vel.y, HEIGHT);
        let mut cur = a;
        cur.pos = Vec2 { x: npx, y: npy };
        proof {
            assert(cur == moved_asteroid(work@[i as int]));
        }
        let radius: i64 = cur.size.coll_radius();
        let mut hit = false;
        let mut impact = Vec2 { x: 0, y: 0 };
        if s.ship.death_time == 0 && hits(cur.pos, s.ship.pos, radius) {
            s.ship.death_time = s.now;
            hit = true;
            impact = normalized(&s.ship.vel);
            proof {
                assert(within(
                    moved_asteroid(work@[i as int]).pos,
                    old(s).ship.pos,
                    work@[i as int].size.coll_radius_spec(),
                ));
                assert(!asteroid_safe(work@[i as int], *old(s)));
            }
        }
        let ghost s0 = *s;
        let m: usize = s.aliens.len();
        let mut j: usize = 0;
        while j < m
            invariant
                j <= m,
                m == s.aliens@.len(),
                forall|t: int|
                    0 <= t < m ==> alien_hit_only(s0.aliens@[t], #[trigger] s.aliens@[t])
                        && alien_wf(s.aliens@[t]),
                forall|t: int|
                    0 <= t < old(s).aliens@.len() && (#[trigger] s.aliens@[t]).remove && !old(s).aliens@[t].remove ==> exists|w: int|
                        #![trigger work@[w]]
                        0 <= w < wn && within(
                            moved_asteroid(work@[w]).pos,
                            old(s).aliens@[t].pos,
                            work@[w].size.coll_radius_spec(),
                        ),
                asteroid_safe(work@[i as int], *old(s)) ==> !hit,
                forall|k2: int|
                    0 <= k2 < j && k2 < old(s).aliens@.len() && !old(s).aliens@[k2].remove
                        && within(
                        moved_asteroid(work@[i as int]).pos,
                        old(s).aliens@[k2].pos,
                        work@[i as int].size.coll_radius_spec(),
                    ) ==> (#[trigger] s.aliens@[k2]).remove,
                forall|t2: int, k2: int|
                    #![trigger work@[t2], old(s).aliens@[k2]]
                    0 <= t2 < i && 0 <= k2 < old(s).aliens@.len() && !old(s).aliens@[k2].remove
                        && within(
                        moved_asteroid(work@[t2]).pos,
                        old(s).aliens@[k2].pos,
                        work@[t2].size.coll_radius_spec(),
                    ) ==> s.aliens@[k2].remove,
                s.ship == s0.ship,
                s.score == s0.score,
                s.asteroids@ == s0.asteroids@,
                s.asteroids_queue@ == s0.asteroids_queue@,
                s.projectiles@ == s0.projectiles@,
                s.particles@ == s0.particles@,
                s.lives == s0.lives && s.last_score == s0.last_score,
                s.reset == s0.reset && s.frame == s0.frame,
                s.now == s0.now && s.delta == s0.delta && s.stage_start == s0.stage_start,
                -1000 <= impact.x <= 1000 && -1000 <= impact.y <= 1000,
            decreases m - j,
        {
            let al = s.aliens[j];
            if !al.remove && hits(cur.pos, al.pos, radius) {
                let mut al2 = al;
                al2.remove = true;
                s.aliens.set(j, al2);
                hit = true;
                impact = normalized(&s.ship.vel);
                proof {
                    assert(!old(s).aliens@[j as int].remove);
                    assert(old(s).aliens@[j as int].pos == al.pos);
                    assert(within(
                        moved_asteroid(work@[i as int]).pos,
                        old(s).aliens@[j as int].pos,
                        work@[i as int].size.coll_radius_spec(),
                    ));
                    assert(!asteroid_safe(work@[i as int], *old(s)));
                }
            }
            j = j + 1;
        }
        let ghost s1 = *s;
        let pn: usize = s.projectiles.len();
        let mut k: usize = 0;
        while k < pn
            invariant
                k <= pn,
                pn == s.projectiles@.len(),
                forall|t: int|
                    0 <= t < pn ==> proj_hit_only(s1.projectiles@[t], #[trigger] s.projectiles@[t])
                        && projectile_wf(s.projectiles@[t]),
                forall|t: int|
                    0 <= t < old(s).projectiles@.len() && (#[trigger] s.projectiles@[t]).remove
                        && !old(s).projectiles@[t].remove ==> exists|w: int|
                        #![trigger work@[w]]
                        0 <= w < wn && within(
                            moved_asteroid(work@[w]).pos,
                            old(s).projectiles@[t].pos,
                            work@[w].size.coll_radius_spec(),
                        ),
                asteroid_safe(work@[i as int], *old(s)) ==> !hit,
                forall|k2: int|
                    0 <= k2 < k && k2 < old(s).projectiles@.len() && !old(s).projectiles@[k2].remove
                        && within(
                        moved_asteroid(work@[i as int]).pos,
                        old(s).projectiles@[k2].pos,
                        work@[i as int].size.coll_radius_spec(),
                    ) ==> (#[trigger] s.projectiles@[k2]).remove,
                forall|t2: int, k2: int|
                    #![trigger work@[t2], old(s).projectiles@[k2]]
                    0 <= t2 < i && 0 <= k2 < old(s).projectiles@.len()
                        && !old(s).projectiles@[k2].remove && within(
                        moved_asteroid(work@[t2]).pos,
                        old(s).projectiles@[k2].pos,
                        work@[t2].size.coll_radius_spec(),
                    ) ==> s.projectiles@[k2].remove,
                s.ship == s1.ship,
                s.score == s1.score,
                s.asteroids@ == s1.asteroids@,
                s.asteroids_queue@ == s1.asteroids_queue@,
                s.aliens@ == s1.aliens@,
                s.particles@ == s1.particles@,
                s.lives == s1.lives && s.last_score == s1.last_score,
                s.reset == s1.reset && s.frame == s1.frame,
                s.now == s1.now && s.delta == s1.delta && s.stage_start == s1.stage_start,
                -1000 <= impact.x <= 1000 && -1000 <= impact.y <= 1000,
            decreases pn - k,
        {
            let p = s.projectiles[k];
            if !p.remove && hits(cur.pos, p.pos, radius) {
                let mut p2 = p;
                p2.remove = true;
                s.projectiles.set(k, p2);
                hit = true;
                impact = normalized(&p.vel);
                proof {
                    assert(!old(s).projectiles@[k as int].remove);
                    assert(old(s).projectiles@[k as int].pos == p.pos);
                    assert(within(
                        moved_asteroid(work@[i as int]).pos,
                        old(s).projectiles@[k as int].pos,
                        work@[i as int].size.coll_radius_spec(),
                    ));
                    assert(!asteroid_safe(work@[i as int], *old(s)));
                }
            }
            k = k + 1;
        }
        if hit {
            let ghost gcur = cur;
            let ghost qpre = s.asteroids_queue@;
            let ghost qlen = s.asteroids_queue@.len() as int;
            hit_asteroid(s, &mut cur, impact);
            proof {
                pts = pts + gcur.size.score_spec();
                nhit = nhit + 1;
                assert(20 <= gcur.size.score_spec() <= 100);
                assert(s.score == sat_score(old(s).score as int, pts));
                assert forall|q: int|
                    0 <= q < s.asteroids_queue@.len() implies queued_child_of(
                        (#[trigger] s.asteroids_queue@[q]),
                        work@,
                    ) by {
                    if q < qlen {
                        assert(s.asteroids_queue@[q] == qpre[q]);
                        assert(queued_child_of(qpre[q], work@));
                    } else {
                        let d = choose|d: Vec2|
                            is_unit_of(d, gcur.vel) && is_split_child(
                                s.asteroids_queue@[q],
                                gcur,
                                d,
                                impact,
                            );
                        assert(gcur == moved_asteroid(work@[i as int]));
                        assert(is_unit_of(d, work@[i as int].vel));
                        assert(is_split_child(
                            s.asteroids_queue@[q],
                            moved_asteroid(work@[i as int]),
                            d,
                            impact,
                        ));
                    }
                }
            }
        }
        if !cur.remove {
            let ghost presrc = src;
            let ghost prekept = kept@;
            kept.push(cur);
            proof {
                src = presrc.push(i as int);
                assert(kept@ == prekept.push(cur));
                assert(cur == moved_asteroid(work@[i as int]));
                assert forall|j2: int|
                    0 <= j2 < src.len() implies kept@[j2] == moved_asteroid(
                        work@[#[trigger] src[j2]],
                    ) by {
                    if j2 < presrc.len() {
                        assert(presrc.push(i as int)[j2] == presrc[j2]);
                        assert(prekept.push(cur)[j2] == prekept[j2]);
                    } else {
                        assert(presrc.push(i as int)[j2] == i as int);
                        assert(prekept.push(cur)[j2] == cur);
                    }
                }
                assert forall|t: int|
                    0 <= t < i + 1 && asteroid_safe(#[trigger] work@[t], *old(s)) implies (exists|
                        j2: int,
                    |
                        0 <= j2 < src.len() && src[j2] == t) by {
                    if t < i {
                        let j0 = choose|j0: int| 0 <= j0 < presrc.len() && presrc[j0] == t;
                        assert(presrc.push(i as int)[j0] == t);
                        assert(0 <= j0 < src.len() && src[j0] == t);
                    } else {
                        assert(presrc.push(i as int)[presrc.len() as int] == i as int);
                        assert(src[presrc.len() as int] == t);
                    }
                }
            }
        } else {
            proof {
                assert(!asteroid_safe(work@[i as int], *old(s)));
            }
        }
        i = i + 1;
    }
    s.asteroids = kept;
    proof {
        let dr = drained_asteroids(*old(s));
        assert(work@ == dr);
        assert forall|t: int|
            0 <= t < dr.len() && asteroid_safe(#[trigger] dr[t], *old(s)) implies (exists|j2: int|
                0 <= j2 < src.len() && src[j2] == t) by {
            assert(dr[t] == work@[t]);
            assert(asteroid_safe(work@[t], *old(s)));
        }
        assert forall|j2: int|
            0 <= j2 < src.len() implies s.asteroids@[j2] == moved_asteroid(
                dr[#[trigger] src[j2]],
            ) by {
            assert(dr[src[j2]] == work@[src[j2]]);
        }
        assert(asteroid_survivors_ok(src, *old(s), *s));
        assert(score_award_ok(old(s).score as int, s.score as int, nhit, pts));
    }
}

/// One frame of the particle pass, applied pointwise: move and wrap,
/// then survive (with the delta taken off the lifetime) exactly when the
/// lifetime exceeds this frame's delta.
pub open spec fn particle_survives(p: Particle, delta: int) -> bool {
    p.ttl > delta
}

/// One frame of the particle pass over a whole sequence.
pub open spec fn particles_after(ps: Seq<Particle>, delta: int) -> Seq<
    Particle,
>
    decreases ps.len(),
{
    if ps.len() == 0 {
        Seq::empty()
    } else {
        let rest = particles_after(ps.drop_first(), delta);
        if particle_survives(ps[0], delta) {
            seq![stepped_particle(ps[0], delta)] + rest
        } else {
            rest
        }
    }
}

/// A surviving particle: moved, wrapped, and aged by the frame delta.
pub open spec fn stepped_particle(p: Particle, delta: int) -> Particle {
    Particle {
        pos: Vec2 {
            x: wrap_coord(p.pos.x as int, p.vel.x as int, WIDTH as int) as i64,
            y: wrap_coord(p.pos.y as int, p.vel.y as int, HEIGHT as int) as i64,
        },
        vel: p.vel,
        ttl: (p.ttl - delta) as u64,
        values: p.values,
    }
}

/// Moves, wraps and ages every particle, dropping the expired ones.
#[verifier::loop_isolation(false)]
pub fn particles_step(s: &mut State)
    requires
        state_wf(*old(s)),
    ensures
        particles_rel(*old(s), *final(s)),
{
    let n: usize = s.particles.len();
    let mut kept: Vec<Particle> = Vec::new();
    let mut i: usize = 0;
    while i < n
        invariant
            i <= n,
            n == s.particles@.len(),
            s.particles@ == old(s).particles@,
            kept@ == particles_after(old(s).particles@.take(i as int), old(s).delta as int),
            forall|t: int| 0 <= t < kept@.len() ==> particle_wf(#[trigger] kept@[t]),
        decreases n - i,
    {
        let p = s.particles[i];
        proof {
            lemma_particles_after_take_step(old(s).particles@, i as int, old(s).delta as int);
        }
        if p.ttl > s.delta {
            let npx: i64 = integrate_coord(p.pos.x, p.vel.x, WIDTH);
            let npy: i64 = integrate_coord(p.pos.y, p.vel.y, HEIGHT);
            let np = Particle {
                pos: Vec2 { x: npx, y: npy },
                vel: p.vel,
                ttl: p.ttl - s.delta,
                values: p.values,
            };
            proof {
                assert(np == stepped_particle(old(s).particles@[i as int], old(s).delta as int));
            }
            kept.push(np);
        }
        i = i + 1;
    }
    proof {
        assert(old(s).particles@.take(n as int) == old(s).particles@);
    }
    s.particles = kept;
}

/// One frame of the alien pass: projectiles past the 0.15 s grace kill
/// an alien (mutual destruction), proximity to the ship kills both, and
/// a survivor re-aims on its cadence, moves, wraps and fires at the ship
/// on its shot cadence.  Only survivors are retained.
#[verifier::loop_isolation(false)]
#[verifier::rlimit(100)]
#[verifier::spinoff_prover]
pub fn aliens_step(s: &mut State)
    requires
        state_wf(*old(s)),
    ensures
        aliens_rel(*old(s), *final(s)),
{
    let mut work: Vec<Alien> = Vec::new();
    let an: usize = s.aliens.len();
    let mut d: usize = 0;
    while d < an
        invariant
            d <= an,
            work@.len() == d,
            forall|i: int| 0 <= i < d ==> work@[i] == s.aliens@[i],
        decreases an - d,
    {
        work.push(s.aliens[d]);
        d = d + 1;
    }
    s.aliens = Vec::new();
    proof {
        assert(forall|i: int| 0 <= i < work@.len() ==> alien_wf(#[trigger] work@[i]));
        assert(work@ =~= old(s).aliens@);
    }
    let wn: usize = work.len();
    let mut kept: Vec<Alien> = Vec::new();
    let ghost mut src: Seq<int> = Seq::empty();
    let mut i: usize = 0;
    while i < wn
        invariant
            i <= wn,
            wn == work@.len(),
            work@ == old(s).aliens@,
            forall|t: int| 0 <= t < wn ==> alien_wf(#[trigger] work@[t]),
            kept@.len() <= i,
            forall|t: int| 0 <= t < kept@.len() ==> alien_wf(#[trigger] kept@[t]) && !kept@[t].remove,
            src.len() == kept@.len(),
            forall|j: int| 0 <= j < src.len() ==> 0 <= #[trigger] src[j] < i,
            forall|j1: int, j2: int| 0 <= j1 < j2 < src.len() ==> src[j1] < src[j2],
            forall|j: int|
                0 <= j < src.len() ==> alien_survivor_rel(
                    work@[#[trigger] src[j]],
                    kept@[j],
                    old(s).now as int,
                ),
            forall|t: int|
                0 <= t < i && alien_safe(#[trigger] work@[t], *old(s)) ==> exists|j: int|
                    0 <= j < src.len() && src[j] == t,
            forall|t: int, k: int|
                0 <= t < i && 0 <= k < old(s).projectiles@.len() && !(#[trigger] work@[t]).remove
                    && !(#[trigger] old(s).projectiles@[k]).remove && old(s).now - old(s).projectiles@[k].spawn > 150 && within(
                    work@[t].pos,
                    old(s).projectiles@[k].pos,
                    work@[t].size.coll_size_spec(),
                ) ==> s.projectiles@[k].remove || !(exists|j: int|
                    0 <= j < src.len() && src[j] == t),
            s.aliens@.len() == 0,
            s.projectiles@.len() >= old(s).projectiles@.len(),
            s.projectiles@.len() == old(s).projectiles@.len() + count_shots(
                src,
                work@,
                old(s).now as int,
            ),
            forall|k: int|
                0 <= k < old(s).projectiles@.len() ==> proj_hit_only(
                    old(s).projectiles@[k],
                    #[trigger] s.projectiles@[k],
                ) && projectile_wf(s.projectiles@[k]),
            forall|k: int|
                0 <= k < old(s).projectiles@.len() && old(s).now - (
                #[trigger] old(s).projectiles@[k]).spawn <= 150 ==> s.projectiles@[k].remove == old(s).projectiles@[k].remove,
            forall|k: int|
                0 <= k < old(s).projectiles@.len() && (#[trigger] s.projectiles@[k]).remove && !old(s).projectiles@[k].remove ==> exists|t: int|
                    0 <= t < wn && old(s).now - old(s).projectiles@[k].spawn > 150 && within(
                        work@[t].pos,
                        old(s).projectiles@[k].pos,
                        work@[t].size.coll_size_spec(),
                    ),
            forall|k: int|
                old(s).projectiles@.len() <= k < s.projectiles@.len() ==> (
                #[trigger] s.projectiles@[k]).spawn == old(s).now && !s.projectiles@[k].remove
                    && projectile_wf(s.projectiles@[k]) && alien_shot_ok(
                    s.projectiles@[k],
                    old(s).ship.pos,
                    old(s).now as int,
                ),
            s.ship.pos == old(s).ship.pos && s.ship.vel == old(s).ship.vel && s.ship.rot == old(s).ship.rot,
            ship_wf(s.ship),
            s.ship.death_time == old(s).ship.death_time || (s.ship.death_time == old(s).now && (
            exists|t: int|
                0 <= t < wn && within(
                    work@[t].pos,
                    old(s).ship.pos,
                    work@[t].size.coll_size_spec(),
                ))),
            s.asteroids@ == old(s).asteroids@,
            s.asteroids_queue@ == old(s).asteroids_queue@,
            s.particles@ == old(s).particles@,
            s.score == old(s).score && s.lives == old(s).lives && s.last_score == old(s).last_score,
            s.reset == old(s).reset && s.frame == old(s).frame,
            s.now == old(s).now && s.delta == old(s).delta && s.stage_start == old(s).stage_start,
        decreases wn - i,
    {
        let al = work[i];
        let mut cur = al;
        let coll: i64 = cur.size.coll_size();
        let ghost s1 = *s;
        let pn: usize = s.projectiles.len();
        let mut k: usize = 0;
        while k < pn
            invariant
                k <= pn,
                pn <= s.projectiles@.len(),
                pn == s1.projectiles@.len(),
                forall|t: int|
                    0 <= t < pn ==> proj_hit_only(s1.projectiles@[t], #[trigger] s.projectiles@[t])
                        && projectile_wf(s.projectiles@[t]) && s.projectiles@[t].pos
                        == s1.projectiles@[t].pos && s.projectiles@[t].spawn
                        == s1.projectiles@[t].spawn,
                forall|t: int|
                    0 <= t < pn && s.now - (#[trigger] s1.projectiles@[t]).spawn <= 150
                        ==> s.projectiles@[t].remove == s1.projectiles@[t].remove,
                forall|t: int|
                    0 <= t < old(s).projectiles@.len() && (#[trigger] s.projectiles@[t]).remove
                        && !old(s).projectiles@[t].remove ==> exists|w: int|
                        0 <= w < wn && old(s).now - old(s).projectiles@[t].spawn > 150 && within(
                            work@[w].pos,
                            old(s).projectiles@[t].pos,
                            work@[w].size.coll_size_spec(),
                        ),
                forall|t: int|
                    old(s).projectiles@.len() <= t < s.projectiles@.len() ==> (
                    #[trigger] s.projectiles@[t]).spawn == old(s).now && !s.projectiles@[t].remove
                        && alien_shot_ok(
                        s.projectiles@[t],
                        old(s).ship.pos,
                        old(s).now as int,
                    ),
                s.projectiles@.len() == s1.projectiles@.len(),
                s.ship == s1.ship,
                s.aliens@ == s1.aliens@,
                s.asteroids@ == s1.asteroids@,
                s.asteroids_queue@ == s1.asteroids_queue@,
                s.particles@ == s1.particles@,
                s.score == s1.score && s.lives == s1.lives && s.last_score == s1.last_score,
                s.reset == s1.reset && s.frame == s1.frame,
                s.now == s1.now && s.delta == s1.delta && s.stage_start == s1.stage_start,
                alien_wf(cur),
                cur.size == al.size && cur.pos == al.pos && cur.dir == al.dir && cur.last_dir
                    == al.last_dir && cur.last_shot == al.last_shot,
                forall|k0: int|
                    0 <= k0 < k && k0 < old(s).projectiles@.len() && !al.remove && !(
                    #[trigger] old(s).projectiles@[k0]).remove && old(s).now - old(s).projectiles@[k0].spawn > 150 && within(
                        al.pos,
                        old(s).projectiles@[k0].pos,
                        al.size.coll_size_spec(),
                    ) ==> s.projectiles@[k0].remove,
                cur.remove ==> al.remove || (exists|k0: int|
                    0 <= k0 < old(s).projectiles@.len() && !old(s).projectiles@[k0].remove && old(s).now - old(s).projectiles@[k0].spawn > 150 && within(
                        al.pos,
                        old(s).projectiles@[k0].pos,
                        al.size.coll_size_spec(),
                    )),
                al.remove ==> cur.remove,
            decreases pn - k,
        {
            let p = s.projectiles[k];
            if !p.remove && p.spawn < s.now && s.now - p.spawn > 150 && hits(cur.pos, p.pos, coll) {
                let mut p2 = p;
                p2.remove = true;
                s.projectiles.set(k, p2);
                cur.remove = true;
                proof {
                    if k < old(s).projectiles@.len() {
                        assert(old(s).now - old(s).projectiles@[k as int].spawn > 150 && within(
                            work@[i as int].pos,
                            old(s).projectiles@[k as int].pos,
                            work@[i as int].size.coll_size_spec(),
                        ));
                        assert(!old(s).projectiles@[k as int].remove);
                    }
                }
            }
            k = k + 1;
        }
        if !cur.remove && hits(cur.pos, s.ship.pos, coll) {
            cur.remove = true;
            s.ship.death_time = s.now;
            proof {
                assert(within(
                    work@[i as int].pos,
                    old(s).ship.pos,
                    work@[i as int].size.coll_size_spec(),
                ));
            }
        }
        if !cur.remove {
            if cur.last_dir < s.now && s.now - cur.last_dir > cur.size.dir_change_time() {
                cur.last_dir = s.now;
                let t: i64 = s.rand.next_angle();
                cur.dir = Vec2 { x: crate::trig::cos_fix(t), y: crate::trig::sin_fix(t) };
                proof {
                    assert(crate::trig::angle_ok(t as int) && cur.dir.x == crate::trig::cos_spec(
                        t as int,
                    ) && cur.dir.y == crate::trig::sin_spec(t as int));
                }
            }
            let sp: i64 = cur.size.speed();
            proof {
                assert(0 <= sp <= 6);
                assert(-6000 <= cur.dir.x * sp <= 6000 && -6000 <= cur.dir.y * sp <= 6000)
                    by (nonlinear_arith)
                    requires -1000 <= cur.dir.x <= 1000, -1000 <= cur.dir.y <= 1000, 0 <= sp <= 6;
            }
            let npx: i64 = integrate_coord(cur.pos.x, cur.dir.x * sp, WIDTH);
            let npy: i64 = integrate_coord(cur.pos.y, cur.dir.y * sp, HEIGHT);
            cur.pos = Vec2 { x: npx, y: npy };
            if cur.last_shot < s.now && s.now - cur.last_shot > cur.size.shot_time() {
                cur.last_shot = s.now;
                let aim = Vec2 { x: s.ship.pos.x - cur.pos.x, y: s.ship.pos.y - cur.pos.y };
                let dir = normalized(&aim);
                let np = Projectile {
                    pos: Vec2 {
                        x: cur.pos.x + scale1000(dir.x, 20_900),
                        y: cur.pos.y + scale1000(dir.y, 20_900),
                    },
                    vel: Vec2 { x: scale1000(dir.x, 6_000), y: scale1000(dir.y, 6_000) },
                    ttl: 2000,
                    spawn: s.now,
                    remove: false,
                };
                proof {
                    assert(projectile_wf(np));
                }
                let ghost pre = s.projectiles@;
                s.projectiles.push(np);
                proof {
                    assert(s.projectiles@ == pre.push(np));
                    assert(aim == aim_of(old(s).ship.pos, cur.pos));
                    assert(is_unit_of(dir, aim_of(old(s).ship.pos, cur.pos)));
                    assert(alien_shot_ok(np, old(s).ship.pos, old(s).now as int));
                }
            }
            proof {
                assert(alien_survivor_rel(work@[i as int], cur, old(s).now as int));
            }
            let ghost presrc = src;
            let ghost prekept = kept@;
            kept.push(cur);
            proof {
                src = presrc.push(i as int);
                assert(kept@ == prekept.push(cur));
                assert(src.drop_last() =~= presrc);
                assert(src.last() == i as int);
                assert(count_shots(src, work@, old(s).now as int) == count_shots(
                    presrc,
                    work@,
                    old(s).now as int,
                ) + if old(s).now - work@[i as int].last_shot
                    > work@[i as int].size.shot_time_spec() {
                    1int
                } else {
                    0int
                });
                assert forall|j: int|
                    0 <= j < src.len() implies alien_survivor_rel(
                        work@[#[trigger] src[j]],
                        kept@[j],
                        old(s).now as int,
                    ) by {
                    if j < presrc.len() {
                        assert(presrc.push(i as int)[j] == presrc[j]);
                        assert(prekept.push(cur)[j] == prekept[j]);
                    } else {
                        assert(presrc.push(i as int)[j] == i as int);
                        assert(prekept.push(cur)[j] == cur);
                    }
                }
                assert forall|t: int|
                    0 <= t < i + 1 && alien_safe(#[trigger] work@[t], *old(s)) implies exists|j: int|
                        0 <= j < src.len() && src[j] == t by {
                    if t < i {
                        let j0 = choose|j0: int| 0 <= j0 < presrc.len() && presrc[j0] == t;
                        assert(presrc.push(i as int)[j0] == t);
                        assert(0 <= j0 < src.len() && src[j0] == t);
                    } else {
                        assert(presrc.push(i as int)[presrc.len() as int] == i as int);
                        assert(src[presrc.len() as int] == t);
                    }
                }
            }
        } else {
            proof {
                assert(!alien_safe(work@[i as int], *old(s)));
            }
        }
        i = i + 1;
    }
    s.aliens = kept;
    proof {
        assert(alien_survivors_ok(src, *old(s), *s));
    }
}


/// A projectile after one frame of motion: position advanced by its
/// velocity and wrapped on the positive edges, everything else kept.
pub open spec fn moved_projectile(p: Projectile) -> Projectile {
    Projectile {
        pos: Vec2 {
            x: wrap_coord(p.pos.x as int, p.vel.x as int, WIDTH as int) as i64,
            y: wrap_coord(p.pos.y as int, p.vel.y as int, HEIGHT as int) as i64,
        },
        vel: p.vel,
        ttl: p.ttl,
        spawn: p.spawn,
        remove: p.remove,
    }
}

/// The whole projectile pass as one relation between the states before
/// and after it: every projectile exactly moved and wrapped, nothing
/// else changed.
pub open spec fn projectiles_rel(pre: State, post: State) -> bool {
    &&& state_wf(post)
    &&& post.projectiles@.len() == pre.projectiles@.len()
    &&& (forall|k: int|
        0 <= k < pre.projectiles@.len() ==> #[trigger] post.projectiles@[k] == moved_projectile(
            pre.projectiles@[k],
        ))
    &&& post.ship == pre.ship
    &&& post.asteroids@ == pre.asteroids@
    &&& post.asteroids_queue@ == pre.asteroids_queue@
    &&& post.particles@ == pre.particles@
    &&& post.aliens@ == pre.aliens@
    &&& post.score == pre.score && post.lives == pre.lives && post.last_score == pre.last_score
    &&& post.reset == pre.reset && post.frame == pre.frame
    &&& post.now == pre.now && post.delta == pre.delta && post.stage_start == pre.stage_start
}

/// Advances every projectile by its velocity, wrapping on the positive
/// edges, at the top of the frame before anything can collide with it.
/// Like every entity kind, a projectile integrates its velocity once per
/// frame; its lifetime field stays unused, as ever.
#[verifier::loop_isolation(false)]
pub fn projectiles_step(s: &mut State)
    requires
        state_wf(*old(s)),
    ensures
        projectiles_rel(*old(s), *final(s)),
{
    let n: usize = s.projectiles.len();
    let mut i: usize = 0;
    while i < n
        invariant
            i <= n,
            n == s.projectiles@.len(),
            forall|k: int|
                0 <= k < i ==> #[trigger] s.projectiles@[k] == moved_projectile(
                    old(s).projectiles@[k],
                ) && projectile_wf(s.projectiles@[k]),
            forall|k: int| i <= k < n ==> #[trigger] s.projectiles@[k] == old(s).projectiles@[k],
            s.ship == old(s).ship,
            s.asteroids@ == old(s).asteroids@,
            s.asteroids_queue@ == old(s).asteroids_queue@,
            s.particles@ == old(s).particles@,
            s.aliens@ == old(s).aliens@,
            s.score == old(s).score && s.lives == old(s).lives && s.last_score == old(s).last_score,
            s.reset == old(s).reset && s.frame == old(s).frame,
            s.now == old(s).now && s.delta == old(s).delta && s.stage_start == old(s).stage_start,
        decreases n - i,
    {
        let p = s.projectiles[i];
        let npx: i64 = integrate_coord(p.pos.x, p.vel.x, WIDTH);
        let npy: i64 = integrate_coord(p.pos.y, p.vel.y, HEIGHT);
        let mut q = p;
        q.pos = Vec2 { x: npx, y: npy };
        let ghost pre = s.projectiles@;
        s.projectiles.set(i, q);
        proof {
            assert(s.projectiles@ == pre.update(i as int, q));
            assert(q == moved_projectile(old(s).projectiles@[i as int]));
            assert(projectile_wf(q));
        }
        i = i + 1;
    }
}

/// The stage reset is owed exactly when the ship has been dead for more
/// than three seconds of simulated time.
pub open spec fn stage_reset_due(s: State) -> bool {
    s.ship.death_time != 0 && s.now - s.ship.death_time > 3000
}

/// A respawned ship cannot owe a second stage reset: once a reset has
/// run, `death_time` is zero again, so a reset fires at most once per
/// death.
pub proof fn lemma_stage_reset_once(s: State)
    requires
        s.ship.death_time == 0,
    ensures
        !stage_reset_due(s),
{
}

/// A newly spawned edge alien: at a random height on the left edge or
/// one scale short of the right edge, aimless and fresh.
pub open spec fn fresh_edge_alien(a: Alien, size: AlienSize) -> bool {
    &&& a.size == size
    &&& (a.pos.x == 0 || a.pos.x == WIDTH - SCALE_FIX)
    &&& 0 <= a.pos.y < HEIGHT
    &&& a.dir == (Vec2 { x: 0, y: 0 })
    &&& !a.remove
    &&& a.last_shot == 0 && a.last_dir == 0
}

/// End-of-frame triggers: run the owed stage reset, spawn one BIG alien
/// when the score crossed a multiple of 5000 this frame and one SMALL
/// one when it crossed a multiple of 8000, then record the frame's score
/// into `last_score`.
#[verifier::loop_isolation(false)]
pub fn spawn_triggers(s: &mut State)
    requires
        state_wf(*old(s)),
    ensures
        triggers_rel(*old(s), *final(s)),
{
    if s.ship.death_time != 0 && s.ship.death_time < s.now && s.now - s.ship.death_time > 3000 {
        reset_stage(s);
    }
    if s.last_score / 5000 != s.score / 5000 {
        let onleft: bool = s.rand.next_bool();
        let py: i64 = s.rand.next_range(0, 960_000) as i64;
        let a = Alien {
            pos: Vec2 { x: if onleft { 0 } else { WIDTH - SCALE_FIX }, y: py },
            dir: Vec2 { x: 0, y: 0 },
            size: AlienSize::BIG,
            remove: false,
            last_shot: 0,
            last_dir: 0,
        };
        let ghost pre = s.aliens@;
        s.aliens.push(a);
        proof {
            assert(s.aliens@ == pre.push(a));
        }
    }
    if s.last_score / 8000 != s.score / 8000 {
        let onleft: bool = s.rand.next_bool();
        let py: i64 = s.rand.next_range(0, 960_000) as i64;
        let a = Alien {
            pos: Vec2 { x: if onleft { 0 } else { WIDTH - SCALE_FIX }, y: py },
            dir: Vec2 { x: 0, y: 0 },
            size: AlienSize::SMALL,
            remove: false,
            last_shot: 0,
            last_dir: 0,
        };
        let ghost pre = s.aliens@;
        s.aliens.push(a);
        proof {
            assert(s.aliens@ == pre.push(a));
        }
    }
    s.last_score = s.score;
}

/// One whole frame of simulation: the runaway guard, a pending game
/// reset, the ship, the asteroid field, the particles, the aliens, and
/// the end-of-frame triggers, in the fixed order the game defines.
///
/// Returns the runaway-asteroid fault, with the state untouched, exactly
/// when either asteroid collection holds more than 100 entries; the host
/// must abort on it.
pub fn update(s: &mut State, inputs: Inputs) -> (r: Result<(), EngineFault>)
    requires
        state_wf(*old(s)),
    ensures
        state_wf(*final(s)),
        (r is Err) <==> (old(s).asteroids@.len() > 100 || old(s).asteroids_queue@.len() > 100),
        r is Err ==> *final(s) == *old(s),
        r is Ok ==> final(s).last_score == final(s).score,
        r is Ok && !old(s).reset ==> final(s).score >= old(s).score,
        r is Ok ==> final(s).now == old(s).now && final(s).delta == old(s).delta,
        r is Ok ==> final(s).frame == old(s).frame,
        r is Ok ==> final(s).aliens@.len() <= old(s).aliens@.len() + 2,
        r is Ok ==> update_rel(*old(s), *final(s), inputs),
        r is Ok ==> final(s).asteroids@.len() + final(s).asteroids_queue@.len() <= 3 * (old(s).asteroids@.len() + old(s).asteroids_queue@.len() + 30),
{
    if s.asteroids.len() > 100 || s.asteroids_queue.len() > 100 {
        return Err(EngineFault::AsteroidOverflow);
    }
    if s.reset {
        s.reset = false;
        reset_game(s);
    }
    let ghost g1 = *s;
    projectiles_step(s);
    let ghost g2 = *s;
    ship_step(s, inputs);
    let ghost g3 = *s;
    asteroids_step(s);
    let ghost g4 = *s;
    particles_step(s);
    let ghost g5 = *s;
    aliens_step(s);
    let ghost g6 = *s;
    spawn_triggers(s);
    proof {
        assert(game_reset_applied(*old(s), g1));
        assert(update_rel(*old(s), *s, inputs)) by {
            assert(game_reset_applied(*old(s), g1) && projectiles_rel(g1, g2) && ship_step_rel(
                g2,
                g3,
                inputs,
            ) && asteroids_rel(g3, g4) && particles_rel(g4, g5) && aliens_rel(g5, g6)
                && triggers_rel(g6, *s));
        }
    }
    Ok(())
}

/// In a well-formed state every position is wrapped: a coordinate never
/// exceeds its playfield dimension by more than that entity's velocity
/// cap (negative coordinates are not wrapped, only floored far below).
pub proof fn lemma_positions_wrapped(s: State)
    requires
        state_wf(s),
    ensures
        s.ship.pos.x < WIDTH + crate::game_object::SHIP_VMAX && s.ship.pos.y < HEIGHT
            + crate::game_object::SHIP_VMAX,
        forall|i: int|
            0 <= i < s.asteroids@.len() ==> (#[trigger] s.asteroids@[i]).pos.x < WIDTH
                + crate::game_object::AST_VMAX && s.asteroids@[i].pos.y < HEIGHT
                + crate::game_object::AST_VMAX,
        forall|i: int|
            0 <= i < s.aliens@.len() ==> (#[trigger] s.aliens@[i]).pos.x < WIDTH
                + crate::game_object::ALIEN_VMAX && s.aliens@[i].pos.y < HEIGHT
                + crate::game_object::ALIEN_VMAX,
        forall|i: int|
            0 <= i < s.particles@.len() ==> (#[trigger] s.particles@[i]).pos.x < WIDTH
                + crate::game_object::PART_VMAX && s.particles@[i].pos.y < HEIGHT
                + crate::game_object::PART_VMAX,
        forall|i: int|
            0 <= i < s.projectiles@.len() ==> (#[trigger] s.projectiles@[i]).pos.x < WIDTH
                + crate::game_object::PROJ_MARGIN && s.projectiles@[i].pos.y < HEIGHT
                + crate::game_object::PROJ_MARGIN,
{
}

/// Advances the frame counter, saturating at the machine bound.
pub fn next_frame(s: &mut State)
    ensures
        final(s).frame == (if old(s).frame < usize::MAX {
            old(s).frame + 1
        } else {
            old(s).frame as int
        }),
        final(s).ship == old(s).ship,
        final(s).asteroids@ == old(s).asteroids@,
        final(s).asteroids_queue@ == old(s).asteroids_queue@,
        final(s).particles@ == old(s).particles@,
        final(s).projectiles@ == old(s).projectiles@,
        final(s).aliens@ == old(s).aliens@,
        final(s).score == old(s).score && final(s).lives == old(s).lives && final(s).last_score
            == old(s).last_score,
        final(s).reset == old(s).reset,
        final(s).now == old(s).now && final(s).delta == old(s).delta && final(s).stage_start == old(s).stage_start,
{
    if s.frame < usize::MAX {
        s.frame = s.frame + 1;
    }
}

/// Extending the processed prefix by one element extends its stepped
/// image by that element's image (or drops it when expired).
proof fn lemma_particles_after_take_step(ps: Seq<Particle>, i: int, delta: int)
    requires
        0 <= i < ps.len(),
    ensures
        particles_after(ps.take(i + 1), delta) == if particle_survives(ps[i], delta) {
            particles_after(ps.take(i), delta).push(stepped_particle(ps[i], delta))
        } else {
            particles_after(ps.take(i), delta)
        },
    decreases i,
{
    let a = ps.take(i + 1);
    let b = ps.take(i);
    if i == 0 {
        assert(a.len() == 1);
        assert(a[0] == ps[0]);
        assert(a.drop_first() =~= Seq::empty());
        assert(b =~= Seq::<Particle>::empty());
        assert(particles_after(a.drop_first(), delta) =~= Seq::empty());
        assert(particles_after(b, delta) =~= Seq::empty());
        if particle_survives(ps[0], delta) {
            assert(particles_after(a, delta) =~= seq![stepped_particle(ps[0], delta)]);
            assert(particles_after(b, delta).push(stepped_particle(ps[0], delta)) =~= seq![
                stepped_particle(ps[0], delta),
            ]);
        }
    } else {
        lemma_particles_after_take_step(ps.drop_first(), i - 1, delta);
        assert(a.drop_first() =~= ps.drop_first().take(i));
        assert(b.drop_first() =~= ps.drop_first().take(i - 1));
        assert(a[0] == ps[0] && b[0] == ps[0]);
        assert(ps.drop_first()[i - 1] == ps[i]);
        assert(particles_after(a, delta) == if particle_survives(ps[0], delta) {
            seq![stepped_particle(ps[0], delta)] + particles_after(ps.drop_first().take(i), delta)
        } else {
            particles_after(ps.drop_first().take(i), delta)
        });
        assert(particles_after(b, delta) == if particle_survives(ps[0], delta) {
            seq![stepped_particle(ps[0], delta)] + particles_after(
                ps.drop_first().take(i - 1),
                delta,
            )
        } else {
            particles_after(ps.drop_first().take(i - 1), delta)
        });
        if particle_survives(ps[i], delta) {
            assert(particles_after(ps.drop_first().take(i), delta) == particles_after(
                ps.drop_first().take(i - 1),
                delta,
            ).push(stepped_particle(ps[i], delta)));
            assert(particles_after(a, delta) =~= particles_after(b, delta).push(
                stepped_particle(ps[i], delta),
            ));
        } else {
            assert(particles_after(ps.drop_first().take(i), delta) == particles_after(
                ps.drop_first().take(i - 1),
                delta,
            ));
            assert(particles_after(a, delta) =~= particles_after(b, delta));
        }
    }
}

} // verus!
