use asteroids::engine::{advance_time, hit_asteroid, update, EngineFault, Inputs};
use asteroids::game_object::{
    Alien, AlienSize, Asteroid, AsteroidSize, Particle, ParticleType, Projectile, State, HEIGHT,
    WIDTH,
};
use asteroids::geometry::{normalized, vector2_distance, Vec2};
use asteroids::lifecycle::reset_game;
use asteroids::trig::{cos_fix, sin_fix, vector2_rotate};

fn idle() -> Inputs {
    Inputs { left: false, right: false, thrust: false, fire: false }
}

fn field_asteroid(x: i64, y: i64, size: AsteroidSize) -> Asteroid {
    Asteroid { pos: Vec2 { x, y }, vel: Vec2 { x: 0, y: 0 }, size, seed: 9, remove: false }
}

#[test]
fn asteroid_size_tables() {
    assert_eq!(AsteroidSize::SMALL.score(), 20);
    assert_eq!(AsteroidSize::MEDIUM.score(), 50);
    assert_eq!(AsteroidSize::BIG.score(), 100);
    assert_eq!(AsteroidSize::SMALL.size(), 30_400);
    assert_eq!(AsteroidSize::MEDIUM.size(), 53_200);
    assert_eq!(AsteroidSize::BIG.size(), 114_000);
    assert_eq!(AsteroidSize::SMALL.coll_scale(), 1000);
    assert_eq!(AsteroidSize::MEDIUM.coll_scale(), 600);
    assert_eq!(AsteroidSize::BIG.coll_scale(), 400);
    assert_eq!(AsteroidSize::SMALL.vel_scale(), 3000);
    assert_eq!(AsteroidSize::MEDIUM.vel_scale(), 1800);
    assert_eq!(AsteroidSize::BIG.vel_scale(), 750);
}

#[test]
fn alien_size_tables() {
    assert_eq!(AlienSize::SMALL.coll_size(), 19_000);
    assert_eq!(AlienSize::BIG.coll_size(), 30_400);
    assert_eq!(AlienSize::SMALL.dir_change_time(), 350);
    assert_eq!(AlienSize::BIG.dir_change_time(), 850);
    assert_eq!(AlienSize::SMALL.shot_time(), 500);
    assert_eq!(AlienSize::BIG.shot_time(), 1250);
    assert_eq!(AlienSize::SMALL.speed(), 3);
    assert_eq!(AlienSize::BIG.speed(), 6);
}

#[test]
fn trig_quarter_points() {
    assert_eq!(sin_fix(0), 0);
    assert_eq!(sin_fix(250_000), 1000);
    assert_eq!(sin_fix(500_000), 0);
    assert_eq!(sin_fix(750_000), -1000);
    assert_eq!(cos_fix(0), 1000);
    assert_eq!(cos_fix(250_000), 0);
    assert_eq!(cos_fix(500_000), -1000);
}

#[test]
fn distance_and_sqrt() {
    let a = Vec2 { x: 0, y: 0 };
    let b = Vec2 { x: 3000, y: 4000 };
    assert_eq!(vector2_distance(&a, &b), 5000);
    let c = Vec2 { x: 1000, y: 1000 };
    assert_eq!(vector2_distance(&a, &c), 1414);
}

#[test]
fn normalize_vectors() {
    let z = normalized(&Vec2 { x: 0, y: 0 });
    assert_eq!((z.x, z.y), (0, 0));
    let r = normalized(&Vec2 { x: 5000, y: 0 });
    assert_eq!((r.x, r.y), (1000, 0));
    let t = normalized(&Vec2 { x: 3000, y: 4000 });
    assert_eq!((t.x, t.y), (600, 800));
}

#[test]
fn rotate_quarter_turn() {
    let v = Vec2 { x: 1000, y: 0 };
    let r = vector2_rotate(&v, 250_000);
    assert_eq!((r.x, r.y), (0, 1000));
    let b = vector2_rotate(&v, 500_000);
    assert_eq!((b.x, b.y), (-1000, 0));
}

#[test]
fn new_game_state() {
    let mut s = State::init_with_seed(7);
    reset_game(&mut s);
    assert_eq!(s.lives, 3);
    assert_eq!(s.score, 0);
    assert_eq!(s.asteroids.len(), 0);
    assert_eq!(s.asteroids_queue.len(), 30);
    assert_eq!(s.ship.death_time, 0);
    assert_eq!(s.ship.pos.x, WIDTH / 2);
    assert_eq!(s.ship.pos.y, HEIGHT / 2);
    for a in &s.asteroids_queue {
        assert!(!a.remove);
        assert!(a.pos.x >= 0 && a.pos.x < WIDTH);
        assert!(a.pos.y >= 0 && a.pos.y < HEIGHT);
        assert!(a.vel.x.abs() <= 1000 && a.vel.y.abs() <= 1000);
    }
}

#[test]
fn split_big_asteroid() {
    let mut s = State::init_with_seed(1);
    let mut a = field_asteroid(100_000, 100_000, AsteroidSize::BIG);
    a.vel = Vec2 { x: 1000, y: 0 };
    hit_asteroid(&mut s, &mut a, Vec2 { x: 0, y: 0 });
    assert!(a.remove);
    assert_eq!(s.score, 100);
    assert_eq!(s.asteroids_queue.len(), 2);
    for c in &s.asteroids_queue {
        assert!(matches!(c.size, AsteroidSize::MEDIUM));
        assert_eq!(c.pos.x, 100_000);
        assert_eq!(c.pos.y, 100_000);
        assert!(!c.remove);
    }
}

#[test]
fn split_medium_asteroid() {
    let mut s = State::init_with_seed(2);
    let mut a = field_asteroid(50_000, 60_000, AsteroidSize::MEDIUM);
    hit_asteroid(&mut s, &mut a, Vec2 { x: 0, y: 0 });
    assert_eq!(s.score, 50);
    assert_eq!(s.asteroids_queue.len(), 2);
    for c in &s.asteroids_queue {
        assert!(matches!(c.size, AsteroidSize::SMALL));
    }
}

#[test]
fn small_asteroid_has_no_children() {
    let mut s = State::init_with_seed(3);
    let mut a = field_asteroid(50_000, 60_000, AsteroidSize::SMALL);
    hit_asteroid(&mut s, &mut a, Vec2 { x: 0, y: 0 });
    assert_eq!(s.score, 20);
    assert_eq!(s.asteroids_queue.len(), 0);
    assert!(a.remove);
}

#[test]
fn runaway_asteroids_fault() {
    let mut s = State::init_with_seed(4);
    for _ in 0..101 {
        s.asteroids.push(field_asteroid(10_000, 10_000, AsteroidSize::SMALL));
    }
    let before_score = s.score;
    let r = update(&mut s, idle());
    assert!(matches!(r, Err(EngineFault::AsteroidOverflow)));
    assert_eq!(s.asteroids.len(), 101);
    assert_eq!(s.score, before_score);
}

#[test]
fn runaway_queue_fault() {
    let mut s = State::init_with_seed(5);
    for _ in 0..101 {
        s.asteroids_queue.push(field_asteroid(10_000, 10_000, AsteroidSize::SMALL));
    }
    let r = update(&mut s, idle());
    assert!(r.is_err());
}

#[test]
fn alien_spawn_at_5000() {
    let mut s = State::init_with_seed(6);
    s.last_score = 4999;
    s.score = 5001;
    let r = update(&mut s, idle());
    assert!(r.is_ok());
    assert_eq!(s.aliens.len(), 1);
    assert!(matches!(s.aliens[0].size, AlienSize::BIG));
    assert!(s.aliens[0].pos.x == 0 || s.aliens[0].pos.x == WIDTH - 38_000);
    assert_eq!(s.last_score, 5001);
}

#[test]
fn alien_spawn_at_8000() {
    let mut s = State::init_with_seed(7);
    s.last_score = 7999;
    s.score = 8001;
    update(&mut s, idle()).unwrap();
    assert_eq!(s.aliens.len(), 1);
    assert!(matches!(s.aliens[0].size, AlienSize::SMALL));
}

#[test]
fn alien_spawn_both_thresholds() {
    let mut s = State::init_with_seed(8);
    s.last_score = 39_999;
    s.score = 40_001;
    update(&mut s, idle()).unwrap();
    assert_eq!(s.aliens.len(), 2);
    assert!(matches!(s.aliens[0].size, AlienSize::BIG));
    assert!(matches!(s.aliens[1].size, AlienSize::SMALL));
}

#[test]
fn no_alien_spawn_without_crossing() {
    let mut s = State::init_with_seed(9);
    s.last_score = 5100;
    s.score = 5200;
    update(&mut s, idle()).unwrap();
    assert_eq!(s.aliens.len(), 0);
}

#[test]
fn young_projectile_spares_ship() {
    let mut s = State::init_with_seed(10);
    s.now = 1000;
    s.projectiles.push(Projectile {
        pos: Vec2 { x: s.ship.pos.x, y: s.ship.pos.y },
        vel: Vec2 { x: 0, y: 0 },
        ttl: 2000,
        spawn: 900,
        remove: false,
    });
    update(&mut s, idle()).unwrap();
    assert_eq!(s.ship.death_time, 0);
    assert!(!s.projectiles[0].remove);
}

#[test]
fn old_projectile_kills_ship() {
    let mut s = State::init_with_seed(11);
    s.now = 1000;
    s.projectiles.push(Projectile {
        pos: Vec2 { x: s.ship.pos.x, y: s.ship.pos.y },
        vel: Vec2 { x: 0, y: 0 },
        ttl: 2000,
        spawn: 100,
        remove: false,
    });
    update(&mut s, idle()).unwrap();
    assert_eq!(s.ship.death_time, 1000);
    assert!(s.projectiles[0].remove);
}

#[test]
fn young_projectile_spares_alien() {
    let mut s = State::init_with_seed(12);
    s.now = 1000;
    s.aliens.push(Alien {
        pos: Vec2 { x: 200_000, y: 100_000 },
        dir: Vec2 { x: 0, y: 0 },
        size: AlienSize::BIG,
        remove: false,
        last_shot: 1000,
        last_dir: 1000,
    });
    s.projectiles.push(Projectile {
        pos: Vec2 { x: 200_000, y: 100_000 },
        vel: Vec2 { x: 0, y: 0 },
        ttl: 2000,
        spawn: 900,
        remove: false,
    });
    update(&mut s, idle()).unwrap();
    assert_eq!(s.aliens.len(), 1);
    assert!(!s.projectiles[0].remove);
}

#[test]
fn old_projectile_kills_alien() {
    let mut s = State::init_with_seed(13);
    s.now = 1000;
    s.aliens.push(Alien {
        pos: Vec2 { x: 200_000, y: 100_000 },
        dir: Vec2 { x: 0, y: 0 },
        size: AlienSize::BIG,
        remove: false,
        last_shot: 1000,
        last_dir: 1000,
    });
    s.projectiles.push(Projectile {
        pos: Vec2 { x: 200_000, y: 100_000 },
        vel: Vec2 { x: 0, y: 0 },
        ttl: 2000,
        spawn: 700,
        remove: false,
    });
    update(&mut s, idle()).unwrap();
    assert_eq!(s.aliens.len(), 0);
    assert!(s.projectiles[0].remove);
}

#[test]
fn dead_ship_respawns_after_grace() {
    let mut s = State::init_with_seed(14);
    s.lives = 2;
    s.now = 5000;
    s.ship.death_time = 1000;
    update(&mut s, idle()).unwrap();
    assert_eq!(s.ship.death_time, 0);
    assert_eq!(s.lives, 1);
    assert!(!s.reset);
    assert_eq!(s.ship.pos.x, WIDTH / 2);
    assert_eq!(s.ship.pos.y, HEIGHT / 2);
}

#[test]
fn dead_ship_with_no_lives_flags_reset() {
    let mut s = State::init_with_seed(15);
    s.lives = 0;
    s.now = 5000;
    s.ship.death_time = 1000;
    update(&mut s, idle()).unwrap();
    assert_eq!(s.ship.death_time, 0);
    assert_eq!(s.lives, 0);
    assert!(s.reset);
    let before = s.ship.death_time;
    update(&mut s, idle()).unwrap();
    assert_eq!(before, 0);
    assert_eq!(s.lives, 3);
    assert_eq!(s.score, 0);
    assert!(!s.reset);
}

#[test]
fn asteroid_wraps_on_positive_edge() {
    let mut s = State::init_with_seed(16);
    let mut a = field_asteroid(1_279_000, 100_000, AsteroidSize::SMALL);
    a.vel = Vec2 { x: 5000, y: 0 };
    s.asteroids.push(a);
    update(&mut s, idle()).unwrap();
    assert_eq!(s.asteroids.len(), 1);
    assert_eq!(s.asteroids[0].pos.x, 4000);
    assert_eq!(s.asteroids[0].pos.y, 100_000);
}

#[test]
fn particles_decay_by_delta() {
    let mut s = State::init_with_seed(17);
    advance_time(&mut s, 16);
    s.particles.push(Particle {
        pos: Vec2 { x: 5000, y: 5000 },
        vel: Vec2 { x: 1000, y: 0 },
        ttl: 100,
        values: ParticleType::DOT { radius: 500 },
    });
    s.particles.push(Particle {
        pos: Vec2 { x: 9000, y: 9000 },
        vel: Vec2 { x: 0, y: 0 },
        ttl: 10,
        values: ParticleType::DOT { radius: 500 },
    });
    update(&mut s, idle()).unwrap();
    assert_eq!(s.particles.len(), 1);
    assert_eq!(s.particles[0].ttl, 84);
    assert_eq!(s.particles[0].pos.x, 6000);
}

#[test]
fn firing_spawns_projectile_with_recoil() {
    let mut s = State::init_with_seed(18);
    let inputs = Inputs { left: false, right: false, thrust: false, fire: true };
    update(&mut s, inputs).unwrap();
    assert_eq!(s.projectiles.len(), 1);
    let p = s.projectiles[0];
    assert_eq!(p.pos.x, WIDTH / 2);
    assert_eq!(p.pos.y, HEIGHT / 2 + 19_000);
    assert_eq!((p.vel.x, p.vel.y), (0, 10_000));
    assert_eq!(p.ttl, 2000);
    assert_eq!(p.spawn, 0);
    assert!(!p.remove);
    assert_eq!((s.ship.vel.x, s.ship.vel.y), (0, -500));
}

#[test]
fn thrust_and_drag_move_ship() {
    let mut s = State::init_with_seed(19);
    advance_time(&mut s, 100);
    let inputs = Inputs { left: false, right: false, thrust: true, fire: false };
    update(&mut s, inputs).unwrap();
    assert_eq!((s.ship.vel.x, s.ship.vel.y), (0, 2364));
    assert_eq!(s.ship.pos.y, HEIGHT / 2 + 2364);
    assert_eq!(s.ship.pos.x, WIDTH / 2);
}

#[test]
fn turning_changes_rotation() {
    let mut s = State::init_with_seed(20);
    advance_time(&mut s, 100);
    let right = Inputs { left: false, right: true, thrust: false, fire: false };
    update(&mut s, right).unwrap();
    assert_eq!(s.ship.rot, 200_000);
    let mut t = State::init_with_seed(21);
    advance_time(&mut t, 100);
    let left = Inputs { left: true, right: false, thrust: false, fire: false };
    update(&mut t, left).unwrap();
    assert_eq!(t.ship.rot, 800_000);
}

#[test]
fn update_keeps_last_score_in_step() {
    let mut s = State::init_with_seed(22);
    s.score = 1234;
    s.last_score = 1200;
    update(&mut s, idle()).unwrap();
    assert_eq!(s.last_score, 1234);
    assert_eq!(s.score, 1234);
}

#[test]
fn delta_clamps_to_bound() {
    let mut s = State::init_with_seed(23);
    advance_time(&mut s, 10_000);
    assert_eq!(s.delta, 500);
    assert_eq!(s.now, 500);
    advance_time(&mut s, 16);
    assert_eq!(s.delta, 16);
    assert_eq!(s.now, 516);
}

#[test]
fn ship_collision_splits_asteroid() {
    let mut s = State::init_with_seed(24);
    s.now = 2000;
    let mut a = field_asteroid(WIDTH / 2, HEIGHT / 2, AsteroidSize::BIG);
    a.vel = Vec2 { x: 500, y: 0 };
    s.asteroids.push(a);
    update(&mut s, idle()).unwrap();
    assert_eq!(s.ship.death_time, 2000);
    assert_eq!(s.score, 100);
    assert_eq!(s.asteroids.len(), 0);
    assert_eq!(s.asteroids_queue.len(), 2);
}

#[test]
fn alien_fires_at_ship_on_cadence() {
    let mut s = State::init_with_seed(25);
    s.now = 2000;
    s.aliens.push(Alien {
        pos: Vec2 { x: 200_000, y: 480_000 },
        dir: Vec2 { x: 0, y: 0 },
        size: AlienSize::BIG,
        remove: false,
        last_shot: 0,
        last_dir: 2000,
    });
    update(&mut s, idle()).unwrap();
    assert_eq!(s.aliens.len(), 1);
    assert_eq!(s.aliens[0].last_shot, 2000);
    assert_eq!(s.projectiles.len(), 1);
    let p = s.projectiles[0];
    assert_eq!(p.spawn, 2000);
    assert_eq!(p.ttl, 2000);
    assert!(!p.remove);
    assert!(p.vel.x > 0 && p.vel.x <= 6000);
    assert!(p.vel.y.abs() <= 6000);
}

#[test]
fn projectiles_advance_and_wrap() {
    let mut s = State::init_with_seed(26);
    s.projectiles.push(Projectile {
        pos: Vec2 { x: 1_279_000, y: 100_000 },
        vel: Vec2 { x: 5_000, y: -1_000 },
        ttl: 2000,
        spawn: 0,
        remove: false,
    });
    update(&mut s, idle()).unwrap();
    assert_eq!(s.projectiles.len(), 1);
    assert_eq!(s.projectiles[0].pos.x, 4_000);
    assert_eq!(s.projectiles[0].pos.y, 99_000);
    assert_eq!((s.projectiles[0].vel.x, s.projectiles[0].vel.y), (5_000, -1_000));
    assert!(!s.projectiles[0].remove);
}
