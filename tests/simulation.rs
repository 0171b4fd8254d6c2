use asteroids::collision::{is_partner, resolve_projectile_hits};
use asteroids::effects::Sound;
use asteroids::geometry::{diagonal_step, is_within, offset, Pos, SUBUNITS};
use asteroids::motion::{shift_of, Bounds, ConfigError, Input};
use asteroids::registry::{Entity, Registry, Tag};
use asteroids::spawn::{asteroid_origin_of, SpawnTimer};
use asteroids::world::World;

fn px(v: i64) -> i64 {
    v * SUBUNITS
}

fn at(x: i64, y: i64) -> Pos {
    Pos { x: px(x), y: px(y) }
}

fn idle() -> Input {
    Input { up: false, down: false, left: false, right: false, fire: false }
}

fn firing() -> Input {
    Input { fire: true, ..idle() }
}

fn count(w: &World, tag: Tag) -> usize {
    w.entities().iter().filter(|e| e.tag == tag).count()
}

fn find(w: &World, tag: Tag) -> Vec<Entity> {
    w.entities().into_iter().filter(|e| e.tag == tag).collect()
}

#[test]
fn zero_elapsed_time_moves_nothing() {
    let mut w = World::empty(800, 600).unwrap();
    w.spawn(Tag::Player, at(400, 300)).unwrap();
    w.spawn(Tag::Asteroid, at(100, 500)).unwrap();
    w.spawn(Tag::Projectile, at(700, 100)).unwrap();
    let before = w.entities();
    let input = Input { up: true, right: true, ..idle() };
    let sounds = w.step(input, 0, 0, 0);
    assert_eq!(w.entities(), before);
    assert!(sounds.is_empty());
}

#[test]
fn player_is_clamped_to_viewport() {
    let mut w = World::empty(800, 600).unwrap();
    w.spawn(Tag::Player, at(400, 300)).unwrap();
    let input = Input { up: true, right: true, ..idle() };
    w.step(input, 10_000_000, 0, u32::MAX);
    let p = w.player().unwrap();
    assert_eq!(p.pos, at(800 - 32, 600 - 32));
    let input = Input { down: true, left: true, ..idle() };
    w.step(input, 10_000_000, 0, u32::MAX);
    let p = w.player().unwrap();
    assert_eq!(p.pos, at(32, 32));
}

#[test]
fn smallest_viewport_pins_player() {
    let mut w = World::empty(64, 64).unwrap();
    w.spawn(Tag::Player, at(0, 1000)).unwrap();
    w.step(idle(), 1, 0, 0);
    assert_eq!(w.player().unwrap().pos, at(32, 32));
}

#[test]
fn one_interval_spawns_one_asteroid() {
    let mut w = World::empty(800, 600).unwrap();
    for _ in 0..4 {
        w.step(idle(), 100_000, 0, 0);
    }
    assert_eq!(count(&w, Tag::Asteroid), 0);
    assert_eq!(w.spawn_elapsed(), 400_000);
    w.step(idle(), 100_000, 0, 0);
    assert_eq!(count(&w, Tag::Asteroid), 1);
    assert_eq!(w.spawn_elapsed(), 0);
}

#[test]
fn timer_drops_overage() {
    let mut t = SpawnTimer::new();
    assert!(!t.tick(300_000));
    assert_eq!(t.elapsed(), 300_000);
    assert!(t.tick(300_000));
    assert_eq!(t.elapsed(), 0);
    assert!(!t.tick(499_999));
    assert!(t.tick(1));
}

#[test]
fn held_fire_shoots_once() {
    let mut w = World::empty(800, 600).unwrap();
    w.spawn(Tag::Player, at(400, 300)).unwrap();
    let mut lasers = 0;
    for _ in 0..5 {
        let sounds = w.step(firing(), 0, 0, 0);
        lasers += sounds.iter().filter(|s| **s == Sound::Laser).count();
    }
    assert_eq!(count(&w, Tag::Projectile), 1);
    assert_eq!(lasers, 1);
    w.step(idle(), 0, 0, 0);
    let sounds = w.step(firing(), 0, 0, 0);
    assert_eq!(sounds, vec![Sound::Laser]);
    assert_eq!(count(&w, Tag::Projectile), 2);
}

#[test]
fn projectile_starts_at_player_and_rises() {
    let mut w = World::empty(800, 600).unwrap();
    w.spawn(Tag::Player, at(400, 300)).unwrap();
    w.step(firing(), 100_000, 0, 0);
    let shots = find(&w, Tag::Projectile);
    assert_eq!(shots.len(), 1);
    assert_eq!(shots[0].pos, at(400, 380));
}

#[test]
fn hit_boundary_is_exclusive() {
    let a = Entity { id: 0, tag: Tag::Asteroid, pos: at(400, 300) };
    let far = Entity { id: 1, tag: Tag::Projectile, pos: at(400, 344) };
    let near = Entity { id: 2, tag: Tag::Projectile, pos: Pos { x: px(400), y: px(300) + 43_999_000 } };
    assert!(!is_partner(&a, &far));
    assert!(is_partner(&a, &near));
    assert!(!is_partner(&near, &a));
}

#[test]
fn collision_at_exactly_44_is_a_miss() {
    let mut w = World::empty(800, 600).unwrap();
    w.spawn(Tag::Asteroid, at(400, 300)).unwrap();
    w.spawn(Tag::Projectile, at(400, 344)).unwrap();
    let sounds = w.step(idle(), 0, 0, 0);
    assert!(sounds.is_empty());
    assert_eq!(w.entities().len(), 2);
}

#[test]
fn collision_at_43_999_is_a_hit() {
    let mut w = World::empty(800, 600).unwrap();
    w.spawn(Tag::Asteroid, at(400, 300)).unwrap();
    w.spawn(Tag::Projectile, Pos { x: px(400), y: px(300) + 43_999_000 }).unwrap();
    let sounds = w.step(idle(), 0, 0, 0);
    assert_eq!(sounds, vec![Sound::Explosion]);
    assert!(w.entities().is_empty());
}

#[test]
fn falling_asteroid_kills_player() {
    let mut w = World::empty(800, 600).unwrap();
    w.spawn(Tag::Player, at(400, 300)).unwrap();
    let rock = w.spawn(Tag::Asteroid, Pos { x: px(400), y: px(600) + 1 }).unwrap();
    let mut explosions = 0;
    for frame in 0..3 {
        let sounds = w.step(idle(), 500_000, 0, 0);
        explosions += sounds.iter().filter(|s| **s == Sound::Explosion).count();
        if frame < 2 {
            assert!(w.player().is_some());
        }
    }
    let rock = w.entities().into_iter().find(|e| e.id == rock).unwrap();
    assert_eq!(rock.pos, Pos { x: px(400), y: px(300) + 1 });
    assert!(w.player().is_none());
    assert_eq!(explosions, 1);
}

#[test]
fn two_asteroids_on_player_give_one_explosion() {
    let mut w = World::empty(800, 600).unwrap();
    w.spawn(Tag::Player, at(400, 300)).unwrap();
    w.spawn(Tag::Asteroid, at(400, 310)).unwrap();
    w.spawn(Tag::Asteroid, at(410, 300)).unwrap();
    let sounds = w.step(idle(), 0, 0, 0);
    assert_eq!(sounds, vec![Sound::Explosion]);
    assert!(w.player().is_none());
    assert_eq!(count(&w, Tag::Asteroid), 2);
}

#[test]
fn no_player_no_shot() {
    let mut w = World::empty(800, 600).unwrap();
    for _ in 0..3 {
        let sounds = w.step(firing(), 0, 0, 0);
        assert!(sounds.is_empty());
        w.step(idle(), 0, 0, 0);
    }
    assert_eq!(count(&w, Tag::Projectile), 0);
}

#[test]
fn projectile_takes_down_every_asteroid_in_range() {
    let mut reg = Registry::new();
    reg.create(Tag::Asteroid, at(100, 100)).unwrap();
    reg.create(Tag::Asteroid, at(120, 100)).unwrap();
    reg.create(Tag::Asteroid, at(500, 100)).unwrap();
    reg.create(Tag::Projectile, at(110, 100)).unwrap();
    let mut sounds = Vec::new();
    resolve_projectile_hits(&mut reg, &mut sounds);
    assert_eq!(sounds, vec![Sound::Explosion, Sound::Explosion]);
    assert_eq!(reg.len(), 1);
    assert_eq!(reg.get(0).pos, at(500, 100));
}

#[test]
fn new_world_places_player() {
    let w = World::new(800, 600).unwrap();
    let p = w.player().unwrap();
    assert_eq!(p.id, 0);
    assert_eq!(p.pos, at(400, 50));
    assert_eq!(w.entities().len(), 1);
}

#[test]
fn viewport_errors() {
    assert_eq!(World::new(0, 600).err(), Some(ConfigError::TooSmall));
    assert_eq!(World::new(800, 63).err(), Some(ConfigError::TooSmall));
    assert_eq!(World::new(2_000_000, 600).err(), Some(ConfigError::TooLarge));
    assert_eq!(Bounds::new(800, 600), Ok(Bounds { width: px(800), height: px(600) }));
}

#[test]
fn registry_create_and_destroy() {
    let mut reg = Registry::new();
    assert_eq!(reg.create(Tag::Player, at(1, 1)), Some(0));
    assert_eq!(reg.create(Tag::Player, at(2, 2)), None);
    assert_eq!(reg.create(Tag::Asteroid, at(3, 3)), Some(1));
    reg.destroy(0);
    assert_eq!(reg.len(), 1);
    reg.destroy(0);
    reg.destroy(42);
    assert_eq!(reg.len(), 1);
    assert!(reg.player().is_none());
    assert_eq!(reg.create(Tag::Player, at(4, 4)), Some(2));
}

#[test]
fn diagonal_move_is_normalized() {
    assert_eq!(diagonal_step(0), 0);
    assert_eq!(diagonal_step(1_000_000), 707_106);
    let input = Input { up: true, right: true, ..idle() };
    assert_eq!(shift_of(Tag::Player, &input, 1_000_000), (424_264_068, 424_264_068));
    let input = Input { up: true, down: true, left: true, ..idle() };
    assert_eq!(shift_of(Tag::Player, &input, 1_000_000), (-600_000_000, 0));
    assert_eq!(shift_of(Tag::Asteroid, &idle(), 500_000), (0, -100_000_000));
    assert_eq!(shift_of(Tag::Projectile, &idle(), 500_000), (0, 400_000_000));
}

#[test]
fn geometry_edges() {
    assert_eq!(offset(i64::MAX - 1, 5), i64::MAX);
    assert_eq!(offset(i64::MIN + 1, -5), i64::MIN);
    assert_eq!(offset(10, -3), 7);
    assert!(!is_within(Pos { x: i64::MIN, y: 0 }, Pos { x: i64::MAX, y: 0 }, px(64)));
    assert!(is_within(at(0, 0), at(30, 40), px(51)));
    assert!(!is_within(at(0, 0), at(30, 40), px(50)));
}

#[test]
fn asteroid_origin_spans_width_above_top() {
    let b = Bounds::new(800, 600).unwrap();
    assert_eq!(asteroid_origin_of(&b, 0, 0), at(0, 600));
    assert_eq!(asteroid_origin_of(&b, 1 << 31, 1 << 31), at(400, 1000));
    let top = asteroid_origin_of(&b, u32::MAX, u32::MAX);
    assert!(top.x < px(800) && top.x > px(799));
    assert!(top.y < px(1400) && top.y > px(1399));
}

#[test]
fn random_tick_spawns_above_viewport() {
    let mut w = World::empty(800, 600).unwrap();
    w.tick(idle(), 500_000);
    let rocks = find(&w, Tag::Asteroid);
    assert_eq!(rocks.len(), 1);
    let p = rocks[0].pos;
    assert!(p.x >= 0 && p.x <= px(800));
    assert!(p.y >= px(500) && p.y <= px(1300));
}
