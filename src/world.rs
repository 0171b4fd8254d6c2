use vstd::prelude::*;
use crate::collision::{
    hit_pairs, player_struck, resolve_player_hits, resolve_projectile_hits, shot_down,
};
use crate::effects::{explosions, Sound};
use crate::geometry::{Pos, SUBUNITS};
use crate::motion::{bounds_of, confine, confined, integrate, moved, Bounds, ConfigError, Input};
use crate::registry::{can_create, created, first_player, Entity, Registry, Tag};
use crate::spawn::{
    asteroid_origin, fire_edge, shoots, spawn_asteroid, spawn_projectile, timer_step, SpawnTimer,
};

verus! {

/// Relies on rand::random: a value drawn from the thread-local generator.
/// Nothing is promised of the value.
pub assume_specification<T>[ rand::random::<T> ]() -> (r: T)
    where
        rand::distributions::Standard: rand::distributions::Distribution<T>,
;

/// Height above the bottom edge, plus half the viewport's height below it,
/// at which the player starts: `350 - height / 2` pixels.
pub const PLAYER_START_RISE: i64 = 350_000_000;

/// The whole simulation: live entities, the asteroid timer, the viewport and
/// whether fire was held on the previous frame.
pub struct World {
    registry: Registry,
    timer: SpawnTimer,
    bounds: Bounds,
    fire_held: bool,
}

impl World {
    /// The live entities.
    pub closed spec fn live(&self) -> Seq<Entity> {
        self.registry@
    }

    /// The id the next created entity gets.
    pub closed spec fn next_id(&self) -> nat {
        self.registry.next_id()
    }

    /// Microseconds accumulated toward the next asteroid.
    pub closed spec fn clock(&self) -> nat {
        self.timer@
    }

    /// The viewport.
    pub closed spec fn viewport(&self) -> Bounds {
        self.bounds
    }

    /// Fire was held on the previous frame.
    pub closed spec fn fire_held(&self) -> bool {
        self.fire_held
    }

    /// The registry, timer and viewport are each well formed.
    pub closed spec fn wf(&self) -> bool {
        &&& self.registry.wf()
        &&& self.timer.wf()
        &&& self.bounds.wf()
    }
}

/// Entities and next id after the asteroid timer.
pub open spec fn stage_asteroid(w: World, dt: nat, rx: u32, ry: u32) -> (Seq<Entity>, nat) {
    if timer_step(w.clock(), dt).0 {
        created(w.live(), w.next_id(), Tag::Asteroid, asteroid_origin(w.viewport(), rx, ry))
    } else {
        (w.live(), w.next_id())
    }
}

/// The frame fires a projectile (and so plays a laser sound).
pub open spec fn laser_due(w: World, input: Input, dt: nat, rx: u32, ry: u32) -> bool {
    let (s, next) = stage_asteroid(w, dt, rx, ry);
    shoots(s, next, fire_edge(w.fire_held(), input.fire))
}

/// Entities and next id after both spawn triggers.
pub open spec fn stage_spawn(w: World, input: Input, dt: nat, rx: u32, ry: u32) -> (Seq<Entity>, nat) {
    let (s, next) = stage_asteroid(w, dt, rx, ry);
    if laser_due(w, input, dt, rx, ry) {
        created(s, next, Tag::Projectile, first_player(s)->Some_0.pos)
    } else {
        (s, next)
    }
}

/// Entities after movement and confinement.
pub open spec fn stage_motion(w: World, input: Input, dt: nat, rx: u32, ry: u32) -> Seq<Entity> {
    stage_spawn(w, input, dt, rx, ry).0.map_values(|e: Entity| moved(e, input, dt)).map_values(
        |e: Entity| confined(e, w.viewport()),
    )
}

/// The player dies this frame.
pub open spec fn player_dies(w: World, input: Input, dt: nat, rx: u32, ry: u32) -> bool {
    player_struck(stage_motion(w, input, dt, rx, ry))
}

/// Entities after the asteroid-player scan.
pub open spec fn stage_player(w: World, input: Input, dt: nat, rx: u32, ry: u32) -> Seq<Entity> {
    let s = stage_motion(w, input, dt, rx, ry);
    if player_struck(s) {
        s.filter(|e: Entity| e.tag != Tag::Player)
    } else {
        s
    }
}

/// Entities at the end of the frame.
pub open spec fn frame_entities(w: World, input: Input, dt: nat, rx: u32, ry: u32) -> Seq<Entity> {
    let s = stage_player(w, input, dt, rx, ry);
    s.filter(|e: Entity| !shot_down(e, s))
}

/// Sounds of the frame, in order: the laser, the player's explosion, then one
/// explosion per asteroid-projectile collision.
pub open spec fn frame_sounds(w: World, input: Input, dt: nat, rx: u32, ry: u32) -> Seq<Sound> {
    (if laser_due(w, input, dt, rx, ry) {
        seq![Sound::Laser]
    } else {
        Seq::empty()
    }) + (if player_dies(w, input, dt, rx, ry) {
        seq![Sound::Explosion]
    } else {
        Seq::empty()
    }) + explosions(hit_pairs(stage_player(w, input, dt, rx, ry)))
}

impl World {
    /// A world of `width` by `height` pixels with no entity.
    pub fn empty(width: u32, height: u32) -> (r: Result<World, ConfigError>)
        ensures
            r is Ok <==> bounds_of(width, height) is Ok,
            r is Err ==> r->Err_0 == bounds_of(width, height)->Err_0,
            r is Ok ==> ({
                let w = r->Ok_0;
                &&& w.wf()
                &&& w.live() == Seq::<Entity>::empty()
                &&& w.next_id() == 0
                &&& w.clock() == 0
                &&& !w.fire_held()
                &&& w.viewport() == bounds_of(width, height)->Ok_0
            }),
    {
        match Bounds::new(width, height) {
            Ok(bounds) => Ok(World { registry: Registry::new(), timer: SpawnTimer::new(), bounds, fire_held: false }),
            Err(e) => Err(e),
        }
    }

    /// A world of `width` by `height` pixels holding the player, centered
    /// horizontally, `350 - height / 2` pixels above the bottom edge.
    pub fn new(width: u32, height: u32) -> (r: Result<World, ConfigError>)
        ensures
            r is Ok <==> bounds_of(width, height) is Ok,
            r is Err ==> r->Err_0 == bounds_of(width, height)->Err_0,
            r is Ok ==> ({
                let w = r->Ok_0;
                &&& w.wf()
                &&& w.live() == seq![Entity {
                    id: 0,
                    tag: Tag::Player,
                    pos: Pos {
                        x: (width * SUBUNITS / 2) as i64,
                        y: (PLAYER_START_RISE - height * SUBUNITS / 2) as i64,
                    },
                }]
                &&& w.next_id() == 1
                &&& w.clock() == 0
                &&& !w.fire_held()
                &&& w.viewport() == bounds_of(width, height)->Ok_0
            }),
    {
        let mut w = World::empty(width, height)?;
        let pos = Pos { x: w.bounds.width / 2, y: PLAYER_START_RISE - w.bounds.height / 2 };
        let _ = w.registry.create(Tag::Player, pos);
        assert(w.registry@ =~= seq![Entity { id: 0, tag: Tag::Player, pos }]);
        Ok(w)
    }

    /// Adds an entity of `tag` at `pos`; see `Registry::create`.
    pub fn spawn(&mut self, tag: Tag, pos: Pos) -> (r: Option<u64>)
        requires
            old(self).wf(),
        ensures
            final(self).wf(),
            (final(self).live(), final(self).next_id()) == created(
                old(self).live(),
                old(self).next_id(),
                tag,
                pos,
            ),
            r == if can_create(old(self).live(), old(self).next_id(), tag) {
                Some(old(self).next_id() as u64)
            } else {
                None
            },
            final(self).clock() == old(self).clock(),
            final(self).viewport() == old(self).viewport(),
            final(self).fire_held() == old(self).fire_held(),
    {
        self.registry.create(tag, pos)
    }

    /// The live entities.
    pub fn entities(&self) -> (r: Vec<Entity>)
        ensures
            r@ == self.live(),
    {
        let n = self.registry.len();
        let mut out: Vec<Entity> = Vec::new();
        let mut i: usize = 0;
        while i < n
            invariant
                n == self.registry@.len(),
                i <= n,
                out@ == self.registry@.take(i as int),
            decreases n - i,
        {
            out.push(self.registry.get(i));
            assert(self.registry@.take(i + 1) =~= self.registry@.take(i as int).push(self.registry@[i as int]));
            i = i + 1;
        }
        assert(self.registry@.take(n as int) =~= self.registry@);
        out
    }

    /// The player, if alive.
    pub fn player(&self) -> (r: Option<Entity>)
        ensures
            r == first_player(self.live()),
    {
        self.registry.player()
    }

    /// Microseconds accumulated toward the next asteroid.
    pub fn spawn_elapsed(&self) -> (r: u64)
        ensures
            r == self.clock(),
    {
        self.timer.elapsed()
    }

    /// The viewport.
    pub fn bounds(&self) -> (r: Bounds)
        ensures
            r == self.viewport(),
    {
        self.bounds
    }

    /// Runs one frame of `dt` microseconds with `input` held, taking `rx` and
    /// `ry` as the random draws for an asteroid spawned this frame: spawns,
    /// then movement, confinement and the two collision scans. Returns the
    /// sounds to play.
    pub fn step(&mut self, input: Input, dt: u32, rx: u32, ry: u32) -> (sounds: Vec<Sound>)
        requires
            old(self).wf(),
        ensures
            final(self).wf(),
            final(self).live() == frame_entities(*old(self), input, dt as nat, rx, ry),
            final(self).next_id() == stage_spawn(*old(self), input, dt as nat, rx, ry).1,
            sounds@ == frame_sounds(*old(self), input, dt as nat, rx, ry),
            final(self).clock() == timer_step(old(self).clock(), dt as nat).1,
            final(self).viewport() == old(self).viewport(),
            final(self).fire_held() == input.fire,
    {
        let ghost w = *self;
        let mut sounds: Vec<Sound> = Vec::new();
        spawn_asteroid(&mut self.registry, &mut self.timer, &self.bounds, dt, rx, ry);
        let edge = input.fire && !self.fire_held;
        self.fire_held = input.fire;
        if spawn_projectile(&mut self.registry, edge) {
            sounds.push(Sound::Laser);
        }
        assert(self.registry@ == stage_spawn(w, input, dt as nat, rx, ry).0);
        integrate(&mut self.registry, &input, dt);
        confine(&mut self.registry, &self.bounds);
        assert(self.registry@ == stage_motion(w, input, dt as nat, rx, ry));
        if resolve_player_hits(&mut self.registry) {
            sounds.push(Sound::Explosion);
        }
        assert(self.registry@ == stage_player(w, input, dt as nat, rx, ry));
        resolve_projectile_hits(&mut self.registry, &mut sounds);
        assert(sounds@ =~= frame_sounds(w, input, dt as nat, rx, ry));
        sounds
    }

    /// Runs one frame as `step` does, drawing the asteroid spawn position at
    /// random.
    pub fn tick(&mut self, input: Input, dt: u32) -> (sounds: Vec<Sound>)
        requires
            old(self).wf(),
        ensures
            final(self).wf(),
            exists|rx: u32, ry: u32|
                {
                    &&& final(self).live() == frame_entities(*old(self), input, dt as nat, rx, ry)
                    &&& final(self).next_id() == stage_spawn(*old(self), input, dt as nat, rx, ry).1
                    &&& sounds@ == frame_sounds(*old(self), input, dt as nat, rx, ry)
                },
            final(self).clock() == timer_step(old(self).clock(), dt as nat).1,
            final(self).viewport() == old(self).viewport(),
            final(self).fire_held() == input.fire,
    {
        let rx: u32 = rand::random::<u32>();
        let ry: u32 = rand::random::<u32>();
        self.step(input, dt, rx, ry)
    }
}

} // verus!
