use vstd::prelude::*;
use crate::geometry::{lemma_diagonal_zero, HALF_PLAYER_SIZE};
use crate::motion::{confined, moved, Bounds, Input};
use crate::registry::{first_player, has_player, Entity, Tag};
use crate::spawn::{fire_edge, timer_step, SPAWN_INTERVAL};
use crate::world::{laser_due, stage_asteroid, stage_motion, stage_spawn, World};

verus! {

/// Sum of the frame times `dts`, in microseconds.
pub open spec fn total(dts: Seq<u32>) -> nat
    decreases dts.len(),
{
    if dts.len() == 0 {
        0
    } else {
        dts[0] as nat + total(dts.drop_first())
    }
}

/// The spawn timer run from `elapsed` over the frame times `dts`: what it
/// holds at the end, and how many times it fired.
pub open spec fn run_timer(elapsed: nat, dts: Seq<u32>) -> (nat, nat)
    decreases dts.len(),
{
    if dts.len() == 0 {
        (elapsed, 0)
    } else {
        let (fired, next) = timer_step(elapsed, dts[0] as nat);
        let (end, count) = run_timer(next, dts.drop_first());
        (end, count + if fired { 1nat } else { 0nat })
    }
}

/// Number of rising fire edges over `presses`, one frame each, starting with
/// fire held as `held`.
pub open spec fn edges(held: bool, presses: Seq<bool>) -> nat
    decreases presses.len(),
{
    if presses.len() == 0 {
        0
    } else {
        (if fire_edge(held, presses[0]) { 1nat } else { 0nat }) + edges(presses[0], presses.drop_first())
    }
}

/// With zero elapsed time, movement leaves every entity where it was.
pub proof fn lemma_zero_time_no_motion(s: Seq<Entity>, input: Input)
    ensures
        s.map_values(|e: Entity| moved(e, input, 0)) == s,
{
    lemma_diagonal_zero();
    assert forall|k: int| 0 <= k < s.len() implies moved(s[k], input, 0) == s[k] by {
        let e = s[k];
        assert(e.pos.x + 0 == e.pos.x);
    }
    assert(s.map_values(|e: Entity| moved(e, input, 0)) =~= s);
}

/// After confinement the player lies in `[32, width - 32] x [32, height - 32]`
/// pixels, wherever it was before.
pub proof fn lemma_confined_in_viewport(e: Entity, b: Bounds)
    requires
        b.wf(),
        e.tag == Tag::Player,
    ensures
        HALF_PLAYER_SIZE <= confined(e, b).pos.x <= b.width - HALF_PLAYER_SIZE,
        HALF_PLAYER_SIZE <= confined(e, b).pos.y <= b.height - HALF_PLAYER_SIZE,
{
}

/// After the confinement stage of a frame, every player lies in the viewport.
pub proof fn lemma_frame_player_in_viewport(w: World, input: Input, dt: nat, rx: u32, ry: u32)
    requires
        w.viewport().wf(),
    ensures
        forall|k: int|
            0 <= k < stage_motion(w, input, dt, rx, ry).len() && (#[trigger] stage_motion(
                w,
                input,
                dt,
                rx,
                ry,
            )[k]).tag == Tag::Player ==> {
                let p = stage_motion(w, input, dt, rx, ry)[k].pos;
                &&& HALF_PLAYER_SIZE <= p.x <= w.viewport().width - HALF_PLAYER_SIZE
                &&& HALF_PLAYER_SIZE <= p.y <= w.viewport().height - HALF_PLAYER_SIZE
            },
{
    let s = stage_motion(w, input, dt, rx, ry);
    let m = stage_spawn(w, input, dt, rx, ry).0.map_values(|e: Entity| moved(e, input, dt));
    assert forall|k: int| 0 <= k < s.len() && (#[trigger] s[k]).tag == Tag::Player implies {
        &&& HALF_PLAYER_SIZE <= s[k].pos.x <= w.viewport().width - HALF_PLAYER_SIZE
        &&& HALF_PLAYER_SIZE <= s[k].pos.y <= w.viewport().height - HALF_PLAYER_SIZE
    } by {
        assert(s[k] == confined(m[k], w.viewport()));
        lemma_confined_in_viewport(m[k], w.viewport());
    }
}

proof fn lemma_idle_timer(dts: Seq<u32>)
    requires
        total(dts) == 0,
    ensures
        run_timer(0, dts) == (0nat, 0nat),
    decreases dts.len(),
{
    if dts.len() > 0 {
        lemma_idle_timer(dts.drop_first());
    }
}

proof fn lemma_timer_reaches_interval(elapsed: nat, dts: Seq<u32>)
    requires
        elapsed < SPAWN_INTERVAL,
        elapsed + total(dts) == SPAWN_INTERVAL,
    ensures
        run_timer(elapsed, dts) == (0nat, 1nat),
    decreases dts.len(),
{
    let rest = dts.drop_first();
    if elapsed + dts[0] >= SPAWN_INTERVAL {
        lemma_idle_timer(rest);
    } else {
        lemma_timer_reaches_interval(elapsed + dts[0] as nat, rest);
    }
}

/// Frames whose times add up to exactly one spawn interval, from a fresh
/// timer, fire it exactly once (so one asteroid is spawned), and leave it at
/// zero rather than at any overage.
pub proof fn lemma_interval_fires_once(dts: Seq<u32>)
    requires
        total(dts) == SPAWN_INTERVAL,
    ensures
        run_timer(0, dts) == (0nat, 1nat),
{
    lemma_timer_reaches_interval(0, dts);
}

proof fn lemma_held_no_edges(presses: Seq<bool>)
    requires
        forall|i: int| 0 <= i < presses.len() ==> presses[i],
    ensures
        edges(true, presses) == 0,
    decreases presses.len(),
{
    if presses.len() > 0 {
        lemma_held_no_edges(presses.drop_first());
    }
}

/// Holding fire over any number of frames, from released, gives one rising
/// edge, on the first frame; a frame whose fire was already held shoots
/// nothing.
pub proof fn lemma_held_fire_shoots_once(presses: Seq<bool>, w: World, input: Input, dt: nat, rx: u32, ry: u32)
    requires
        presses.len() >= 1,
        forall|i: int| 0 <= i < presses.len() ==> presses[i],
    ensures
        edges(false, presses) == 1,
        w.fire_held() && input.fire ==> !laser_due(w, input, dt, rx, ry),
{
    lemma_held_no_edges(presses.drop_first());
}

proof fn lemma_first_player_none(s: Seq<Entity>)
    ensures
        first_player(s) is None <==> !has_player(s),
    decreases s.len(),
{
    if s.len() > 0 && s[0].tag != Tag::Player {
        let t = s.subrange(1, s.len() as int);
        lemma_first_player_none(t);
        if has_player(s) {
            let i = choose|i: int| 0 <= i < s.len() && (#[trigger] s[i]).tag == Tag::Player;
            assert(t[i - 1] == s[i]);
        }
        if has_player(t) {
            let i = choose|i: int| 0 <= i < t.len() && (#[trigger] t[i]).tag == Tag::Player;
            assert(s[i + 1] == t[i]);
        }
    } else if s.len() > 0 {
        assert(s[0].tag == Tag::Player);
        assert(has_player(s));
    }
}

/// Without a player, firing creates no projectile and plays no laser sound.
pub proof fn lemma_no_player_no_shot(w: World, input: Input, dt: nat, rx: u32, ry: u32)
    requires
        !has_player(w.live()),
    ensures
        !laser_due(w, input, dt, rx, ry),
        stage_spawn(w, input, dt, rx, ry) == stage_asteroid(w, dt, rx, ry),
{
    let s = stage_asteroid(w, dt, rx, ry).0;
    assert(!has_player(s)) by {
        if has_player(s) {
            let i = choose|i: int| 0 <= i < s.len() && (#[trigger] s[i]).tag == Tag::Player;
            assert(i < w.live().len() && s[i] == w.live()[i]);
        }
    }
    lemma_first_player_none(s);
}

} // verus!
