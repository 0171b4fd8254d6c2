use vstd::prelude::*;
use crate::effects::{explosions, lemma_explosions_push, Sound};
use crate::geometry::{is_within, within, PLAYER_SIZE, PROJECTILE_HIT_RANGE};
use crate::registry::{Entity, Registry, Tag};

verus! {

/// The entity at `i` is the player and the one at `j` an asteroid closer to
/// it than the player's size.
pub open spec fn player_hit(s: Seq<Entity>, i: int, j: int) -> bool {
    &&& s[i].tag == Tag::Player
    &&& s[j].tag == Tag::Asteroid
    &&& within(s[i].pos, s[j].pos, PLAYER_SIZE as int)
}

/// Some asteroid of `s` hits the player.
pub open spec fn player_struck(s: Seq<Entity>) -> bool {
    exists|i: int, j: int| 0 <= i < s.len() && 0 <= j < s.len() && #[trigger] player_hit(s, i, j)
}

/// `a` is an asteroid and `p` a projectile closer to it than the hit range.
pub open spec fn partners(a: Entity, p: Entity) -> bool {
    &&& a.tag == Tag::Asteroid
    &&& p.tag == Tag::Projectile
    &&& within(a.pos, p.pos, PROJECTILE_HIT_RANGE as int)
}

/// `e` is an asteroid or a projectile that collides with some entity of `s`.
pub open spec fn shot_down(e: Entity, s: Seq<Entity>) -> bool {
    exists|k: int| 0 <= k < s.len() && (partners(e, #[trigger] s[k]) || partners(s[k], e))
}

/// Number of the first `j` entities of `s` that are projectiles hitting `a`.
pub open spec fn hits_upto(s: Seq<Entity>, a: Entity, j: int) -> nat
    decreases j,
{
    if j <= 0 {
        0
    } else {
        hits_upto(s, a, j - 1) + if partners(a, s[j - 1]) {
            1nat
        } else {
            0nat
        }
    }
}

/// Number of colliding asteroid-projectile pairs whose asteroid is among the
/// first `i` entities of `s`.
pub open spec fn pairs_upto(s: Seq<Entity>, i: int) -> nat
    decreases i,
{
    if i <= 0 {
        0
    } else {
        pairs_upto(s, i - 1) + hits_upto(s, s[i - 1], s.len() as int)
    }
}

/// Number of colliding asteroid-projectile pairs in `s`.
pub open spec fn hit_pairs(s: Seq<Entity>) -> nat {
    pairs_upto(s, s.len() as int)
}

/// Whether `a` is an asteroid and `p` a projectile within hit range of it.
pub fn is_partner(a: &Entity, p: &Entity) -> (r: bool)
    ensures
        r == partners(*a, *p),
{
    a.tag == Tag::Asteroid && p.tag == Tag::Projectile && is_within(a.pos, p.pos, PROJECTILE_HIT_RANGE)
}

/// Destroys the player if any asteroid is within the player's size of it;
/// returns whether it did. The player dies once, so one explosion is due
/// however many asteroids overlap it.
pub fn resolve_player_hits(reg: &mut Registry) -> (died: bool)
    requires
        old(reg).wf(),
    ensures
        final(reg).wf(),
        final(reg).next_id() == old(reg).next_id(),
        died == player_struck(old(reg)@),
        final(reg)@ == if died {
            old(reg)@.filter(|e: Entity| e.tag != Tag::Player)
        } else {
            old(reg)@
        },
{
    let ghost s = reg@;
    let n = reg.len();
    let mut found = false;
    let mut i: usize = 0;
    while i < n
        invariant
            s == reg@,
            n == s.len(),
            i <= n,
            found == exists|a: int, b: int| 0 <= a < i && 0 <= b < n && #[trigger] player_hit(s, a, b),
        decreases n - i,
    {
        let p = reg.get(i);
        let mut hit = false;
        if p.tag == Tag::Player {
            let mut j: usize = 0;
            while j < n
                invariant
                    s == reg@,
                    n == s.len(),
                    i < n,
                    j <= n,
                    p == s[i as int],
                    p.tag == Tag::Player,
                    hit == exists|b: int| 0 <= b < j && #[trigger] player_hit(s, i as int, b),
                decreases n - j,
            {
                let q = reg.get(j);
                if q.tag == Tag::Asteroid && is_within(p.pos, q.pos, PLAYER_SIZE) {
                    assert(player_hit(s, i as int, j as int));
                    hit = true;
                }
                j = j + 1;
            }
        }
        proof {
            if hit {
                let b = choose|b: int| 0 <= b < n && #[trigger] player_hit(s, i as int, b);
                assert(player_hit(s, i as int, b));
            }
            if exists|a: int, b: int| 0 <= a < i + 1 && 0 <= b < n && #[trigger] player_hit(s, a, b) {
                let (a, b) = choose|a: int, b: int| 0 <= a < i + 1 && 0 <= b < n && #[trigger] player_hit(s, a, b);
                if a < i {
                    assert(player_hit(s, a, b));
                } else {
                    assert(player_hit(s, i as int, b));
                }
            }
        }
        found = found || hit;
        i = i + 1;
    }
    if found {
        let mut marks: Vec<bool> = Vec::new();
        let mut k: usize = 0;
        while k < n
            invariant
                s == reg@,
                n == s.len(),
                k <= n,
                marks@.len() == k,
                forall|m: int| 0 <= m < k ==> marks@[m] == ((#[trigger] s[m]).tag == Tag::Player),
            decreases n - k,
        {
            marks.push(reg.get(k).tag == Tag::Player);
            k = k + 1;
        }
        let ghost doomed = |e: Entity| e.tag == Tag::Player;
        reg.remove_marked(&marks, Ghost(doomed));
        assert((|e: Entity| !doomed(e)) =~= (|e: Entity| e.tag != Tag::Player));
    }
    found
}

/// Destroys every asteroid and projectile that collides with one of the
/// other kind, and plays one explosion per colliding pair. Destruction takes
/// effect after the whole scan, so a projectile may bring down several
/// asteroids in one frame, as an asteroid may stop several projectiles.
pub fn resolve_projectile_hits(reg: &mut Registry, sounds: &mut Vec<Sound>)
    requires
        old(reg).wf(),
    ensures
        final(reg).wf(),
        final(reg).next_id() == old(reg).next_id(),
        final(reg)@ == old(reg)@.filter(|e: Entity| !shot_down(e, old(reg)@)),
        final(sounds)@ == old(sounds)@ + explosions(hit_pairs(old(reg)@)),
{
    let ghost s = reg@;
    let ghost base = sounds@;
    let n = reg.len();
    let mut marks: Vec<bool> = Vec::new();
    let mut i: usize = 0;
    assert(base + explosions(0) =~= base);
    while i < n
        invariant
            s == reg@,
            n == s.len(),
            i <= n,
            marks@.len() == i,
            forall|m: int| 0 <= m < i ==> marks@[m] == shot_down(#[trigger] s[m], s),
            sounds@ == base + explosions(pairs_upto(s, i as int)),
        decreases n - i,
    {
        let e = reg.get(i);
        let mut flag = false;
        let mut j: usize = 0;
        while j < n
            invariant
                s == reg@,
                n == s.len(),
                i < n,
                j <= n,
                e == s[i as int],
                flag == exists|k: int| 0 <= k < j && (partners(e, #[trigger] s[k]) || partners(s[k], e)),
                sounds@ == base + explosions(pairs_upto(s, i as int) + hits_upto(s, e, j as int)),
            decreases n - j,
        {
            let q = reg.get(j);
            if is_partner(&e, &q) {
                proof {
                    lemma_explosions_push(base, pairs_upto(s, i as int) + hits_upto(s, e, j as int));
                }
                sounds.push(Sound::Explosion);
            }
            let b = is_partner(&e, &q) || is_partner(&q, &e);
            proof {
                if b {
                    assert(partners(e, s[j as int]) || partners(s[j as int], e));
                }
            }
            flag = flag || b;
            j = j + 1;
        }
        marks.push(flag);
        i = i + 1;
    }
    let ghost doomed = |e: Entity| shot_down(e, s);
    reg.remove_marked(&marks, Ghost(doomed));
    assert((|e: Entity| !doomed(e)) =~= (|e: Entity| !shot_down(e, s)));
}

} // verus!
