use vstd::prelude::*;
use crate::geometry::Pos;

verus! {

broadcast use vstd::seq_lib::group_filter_ensures;

/// What an entity is; fixed when it is created.
#[derive(Clone, Copy, Debug, PartialEq, Eq, Structural)]
pub enum Tag {
    Player,
    Projectile,
    Asteroid,
}

/// One live entity: a stable id, its tag and where it is.
#[derive(Clone, Copy, Debug, PartialEq, Eq, Structural)]
pub struct Entity {
    pub id: u64,
    pub tag: Tag,
    pub pos: Pos,
}

/// Number of player entities in `s`.
pub open spec fn players(s: Seq<Entity>) -> nat
    decreases s.len(),
{
    if s.len() == 0 {
        0
    } else {
        players(s.drop_last()) + if s.last().tag == Tag::Player {
            1nat
        } else {
            0nat
        }
    }
}

/// Some entity of `s` is a player.
pub open spec fn has_player(s: Seq<Entity>) -> bool {
    exists|i: int| 0 <= i < s.len() && (#[trigger] s[i]).tag == Tag::Player
}

/// The first player of `s`, if any.
pub open spec fn first_player(s: Seq<Entity>) -> Option<Entity>
    decreases s.len(),
{
    if s.len() == 0 {
        None
    } else if s[0].tag == Tag::Player {
        Some(s[0])
    } else {
        first_player(s.subrange(1, s.len() as int))
    }
}

/// Every id in `s` is below `next`, so `next` and all later ids are fresh.
pub open spec fn ids_below(s: Seq<Entity>, next: nat) -> bool {
    forall|i: int| 0 <= i < s.len() ==> (#[trigger] s[i]).id < next
}

/// Whether `create` makes an entity of `tag`: ids are not used up, and a
/// second player is never made.
pub open spec fn can_create(s: Seq<Entity>, next: nat, tag: Tag) -> bool {
    next < u64::MAX && !(tag == Tag::Player && has_player(s))
}

/// The entities and next id after a request to create an entity.
pub open spec fn created(s: Seq<Entity>, next: nat, tag: Tag, pos: Pos) -> (Seq<Entity>, nat) {
    if can_create(s, next, tag) {
        (s.push(Entity { id: next as u64, tag, pos }), next + 1)
    } else {
        (s, next)
    }
}

/// No player is counted exactly when none is present.
pub proof fn lemma_players_none(s: Seq<Entity>)
    ensures
        players(s) == 0 <==> !has_player(s),
    decreases s.len(),
{
    if s.len() > 0 {
        let t = s.drop_last();
        lemma_players_none(t);
        if has_player(t) {
            let i = choose|i: int| 0 <= i < t.len() && (#[trigger] t[i]).tag == Tag::Player;
            assert(s[i] == t[i]);
        }
        if has_player(s) {
            let i = choose|i: int| 0 <= i < s.len() && (#[trigger] s[i]).tag == Tag::Player;
            if i < t.len() {
                assert(t[i] == s[i]);
            }
        }
    }
}

/// Appending an entity counts it if it is a player.
pub proof fn lemma_players_push(s: Seq<Entity>, e: Entity)
    ensures
        players(s.push(e)) == players(s) + if e.tag == Tag::Player {
            1nat
        } else {
            0nat
        },
{
    assert(s.push(e).drop_last() =~= s);
}

/// Filtering never adds players.
pub proof fn lemma_players_filter(s: Seq<Entity>, keep: spec_fn(Entity) -> bool)
    ensures
        players(s.filter(keep)) <= players(s),
    decreases s.len(),
{
    reveal(Seq::filter);
    if s.len() > 0 {
        lemma_players_filter(s.drop_last(), keep);
        if keep(s.last()) {
            lemma_players_push(s.drop_last().filter(keep), s.last());
        }
    }
}

/// Replacing an entity by one of the same tag keeps the count.
pub proof fn lemma_players_update(s: Seq<Entity>, i: int, e: Entity)
    requires
        0 <= i < s.len(),
        s[i].tag == e.tag,
    ensures
        players(s.update(i, e)) == players(s),
    decreases s.len(),
{
    let u = s.update(i, e);
    if i == s.len() - 1 {
        assert(u.drop_last() =~= s.drop_last());
    } else {
        assert(u.drop_last() =~= s.drop_last().update(i, e));
        lemma_players_update(s.drop_last(), i, e);
    }
}

/// The set of live entities, owner of every entity record.
pub struct Registry {
    entities: Vec<Entity>,
    next_id: u64,
}

impl View for Registry {
    type V = Seq<Entity>;

    closed spec fn view(&self) -> Seq<Entity> {
        self.entities@
    }
}

impl Registry {
    /// The id that the next created entity gets.
    pub closed spec fn next_id(&self) -> nat {
        self.next_id as nat
    }

    /// Ids are fresh and at most one player exists.
    pub open spec fn wf(&self) -> bool {
        &&& ids_below(self@, self.next_id())
        &&& players(self@) <= 1
        &&& self.next_id() <= u64::MAX
    }

    /// An empty registry.
    pub fn new() -> (r: Registry)
        ensures
            r.wf(),
            r@ == Seq::<Entity>::empty(),
            r.next_id() == 0,
    {
        Registry { entities: Vec::new(), next_id: 0 }
    }

    /// Number of live entities.
    pub fn len(&self) -> (n: usize)
        ensures
            n == self@.len(),
    {
        self.entities.len()
    }

    /// The entity at index `i` of the live set.
    pub fn get(&self, i: usize) -> (e: Entity)
        requires
            i < self@.len(),
        ensures
            e == self@[i as int],
    {
        self.entities[i]
    }

    /// Moves the entity at index `i` to `pos`.
    pub fn set_pos(&mut self, i: usize, pos: Pos)
        requires
            old(self).wf(),
            i < old(self)@.len(),
    ensures
            final(self).wf(),
            final(self)@ == old(self)@.update(i as int, Entity { pos, ..old(self)@[i as int] }),
            final(self).next_id() == old(self).next_id(),
    {
        let e = self.entities[i];
        let ne = Entity { pos, ..e };
        proof {
            lemma_players_update(self@, i as int, ne);
        }
        self.entities.set(i, ne);
        assert(ids_below(self@, self.next_id())) by {
            assert forall|k: int| 0 <= k < self@.len() implies (#[trigger] self@[k]).id < self.next_id() by {
                assert(k == i || self@[k] == old(self)@[k]);
            }
        }
    }

    /// The first player, if one is alive.
    pub fn player(&self) -> (r: Option<Entity>)
        ensures
            r == first_player(self@),
            r is None <==> !has_player(self@),
    {
        let n = self.entities.len();
        let mut i: usize = 0;
        assert(self@.subrange(0, n as int) =~= self@);
        while i < n
            invariant
                n == self@.len(),
                i <= n,
                forall|k: int| 0 <= k < i ==> (#[trigger] self@[k]).tag != Tag::Player,
                first_player(self@) == first_player(self@.subrange(i as int, n as int)),
            decreases n - i,
        {
            let e = self.entities[i];
            let ghost rest = self@.subrange(i as int, n as int);
            assert(rest[0] == e);
            if e.tag == Tag::Player {
                return Some(e);
            }
            assert(rest.subrange(1, rest.len() as int) =~= self@.subrange(i + 1, n as int));
            i = i + 1;
        }
        None
    }

    /// Creates an entity of `tag` at `pos` and returns its id; `None` where
    /// `tag` is `Player` and a player is alive, or the ids are used up.
    pub fn create(&mut self, tag: Tag, pos: Pos) -> (r: Option<u64>)
        requires
            old(self).wf(),
        ensures
            final(self).wf(),
            (final(self)@, final(self).next_id()) == created(old(self)@, old(self).next_id(), tag, pos),
            r == if can_create(old(self)@, old(self).next_id(), tag) {
                Some(old(self).next_id() as u64)
            } else {
                None
            },
    {
        if self.next_id == u64::MAX {
            return None;
        }
        if tag == Tag::Player && self.player().is_some() {
            return None;
        }
        let id = self.next_id;
        let e = Entity { id, tag, pos };
        proof {
            lemma_players_push(self@, e);
            if tag == Tag::Player {
                lemma_players_none(self@);
            }
        }
        self.entities.push(e);
        self.next_id = id + 1;
        Some(id)
    }

    /// Removes every entity at an index whose mark is set; `doomed` says in
    /// words of the entity which ones those are.
    pub fn remove_marked(&mut self, marks: &Vec<bool>, Ghost(doomed): Ghost<spec_fn(Entity) -> bool>)
        requires
            old(self).wf(),
            marks@.len() == old(self)@.len(),
            forall|i: int| 0 <= i < marks@.len() ==> marks@[i] == doomed(#[trigger] old(self)@[i]),
        ensures
            final(self).wf(),
            final(self)@ == old(self)@.filter(|e: Entity| !doomed(e)),
            final(self).next_id() == old(self).next_id(),
    {
        let ghost s = self@;
        let ghost keep = |e: Entity| !doomed(e);
        let n = self.entities.len();
        let mut out: Vec<Entity> = Vec::new();
        let mut i: usize = 0;
        while i < n
            invariant
                n == s.len(),
                s == self@,
                i <= n,
                marks@.len() == n,
                forall|k: int| 0 <= k < n ==> marks@[k] == doomed(#[trigger] s[k]),
                out@ == s.take(i as int).filter(keep),
                ids_below(s, self.next_id()),
                ids_below(out@, self.next_id()),
                keep == (|e: Entity| !doomed(e)),
            decreases n - i,
        {
            let e = self.entities[i];
            assert(s.take(i + 1).drop_last() =~= s.take(i as int));
            assert(s.take(i + 1).last() == e);
            assert(e == s[i as int]);
            assert(marks@[i as int] == doomed(s[i as int]));
            reveal(Seq::filter);
            if !marks[i] {
                out.push(e);
            }
            i = i + 1;
        }
        assert(s.take(n as int) =~= s);
        assert(out@ == s.filter(keep));
        proof {
            lemma_players_filter(s, keep);
        }
        self.entities = out;
    }

    /// Removes the entity with id `id`; nothing happens where there is none.
    pub fn destroy(&mut self, id: u64)
        requires
            old(self).wf(),
        ensures
            final(self).wf(),
            final(self)@ == old(self)@.filter(|e: Entity| e.id != id),
            final(self).next_id() == old(self).next_id(),
    {
        let n = self.entities.len();
        let mut marks: Vec<bool> = Vec::new();
        let mut i: usize = 0;
        while i < n
            invariant
                n == self@.len(),
                i <= n,
                marks@.len() == i,
                forall|k: int| 0 <= k < i ==> marks@[k] == ((#[trigger] self@[k]).id == id),
            decreases n - i,
        {
            marks.push(self.entities[i].id == id);
            i = i + 1;
        }
        let ghost doomed = |e: Entity| e.id == id;
        self.remove_marked(&marks, Ghost(doomed));
        assert((|e: Entity| !doomed(e)) =~= (|e: Entity| e.id != id));
    }
}

} // verus!
