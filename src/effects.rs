use vstd::prelude::*;

verus! {

/// A sound the frame asks the audio collaborator to play.
#[derive(Clone, Copy, Debug, PartialEq, Eq, Structural)]
pub enum Sound {
    Laser,
    Explosion,
}

/// `n` explosions in a row.
pub open spec fn explosions(n: nat) -> Seq<Sound> {
    Seq::new(n, |_i: int| Sound::Explosion)
}

/// One more explosion at the end.
pub proof fn lemma_explosions_push(base: Seq<Sound>, n: nat)
    ensures
        (base + explosions(n)).push(Sound::Explosion) == base + explosions(n + 1),
{
    assert((base + explosions(n)).push(Sound::Explosion) =~= base + explosions(n + 1));
}

} // verus!
