use vstd::prelude::*;

verus! {

/// What a trail holds after one particle is added: when it is already full,
/// the oldest particle (the first) makes room for the new one, which goes last.
pub open spec fn after_add<P>(particles: Seq<P>, max_particles: nat, particle: P) -> Seq<P> {
    if particles.len() >= max_particles {
        particles.drop_first().push(particle)
    } else {
        particles.push(particle)
    }
}

/// What a trail holds after the particles `added` are added one by one, oldest first.
pub open spec fn after_adds<P>(particles: Seq<P>, max_particles: nat, added: Seq<P>) -> Seq<P>
    decreases added.len(),
{
    if added.len() == 0 {
        particles
    } else {
        after_add(after_adds(particles, max_particles, added.drop_last()), max_particles, added.last())
    }
}

/// The particles of `aged` whose flag in `alive` is set, in their order.
pub open spec fn survivors<P>(aged: Seq<P>, alive: Seq<bool>) -> Seq<P>
    decreases aged.len(),
{
    if aged.len() == 0 {
        Seq::empty()
    } else {
        let rest = survivors(aged.drop_last(), alive.take(aged.len() - 1));
        if alive[aged.len() - 1] {
            rest.push(aged.last())
        } else {
            rest
        }
    }
}

/// A bounded, oldest-first buffer of the particles a moving body leaves behind.
pub struct Trail<P> {
    particles: Vec<P>,
    max_particles: usize,
}

impl<P> Trail<P> {
    #[verifier::type_invariant]
    spec fn within_capacity(self) -> bool {
        self.particles.len() <= self.max_particles
    }

    /// The particles, oldest first.
    pub closed spec fn contents(&self) -> Seq<P> {
        self.particles@
    }

    /// The most particles the trail keeps.
    pub closed spec fn capacity(&self) -> nat {
        self.max_particles as nat
    }

    /// An empty trail that keeps at most `max_particles` particles, with room
    /// for all of them reserved up front.
    pub fn new(max_particles: usize) -> (t: Self)
        ensures
            t.contents() == Seq::<P>::empty(),
            t.capacity() == max_particles,
    {
        Trail { particles: Vec::with_capacity(max_particles), max_particles }
    }

    pub fn len(&self) -> (n: usize)
        ensures
            n == self.contents().len(),
            n <= self.capacity(),
    {
        proof {
            use_type_invariant(self);
        }
        self.particles.len()
    }

    pub fn max_particles(&self) -> (n: usize)
        ensures
            n == self.capacity(),
    {
        self.max_particles
    }

    pub fn particles(&self) -> (ps: &Vec<P>)
        ensures
            ps@ == self.contents(),
    {
        &self.particles
    }

    /// Appends `particle`; on a full trail the oldest particle is dropped first.
    pub fn add_particle(&mut self, particle: P)
        requires
            old(self).capacity() > 0,
        ensures
            final(self).capacity() == old(self).capacity(),
            final(self).contents() == after_add(old(self).contents(), old(self).capacity(), particle),
    {
        proof {
            use_type_invariant(&*self);
        }
        let mut particles = Vec::new();
        std::mem::swap(&mut particles, &mut self.particles);
        if particles.len() >= self.max_particles {
            particles.remove(0);
        }
        particles.push(particle);
        self.particles = particles;
    }
}

impl<P: Copy> Trail<P> {
    /// Replaces each particle by its aged state and keeps, in order, those
    /// whose `alive` flag is set. `aged[i]` and `alive[i]` belong to the
    /// particle at position `i`.
    pub fn update(&mut self, aged: &Vec<P>, alive: &Vec<bool>)
        requires
            aged.len() == old(self).contents().len(),
            alive.len() == aged.len(),
        ensures
            final(self).capacity() == old(self).capacity(),
            final(self).contents() == survivors(aged@, alive@),
    {
        proof {
            use_type_invariant(&*self);
        }
        let n = aged.len();
        let mut kept: Vec<P> = Vec::new();
        let mut i: usize = 0;
        while i < n
            invariant
                n == aged.len(),
                n == alive.len(),
                i <= n,
                kept@ == survivors(aged@.take(i as int), alive@.take(i as int)),
                kept.len() <= i,
            decreases n - i,
        {
            proof {
                lemma_survivors_step(aged@, alive@, i as int);
            }
            if alive[i] {
                kept.push(aged[i]);
            }
            i = i + 1;
        }
        proof {
            assert(aged@.take(n as int) =~= aged@);
            assert(alive@.take(n as int) =~= alive@);
        }
        self.particles = kept;
    }
}

/// One more step of `survivors`: the prefix of length `i + 1` keeps what the
/// prefix of length `i` keeps, and the particle at `i` when it is alive.
proof fn lemma_survivors_step<P>(aged: Seq<P>, alive: Seq<bool>, i: int)
    requires
        0 <= i < aged.len(),
        aged.len() == alive.len(),
    ensures
        survivors(aged.take(i + 1), alive.take(i + 1)) == if alive[i] {
            survivors(aged.take(i), alive.take(i)).push(aged[i])
        } else {
            survivors(aged.take(i), alive.take(i))
        },
{
    assert(aged.take(i + 1).drop_last() =~= aged.take(i));
    assert(alive.take(i + 1).take(i) =~= alive.take(i));
}

/// The newest particles win: starting from any trail contents within the
/// capacity, adding particles one by one leaves exactly the last
/// `max_particles` of the old contents followed by the added ones, in order.
pub proof fn lemma_trail_keeps_newest<P>(particles: Seq<P>, max_particles: nat, added: Seq<P>)
    requires
        max_particles > 0,
        particles.len() <= max_particles,
    ensures
        ({
            let all = particles + added;
            let start = if all.len() > max_particles { all.len() - max_particles } else { 0 };
            after_adds(particles, max_particles, added) == all.subrange(start, all.len() as int)
        }),
        after_adds(particles, max_particles, added).len() <= max_particles,
    decreases added.len(),
{
    let all = particles + added;
    if added.len() == 0 {
        assert(all =~= particles);
        assert(all.subrange(0, all.len() as int) =~= all);
    } else {
        let prev = added.drop_last();
        lemma_trail_keeps_newest(particles, max_particles, prev);
        let all0 = particles + prev;
        let start0 = if all0.len() > max_particles { all0.len() - max_particles } else { 0 };
        let start = if all.len() > max_particles { all.len() - max_particles } else { 0 };
        let t0 = after_adds(particles, max_particles, prev);
        assert(t0 == all0.subrange(start0, all0.len() as int));
        assert(all0 =~= all.drop_last());
        assert(all.last() == added.last());
        assert(after_add(t0, max_particles, added.last()) =~= all.subrange(start, all.len() as int));
    }
}

/// An update never adds particles: the survivors are at most the particles there were.
pub proof fn lemma_survivors_len<P>(aged: Seq<P>, alive: Seq<bool>)
    ensures
        survivors(aged, alive).len() <= aged.len(),
    decreases aged.len(),
{
    if aged.len() > 0 {
        lemma_survivors_len(aged.drop_last(), alive.take(aged.len() - 1));
    }
}

/// When every particle is alive, an update keeps all of them, in order;
/// when none is, it empties the trail.
pub proof fn lemma_survivors_all_or_none<P>(aged: Seq<P>, alive: Seq<bool>)
    requires
        aged.len() == alive.len(),
    ensures
        (forall|i: int| 0 <= i < alive.len() ==> alive[i]) ==> survivors(aged, alive) == aged,
        (forall|i: int| 0 <= i < alive.len() ==> !alive[i]) ==> survivors(aged, alive) == Seq::<P>::empty(),
    decreases aged.len(),
{
    if aged.len() > 0 {
        let n = aged.len() - 1;
        lemma_survivors_all_or_none(aged.drop_last(), alive.take(n));
        assert(aged.drop_last().push(aged.last()) =~= aged);
    }
}

} // verus!
