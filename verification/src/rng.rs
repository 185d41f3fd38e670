//! The seeded pseudo-random source that drives every permutation.
//!
//! The generator is a 128-bit xorshift: four 32-bit words of state, advanced
//! by shifts and exclusive-ors.  Every draw is a pure function of the state,
//! so a run is reproducible from its seed alone; the contracts below pin each
//! operation down exactly, which is what makes the reproducibility of the
//! whole transformation provable.

use vstd::prelude::*;

verus! {

/// State word used in place of an all-zero seed: the xorshift recurrence maps
/// the zero state to itself, so it must never be used.
pub const SEED_FALLBACK_WORD: u32 = 0x0BAD5EED;

/// 2^64, the divisor that maps a 64-bit draw times a bound down to an index
/// below the bound.
pub const INDEX_DIVISOR: u128 = 0x1_0000_0000_0000_0000;

/// A 128-bit xorshift pseudo-random generator.  The state is plain data and
/// every operation is deterministic, so two generators seeded alike yield the
/// same draw sequence.
#[derive(Clone, Copy, Debug, PartialEq, Eq, Structural)]
pub struct XorShiftRng {
    pub x: u32,
    pub y: u32,
    pub z: u32,
    pub w: u32,
}

/// The xorshift128 step: the state after one draw.
pub open spec fn spec_step(s: XorShiftRng) -> XorShiftRng {
    let t = s.x ^ (s.x << 11);
    XorShiftRng { x: s.y, y: s.z, z: s.w, w: s.w ^ (s.w >> 19) ^ (t ^ (t >> 8)) }
}

/// One 32-bit draw: the drawn value and the state after it.
pub open spec fn spec_next32(s: XorShiftRng) -> (u32, XorShiftRng) {
    let s2 = spec_step(s);
    (s2.w, s2)
}

/// One 64-bit draw: two 32-bit draws, the first the low half.
pub open spec fn spec_next64(s: XorShiftRng) -> (u64, XorShiftRng) {
    let (lo, s1) = spec_next32(s);
    let (hi, s2) = spec_next32(s1);
    ((((hi as u64) << 32) | (lo as u64)) as u64, s2)
}

/// One index draw in `[0, bound)`: a 64-bit draw scaled down by a widening
/// multiply, so every index below the bound can come out.
pub open spec fn spec_gen_index(s: XorShiftRng, bound: usize) -> (usize, XorShiftRng) {
    let (v, s2) = spec_next64(s);
    ((((v as int) * (bound as int)) / (INDEX_DIVISOR as int)) as usize, s2)
}

/// The state seeded from a 128-bit seed: the four words of the seed, most
/// significant first; a zero seed falls back to a fixed nonzero state.
pub open spec fn spec_from_seed(seed: u128) -> XorShiftRng {
    if seed == 0 {
        XorShiftRng {
            x: SEED_FALLBACK_WORD,
            y: SEED_FALLBACK_WORD,
            z: SEED_FALLBACK_WORD,
            w: SEED_FALLBACK_WORD,
        }
    } else {
        XorShiftRng {
            x: (seed >> 96) as u32,
            y: (seed >> 64) as u32,
            z: (seed >> 32) as u32,
            w: seed as u32,
        }
    }
}

impl XorShiftRng {
    /// Seeds a generator from a numeric seed, deterministically.
    pub fn from_seed(seed: u128) -> (r: Self)
        ensures
            r == spec_from_seed(seed),
    {
        if seed == 0 {
            XorShiftRng {
                x: SEED_FALLBACK_WORD,
                y: SEED_FALLBACK_WORD,
                z: SEED_FALLBACK_WORD,
                w: SEED_FALLBACK_WORD,
            }
        } else {
            XorShiftRng {
                x: #[verifier::truncate] ((seed >> 96) as u32),
                y: #[verifier::truncate] ((seed >> 64) as u32),
                z: #[verifier::truncate] ((seed >> 32) as u32),
                w: #[verifier::truncate] (seed as u32),
            }
        }
    }

    /// Draws 32 bits and advances the state.
    pub fn next_u32(&mut self) -> (r: u32)
        ensures
            r == spec_next32(*old(self)).0,
            *final(self) == spec_next32(*old(self)).1,
    {
        let x = self.x;
        let t = x ^ (x << 11u32);
        self.x = self.y;
        self.y = self.z;
        self.z = self.w;
        let w = self.w;
        self.w = w ^ (w >> 19u32) ^ (t ^ (t >> 8u32));
        self.w
    }

    /// Draws 64 bits as two 32-bit draws, low half first.
    pub fn next_u64(&mut self) -> (r: u64)
        ensures
            r == spec_next64(*old(self)).0,
            *final(self) == spec_next64(*old(self)).1,
    {
        let lo = self.next_u32();
        let hi = self.next_u32();
        ((hi as u64) << 32u64) | (lo as u64)
    }

    /// Draws an index in `[0, bound)`.
    pub fn gen_index(&mut self, bound: usize) -> (r: usize)
        requires
            1 <= bound,
        ensures
            r == spec_gen_index(*old(self), bound).0,
            *final(self) == spec_gen_index(*old(self), bound).1,
            r < bound,
    {
        let v = self.next_u64();
        proof {
            assert((v as u128) * (bound as u128) <= u128::MAX) by (nonlinear_arith)
                requires
                    v <= u64::MAX,
                    bound <= u64::MAX,
            ;
        }
        let prod: u128 = (v as u128) * (bound as u128);
        let q: u128 = prod / INDEX_DIVISOR;
        proof {
            assert(prod < INDEX_DIVISOR * (bound as u128)) by (nonlinear_arith)
                requires
                    prod == (v as u128) * (bound as u128),
                    v < INDEX_DIVISOR,
                    bound >= 1,
            ;
            assert(q < bound) by (nonlinear_arith)
                requires
                    q == prod / INDEX_DIVISOR,
                    prod < INDEX_DIVISOR * (bound as u128),
                    INDEX_DIVISOR > 0,
            ;
        }
        #[verifier::truncate] (q as usize)
    }
}


/// The sequence with the values at `a` and `b` exchanged.
pub open spec fn spec_swap<T>(s: Seq<T>, a: int, b: int) -> Seq<T> {
    s.update(a, s[b]).update(b, s[a])
}

/// The tail of the shuffle, from position `i` down: each position from `i`
/// down to 1 exchanges its value with the one at a drawn index at or below
/// it.
pub open spec fn spec_shuffle_from<T>(s: Seq<T>, rng: XorShiftRng, i: nat) -> (Seq<T>, XorShiftRng)
    decreases i,
{
    if i < 1 {
        (s, rng)
    } else {
        let (j, rng2) = spec_gen_index(rng, (i + 1) as usize);
        spec_shuffle_from(spec_swap(s, i as int, j as int), rng2, (i - 1) as nat)
    }
}

/// The shuffle of a whole sequence: the standard in-place exchange shuffle,
/// run from the last position down to the second.
pub open spec fn spec_shuffle<T>(s: Seq<T>, rng: XorShiftRng) -> (Seq<T>, XorShiftRng) {
    if s.len() == 0 {
        (s, rng)
    } else {
        spec_shuffle_from(s, rng, (s.len() - 1) as nat)
    }
}

/// Exchanges the values at positions `a` and `b` of the vector.
fn vec_swap<T>(v: &mut Vec<T>, a: usize, b: usize)
    requires
        a < b,
        b < old(v).len(),
    ensures
        final(v)@ == spec_swap(old(v)@, a as int, b as int),
{
    let ghost s = old(v)@;
    let x = v.remove(b);
    let mut tmp = x;
    v.set_and_swap(a, &mut tmp);
    v.insert(b, tmp);
    proof {
        let t = spec_swap(s, a as int, b as int);
        assert forall|k: int| 0 <= k < s.len() implies v@[k] == t[k] by {
            assert(v@[k] == s.remove(b as int).update(a as int, s[b as int]).insert(
                b as int,
                s[a as int],
            )[k]);
        }
        assert(v@ =~= t);
    }
}

impl XorShiftRng {
    /// Shuffles the vector in place, consuming one index draw for each
    /// position from the last down to the second.
    pub fn shuffle<T>(&mut self, v: &mut Vec<T>)
        ensures
            final(v)@ == spec_shuffle(old(v)@, *old(self)).0,
            *final(self) == spec_shuffle(old(v)@, *old(self)).1,
    {
        let ghost s0 = old(v)@;
        let ghost r0 = *old(self);
        let n = v.len();
        if n <= 1 {
            return;
        }
        let mut i: usize = n - 1;
        while i >= 1
            invariant
                1 <= n == s0.len(),
                0 <= i < n,
                v@.len() == n,
                spec_shuffle_from(v@, *self, i as nat) == spec_shuffle(s0, r0),
            decreases i,
        {
            let ghost s_in = v@;
            let ghost r_in = *self;
            let j = self.gen_index(i + 1);
            if j < i {
                vec_swap(v, j, i);
                proof {
                    assert(spec_swap(s_in, j as int, i as int) =~= spec_swap(
                        s_in,
                        i as int,
                        j as int,
                    ));
                }
            } else {
                proof {
                    assert(spec_swap(s_in, i as int, j as int) =~= s_in);
                }
            }
            proof {
                assert(v@ == spec_swap(s_in, i as int, j as int));
                assert(spec_shuffle_from(s_in, r_in, i as nat) == spec_shuffle_from(
                    spec_swap(s_in, i as int, j as int),
                    *self,
                    (i - 1) as nat,
                ));
            }
            i = i - 1;
        }
        proof {
            assert(spec_shuffle_from(v@, *self, 0) == (v@, *self));
        }
    }
}


/// The drawn index is below the bound it was drawn for.
pub proof fn lemma_gen_index_bound(s: XorShiftRng, bound: usize)
    requires
        1 <= bound,
    ensures
        spec_gen_index(s, bound).0 < bound,
{
    let v = spec_next64(s).0;
    let q = ((v as int) * (bound as int)) / (INDEX_DIVISOR as int);
    assert((v as int) * (bound as int) < (INDEX_DIVISOR as int) * (bound as int))
        by (nonlinear_arith)
        requires
            0 <= v < INDEX_DIVISOR,
            bound >= 1,
    ;
    assert(0 <= q < bound) by (nonlinear_arith)
        requires
            q == ((v as int) * (bound as int)) / (INDEX_DIVISOR as int),
            0 <= (v as int) * (bound as int) < (INDEX_DIVISOR as int) * (bound as int),
            INDEX_DIVISOR > 0,
    ;
}

/// Exchanging two values leaves the multiset of a sequence's values as it
/// was.
pub proof fn lemma_swap_permutes<T>(s: Seq<T>, a: int, b: int)
    requires
        0 <= a < s.len(),
        0 <= b < s.len(),
    ensures
        spec_swap(s, a, b).to_multiset() == s.to_multiset(),
{
    broadcast use vstd::seq_lib::group_to_multiset_ensures;
    broadcast use vstd::multiset::group_multiset_axioms;

    let u1 = s.update(a, s[b]);
    let u2 = u1.update(b, s[a]);
    assert(u1[b] == s[b]);
    assert(s.contains(s[a]));
    assert(u1.to_multiset() == s.to_multiset().insert(s[b]).remove(s[a]));
    assert(u2.to_multiset() == u1.to_multiset().insert(s[a]).remove(s[b]));
    assert(u2.to_multiset() =~= s.to_multiset());
}

/// The tail of the shuffle neither adds, drops nor duplicates values.
pub proof fn lemma_shuffle_from_permutes<T>(s: Seq<T>, rng: XorShiftRng, i: nat)
    requires
        i < s.len(),
        i + 1 <= usize::MAX,
    ensures
        spec_shuffle_from(s, rng, i).0.len() == s.len(),
        spec_shuffle_from(s, rng, i).0.to_multiset() == s.to_multiset(),
    decreases i,
{
    broadcast use vstd::seq_lib::group_to_multiset_ensures;

    if i >= 1 {
        let bound = (i + 1) as usize;
        let j = spec_gen_index(rng, bound).0;
        let rng2 = spec_gen_index(rng, bound).1;
        lemma_gen_index_bound(rng, bound);
        lemma_swap_permutes(s, i as int, j as int);
        lemma_shuffle_from_permutes(spec_swap(s, i as int, j as int), rng2, (i - 1) as nat);
    }
}

/// Permutation validity: however the draws fall, the shuffled sequence holds
/// exactly the values of the input, each as often as before - nothing is
/// added, dropped or duplicated.
pub proof fn lemma_shuffle_permutes<T>(s: Seq<T>, rng: XorShiftRng)
    requires
        s.len() <= usize::MAX,
    ensures
        spec_shuffle(s, rng).0.len() == s.len(),
        spec_shuffle(s, rng).0.to_multiset() == s.to_multiset(),
{
    if s.len() > 0 {
        lemma_shuffle_from_permutes(s, rng, (s.len() - 1) as nat);
    }
}


/// Exchanging two positions commutes with mapping a function over the
/// sequence.
pub proof fn lemma_swap_map<T, U>(s: Seq<T>, f: spec_fn(T) -> U, a: int, b: int)
    requires
        0 <= a < s.len(),
        0 <= b < s.len(),
    ensures
        spec_swap(s.map_values(f), a, b) == spec_swap(s, a, b).map_values(f),
{
    assert(spec_swap(s.map_values(f), a, b) =~= spec_swap(s, a, b).map_values(f));
}

/// The tail of the shuffle commutes with mapping a function over the
/// sequence: the draws depend only on positions, never on the values.
pub proof fn lemma_shuffle_from_map<T, U>(s: Seq<T>, f: spec_fn(T) -> U, rng: XorShiftRng, i: nat)
    requires
        i < s.len(),
        i + 1 <= usize::MAX,
    ensures
        spec_shuffle_from(s.map_values(f), rng, i).0 == spec_shuffle_from(s, rng, i).0.map_values(
            f,
        ),
        spec_shuffle_from(s.map_values(f), rng, i).1 == spec_shuffle_from(s, rng, i).1,
    decreases i,
{
    if i >= 1 {
        let bound = (i + 1) as usize;
        let j = spec_gen_index(rng, bound).0;
        let rng2 = spec_gen_index(rng, bound).1;
        lemma_gen_index_bound(rng, bound);
        lemma_swap_map(s, f, i as int, j as int);
        lemma_shuffle_from_map(spec_swap(s, i as int, j as int), f, rng2, (i - 1) as nat);
    }
}

/// The shuffle commutes with mapping a function over the sequence.
pub proof fn lemma_shuffle_map<T, U>(s: Seq<T>, f: spec_fn(T) -> U, rng: XorShiftRng)
    requires
        s.len() <= usize::MAX,
    ensures
        spec_shuffle(s.map_values(f), rng).0 == spec_shuffle(s, rng).0.map_values(f),
        spec_shuffle(s.map_values(f), rng).1 == spec_shuffle(s, rng).1,
{
    if s.len() > 0 {
        lemma_shuffle_from_map(s, f, rng, (s.len() - 1) as nat);
    }
}

} // verus!
