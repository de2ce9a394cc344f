//! A tiny xorshift32 pseudo-random number generator.

use vstd::prelude::*;

verus! {

/// One step of the xorshift32 sequence.
pub open spec fn xorshift(x: u32) -> u32 {
    let a = x ^ (x << 13u32);
    let b = a ^ (a >> 17u32);
    b ^ (b << 5u32)
}

/// The state of a slice being shuffled once the swaps at positions `i` down to 1 are done,
/// starting from `s` and the generator state `state`.
pub open spec fn shuffle_steps<T>(s: Seq<T>, state: u32, i: nat) -> (Seq<T>, u32)
    decreases i,
{
    if i == 0 {
        (s, state)
    } else {
        let x = xorshift(state);
        let j = (x as nat % (i + 1)) as int;
        shuffle_steps(s.update(i as int, s[j]).update(j, s[i as int]), x, (i - 1) as nat)
    }
}

/// The result of a Fisher-Yates shuffle of `s` driven by the generator state `state`:
/// the shuffled sequence and the final generator state.
pub open spec fn shuffled<T>(s: Seq<T>, state: u32) -> (Seq<T>, u32) {
    if s.len() <= 1 {
        (s, state)
    } else {
        shuffle_steps(s, state, (s.len() - 1) as nat)
    }
}

/// Swapping two elements of a slice, as documented for `<[T]>::swap`: the elements at `a`
/// and `b` trade places (nothing changes when `a == b`); both indices must be in bounds.
pub assume_specification<V>[ <[V]>::swap ](slice: &mut [V], a: usize, b: usize)
    requires
        a < old(slice)@.len(),
        b < old(slice)@.len(),
    ensures
        final(slice)@ == old(slice)@.update(a as int, old(slice)@[b as int]).update(
            b as int,
            old(slice)@[a as int],
        ),
;

/// Xorshift never reaches zero from a non-zero state.
pub proof fn lemma_xorshift_nonzero(x: u32)
    requires
        x != 0,
    ensures
        xorshift(x) != 0,
{
    assert(x != 0 ==> ((x ^ (x << 13u32)) ^ ((x ^ (x << 13u32)) >> 17u32)) ^ (((x ^ (x
        << 13u32)) ^ ((x ^ (x << 13u32)) >> 17u32)) << 5u32) != 0) by (bit_vector);
}

/// Swapping two elements keeps the same elements with the same multiplicities.
pub proof fn lemma_swap_is_permutation<T>(s: Seq<T>, i: int, j: int)
    requires
        0 <= i < s.len(),
        0 <= j < s.len(),
    ensures
        s.update(i, s[j]).update(j, s[i]).to_multiset() =~= s.to_multiset(),
{
    broadcast use vstd::seq_lib::to_multiset_update;
    broadcast use vstd::multiset::group_multiset_axioms;

    broadcast use vstd::seq_lib::to_multiset_contains;

    let s1 = s.update(i, s[j]);
    let m = s.to_multiset();
    assert(s1.to_multiset() =~= m.insert(s[j]).remove(s[i]));
    assert(s1.update(j, s[i]).to_multiset() =~= s1.to_multiset().insert(s[i]).remove(s1[j]));
    assert(s.contains(s[i]));
    assert(m.count(s[i]) > 0);
    assert(m.insert(s[j]).remove(s[i]).insert(s[i]).remove(s[j]) =~= m);
}

/// A shuffle only reorders: the result holds the same elements with the same multiplicities.
pub proof fn lemma_shuffle_steps_is_permutation<T>(s: Seq<T>, state: u32, i: nat)
    requires
        i < s.len(),
    ensures
        shuffle_steps(s, state, i).0.to_multiset() =~= s.to_multiset(),
        shuffle_steps(s, state, i).0.len() == s.len(),
    decreases i,
{
    if i > 0 {
        let x = xorshift(state);
        let j = (x as nat % (i + 1)) as int;
        lemma_swap_is_permutation(s, i as int, j);
        lemma_shuffle_steps_is_permutation(
            s.update(i as int, s[j]).update(j, s[i as int]),
            x,
            (i - 1) as nat,
        );
    }
}

/// Shuffling yields a permutation of the input.
pub proof fn lemma_shuffle_is_permutation<T>(s: Seq<T>, state: u32)
    ensures
        shuffled(s, state).0.to_multiset() =~= s.to_multiset(),
        shuffled(s, state).0.len() == s.len(),
{
    if s.len() > 1 {
        lemma_shuffle_steps_is_permutation(s, state, (s.len() - 1) as nat);
    }
}

/// A shuffle started from a non-zero generator state leaves it non-zero.
pub proof fn lemma_shuffle_steps_state_nonzero<T>(s: Seq<T>, state: u32, i: nat)
    requires
        state != 0,
    ensures
        shuffle_steps(s, state, i).1 != 0,
    decreases i,
{
    if i > 0 {
        let x = xorshift(state);
        lemma_xorshift_nonzero(state);
        let j = (x as nat % (i + 1)) as int;
        lemma_shuffle_steps_state_nonzero(s.update(i as int, s[j]).update(j, s[i as int]), x, (i - 1) as nat);
    }
}

/// The generator state after `k` steps from `x`.
pub open spec fn xorshift_iter(x: u32, k: nat) -> u32
    decreases k,
{
    if k == 0 {
        x
    } else {
        xorshift_iter(xorshift(x), (k - 1) as nat)
    }
}

proof fn lemma_shuffle_steps_state<T>(s: Seq<T>, state: u32, i: nat)
    ensures
        shuffle_steps(s, state, i).1 == xorshift_iter(state, i),
    decreases i,
{
    if i > 0 {
        let x = xorshift(state);
        let j = (x as nat % (i + 1)) as int;
        lemma_shuffle_steps_state(s.update(i as int, s[j]).update(j, s[i as int]), x, (i - 1) as nat);
    }
}

proof fn lemma_shuffle_steps_keeps_above<T>(s: Seq<T>, state: u32, i: nat, k: int)
    requires
        i < s.len(),
        i < k < s.len(),
    ensures
        shuffle_steps(s, state, i).0[k] == s[k],
    decreases i,
{
    if i > 0 {
        let x = xorshift(state);
        let j = (x as nat % (i + 1)) as int;
        let s1 = s.update(i as int, s[j]).update(j, s[i as int]);
        lemma_shuffle_steps_keeps_above(s1, x, (i - 1) as nat, k);
    }
}

/// Shuffling a slice of `n` elements advances the generator by `n - 1` steps (none for an
/// empty slice).
pub proof fn lemma_shuffle_advances<T>(s: Seq<T>, state: u32)
    ensures
        shuffled(s, state).1 == xorshift_iter(state, if s.len() == 0 { 0 } else { (s.len() - 1) as nat }),
{
    if s.len() > 1 {
        lemma_shuffle_steps_state(s, state, (s.len() - 1) as nat);
    }
}

/// The last slot of a shuffled sequence of `n >= 2` elements holds the element that was at the
/// position given by the generator's next number modulo `n`.
pub proof fn lemma_shuffle_last_slot<T>(s: Seq<T>, state: u32)
    requires
        s.len() >= 2,
    ensures
        shuffled(s, state).0.len() == s.len(),
        shuffled(s, state).0[s.len() - 1] == s[(xorshift(state) as nat % s.len()) as int],
{
    lemma_shuffle_is_permutation(s, state);
    let n = s.len();
    let i = (n - 1) as nat;
    let x = xorshift(state);
    let j = (x as nat % (i + 1)) as int;
    assert(0 <= j <= i);
    let s1 = s.update(i as int, s[j]).update(j, s[i as int]);
    assert(shuffled(s, state) == shuffle_steps(s1, x, (i - 1) as nat));
    assert(s1[i as int] == s[j]);
    if i > 1 {
        lemma_shuffle_steps_keeps_above(s1, x, (i - 1) as nat, i as int);
    }
}

/// A two-element sequence ends swapped when the generator's next number is even, and
/// unchanged when it is odd.
pub proof fn lemma_shuffle_two<T>(s: Seq<T>, state: u32)
    requires
        s.len() == 2,
    ensures
        shuffled(s, state).0 == (if xorshift(state) % 2 == 0 {
            seq![s[1], s[0]]
        } else {
            s
        }),
        shuffled(s, state).1 == xorshift(state),
{
    let x = xorshift(state);
    let j = (x as nat % 2) as int;
    let s1 = s.update(1, s[j]).update(j, s[1]);
    assert(shuffled(s, state) == shuffle_steps(s1, x, 0));
    if x % 2 == 0 {
        assert(s1 =~= seq![s[1], s[0]]);
    } else {
        assert(s1 =~= s);
    }
}

proof fn lemma_shuffle_steps_push<T>(p: Seq<T>, e: T, state: u32, i: nat)
    requires
        i < p.len(),
    ensures
        shuffle_steps(p.push(e), state, i) == (
            shuffle_steps(p, state, i).0.push(e),
            shuffle_steps(p, state, i).1,
        ),
    decreases i,
{
    if i > 0 {
        let x = xorshift(state);
        let j = (x as nat % (i + 1)) as int;
        let t = p.push(e);
        let t1 = t.update(i as int, t[j]).update(j, t[i as int]);
        let p1 = p.update(i as int, p[j]).update(j, p[i as int]);
        assert(t1 =~= p1.push(e));
        lemma_shuffle_steps_push(p1, e, x, (i - 1) as nat);
    } else {
    }
}

/// Sequences of fewer than two elements are left as they are, and the generator does not
/// move.
pub proof fn lemma_shuffle_short<T>(s: Seq<T>, state: u32)
    requires
        s.len() < 2,
    ensures
        shuffled(s, state) == (s, state),
{
}

/// A Fisher-Yates shuffle of `n >= 2` elements swaps the last slot with the slot given by the
/// generator's next number modulo `n`, keeps that element last, and shuffles the first `n - 1`
/// elements with the generator moved one step.
pub proof fn lemma_shuffle_first_step<T>(s: Seq<T>, state: u32)
    requires
        s.len() >= 2,
    ensures
        ({
            let n = s.len() as int;
            let x = xorshift(state);
            let j = (x as nat % s.len()) as int;
            let s1 = s.update(n - 1, s[j]).update(j, s[n - 1]);
            &&& shuffled(s, state).0 == shuffled(s1.take(n - 1), x).0.push(s[j])
            &&& shuffled(s, state).1 == shuffled(s1.take(n - 1), x).1
        }),
{
    let n = s.len() as int;
    let x = xorshift(state);
    let j = (x as nat % s.len()) as int;
    let s1 = s.update(n - 1, s[j]).update(j, s[n - 1]);
    assert(s1[n - 1] == s[j]);
    assert(s1 =~= s1.take(n - 1).push(s[j]));
    assert(shuffled(s, state) == shuffle_steps(s1, x, (n - 2) as nat));
    if n > 2 {
        lemma_shuffle_steps_push(s1.take(n - 1), s[j], x, (n - 2) as nat);
    }
}

/// Simple xorshift32 generator.
pub struct Prng {
    state: u32,
}

impl Prng {
    /// The state is never zero: zero is a fixed point of xorshift.
    #[verifier::type_invariant]
    spec fn state_nonzero(&self) -> bool {
        self.state != 0
    }

    /// The current internal state.
    pub closed spec fn state(&self) -> u32 {
        self.state
    }

    /// Constructs a generator from a seed; a zero seed is replaced by a fixed non-zero constant.
    pub fn new(seed: u32) -> (r: Self)
        ensures
            r.state() == (if seed == 0 { 0x9E37_79B9u32 } else { seed }),
            r.state() != 0,
    {
        Prng { state: if seed == 0 { 0x9E37_79B9 } else { seed } }
    }

    /// Advances the generator and returns the new state.
    pub fn next_u32(&mut self) -> (r: u32)
        ensures
            r == xorshift(old(self).state()),
            final(self).state() == r,
            r != 0,
    {
        proof {
            use_type_invariant(&*self);
            lemma_xorshift_nonzero(self.state);
        }
        let mut x = self.state;
        x ^= x << 13;
        x ^= x >> 17;
        x ^= x << 5;
        self.state = x;
        x
    }

    /// Fisher-Yates shuffle of `slice`, driven by this generator.
    pub fn shuffle<T>(&mut self, slice: &mut [T])
        ensures
            (final(slice)@, final(self).state()) == shuffled(old(slice)@, old(self).state()),
            final(slice)@.to_multiset() =~= old(slice)@.to_multiset(),
            final(self).state() != 0,
    {
        proof {
            use_type_invariant(&*self);
            lemma_shuffle_is_permutation(slice@, self.state);
            if slice@.len() > 1 {
                lemma_shuffle_steps_state_nonzero(slice@, self.state, (slice@.len() - 1) as nat);
            }
        }
        let n = slice.len();
        if n <= 1 {
            return;
        }
        let mut i: usize = n - 1;
        while i >= 1
            invariant
                n == slice@.len(),
                n >= 2,
                i < n,
                shuffle_steps(slice@, self.state(), i as nat) == shuffled(old(slice)@, old(self).state()),
            decreases i,
        {
            let ghost s = slice@;
            let ghost st = self.state();
            let x = self.next_u32();
            let j = (x as usize) % (i + 1);
            assert(j as int == (x as nat % (i + 1) as nat) as int);
            slice.swap(i, j);
            assert(slice@ =~= s.update(i as int, s[j as int]).update(j as int, s[i as int]));
            i = i - 1;
        }
    }
}

} // verus!
