use vstd::prelude::*;

verus! {

/// One step of Marsaglia's 32-bit xorshift generator with shifts 13, 17 and 5.
pub open spec fn xorshift32_spec(s: u32) -> u32 {
    let a = s ^ (s << 13u32);
    let b = a ^ (a >> 17u32);
    b ^ (b << 5u32)
}

/// The state after `n` steps of the generator from `s`.
pub open spec fn xorshift_iter(s: u32, n: nat) -> u32
    decreases n,
{
    if n == 0 {
        s
    } else {
        xorshift32_spec(xorshift_iter(s, (n - 1) as nat))
    }
}

/// Advances the generator by one step.
pub fn xorshift32(seed: u32) -> (next: u32)
    ensures
        next == xorshift32_spec(seed),
{
    let mut s = seed;
    s = s ^ (s << 13u32);
    s = s ^ (s >> 17u32);
    s = s ^ (s << 5u32);
    s
}

/// A nonzero state never steps to zero, so the generator never gets stuck.
pub proof fn lemma_xorshift32_nonzero(s: u32)
    requires
        s != 0,
    ensures
        xorshift32_spec(s) != 0,
{
    assert(s != 0 ==> (((s ^ (s << 13u32)) ^ ((s ^ (s << 13u32)) >> 17u32)) ^ (((s ^ (s
        << 13u32)) ^ ((s ^ (s << 13u32)) >> 17u32)) << 5u32)) != 0) by (bit_vector);
}

/// Two different states never step to the same state: the step is one-to-one.
pub proof fn lemma_xorshift32_injective(s: u32, t: u32)
    requires
        xorshift32_spec(s) == xorshift32_spec(t),
    ensures
        s == t,
{
    let a = s ^ (s << 13u32);
    let b = a ^ (a >> 17u32);
    let c = t ^ (t << 13u32);
    let d = c ^ (c >> 17u32);
    assert(b ^ (b << 5u32) == d ^ (d << 5u32) ==> b == d) by (bit_vector);
    assert(a ^ (a >> 17u32) == c ^ (c >> 17u32) ==> a == c) by (bit_vector);
    assert(s ^ (s << 13u32) == t ^ (t << 13u32) ==> s == t) by (bit_vector);
}

/// From a nonzero seed every later state is nonzero.
pub proof fn lemma_xorshift_iter_nonzero(s: u32, n: nat)
    requires
        s != 0,
    ensures
        xorshift_iter(s, n) != 0,
    decreases n,
{
    if n > 0 {
        lemma_xorshift_iter_nonzero(s, (n - 1) as nat);
        lemma_xorshift32_nonzero(xorshift_iter(s, (n - 1) as nat));
    }
}

/// The generator states that place `count` particles: particle `i` takes the pair of
/// states reached after steps `2i + 1` and `2i + 2` from `seed`, the first for its
/// horizontal and the second for its vertical position.
pub fn particle_seeds(seed: u32, count: u32) -> (pairs: Vec<(u32, u32)>)
    ensures
        pairs@.len() == count,
        forall|i: int|
            0 <= i < count ==> #[trigger] pairs@[i] == (
                xorshift_iter(seed, (2 * i + 1) as nat),
                xorshift_iter(seed, (2 * i + 2) as nat),
            ),
        count > 0 ==> pairs@[0].0 == xorshift32_spec(seed),
        forall|i: int| 0 <= i < count ==> #[trigger] pairs@[i].1 == xorshift32_spec(pairs@[i].0),
        forall|i: int|
            0 <= i < count - 1 ==> #[trigger] pairs@[i + 1].0 == xorshift32_spec(pairs@[i].1),
        seed != 0 ==> forall|i: int| 0 <= i < count ==> #[trigger] pairs@[i].0 != 0 && pairs@[i].1 != 0,
{
    let mut pairs: Vec<(u32, u32)> = Vec::new();
    let mut s: u32 = seed;
    let mut k: u32 = 0;
    while k < count
        invariant
            k <= count,
            pairs@.len() == k,
            s == xorshift_iter(seed, (2 * k) as nat),
            forall|i: int|
                0 <= i < k ==> #[trigger] pairs@[i] == (
                    xorshift_iter(seed, (2 * i + 1) as nat),
                    xorshift_iter(seed, (2 * i + 2) as nat),
                ),
        decreases count - k,
    {
        let x = xorshift32(s);
        let y = xorshift32(x);
        assert(x == xorshift_iter(seed, (2 * k + 1) as nat));
        assert(y == xorshift_iter(seed, (2 * k + 2) as nat));
        pairs.push((x, y));
        s = y;
        k = k + 1;
    }
    proof {
        assert forall|i: int| 0 <= i < count implies #[trigger] pairs@[i].1 == xorshift32_spec(
            pairs@[i].0,
        ) by {
            assert(pairs@[i] == (
                xorshift_iter(seed, (2 * i + 1) as nat),
                xorshift_iter(seed, (2 * i + 2) as nat),
            ));
            assert(xorshift_iter(seed, (2 * i + 2) as nat) == xorshift32_spec(
                xorshift_iter(seed, (2 * i + 1) as nat),
            ));
        }
        assert forall|i: int| 0 <= i < count - 1 implies #[trigger] pairs@[i + 1].0
            == xorshift32_spec(pairs@[i].1) by {
            assert(pairs@[i] == (
                xorshift_iter(seed, (2 * i + 1) as nat),
                xorshift_iter(seed, (2 * i + 2) as nat),
            ));
            assert(pairs@[i + 1] == (
                xorshift_iter(seed, (2 * (i + 1) + 1) as nat),
                xorshift_iter(seed, (2 * (i + 1) + 2) as nat),
            ));
            assert(xorshift_iter(seed, (2 * i + 3) as nat) == xorshift32_spec(
                xorshift_iter(seed, (2 * i + 2) as nat),
            ));
        }
        if count > 0 {
            assert(pairs@[0] == (xorshift_iter(seed, 1), xorshift_iter(seed, 2)));
            assert(xorshift_iter(seed, 1) == xorshift32_spec(xorshift_iter(seed, 0)));
        }
        if seed != 0 {
            assert forall|i: int| 0 <= i < count implies #[trigger] pairs@[i].0 != 0
                && pairs@[i].1 != 0 by {
                assert(pairs@[i] == (
                    xorshift_iter(seed, (2 * i + 1) as nat),
                    xorshift_iter(seed, (2 * i + 2) as nat),
                ));
                lemma_xorshift_iter_nonzero(seed, (2 * i + 1) as nat);
                lemma_xorshift_iter_nonzero(seed, (2 * i + 2) as nat);
            }
        }
    }
    pairs
}

} // verus!
