use vstd::prelude::*;

use crate::error::LearnError;
use crate::scalar::{Sampler, Scalar};

verus! {

/// `n` successive draws from `source` with `std_dev`: the state after them,
/// and the values drawn, in the order drawn.
pub open spec fn draws<S, G: Sampler<S>>(source: G, std_dev: S, n: nat) -> (G, Seq<S>)
    decreases n,
{
    if n == 0 {
        (source, Seq::empty())
    } else {
        let (g, values) = draws(source, std_dev, (n - 1) as nat);
        let (next, v) = G::spec_draw(g, std_dev);
        (next, values.push(v))
    }
}

/// Draws `n` initial coefficients from Normal(0, `std_dev`) with `source`:
/// element `k` is the `k`-th value drawn. Fails with `InvalidParameter`,
/// leaving `source` as it was, when `std_dev` is not positive.
pub fn initialize_coefficients<S: Scalar, G: Sampler<S>>(
    std_dev: &S,
    n: usize,
    source: &mut G,
) -> (r: Result<Vec<S>, LearnError>)
    ensures
        r is Err <==> !S::spec_is_positive(*std_dev),
        r is Err ==> r == Err::<Vec<S>, LearnError>(LearnError::InvalidParameter),
        r is Err ==> *final(source) == *old(source),
        r is Ok ==> r->Ok_0@ == draws(*old(source), *std_dev, n as nat).1,
        r is Ok ==> *final(source) == draws(*old(source), *std_dev, n as nat).0,
{
    if !std_dev.is_positive() {
        return Err(LearnError::InvalidParameter);
    }
    let mut coefficients: Vec<S> = Vec::new();
    let mut i: usize = 0;
    while i < n
        invariant
            i <= n,
            (*source, coefficients@) == draws(*old(source), *std_dev, i as nat),
        decreases n - i,
    {
        coefficients.push(source.draw(std_dev));
        i = i + 1;
    }
    Ok(coefficients)
}

/// Drawing is sequential: the values of fewer draws from a source are the
/// first values of more draws from the same source.
pub proof fn lemma_draws_prefix<S, G: Sampler<S>>(source: G, std_dev: S, n1: nat, n2: nat)
    requires
        n1 <= n2,
    ensures
        draws(source, std_dev, n2).1.len() == n2,
        draws(source, std_dev, n2).1.take(n1 as int) == draws(source, std_dev, n1).1,
    decreases n2,
{
    lemma_draws_len(source, std_dev, n2);
    if n1 < n2 {
        lemma_draws_prefix(source, std_dev, n1, (n2 - 1) as nat);
        lemma_draws_len(source, std_dev, (n2 - 1) as nat);
        let prev = draws(source, std_dev, (n2 - 1) as nat).1;
        assert(draws(source, std_dev, n2).1.take(n1 as int) == prev.take(n1 as int));
    } else {
        assert(draws(source, std_dev, n2).1.take(n1 as int) == draws(source, std_dev, n2).1);
    }
}

/// `n` draws give `n` values.
pub proof fn lemma_draws_len<S, G: Sampler<S>>(source: G, std_dev: S, n: nat)
    ensures
        draws(source, std_dev, n).1.len() == n,
    decreases n,
{
    if n > 0 {
        lemma_draws_len(source, std_dev, (n - 1) as nat);
    }
}

/// Value `k` of `n` draws is the value of the draw made after `k` draws.
pub proof fn lemma_draws_element<S, G: Sampler<S>>(source: G, std_dev: S, n: nat, k: nat)
    requires
        k < n,
    ensures
        draws(source, std_dev, n).1[k as int] == G::spec_draw(draws(source, std_dev, k).0, std_dev).1,
{
    lemma_draws_prefix(source, std_dev, k + 1, n);
    lemma_draws_len(source, std_dev, k);
    let vs = draws(source, std_dev, n).1;
    assert(vs[k as int] == vs.take((k + 1) as int)[k as int]);
}

/// Two initialisations from sources in the same state, with the same
/// deviation and count, give the same coefficients and leave the sources in
/// the same state.
pub proof fn lemma_initialize_deterministic<S, G: Sampler<S>>(
    source1: G,
    source2: G,
    std_dev: S,
    n: nat,
)
    requires
        source1 == source2,
    ensures
        draws(source1, std_dev, n) == draws(source2, std_dev, n),
{
}

} // verus!
