//! A fold that stops at the first error, and what holds of it.

use vstd::prelude::*;

verus! {

/// Folds `step` over `items` from the left, starting from `init`. The first
/// error that `step` gives is the result, and no later item is looked at.
pub open spec fn try_fold<T, S, E>(
    items: Seq<T>,
    init: S,
    step: spec_fn(S, T) -> Result<S, E>,
) -> Result<S, E>
    decreases items.len(),
{
    if items.len() == 0 {
        Ok(init)
    } else {
        match try_fold(items.drop_last(), init, step) {
            Ok(state) => step(state, items.last()),
            Err(e) => Err(e),
        }
    }
}

/// The fold over one more item is one more step.
pub proof fn lemma_try_fold_next<T, S, E>(
    items: Seq<T>,
    n: int,
    init: S,
    step: spec_fn(S, T) -> Result<S, E>,
)
    requires
        0 <= n < items.len(),
    ensures
        try_fold(items.take(n + 1), init, step) == match try_fold(items.take(n), init, step) {
            Ok(state) => step(state, items[n]),
            Err(e) => Err(e),
        },
{
    assert(items.take(n + 1).drop_last() == items.take(n));
}

/// An error of the fold over a prefix is the error of the fold over the whole.
pub proof fn lemma_try_fold_stops<T, S, E>(
    items: Seq<T>,
    n: int,
    init: S,
    step: spec_fn(S, T) -> Result<S, E>,
)
    requires
        0 <= n <= items.len(),
        try_fold(items.take(n), init, step) is Err,
    ensures
        try_fold(items, init, step) == try_fold(items.take(n), init, step),
    decreases items.len() - n,
{
    if n == items.len() {
        assert(items.take(n) == items);
    } else {
        lemma_try_fold_next(items, n, init, step);
        lemma_try_fold_stops(items, n + 1, init, step);
    }
}

/// What holds of the start and is kept by every successful step holds of the
/// result of a successful fold.
pub proof fn lemma_try_fold_keeps<T, S, E>(
    items: Seq<T>,
    init: S,
    step: spec_fn(S, T) -> Result<S, E>,
    inv: spec_fn(S) -> bool,
)
    requires
        inv(init),
        forall|state: S, item: T|
            inv(state) && (#[trigger] step(state, item)) is Ok ==> inv(step(state, item)->Ok_0),
    ensures
        try_fold(items, init, step) is Ok ==> inv(try_fold(items, init, step)->Ok_0),
    decreases items.len(),
{
    if items.len() > 0 {
        lemma_try_fold_keeps(items.drop_last(), init, step, inv);
    }
}

/// Two steps that agree on every state and item give the same fold.
pub proof fn lemma_try_fold_same_steps<T, S, E>(
    items: Seq<T>,
    init: S,
    step_a: spec_fn(S, T) -> Result<S, E>,
    step_b: spec_fn(S, T) -> Result<S, E>,
)
    requires
        forall|state: S, item: T| #[trigger] step_a(state, item) == step_b(state, item),
    ensures
        try_fold(items, init, step_a) == try_fold(items, init, step_b),
    decreases items.len(),
{
    if items.len() > 0 {
        lemma_try_fold_same_steps(items.drop_last(), init, step_a, step_b);
    }
}

} // verus!
