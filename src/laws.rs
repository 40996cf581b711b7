use vstd::prelude::*;
use crate::instructions::{
    Context, CounterError, Increment, Initialize, counter_incremented, increment_error,
    initialize_error, initialized,
};
use crate::state::CounterAccount;

verus! {

/// `steps` is a run of successful increments: each account state follows from
/// the one before by one increment.
pub open spec fn increment_run(steps: Seq<CounterAccount>) -> bool {
    forall|i: int| 0 <= i < steps.len() - 1 ==> #[trigger] counter_incremented(steps[i], steps[i + 1])
}

proof fn lemma_run_keeps(steps: Seq<CounterAccount>, n: int)
    requires
        increment_run(steps),
        0 <= n < steps.len(),
    ensures
        steps[n].key == steps[0].key,
        steps[n].exists == steps[0].exists,
        steps[n].lamports == steps[0].lamports,
        steps[n].discriminator == steps[0].discriminator,
        steps[n].data.count == steps[0].data.count + n,
    decreases n,
{
    if n > 0 {
        lemma_run_keeps(steps, n - 1);
        let i = n - 1;
        assert(counter_incremented(steps[i], steps[i + 1]));
    }
}

/// After one successful `initialize` and any run of successful increments, the
/// count equals the number of increments.
pub proof fn lemma_count_is_number_of_increments(
    pre: Initialize,
    post: Initialize,
    steps: Seq<CounterAccount>,
)
    requires
        initialized(pre, post),
        steps.len() >= 1,
        steps[0] == post.counter,
        increment_run(steps),
    ensures
        steps.last().data.count == steps.len() - 1,
{
    lemma_run_keeps(steps, steps.len() - 1);
}

/// A second `initialize` of the same counter, after any run of increments
/// that followed the first, succeeds when signed and leaves the count at zero.
pub proof fn lemma_reinitialize_resets(
    first: Context<Initialize>,
    post: Initialize,
    steps: Seq<CounterAccount>,
    second: Context<Initialize>,
    after: Initialize,
)
    requires
        initialize_error(first) is None,
        initialized(first.accounts, post),
        steps.len() >= 1,
        steps[0] == post.counter,
        increment_run(steps),
        second.program_id == first.program_id,
        second.accounts.counter == steps.last(),
        second.accounts.signer.is_signer,
        initialized(second.accounts, after),
    ensures
        initialize_error(second) is None,
        after.counter.data.count == 0,
{
    lemma_run_keeps(steps, steps.len() - 1);
}

/// `increment` on a counter account that does not exist is refused: the
/// address check fails, whatever else holds.
pub proof fn lemma_increment_needs_existing(ctx: Context<Increment>)
    requires
        !ctx.accounts.counter.exists,
    ensures
        increment_error(ctx) == Some(CounterError::Unauthorized) || increment_error(ctx) == Some(
            CounterError::InvalidAccountAddress,
        ) || increment_error(ctx) == Some(CounterError::DerivationExhausted),
{
}

/// `increment` without the signer's signature is refused as unauthorized.
pub proof fn lemma_increment_needs_signature(ctx: Context<Increment>)
    requires
        !ctx.accounts.signer.is_signer,
    ensures
        increment_error(ctx) == Some(CounterError::Unauthorized),
{
}

} // verus!
