//! Which execution providers loading the speech model tries, in order.
use vstd::prelude::*;
use crate::config::Provider;

verus! {

/// The providers to try for a requested provider: CUDA falls back to the CPU
/// when it cannot start; the CPU is tried alone.
pub open spec fn attempts(want: Provider) -> Seq<Provider> {
    match want {
        Provider::Cuda => seq![Provider::Cuda, Provider::Cpu],
        Provider::Cpu => seq![Provider::Cpu],
    }
}

/// The providers to try, in order, when loading the model for `want`; the
/// model runs on the first that loads, and when none does the last failure is
/// the error.
pub fn load_plan(want: Provider) -> (r: Vec<Provider>)
    ensures
        r@ == attempts(want),
{
    match want {
        Provider::Cuda => vec![Provider::Cuda, Provider::Cpu],
        Provider::Cpu => vec![Provider::Cpu],
    }
}

/// The provider to try after `failed` attempts have failed, or `None` when
/// every provider of the plan for `want` has failed (the last failure is
/// then the error).
pub fn provider_to_try(want: Provider, failed: usize) -> (r: Option<Provider>)
    ensures
        failed < attempts(want).len() ==> r == Some(attempts(want)[failed as int]),
        failed >= attempts(want).len() ==> r is None,
{
    let plan = load_plan(want);
    if failed < plan.len() {
        Some(plan[failed])
    } else {
        None
    }
}

/// Loading first tries the provider asked for, always ends with the CPU, and
/// tries no provider twice.
pub proof fn plan_falls_back_to_cpu(want: Provider)
    ensures
        attempts(want).len() >= 1,
        attempts(want)[0] == want,
        attempts(want).last() == Provider::Cpu,
        forall|i: int, j: int|
            0 <= i < j < attempts(want).len() ==> attempts(want)[i] != attempts(want)[j],
{
}

} // verus!
