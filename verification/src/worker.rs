//! The apply phase as the background worker runs it: providers are applied
//! one after another, a failure is isolated to its provider, and a user
//! cancellation halts the whole phase at once. The loop that performs the
//! file work reports one outcome per provider; everything decided from
//! those outcomes is here, including the coloured status lines it logs.
use vstd::prelude::*;

verus! {

/// How one provider's apply ended, as the edge classifies it: a transfer
/// aborted by the progress callback is a cancellation, any other error a
/// failure.
#[derive(Clone, Copy, PartialEq, Eq, Structural, Debug)]
pub enum ComponentOutcome {
    Success,
    Failed,
    Cancelled,
}

/// The final status of the apply phase. Aborted is distinct from failed.
#[derive(Clone, Copy, PartialEq, Eq, Structural, Debug)]
pub enum RunStatus {
    AllOk,
    HadErrors,
    Aborted,
}

/// How many providers the phase processes: everything up to and including
/// the first cancellation, or all of them.
pub open spec fn spec_processed(outcomes: Seq<ComponentOutcome>) -> int
    decreases outcomes.len(),
{
    if outcomes.len() == 0 {
        0
    } else if outcomes.first() is Cancelled {
        1
    } else {
        1 + spec_processed(outcomes.drop_first())
    }
}

/// The status the phase ends with, given whether everything so far went
/// well: a cancellation ends it as aborted at once; otherwise it is clean
/// exactly when no provider failed.
pub open spec fn spec_run_status(outcomes: Seq<ComponentOutcome>, all_ok: bool) -> RunStatus
    decreases outcomes.len(),
{
    if outcomes.len() == 0 {
        if all_ok {
            RunStatus::AllOk
        } else {
            RunStatus::HadErrors
        }
    } else {
        match outcomes.first() {
            ComponentOutcome::Cancelled => RunStatus::Aborted,
            ComponentOutcome::Failed => spec_run_status(outcomes.drop_first(), false),
            ComponentOutcome::Success => spec_run_status(outcomes.drop_first(), all_ok),
        }
    }
}

/// Replays a phase's outcomes: how many providers were processed and how
/// the phase ended.
pub fn worker_outcome(outcomes: &Vec<ComponentOutcome>) -> (r: (usize, RunStatus))
    ensures
        r.0 == spec_processed(outcomes@),
        r.1 == spec_run_status(outcomes@, true),
{
    let mut i: usize = 0;
    let mut all_ok = true;
    let n = outcomes.len();
    proof {
        assert(outcomes@.skip(0) == outcomes@);
    }
    while i < n
        invariant
            n == outcomes@.len(),
            i <= n,
            spec_processed(outcomes@) == i + spec_processed(outcomes@.skip(i as int)),
            spec_run_status(outcomes@, true) == spec_run_status(outcomes@.skip(i as int), all_ok),
        decreases n - i,
    {
        proof {
            assert(outcomes@.skip(i as int).first() == outcomes@[i as int]);
            assert(outcomes@.skip(i as int).drop_first() =~= outcomes@.skip(i + 1));
            lemma_processed_bounds(outcomes@.skip(i + 1));
        }
        match outcomes[i] {
            ComponentOutcome::Cancelled => {
                return (i + 1, RunStatus::Aborted);
            },
            ComponentOutcome::Failed => {
                all_ok = false;
            },
            ComponentOutcome::Success => {},
        }
        i += 1;
    }
    let status = if all_ok {
        RunStatus::AllOk
    } else {
        RunStatus::HadErrors
    };
    (n, status)
}

/// A phase never processes more providers than it has.
proof fn lemma_processed_bounds(outcomes: Seq<ComponentOutcome>)
    ensures
        0 <= spec_processed(outcomes) <= outcomes.len(),
    decreases outcomes.len(),
{
    if outcomes.len() > 0 && !(outcomes.first() is Cancelled) {
        lemma_processed_bounds(outcomes.drop_first());
    }
}

/// Cancellation halts the apply phase at once: with the first cancellation
/// at position `i`, exactly the providers up to it are processed — none
/// after it — and the phase ends aborted, whatever else happened before.
pub proof fn lemma_cancellation_halts(outcomes: Seq<ComponentOutcome>, all_ok: bool, i: int)
    requires
        0 <= i < outcomes.len(),
        outcomes[i] is Cancelled,
        forall|j: int| 0 <= j < i ==> !((#[trigger] outcomes[j]) is Cancelled),
    ensures
        spec_processed(outcomes) == i + 1,
        spec_run_status(outcomes, all_ok) == RunStatus::Aborted,
    decreases i,
{
    if i > 0 {
        let d = outcomes.drop_first();
        assert(forall|j: int| 0 <= j < i - 1 ==> #[trigger] d[j] == outcomes[j + 1]);
        lemma_cancellation_halts(
            d,
            if outcomes.first() is Failed {
                false
            } else {
                all_ok
            },
            i - 1,
        );
    }
}

/// A phase with no cancellation processes every provider and ends clean
/// exactly when no provider failed.
pub proof fn lemma_no_cancellation_runs_through(outcomes: Seq<ComponentOutcome>, all_ok: bool)
    requires
        forall|j: int| 0 <= j < outcomes.len() ==> !((#[trigger] outcomes[j]) is Cancelled),
    ensures
        spec_processed(outcomes) == outcomes.len(),
        spec_run_status(outcomes, all_ok) == (if all_ok && (forall|j: int|
            0 <= j < outcomes.len() ==> !((#[trigger] outcomes[j]) is Failed)) {
            RunStatus::AllOk
        } else {
            RunStatus::HadErrors
        }),
    decreases outcomes.len(),
{
    if outcomes.len() > 0 {
        let d = outcomes.drop_first();
        assert(forall|j: int| 0 <= j < d.len() ==> #[trigger] d[j] == outcomes[j + 1]);
        assert(forall|j: int| 1 <= j < outcomes.len() ==> #[trigger] outcomes[j] == d[j - 1]);
        lemma_no_cancellation_runs_through(
            d,
            if outcomes.first() is Failed {
                false
            } else {
                all_ok
            },
        );
    }
}

// ---------------------------------------------------------------------------
// The status lines the worker logs, with their colour markup.
// ---------------------------------------------------------------------------

/// The line logged when a provider's apply begins.
pub fn line_updating(name: &str) -> (r: String)
    ensures
        r@ == "$[50,50,255]Updating "@ + name@ + "..."@,
{
    let mut s = String::from_str("$[50,50,255]Updating ");
    s.append(name);
    s.append("...");
    s
}

/// The line logged when one artifact's download begins.
pub fn line_downloading(display_name: &str) -> (r: String)
    ensures
        r@ == "Downloading "@ + display_name@ + "..."@,
{
    let mut s = String::from_str("Downloading ");
    s.append(display_name);
    s.append("...");
    s
}

/// The line logged when a provider's apply succeeded.
pub fn line_updated(name: &str) -> (r: String)
    ensures
        r@ == "$[35,180,75]Successfully updated$[reset] "@ + name@ + "\n"@,
{
    let mut s = String::from_str("$[35,180,75]Successfully updated$[reset] ");
    s.append(name);
    s.append("\n");
    s
}

/// The line logged when a provider's apply failed, with its report.
pub fn line_update_failed(name: &str, error: &str) -> (r: String)
    ensures
        r@ == "$[255,50,50]Failed to update "@ + name@ + ": "@ + error@,
{
    let mut s = String::from_str("$[255,50,50]Failed to update ");
    s.append(name);
    s.append(": ");
    s.append(error);
    s
}

/// The line that ends the phase, for each way it can end.
pub fn line_final(status: RunStatus) -> (r: &'static str)
    ensures
        status is AllOk ==> r@ == "$[35,180,75]Update successful"@,
        status is HadErrors ==> r@ == "$[255,50,50]There were some errors during updating"@,
        status is Aborted ==> r@ == "$[255,130,40]Update aborted"@,
{
    match status {
        RunStatus::AllOk => "$[35,180,75]Update successful",
        RunStatus::HadErrors => "$[255,50,50]There were some errors during updating",
        RunStatus::Aborted => "$[255,130,40]Update aborted",
    }
}

} // verus!
