//! The run as a whole: aggregating per-provider discoveries into a plan,
//! the confirmation text shown for it, and the decision whether this run
//! applies, relaunches elevated, or stops.
use vstd::prelude::*;

use crate::component::Update;
use crate::text::{dec_of, u64_to_dec};
use crate::version::Version;

verus! {

/// The closed set of providers the updater drives.
#[derive(Clone, Copy, PartialEq, Eq, Structural, Debug)]
pub enum ProviderKind {
    GameCore,
    SelfLauncher,
    AudioLoader,
}

/// The display name of a provider.
pub open spec fn spec_provider_name(k: ProviderKind) -> Seq<char> {
    match k {
        ProviderKind::GameCore => "CoD4x game"@,
        ProviderKind::SelfLauncher => "CoD4x module"@,
        ProviderKind::AudioLoader => "Miles Loader"@,
    }
}

/// The display name of a provider.
pub fn provider_name(k: ProviderKind) -> (r: &'static str)
    ensures
        r@ == spec_provider_name(k),
{
    match k {
        ProviderKind::GameCore => "CoD4x game",
        ProviderKind::SelfLauncher => "CoD4x module",
        ProviderKind::AudioLoader => "Miles Loader",
    }
}

/// One plan entry: the updates one provider wants, with their owner.
pub struct PlanEntry {
    pub provider: ProviderKind,
    pub updates: Vec<Update>,
}

/// The whole plan, in discovery order.
pub struct UpdatePlan {
    pub entries: Vec<PlanEntry>,
}

/// The plan that a sequence of discovery results yields: a provider whose
/// discovery failed, or that wants nothing, contributes no entry; the rest
/// keep their order.
pub open spec fn spec_plan(results: Seq<(ProviderKind, Option<Vec<Update>>)>) -> Seq<PlanEntry>
    decreases results.len(),
{
    if results.len() == 0 {
        Seq::empty()
    } else {
        let rest = spec_plan(results.drop_first());
        match results.first().1 {
            Some(v) => if v@.len() > 0 {
                seq![PlanEntry { provider: results.first().0, updates: v }] + rest
            } else {
                rest
            },
            None => rest,
        }
    }
}

/// Builds the plan out of every provider's discovery result, in discovery
/// order. A failed discovery (`None`) is skipped; it does not end the run.
pub fn build_plan(results: Vec<(ProviderKind, Option<Vec<Update>>)>) -> (p: UpdatePlan)
    ensures
        p.entries@ == spec_plan(results@),
{
    let ghost orig = results@;
    let mut remaining = results;
    let mut entries: Vec<PlanEntry> = Vec::new();
    proof {
        assert(entries@ + spec_plan(remaining@) =~= spec_plan(orig));
    }
    while remaining.len() > 0
        invariant
            entries@ + spec_plan(remaining@) == spec_plan(orig),
        decreases remaining@.len(),
    {
        let ghost before = remaining@;
        let ghost entries_before = entries@;
        let (provider, found) = remaining.remove(0);
        proof {
            assert(remaining@ =~= before.drop_first());
            assert((provider, found) == before.first());
        }
        match found {
            Some(v) => {
                if v.len() > 0 {
                    entries.push(PlanEntry { provider, updates: v });
                }
            },
            None => {},
        }
        proof {
            assert(entries@ + spec_plan(remaining@) =~= spec_plan(orig));
        }
    }
    proof {
        assert(entries@ =~= spec_plan(orig));
    }
    UpdatePlan { entries }
}

/// Whether any planned update needs elevated privileges.
pub open spec fn spec_any_elevate(entries: Seq<PlanEntry>) -> bool {
    exists|i: int, j: int|
        0 <= i < entries.len() && 0 <= j < entries[i].updates@.len()
            && (#[trigger] entries[i].updates@[j]).requires_elevate
}

/// Whether any planned update needs the host restarted afterwards.
pub open spec fn spec_any_restart(entries: Seq<PlanEntry>) -> bool {
    exists|i: int, j: int|
        0 <= i < entries.len() && 0 <= j < entries[i].updates@.len()
            && (#[trigger] entries[i].updates@[j]).requires_restart
}

impl UpdatePlan {
    /// Whether any planned update needs elevated privileges.
    pub fn any_requires_elevate(&self) -> (r: bool)
        ensures
            r == spec_any_elevate(self.entries@),
    {
        let mut i: usize = 0;
        while i < self.entries.len()
            invariant
                i <= self.entries@.len(),
                forall|a: int, b: int|
                    0 <= a < i && 0 <= b < self.entries@[a].updates@.len() ==> !(
                    #[trigger] self.entries@[a].updates@[b]).requires_elevate,
            decreases self.entries@.len() - i,
        {
            let updates = &self.entries[i].updates;
            let mut j: usize = 0;
            while j < updates.len()
                invariant
                    updates == &self.entries@[i as int].updates,
                    i < self.entries@.len(),
                    j <= updates@.len(),
                    forall|b: int|
                        0 <= b < j ==> !(#[trigger] updates@[b]).requires_elevate,
                decreases updates@.len() - j,
            {
                if updates[j].requires_elevate {
                    return true;
                }
                j += 1;
            }
            i += 1;
        }
        false
    }

    /// Whether any planned update needs the host restarted afterwards.
    pub fn any_requires_restart(&self) -> (r: bool)
        ensures
            r == spec_any_restart(self.entries@),
    {
        let mut i: usize = 0;
        while i < self.entries.len()
            invariant
                i <= self.entries@.len(),
                forall|a: int, b: int|
                    0 <= a < i && 0 <= b < self.entries@[a].updates@.len() ==> !(
                    #[trigger] self.entries@[a].updates@[b]).requires_restart,
            decreases self.entries@.len() - i,
        {
            let updates = &self.entries[i].updates;
            let mut j: usize = 0;
            while j < updates.len()
                invariant
                    updates == &self.entries@[i as int].updates,
                    i < self.entries@.len(),
                    j <= updates@.len(),
                    forall|b: int|
                        0 <= b < j ==> !(#[trigger] updates@[b]).requires_restart,
                decreases updates@.len() - j,
            {
                if updates[j].requires_restart {
                    return true;
                }
                j += 1;
            }
            i += 1;
        }
        false
    }
}

/// How a run proceeds once the plan stands.
#[derive(Clone, Copy, PartialEq, Eq, Structural, Debug)]
pub enum RunDecision {
    /// The plan is empty: everything is up to date, nothing further runs.
    UpToDate,
    /// The user declined the plan; nothing is applied.
    Declined,
    /// An update needs elevation and this run is not elevated: relaunch
    /// with elevated privileges, applying nothing first.
    Elevate,
    /// Apply the plan; afterwards restart the host if an applied update
    /// asked for it (never on the elevated leg, which exits instead).
    Apply { restart_after: bool },
}

/// The run decision: an empty plan ends the run; an unconfirmed plan is
/// declined (the elevated leg skips confirmation); an update needing
/// elevation relaunches before anything is applied; otherwise the plan is
/// applied, restarting afterwards where an update asks for it.
pub open spec fn spec_decide_run(entries: Seq<PlanEntry>, is_elevated: bool, confirmed: bool) -> RunDecision {
    if entries.len() == 0 {
        RunDecision::UpToDate
    } else if !is_elevated && !confirmed {
        RunDecision::Declined
    } else if !is_elevated && spec_any_elevate(entries) {
        RunDecision::Elevate
    } else {
        RunDecision::Apply { restart_after: !is_elevated && spec_any_restart(entries) }
    }
}

/// Decides how the run proceeds, exactly as [`spec_decide_run`] says.
pub fn decide_run(plan: &UpdatePlan, is_elevated: bool, confirmed: bool) -> (r: RunDecision)
    ensures
        r == spec_decide_run(plan.entries@, is_elevated, confirmed),
{
    if plan.entries.len() == 0 {
        RunDecision::UpToDate
    } else if !is_elevated && !confirmed {
        RunDecision::Declined
    } else if !is_elevated && plan.any_requires_elevate() {
        RunDecision::Elevate
    } else {
        RunDecision::Apply { restart_after: !is_elevated && plan.any_requires_restart() }
    }
}

/// The dotted text of a version.
pub open spec fn spec_version_text(v: Version) -> Seq<char> {
    dec_of(v.major as nat) + "."@ + dec_of(v.minor as nat) + "."@ + dec_of(v.patch as nat)
}

/// Renders a version as dotted text.
pub fn version_text(v: &Version) -> (r: String)
    ensures
        r@ == spec_version_text(*v),
{
    let mut s = u64_to_dec(v.major);
    s.append(".");
    let minor = u64_to_dec(v.minor);
    s.append(minor.as_str());
    s.append(".");
    let patch = u64_to_dec(v.patch);
    s.append(patch.as_str());
    s
}

/// The text shown for the installed version: `unknown` where there is none.
pub open spec fn spec_current_text(c: Option<Version>) -> Seq<char> {
    match c {
        None => "unknown"@,
        Some(v) => spec_version_text(v),
    }
}

/// The line the confirmation text devotes to one update.
pub open spec fn spec_update_line(u: Update) -> Seq<char> {
    "\n  - "@ + u.display_name@ + ": "@ + spec_current_text(u.current) + " => "@
        + spec_version_text(u.upstream)
}

/// The lines of one provider's updates, in order.
pub open spec fn spec_updates_text(us: Seq<Update>) -> Seq<char>
    decreases us.len(),
{
    if us.len() == 0 {
        Seq::empty()
    } else {
        spec_update_line(us.first()) + spec_updates_text(us.drop_first())
    }
}

/// One provider's section of the confirmation text.
pub open spec fn spec_entry_block(e: PlanEntry) -> Seq<char> {
    spec_provider_name(e.provider) + ":"@ + spec_updates_text(e.updates@)
}

/// The providers' sections, separated by line breaks; `first` says whether
/// the next section is the first one.
pub open spec fn spec_blocks_from(es: Seq<PlanEntry>, first: bool) -> Seq<char>
    decreases es.len(),
{
    if es.len() == 0 {
        Seq::empty()
    } else {
        (if first {
            Seq::<char>::empty()
        } else {
            "\n"@
        }) + spec_entry_block(es.first()) + spec_blocks_from(es.drop_first(), false)
    }
}

/// What follows the sections: the elevation warning where one is due, and
/// the question itself.
pub open spec fn spec_message_suffix(needs_elevation: bool) -> Seq<char> {
    "\n\n"@ + (if needs_elevation {
        "The update requires administrator rights\n"@
    } else {
        Seq::<char>::empty()
    }) + "Do you want to update?"@
}

/// The whole confirmation text for a plan.
pub open spec fn spec_updates_message(entries: Seq<PlanEntry>, needs_elevation: bool) -> Seq<char> {
    "Updates available:\n "@ + spec_blocks_from(entries, true) + spec_message_suffix(
        needs_elevation,
    )
}

/// Builds the aggregated, human-readable plan summary that the presentation
/// layer shows for confirmation.
pub fn build_updates_message(plan: &UpdatePlan, needs_elevation: bool) -> (r: String)
    ensures
        r@ == spec_updates_message(plan.entries@, needs_elevation),
{
    let ghost target = spec_updates_message(plan.entries@, needs_elevation);
    let mut msg = String::from_str("Updates available:\n ");
    let n = plan.entries.len();
    let mut i: usize = 0;
    proof {
        assert(plan.entries@.skip(0) == plan.entries@);
    }
    while i < n
        invariant
            n == plan.entries@.len(),
            i <= n,
            target == msg@ + spec_blocks_from(plan.entries@.skip(i as int), i == 0)
                + spec_message_suffix(needs_elevation),
        decreases n - i,
    {
        let ghost suffix = spec_blocks_from(plan.entries@.skip(i as int).drop_first(), false)
            + spec_message_suffix(needs_elevation);
        proof {
            assert(plan.entries@.skip(i as int).first() == plan.entries@[i as int]);
            assert(plan.entries@.skip(i as int).drop_first() =~= plan.entries@.skip(i + 1));
        }
        if i > 0 {
            msg.append("\n");
        }
        msg.append(provider_name(plan.entries[i].provider));
        msg.append(":");
        let us = &plan.entries[i].updates;
        proof {
            assert(us@.skip(0) == us@);
            assert(target =~= msg@ + spec_updates_text(us@) + suffix);
        }
        let mut j: usize = 0;
        while j < us.len()
            invariant
                us == &plan.entries@[i as int].updates,
                i < n,
                n == plan.entries@.len(),
                j <= us@.len(),
                target == msg@ + spec_updates_text(us@.skip(j as int)) + suffix,
            decreases us@.len() - j,
        {
            proof {
                assert(us@.skip(j as int).first() == us@[j as int]);
                assert(us@.skip(j as int).drop_first() =~= us@.skip(j + 1));
            }
            let u = &us[j];
            msg.append("\n  - ");
            msg.append(u.display_name.as_str());
            msg.append(": ");
            match &u.current {
                None => msg.append("unknown"),
                Some(c) => {
                    let t = version_text(c);
                    msg.append(t.as_str());
                },
            }
            msg.append(" => ");
            let t = version_text(&u.upstream);
            msg.append(t.as_str());
            proof {
                assert(target =~= msg@ + spec_updates_text(us@.skip(j + 1)) + suffix);
            }
            j += 1;
        }
        proof {
            assert(spec_updates_text(us@.skip(us@.len() as int)) =~= Seq::empty());
            assert(target =~= msg@ + spec_blocks_from(plan.entries@.skip(i + 1), false)
                + spec_message_suffix(needs_elevation));
        }
        i += 1;
    }
    msg.append("\n\n");
    if needs_elevation {
        msg.append("The update requires administrator rights\n");
    }
    msg.append("Do you want to update?");
    proof {
        assert(target =~= msg@);
    }
    msg
}

/// An update that needs elevation, in a run that is not elevated, leads to
/// a relaunch or an earlier stop — never to an apply: no partial apply
/// happens before the elevated relaunch.
pub proof fn lemma_elevate_blocks_apply(
    entries: Seq<PlanEntry>,
    confirmed: bool,
    i: int,
    j: int,
)
    requires
        0 <= i < entries.len(),
        0 <= j < entries[i].updates@.len(),
        entries[i].updates@[j].requires_elevate,
    ensures
        !(spec_decide_run(entries, false, confirmed) is Apply),
{
    assert(spec_any_elevate(entries));
}

} // verus!
