//! The run as a state machine: what the run knows, what it asks its
//! caller to do next, and how each result moves it on.
//!
//! Everything here is mathematics over the views of the crate's types. The
//! executable run of the sibling module is proved to follow it step by step.
use vstd::prelude::*;
use crate::binding::{desired, names_of, observed, request_for, GithubConfigView};
use crate::cache::key_of;
use crate::package::PackageView;
use crate::registry::{BindingCreateErrorView, ListingView, RegistryQueryErrorView};
use crate::skeleton::PublishErrorView;

verus! {

/// How a run ended.
#[derive(Clone, Copy, Debug, PartialEq, Eq)]
pub enum RunEnd {
    /// The workspace has no publishable package.
    NoPackages,
    /// The user declined to go on.
    Aborted,
    /// A placeholder could not be published.
    PublishFailed,
    /// The bindings of a package could not be listed.
    QueryFailed,
    /// Every package already had its binding.
    AlreadyConfigured,
    /// A dry run found packages to configure, and left them alone.
    DryRun,
    /// Every binding that was asked for was created.
    Configured,
    /// The batch was worked through, and some bindings were refused.
    PartlyConfigured,
}

/// Where a run stands.
#[derive(Clone, Copy, Debug, PartialEq, Eq)]
pub enum Phase {
    /// Waiting to learn which packages the registry has.
    Probing,
    /// Waiting for the user's word on publishing placeholders.
    PublishConsent,
    /// Publishing placeholders, one at a time.
    Publishing,
    /// Waiting for the registry's bindings.
    Listing,
    /// Waiting for the user's word on creating bindings.
    ApplyConsent,
    /// Creating bindings, one at a time.
    Applying,
    /// Over.
    Ended(RunEnd),
}

/// The binding parameters of a run, the same for every package.
pub struct RunTargetView {
    pub owner: Seq<char>,
    pub repo: Seq<char>,
    pub workflow: Seq<char>,
    pub token: Seq<char>,
    pub dry_run: bool,
}

/// What a run knows.
pub struct RunView {
    pub target: RunTargetView,
    /// The publishable packages of the workspace.
    pub packages: Seq<PackageView>,
    /// The tokens of the bindings known to be configured.
    pub cache: Set<Seq<char>>,
    pub phase: Phase,
    /// The positions, in `packages`, of those the registry does not have.
    pub unpublished: Seq<usize>,
    /// The names of the packages that need a binding.
    pub pending: Seq<Seq<char>>,
    /// How far the current batch has come.
    pub next: int,
    /// The packages whose binding this run created.
    pub configured: Seq<Seq<char>>,
    /// The packages whose binding was refused, each with the reason.
    pub failed: Seq<(Seq<char>, BindingCreateErrorView)>,
    pub publish_error: Option<PublishErrorView>,
    pub query_error: Option<RegistryQueryErrorView>,
}

/// What the caller hands back to the run.
pub enum EventView {
    /// For each package, in order, whether the registry has it.
    Existence { exists: Seq<bool> },
    /// The user's answer to a question.
    Consent { granted: bool },
    /// How publishing one placeholder went.
    Published { result: Result<(), PublishErrorView> },
    /// The registry's bindings of all packages, or the first failure.
    Bindings { listing: ListingView },
    /// How creating one binding went.
    Created { outcome: Result<(), BindingCreateErrorView> },
}

/// What the run asks its caller to do next.
pub enum ActionView {
    /// Find out which packages the registry has.
    CheckExistence,
    /// Ask the user whether to publish placeholders.
    ConfirmPublish,
    /// Publish the placeholder of the package at this position, then pause.
    Publish { package: usize },
    /// List the registry's bindings of every package.
    ListBindings,
    /// Ask the user whether to create the bindings.
    ConfirmApply,
    /// Ask the registry to create this binding, then pause.
    Create { request: GithubConfigView },
    /// Stop, after saving the cache if `save_cache` says so.
    Finish { end: RunEnd, save_cache: bool },
}

/// The positions below `n`, in order.
pub open spec fn positions(n: nat) -> Seq<usize> {
    Seq::new(n, |i: int| i as usize)
}

/// The positions of the packages that the registry does not have.
pub open spec fn absent(exists: Seq<bool>) -> Seq<usize> {
    positions(exists.len()).filter(|i: usize| !exists[i as int])
}

/// Whether the cache is written back after a run that ended this way: after
/// a batch that was worked through, and when there was nothing to do.
pub open spec fn saves_cache(end: RunEnd) -> bool {
    end == RunEnd::AlreadyConfigured || end == RunEnd::Configured || end
        == RunEnd::PartlyConfigured
}

/// The exit code of a run that ended this way: 1 when the user declined or
/// the run could not go on, 0 otherwise.
pub open spec fn exit_code_of(end: RunEnd) -> int {
    if end == RunEnd::Aborted || end == RunEnd::PublishFailed || end == RunEnd::QueryFailed {
        1
    } else {
        0
    }
}

/// The state in which a run starts.
pub open spec fn start_of(target: RunTargetView, packages: Seq<PackageView>, cache: Set<Seq<char>>) -> RunView {
    RunView {
        target,
        packages,
        cache,
        phase: if packages.len() == 0 {
            Phase::Ended(RunEnd::NoPackages)
        } else {
            Phase::Probing
        },
        unpublished: Seq::empty(),
        pending: Seq::empty(),
        next: 0,
        configured: Seq::empty(),
        failed: Seq::empty(),
        publish_error: None,
        query_error: None,
    }
}

/// What a run in state `s` is waiting for.
pub open spec fn action_of(s: RunView) -> ActionView {
    match s.phase {
        Phase::Probing => ActionView::CheckExistence,
        Phase::PublishConsent => ActionView::ConfirmPublish,
        Phase::Publishing => ActionView::Publish { package: s.unpublished[s.next] },
        Phase::Listing => ActionView::ListBindings,
        Phase::ApplyConsent => ActionView::ConfirmApply,
        Phase::Applying => ActionView::Create {
            request: request_for(
                s.pending[s.next],
                s.target.owner,
                s.target.repo,
                s.target.workflow,
            ),
        },
        Phase::Ended(end) => ActionView::Finish { end, save_cache: saves_cache(end) },
    }
}

/// Whether a run in state `s` is waiting for the event `e`.
pub open spec fn awaits(s: RunView, e: EventView) -> bool {
    match (s.phase, e) {
        (Phase::Probing, EventView::Existence { exists }) => exists.len() == s.packages.len(),
        (Phase::PublishConsent, EventView::Consent { .. }) => true,
        (Phase::Publishing, EventView::Published { .. }) => true,
        (Phase::Listing, EventView::Bindings { .. }) => true,
        (Phase::ApplyConsent, EventView::Consent { .. }) => true,
        (Phase::Applying, EventView::Created { .. }) => true,
        _ => false,
    }
}

/// After the existence check: placeholders are called for when a package is
/// missing and the run is no dry run; otherwise the bindings are listed.
pub open spec fn after_existence(s: RunView, exists: Seq<bool>) -> RunView {
    let unpublished = absent(exists);
    RunView {
        unpublished,
        phase: if unpublished.len() == 0 || s.target.dry_run {
            Phase::Listing
        } else {
            Phase::PublishConsent
        },
        ..s
    }
}

/// After the user's answer: the batch begins, or the run is aborted.
pub open spec fn after_consent(s: RunView, granted: bool) -> RunView {
    RunView {
        phase: if !granted {
            Phase::Ended(RunEnd::Aborted)
        } else if s.phase == Phase::PublishConsent {
            Phase::Publishing
        } else {
            Phase::Applying
        },
        next: 0,
        ..s
    }
}

/// After one placeholder: the next one, the listing when none is left, or
/// the end of the run at the first failure.
pub open spec fn after_published(s: RunView, result: Result<(), PublishErrorView>) -> RunView {
    match result {
        Err(e) => RunView {
            phase: Phase::Ended(RunEnd::PublishFailed),
            publish_error: Some(e),
            ..s
        },
        Ok(_) => if s.next + 1 < s.unpublished.len() {
            RunView { next: s.next + 1, ..s }
        } else {
            RunView { phase: Phase::Listing, next: 0, ..s }
        },
    }
}

/// After the listing: the registry's bindings go into the cache, and the
/// packages they do not cover are the ones to configure. The cache has no
/// say in which those are.
pub open spec fn after_bindings(s: RunView, result: ListingView) -> RunView {
    match result {
        Err(e) => RunView { phase: Phase::Ended(RunEnd::QueryFailed), query_error: Some(e), ..s },
        Ok(existing) => {
            let pending = desired(names_of(s.packages), existing, s.target.owner, s.target.repo);
            RunView {
                cache: s.cache.union(observed(existing, s.target.owner, s.target.repo)),
                pending,
                phase: if pending.len() == 0 {
                    Phase::Ended(RunEnd::AlreadyConfigured)
                } else if s.target.dry_run {
                    Phase::Ended(RunEnd::DryRun)
                } else {
                    Phase::ApplyConsent
                },
                ..s
            }
        },
    }
}

/// After one creation request: a success goes into the cache and the list
/// of configured packages, a failure into the list of failures; either way
/// the batch goes on, and ends after its last package.
pub open spec fn after_created(s: RunView, result: Result<(), BindingCreateErrorView>) -> RunView {
    let name = s.pending[s.next];
    let cache = if result is Ok {
        s.cache.insert(key_of(s.target.owner, s.target.repo, name))
    } else {
        s.cache
    };
    let configured = if result is Ok {
        s.configured.push(name)
    } else {
        s.configured
    };
    let failed = match result {
        Ok(_) => s.failed,
        Err(e) => s.failed.push((name, e)),
    };
    if s.next + 1 < s.pending.len() {
        RunView { cache, configured, failed, next: s.next + 1, ..s }
    } else {
        RunView {
            cache,
            configured,
            failed,
            next: s.next + 1,
            phase: Phase::Ended(
                if failed.len() == 0 {
                    RunEnd::Configured
                } else {
                    RunEnd::PartlyConfigured
                },
            ),
            ..s
        }
    }
}

/// The state after the event `e`. An event that the run is not waiting for
/// changes nothing.
pub open spec fn step_of(s: RunView, e: EventView) -> RunView {
    if !awaits(s, e) {
        s
    } else {
        match e {
            EventView::Existence { exists } => after_existence(s, exists),
            EventView::Consent { granted } => after_consent(s, granted),
            EventView::Published { result } => after_published(s, result),
            EventView::Bindings { listing } => after_bindings(s, listing),
            EventView::Created { outcome } => after_created(s, outcome),
        }
    }
}

/// What holds of every state that a run reaches.
pub open spec fn wf(s: RunView) -> bool {
    &&& s.packages.len() <= usize::MAX
    &&& forall|k: int| 0 <= k < s.unpublished.len() ==> (#[trigger] s.unpublished[k]) < s.packages.len()
    &&& !(s.phase == Phase::Applying || s.phase == Phase::Ended(RunEnd::Configured) || s.phase
        == Phase::Ended(RunEnd::PartlyConfigured)) ==> s.configured.len() == 0 && s.failed.len() == 0
    &&& s.phase == Phase::PublishConsent ==> !s.target.dry_run && s.unpublished.len() > 0
    &&& s.phase == Phase::Publishing ==> !s.target.dry_run && 0 <= s.next < s.unpublished.len()
    &&& s.phase == Phase::ApplyConsent ==> !s.target.dry_run && s.pending.len() > 0
    &&& s.phase == Phase::Applying ==> !s.target.dry_run && 0 <= s.next < s.pending.len()
    &&& s.phase == Phase::Applying ==> s.configured.len() + s.failed.len() == s.next
    &&& s.target.dry_run ==> s.configured.len() == 0 && s.failed.len() == 0
    &&& s.phase == Phase::Ended(RunEnd::Configured) ==> !s.target.dry_run && s.failed.len() == 0
        && s.configured.len() == s.pending.len()
    &&& s.phase == Phase::Ended(RunEnd::PartlyConfigured) ==> !s.target.dry_run && s.failed.len()
        > 0 && s.configured.len() + s.failed.len() == s.pending.len()
}

/// Every position that `absent` gives is one of the list it was given.
pub proof fn lemma_absent_in_range(exists: Seq<bool>, k: int)
    requires
        0 <= k < absent(exists).len(),
        exists.len() <= usize::MAX,
    ensures
        absent(exists)[k] < exists.len(),
        !exists[absent(exists)[k] as int],
{
    let all = positions(exists.len());
    let gone = |i: usize| !exists[i as int];
    all.lemma_filter_pred(gone, k);
    assert(all.filter(gone).contains(all.filter(gone)[k]));
    all.lemma_filter_contains_rev(gone, all.filter(gone)[k]);
    let j = choose|j: int| 0 <= j < all.len() && all[j] == all.filter(gone)[k];
    assert(all[j] == j);
}

/// A run starts in a state that the model allows.
pub proof fn law_start_is_wf(
    target: RunTargetView,
    packages: Seq<PackageView>,
    cache: Set<Seq<char>>,
)
    requires
        packages.len() <= usize::MAX,
    ensures
        wf(start_of(target, packages, cache)),
{
}

/// Every step leads from an allowed state to an allowed state.
pub proof fn law_step_keeps_wf(s: RunView, e: EventView)
    requires
        wf(s),
    ensures
        wf(step_of(s, e)),
{
    if awaits(s, e) {
        match e {
            EventView::Existence { exists } => {
                assert forall|k: int| 0 <= k < absent(exists).len() implies (#[trigger] absent(
                    exists,
                )[k]) < s.packages.len() by {
                    lemma_absent_in_range(exists, k);
                }
            },
            _ => {},
        }
    }
}

/// The target and the packages of a run never change.
pub proof fn law_step_keeps_the_target(s: RunView, e: EventView)
    ensures
        step_of(s, e).target == s.target,
        step_of(s, e).packages == s.packages,
{
}

/// The cache only grows: whatever it holds, it holds after every step.
pub proof fn law_cache_only_grows(s: RunView, e: EventView)
    ensures
        s.cache.subset_of(step_of(s, e).cache),
{
}

/// A run that has ended stays as it is.
pub proof fn law_the_end_is_final(s: RunView, e: EventView)
    requires
        s.phase is Ended,
    ensures
        step_of(s, e) == s,
{
}

/// A dry run sends nothing that changes the registry: it never asks for a
/// placeholder to be published nor for a binding to be created.
pub proof fn law_dry_run_sends_nothing(s: RunView)
    requires
        wf(s),
        s.target.dry_run,
    ensures
        !(action_of(s) is Publish),
        !(action_of(s) is Create),
{
}

/// A dry run that found something to configure leaves the cache file as it
/// is: the one ending after which a dry run saves the cache is the one in
/// which every package already had its binding.
pub proof fn law_dry_run_keeps_the_cache_file(s: RunView)
    requires
        wf(s),
        s.target.dry_run,
        s.phase != Phase::Ended(RunEnd::AlreadyConfigured),
    ensures
        action_of(s) matches ActionView::Finish { save_cache, .. } ==> !save_cache,
{
}

/// The cache never hides a package: one that the registry does not show as
/// bound is configured even if the cache holds its token.
pub proof fn law_cache_never_hides_a_package(
    s: RunView,
    existing: Seq<GithubConfigView>,
    package: Seq<char>,
)
    requires
        s.phase == Phase::Listing,
        s.cache.contains(key_of(s.target.owner, s.target.repo, package)),
        names_of(s.packages).contains(package),
        !crate::binding::bound(existing, s.target.owner, s.target.repo, package),
    ensures
        step_of(s, EventView::Bindings { listing: Ok(existing) }).pending.contains(package),
{
    crate::binding::law_unbound_package_is_desired(
        s.cache,
        names_of(s.packages),
        existing,
        s.target.owner,
        s.target.repo,
        package,
    );
}

/// Idempotence: when the registry holds the bindings that a run created for
/// everything it had to configure, the next run over the same packages ends
/// with nothing to do and asks for no binding.
pub proof fn law_second_run_is_quiet(s: RunView, existing: Seq<GithubConfigView>)
    requires
        s.phase == Phase::Listing,
    ensures
        ({
            let first = step_of(s, EventView::Bindings { listing: Ok(existing) });
            let made = crate::binding::created(
                first.pending,
                s.target.owner,
                s.target.repo,
                s.target.workflow,
            );
            let second = step_of(s, EventView::Bindings { listing: Ok(existing + made) });
            second.phase == Phase::Ended(RunEnd::AlreadyConfigured) && second.pending.len() == 0
        }),
{
    crate::binding::law_second_run_is_quiet(
        names_of(s.packages),
        existing,
        s.target.owner,
        s.target.repo,
        s.target.workflow,
    );
}

/// A refused binding does not stop the batch: while packages are left, the
/// run goes on to the next one, and the refusal is kept with its reason.
pub proof fn law_a_failure_does_not_stop_the_batch(s: RunView, error: BindingCreateErrorView)
    requires
        wf(s),
        s.phase == Phase::Applying,
    ensures
        ({
            let after = step_of(s, EventView::Created { outcome: Err(error) });
            &&& after.failed == s.failed.push((s.pending[s.next], error))
            &&& after.configured == s.configured
            &&& after.cache == s.cache
            &&& s.next + 1 < s.pending.len() ==> after.phase == Phase::Applying && after.next
                == s.next + 1
            &&& s.next + 1 == s.pending.len() ==> after.phase == Phase::Ended(
                RunEnd::PartlyConfigured,
            )
        }),
{
}

/// A failed placeholder ends the run at once, and a failed listing too.
pub proof fn law_fatal_failures_end_the_run(s: RunView, e: EventView)
    requires
        awaits(s, e),
    ensures
        e matches EventView::Published { result: Err(_) } ==> step_of(s, e).phase == Phase::Ended(
            RunEnd::PublishFailed,
        ),
        e matches EventView::Bindings { listing: Err(_) } ==> step_of(s, e).phase == Phase::Ended(
            RunEnd::QueryFailed,
        ),
{
}

} // verus!
