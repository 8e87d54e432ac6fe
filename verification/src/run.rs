//! The executable run: it holds the state of one reconciliation, tells its
//! caller what to do next, and takes each result in.
//!
//! The run does no input or output of its own. Its caller probes, asks,
//! publishes, lists and creates as the run says, and hands back what came of
//! it.
use vstd::prelude::*;
use crate::binding::{merge_observed, to_configure, GithubConfig};
use crate::cache::{cache_key, TrustpubCache};
use crate::model::{
    absent, action_of, exit_code_of, positions, saves_cache, start_of, step_of, wf, ActionView,
    EventView, Phase, RunEnd, RunTargetView, RunView,
};
use crate::package::Package;
use crate::registry::{listing_view, create_result_view, BindingCreateError, Listing, RegistryQueryError};
use crate::skeleton::{publish_result_view, PublishError};

verus! {

/// The binding parameters of a run, the same for every package.
#[derive(Clone, Debug, PartialEq, Eq)]
pub struct RunTarget {
    pub owner: String,
    pub repo: String,
    pub workflow: String,
    pub token: String,
    pub dry_run: bool,
}

impl View for RunTarget {
    type V = RunTargetView;

    open spec fn view(&self) -> RunTargetView {
        RunTargetView {
            owner: self.owner@,
            repo: self.repo@,
            workflow: self.workflow@,
            token: self.token@,
            dry_run: self.dry_run,
        }
    }
}

/// What the caller hands back to the run.
#[derive(Debug)]
pub enum Event {
    /// For each package, in order, whether the registry has it.
    Existence { exists: Vec<bool> },
    /// The user's answer to a question.
    Consent { granted: bool },
    /// How publishing one placeholder went.
    Published { result: Result<(), PublishError> },
    /// The registry's bindings of all packages, or the first failure.
    Bindings { listing: Listing },
    /// How creating one binding went.
    Created { outcome: Result<(), BindingCreateError> },
}

impl View for Event {
    type V = EventView;

    open spec fn view(&self) -> EventView {
        match self {
            Event::Existence { exists } => EventView::Existence { exists: exists@ },
            Event::Consent { granted } => EventView::Consent { granted: *granted },
            Event::Published { result } => EventView::Published {
                result: publish_result_view(*result),
            },
            Event::Bindings { listing } => EventView::Bindings { listing: listing_view(*listing) },
            Event::Created { outcome } => EventView::Created { outcome: create_result_view(*outcome) },
        }
    }
}

/// What the run asks its caller to do next.
#[derive(Clone, Debug, PartialEq, Eq)]
pub enum Action {
    /// Find out which packages the registry has.
    CheckExistence,
    /// Ask the user whether to publish placeholders.
    ConfirmPublish,
    /// Publish the placeholder of the package at this position, then pause.
    Publish { package: usize },
    /// List the registry's bindings of every package.
    ListBindings,
    /// Ask the user whether to create the bindings.
    ConfirmApply,
    /// Ask the registry to create this binding, then pause.
    Create { request: GithubConfig },
    /// Stop, after saving the cache if `save_cache` says so.
    Finish { end: RunEnd, save_cache: bool },
}

impl View for Action {
    type V = ActionView;

    open spec fn view(&self) -> ActionView {
        match self {
            Action::CheckExistence => ActionView::CheckExistence,
            Action::ConfirmPublish => ActionView::ConfirmPublish,
            Action::Publish { package } => ActionView::Publish { package: *package },
            Action::ListBindings => ActionView::ListBindings,
            Action::ConfirmApply => ActionView::ConfirmApply,
            Action::Create { request } => ActionView::Create { request: request@ },
            Action::Finish { end, save_cache } => ActionView::Finish {
                end: *end,
                save_cache: *save_cache,
            },
        }
    }
}

/// Whether the cache is written back after a run that ended this way.
pub fn cache_is_saved(end: RunEnd) -> (yes: bool)
    ensures
        yes == saves_cache(end),
{
    match end {
        RunEnd::AlreadyConfigured | RunEnd::Configured | RunEnd::PartlyConfigured => true,
        _ => false,
    }
}

/// The exit code of a run that ended this way.
pub fn exit_code(end: RunEnd) -> (code: i32)
    ensures
        code == exit_code_of(end),
{
    match end {
        RunEnd::Aborted | RunEnd::PublishFailed | RunEnd::QueryFailed => 1,
        _ => 0,
    }
}

/// The figures of the final report of a run.
#[derive(Clone, Copy, Debug, PartialEq, Eq)]
pub struct Summary {
    /// How the run ended.
    pub end: RunEnd,
    /// How many publishable packages the workspace has.
    pub packages: usize,
    /// How many of them needed a binding.
    pub attempted: usize,
    /// How many bindings this run created.
    pub configured: usize,
    /// How many bindings were refused.
    pub failed: usize,
}

/// The positions of the packages that the registry does not have.
pub fn absent_positions(exists: &Vec<bool>) -> (missing: Vec<usize>)
    ensures
        missing@ == absent(exists@),
        forall|k: int| 0 <= k < missing.len() ==> (#[trigger] missing[k]) < exists.len(),
{
    let ghost gone = |i: usize| !exists@[i as int];
    let mut missing: Vec<usize> = Vec::new();
    let mut i: usize = 0;
    assert(missing@ =~= positions(0).filter(gone)) by {
        reveal(Seq::filter);
    }
    while i < exists.len()
        invariant
            i <= exists.len(),
            gone == |i: usize| !exists@[i as int],
            missing@ == positions(i as nat).filter(gone),
            forall|k: int| 0 <= k < missing.len() ==> (#[trigger] missing[k]) < i,
        decreases exists.len() - i,
    {
        proof {
            assert(positions((i + 1) as nat).drop_last() =~= positions(i as nat));
            assert(positions((i + 1) as nat).last() == i);
            reveal(Seq::filter);
        }
        if !exists[i] {
            missing.push(i);
        }
        i = i + 1;
    }
    missing
}

/// One reconciliation, from the list of publishable packages to the report.
pub struct Run {
    target: RunTarget,
    packages: Vec<Package>,
    cache: TrustpubCache,
    phase: Phase,
    unpublished: Vec<usize>,
    pending: Vec<String>,
    next: usize,
    configured: Vec<String>,
    failed: Vec<(String, BindingCreateError)>,
    publish_error: Option<PublishError>,
    query_error: Option<RegistryQueryError>,
}

impl View for Run {
    type V = RunView;

    closed spec fn view(&self) -> RunView {
        RunView {
            target: self.target@,
            packages: self.packages.deep_view(),
            cache: self.cache@,
            phase: self.phase,
            unpublished: self.unpublished@,
            pending: self.pending.deep_view(),
            next: self.next as int,
            configured: self.configured.deep_view(),
            failed: self.failed.deep_view(),
            publish_error: self.publish_error.deep_view(),
            query_error: self.query_error.deep_view(),
        }
    }
}

impl Run {
    /// Every run is in a state that the model allows.
    #[verifier::type_invariant]
    spec fn inv(&self) -> bool {
        wf(self@)
    }

    /// Starts a run for the given publishable packages, with the cache as it
    /// was loaded. A workspace without packages ends the run at once.
    pub fn new(target: RunTarget, packages: Vec<Package>, cache: TrustpubCache) -> (run: Run)
        ensures
            run@ == start_of(target@, packages.deep_view(), cache@),
            wf(run@),
    {
        let phase = if packages.len() == 0 {
            Phase::Ended(RunEnd::NoPackages)
        } else {
            Phase::Probing
        };
        let run = Run {
            target,
            packages,
            cache,
            phase,
            unpublished: Vec::new(),
            pending: Vec::new(),
            next: 0,
            configured: Vec::new(),
            failed: Vec::new(),
            publish_error: None,
            query_error: None,
        };
        assert(run@.pending =~= Seq::empty());
        assert(run@.configured =~= Seq::empty());
        assert(run@.failed =~= Seq::empty());
        assert(run@.unpublished =~= Seq::empty());
        run
    }

    /// What the run is waiting for.
    pub fn action(&self) -> (action: Action)
        ensures
            action@ == action_of(self@),
            wf(self@),
            action matches Action::Publish { package } ==> package < self@.packages.len(),
            self@.target.dry_run ==> !(action is Publish) && !(action is Create),
    {
        proof {
            use_type_invariant(self);
        }
        match self.phase {
            Phase::Probing => Action::CheckExistence,
            Phase::PublishConsent => Action::ConfirmPublish,
            Phase::Publishing => Action::Publish { package: self.unpublished[self.next] },
            Phase::Listing => Action::ListBindings,
            Phase::ApplyConsent => Action::ConfirmApply,
            Phase::Applying => Action::Create {
                request: GithubConfig {
                    crate_name: self.pending[self.next].clone(),
                    repository_owner: self.target.owner.clone(),
                    repository_name: self.target.repo.clone(),
                    workflow_filename: self.target.workflow.clone(),
                },
            },
            Phase::Ended(end) => Action::Finish { end, save_cache: cache_is_saved(end) },
        }
    }

    /// Where the run stands.
    pub fn phase(&self) -> (phase: Phase)
        ensures
            phase == self@.phase,
    {
        self.phase
    }

    /// The binding parameters of the run.
    pub fn target(&self) -> (target: &RunTarget)
        ensures
            target@ == self@.target,
    {
        &self.target
    }

    /// The publishable packages of the workspace.
    pub fn packages(&self) -> (packages: &Vec<Package>)
        ensures
            packages.deep_view() == self@.packages,
    {
        &self.packages
    }

    /// The cache as it stands, to be saved when the run says so.
    pub fn cache(&self) -> (cache: &TrustpubCache)
        ensures
            cache@ == self@.cache,
    {
        &self.cache
    }

    /// The positions, in the list of packages, of those that the registry
    /// does not have. Each is a position of that list.
    pub fn unpublished(&self) -> (positions: &Vec<usize>)
        ensures
            positions@ == self@.unpublished,
            forall|k: int| 0 <= k < positions.len() ==> (#[trigger] positions[k]) < self@.packages.len(),
    {
        proof {
            use_type_invariant(self);
            assert forall|k: int| 0 <= k < self.unpublished.len() implies (
            #[trigger] self.unpublished[k]) < self@.packages.len() by {
                assert(self@.unpublished[k] == self.unpublished[k]);
            }
        }
        &self.unpublished
    }

    /// The names of the packages that need a binding.
    pub fn pending(&self) -> (names: &Vec<String>)
        ensures
            names.deep_view() == self@.pending,
    {
        &self.pending
    }

    /// The names of the packages whose binding this run created.
    pub fn configured(&self) -> (names: &Vec<String>)
        ensures
            names.deep_view() == self@.configured,
    {
        &self.configured
    }

    /// The packages whose binding was refused, each with the reason.
    pub fn failed(&self) -> (failures: &Vec<(String, BindingCreateError)>)
        ensures
            failures.deep_view() == self@.failed,
    {
        &self.failed
    }

    /// Why a placeholder could not be published, if that ended the run.
    pub fn publish_error(&self) -> (error: &Option<PublishError>)
        ensures
            error.deep_view() == self@.publish_error,
    {
        &self.publish_error
    }

    /// Why the bindings could not be listed, if that ended the run.
    pub fn query_error(&self) -> (error: &Option<RegistryQueryError>)
        ensures
            error.deep_view() == self@.query_error,
    {
        &self.query_error
    }

    /// The figures of the final report, once the run has ended.
    pub fn summary(&self) -> (summary: Option<Summary>)
        ensures
            match summary {
                Some(m) => {
                    &&& self@.phase == Phase::Ended(m.end)
                    &&& m.packages == self@.packages.len()
                    &&& m.attempted == self@.pending.len()
                    &&& m.configured == self@.configured.len()
                    &&& m.failed == self@.failed.len()
                    &&& m.configured + m.failed <= m.attempted
                },
                None => !(self@.phase is Ended),
            },
            wf(self@),
    {
        proof {
            use_type_invariant(self);
        }
        match self.phase {
            Phase::Ended(end) => Some(
                Summary {
                    end,
                    packages: self.packages.len(),
                    attempted: self.pending.len(),
                    configured: self.configured.len(),
                    failed: self.failed.len(),
                },
            ),
            _ => None,
        }
    }

    /// Takes in what the caller hands back, and moves on. An event that the
    /// run is not waiting for is ignored.
    pub fn step(self, event: Event) -> (next: Run)
        ensures
            next@ == step_of(self@, event@),
            wf(next@),
    {
        proof {
            use_type_invariant(&self);
        }
        let ghost before = self@;
        let Run {
            target,
            packages,
            mut cache,
            mut phase,
            mut unpublished,
            mut pending,
            mut next,
            mut configured,
            mut failed,
            mut publish_error,
            mut query_error,
        } = self;
        assert(before.next == next && before.unpublished == unpublished@ && before.pending
            == pending.deep_view());
        assert(phase == Phase::Publishing ==> next < unpublished.len());
        assert(phase == Phase::Applying ==> next < pending.len());
        match (phase, event) {
            (Phase::Probing, Event::Existence { exists }) => {
                if exists.len() == packages.len() {
                    unpublished = absent_positions(&exists);
                    phase = if unpublished.len() == 0 || target.dry_run {
                        Phase::Listing
                    } else {
                        Phase::PublishConsent
                    };
                }
            },
            (Phase::PublishConsent, Event::Consent { granted }) => {
                phase = if granted {
                    Phase::Publishing
                } else {
                    Phase::Ended(RunEnd::Aborted)
                };
                next = 0;
            },
            (Phase::Publishing, Event::Published { result }) => {
                match result {
                    Err(e) => {
                        phase = Phase::Ended(RunEnd::PublishFailed);
                        publish_error = Some(e);
                    },
                    Ok(_) => {
                        if next + 1 < unpublished.len() {
                            next = next + 1;
                        } else {
                            phase = Phase::Listing;
                            next = 0;
                        }
                    },
                }
            },
            (Phase::Listing, Event::Bindings { listing }) => {
                match listing {
                    Err(e) => {
                        phase = Phase::Ended(RunEnd::QueryFailed);
                        query_error = Some(e);
                    },
                    Ok(existing) => {
                        merge_observed(&mut cache, &existing, &target.owner, &target.repo);
                        pending = to_configure(&packages, &existing, &target.owner, &target.repo);
                        phase = if pending.len() == 0 {
                            Phase::Ended(RunEnd::AlreadyConfigured)
                        } else if target.dry_run {
                            Phase::Ended(RunEnd::DryRun)
                        } else {
                            Phase::ApplyConsent
                        };
                    },
                }
            },
            (Phase::ApplyConsent, Event::Consent { granted }) => {
                phase = if granted {
                    Phase::Applying
                } else {
                    Phase::Ended(RunEnd::Aborted)
                };
                next = 0;
            },
            (Phase::Applying, Event::Created { outcome }) => {
                let ghost configured_before = configured.deep_view();
                let ghost failed_before = failed.deep_view();
                let name = pending[next].clone();
                match outcome {
                    Ok(_) => {
                        let key = cache_key(
                            target.owner.as_str(),
                            target.repo.as_str(),
                            name.as_str(),
                        );
                        cache.insert(key);
                        configured.push(name);
                        assert(configured.deep_view() =~= configured_before.push(
                            before.pending[before.next],
                        ));
                    },
                    Err(e) => {
                        failed.push((name, e));
                        assert(failed.deep_view() =~= failed_before.push(
                            (before.pending[before.next], e@),
                        ));
                    },
                }
                next = next + 1;
                if next >= pending.len() {
                    phase = Phase::Ended(
                        if failed.len() == 0 {
                            RunEnd::Configured
                        } else {
                            RunEnd::PartlyConfigured
                        },
                    );
                }
            },
            _ => {},
        }
        Run {
            target,
            packages,
            cache,
            phase,
            unpublished,
            pending,
            next,
            configured,
            failed,
            publish_error,
            query_error,
        }
    }
}

} // verus!
