use tp::binding::GithubConfig;
use tp::cache::TrustpubCache;
use tp::model::{Phase, RunEnd};
use tp::package::Package;
use tp::registry::{create_result, BindingCreateError, RegistryQueryError, Reply};
use tp::run::{
    absent_positions, cache_is_saved, exit_code, Action, Event, Run, RunTarget, Summary,
};
use tp::skeleton::PublishError;

fn target(dry_run: bool) -> RunTarget {
    RunTarget {
        owner: "facet-rs".to_string(),
        repo: "facet".to_string(),
        workflow: "release-plz.yml".to_string(),
        token: "SECRET".to_string(),
        dry_run,
    }
}

fn pkg(name: &str) -> Package {
    Package {
        name: name.to_string(),
        id: format!("{}-id", name),
        version: "0.1.0".to_string(),
        description: None,
        license: None,
        repository: None,
        publish: None,
    }
}

fn bound_to_target(name: &str) -> GithubConfig {
    GithubConfig {
        crate_name: name.to_string(),
        repository_owner: "facet-rs".to_string(),
        repository_name: "facet".to_string(),
        workflow_filename: "release-plz.yml".to_string(),
    }
}

fn finish(end: RunEnd, save_cache: bool) -> Action {
    Action::Finish { end, save_cache }
}

fn consent(granted: bool) -> Event {
    Event::Consent { granted }
}

fn start(dry_run: bool, packages: &[&str]) -> Run {
    Run::new(target(dry_run), packages.iter().map(|n| pkg(n)).collect(), TrustpubCache::new())
}

#[test]
fn two_packages_one_unpublished_both_get_bindings() {
    // A exists in the registry and has no binding; B does not exist.
    let run = start(false, &["A", "B"]);
    assert_eq!(run.action(), Action::CheckExistence);

    let run = run.step(Event::Existence { exists: vec![true, false] });
    assert_eq!(run.unpublished(), &vec![1]);
    assert_eq!(run.packages()[run.unpublished()[0]].name, "B");
    assert_eq!(run.action(), Action::ConfirmPublish);

    let run = run.step(consent(true));
    assert_eq!(run.action(), Action::Publish { package: 1 });

    let run = run.step(Event::Published { result: Ok(()) });
    assert_eq!(run.action(), Action::ListBindings);

    let run = run.step(Event::Bindings { listing: Ok(vec![]) });
    assert_eq!(run.pending(), &vec!["A".to_string(), "B".to_string()]);
    assert_eq!(run.action(), Action::ConfirmApply);

    let run = run.step(consent(true));
    assert_eq!(run.action(), Action::Create { request: bound_to_target("A") });
    let run = run.step(Event::Created { outcome: Ok(()) });
    assert_eq!(run.action(), Action::Create { request: bound_to_target("B") });
    let run = run.step(Event::Created { outcome: Ok(()) });

    assert_eq!(run.action(), finish(RunEnd::Configured, true));
    assert_eq!(run.configured().len(), 2);
    assert_eq!(run.configured(), &vec!["A".to_string(), "B".to_string()]);
    assert_eq!(run.failed().len(), 0);
    assert!(run.cache().contains(&"facet-rs/facet/A".to_string()));
    assert!(run.cache().contains(&"facet-rs/facet/B".to_string()));
    assert_eq!(run.cache().len(), 2);
    assert_eq!(
        run.summary(),
        Some(Summary {
            end: RunEnd::Configured,
            packages: 2,
            attempted: 2,
            configured: 2,
            failed: 0,
        })
    );
    assert_eq!(exit_code(RunEnd::Configured), 0);
}

#[test]
fn a_refused_binding_is_reported_and_the_batch_goes_on() {
    let run = start(false, &["A", "C", "D"]);
    let run = run.step(Event::Existence { exists: vec![true, true, true] });
    assert_eq!(run.action(), Action::ListBindings);
    let run = run.step(Event::Bindings { listing: Ok(vec![]) });
    let run = run.step(consent(true));

    let run = run.step(Event::Created { outcome: Ok(()) });
    assert_eq!(run.action(), Action::Create { request: bound_to_target("C") });
    let refused = create_result(Reply::Answer { status: 422, body: "no such workflow".to_string() });
    let run = run.step(Event::Created { outcome: refused });
    assert_eq!(run.phase(), Phase::Applying);
    assert_eq!(run.action(), Action::Create { request: bound_to_target("D") });
    let run = run.step(Event::Created { outcome: Ok(()) });

    assert_eq!(run.action(), finish(RunEnd::PartlyConfigured, true));
    assert_eq!(
        run.failed(),
        &vec![(
            "C".to_string(),
            BindingCreateError::Rejected { status: 422, body: "no such workflow".to_string() }
        )]
    );
    assert_eq!(run.configured(), &vec!["A".to_string(), "D".to_string()]);
    assert!(run.cache().contains(&"facet-rs/facet/A".to_string()));
    assert!(!run.cache().contains(&"facet-rs/facet/C".to_string()));
    assert!(run.cache().contains(&"facet-rs/facet/D".to_string()));
    assert_eq!(
        run.summary(),
        Some(Summary {
            end: RunEnd::PartlyConfigured,
            packages: 3,
            attempted: 3,
            configured: 2,
            failed: 1,
        })
    );
    assert_eq!(exit_code(RunEnd::PartlyConfigured), 0);
}

#[test]
fn a_batch_of_failures_alone_still_ends_as_a_batch() {
    let run = start(false, &["A"]);
    let run = run.step(Event::Existence { exists: vec![true] });
    let run = run.step(Event::Bindings { listing: Ok(vec![]) });
    let run = run.step(consent(true));
    let run = run.step(Event::Created {
        outcome: Err(BindingCreateError::NoAnswer { reason: "timeout".to_string() }),
    });
    assert_eq!(run.action(), finish(RunEnd::PartlyConfigured, true));
    assert_eq!(run.configured().len(), 0);
    assert_eq!(run.failed().len(), 1);
    assert_eq!(run.cache().len(), 0);
}

#[test]
fn a_workspace_without_packages_ends_at_once() {
    let run = start(false, &[]);
    assert_eq!(run.phase(), Phase::Ended(RunEnd::NoPackages));
    assert_eq!(run.action(), finish(RunEnd::NoPackages, false));
    assert_eq!(exit_code(RunEnd::NoPackages), 0);
}

#[test]
fn a_dry_run_publishes_and_creates_nothing() {
    let mut cache = TrustpubCache::new();
    cache.insert("facet-rs/facet/old".to_string());
    let run = Run::new(target(true), vec![pkg("A"), pkg("B"), pkg("C")], cache);
    let run = run.step(Event::Existence { exists: vec![true, false, false] });
    assert_eq!(run.unpublished(), &vec![1, 2]);
    // No question, no placeholder: the run goes on to the listing.
    assert_eq!(run.action(), Action::ListBindings);
    let run = run.step(Event::Bindings { listing: Ok(vec![bound_to_target("A")]) });
    assert_eq!(run.pending(), &vec!["B".to_string(), "C".to_string()]);
    assert_eq!(run.action(), finish(RunEnd::DryRun, false));
    assert_eq!(run.configured().len(), 0);
    assert_eq!(run.failed().len(), 0);
    assert_eq!(exit_code(RunEnd::DryRun), 0);
    // Whatever is handed in now, the run stays where it is.
    let run = run.step(Event::Created { outcome: Ok(()) });
    let run = run.step(consent(true));
    assert_eq!(run.action(), finish(RunEnd::DryRun, false));
    assert_eq!(run.configured().len(), 0);
}

#[test]
fn a_dry_run_with_nothing_to_do_ends_as_already_configured() {
    let run = start(true, &["A"]);
    let run = run.step(Event::Existence { exists: vec![true] });
    let run = run.step(Event::Bindings { listing: Ok(vec![bound_to_target("A")]) });
    assert_eq!(run.action(), finish(RunEnd::AlreadyConfigured, true));
    assert!(run.cache().contains(&"facet-rs/facet/A".to_string()));
}

#[test]
fn bound_packages_are_skipped_and_remembered() {
    let run = start(false, &["A", "B"]);
    let run = run.step(Event::Existence { exists: vec![true, true] });
    let other = GithubConfig {
        crate_name: "B".to_string(),
        repository_owner: "someone".to_string(),
        repository_name: "else".to_string(),
        workflow_filename: "w.yml".to_string(),
    };
    let run = run.step(Event::Bindings { listing: Ok(vec![bound_to_target("A"), other]) });
    assert_eq!(run.pending(), &vec!["B".to_string()]);
    assert!(run.cache().contains(&"facet-rs/facet/A".to_string()));
    assert_eq!(run.cache().len(), 1);
    assert_eq!(run.action(), Action::ConfirmApply);
}

#[test]
fn a_second_run_over_the_new_registry_state_creates_nothing() {
    let run = start(false, &["A", "B"]);
    let run = run.step(Event::Existence { exists: vec![true, true] });
    let run = run.step(Event::Bindings { listing: Ok(vec![]) });
    let run = run.step(consent(true));
    let mut registry = Vec::new();
    let mut run = run;
    while let Action::Create { request } = run.action() {
        registry.push(request);
        run = run.step(Event::Created { outcome: Ok(()) });
    }
    assert_eq!(registry.len(), 2);

    let again = start(false, &["A", "B"]);
    let again = again.step(Event::Existence { exists: vec![true, true] });
    let again = again.step(Event::Bindings { listing: Ok(registry) });
    assert_eq!(again.action(), finish(RunEnd::AlreadyConfigured, true));
    assert_eq!(again.pending().len(), 0);
    assert_eq!(again.cache().len(), 2);
}

#[test]
fn a_cached_token_does_not_keep_a_package_from_being_configured() {
    let mut cache = TrustpubCache::new();
    cache.insert("facet-rs/facet/A".to_string());
    let run = Run::new(target(false), vec![pkg("A")], cache);
    let run = run.step(Event::Existence { exists: vec![true] });
    let run = run.step(Event::Bindings { listing: Ok(vec![]) });
    assert_eq!(run.pending(), &vec!["A".to_string()]);
    assert_eq!(run.action(), Action::ConfirmApply);
}

#[test]
fn declining_to_publish_aborts_the_run() {
    let run = start(false, &["A"]);
    let run = run.step(Event::Existence { exists: vec![false] });
    assert_eq!(run.action(), Action::ConfirmPublish);
    let run = run.step(consent(false));
    assert_eq!(run.action(), finish(RunEnd::Aborted, false));
    assert_eq!(exit_code(RunEnd::Aborted), 1);
}

#[test]
fn declining_to_apply_aborts_the_run() {
    let run = start(false, &["A"]);
    let run = run.step(Event::Existence { exists: vec![true] });
    let run = run.step(Event::Bindings { listing: Ok(vec![]) });
    let run = run.step(consent(false));
    assert_eq!(run.action(), finish(RunEnd::Aborted, false));
    assert_eq!(run.configured().len(), 0);
}

#[test]
fn a_failed_placeholder_ends_the_run_before_the_next_one() {
    let run = start(false, &["A", "B", "C"]);
    let run = run.step(Event::Existence { exists: vec![false, true, false] });
    assert_eq!(run.unpublished(), &vec![0, 2]);
    let run = run.step(consent(true));
    assert_eq!(run.action(), Action::Publish { package: 0 });
    let run = run.step(Event::Published { result: Ok(()) });
    assert_eq!(run.action(), Action::Publish { package: 2 });
    let error = PublishError::Refused { package: "C".to_string() };
    let run = run.step(Event::Published { result: Err(error.clone()) });
    assert_eq!(run.action(), finish(RunEnd::PublishFailed, false));
    assert_eq!(run.publish_error(), &Some(error));
    assert_eq!(exit_code(RunEnd::PublishFailed), 1);
}

#[test]
fn a_failed_listing_ends_the_run() {
    let run = start(false, &["A"]);
    let run = run.step(Event::Existence { exists: vec![true] });
    let error = RegistryQueryError::Rejected {
        crate_name: "A".to_string(),
        status: 401,
        body: "who are you".to_string(),
    };
    let run = run.step(Event::Bindings { listing: Err(error.clone()) });
    assert_eq!(run.action(), finish(RunEnd::QueryFailed, false));
    assert_eq!(run.query_error(), &Some(error));
    assert_eq!(run.cache().len(), 0);
    assert_eq!(exit_code(RunEnd::QueryFailed), 1);
}

#[test]
fn an_event_that_is_not_awaited_changes_nothing() {
    let run = start(false, &["A", "B"]);
    let run = run.step(consent(true));
    assert_eq!(run.action(), Action::CheckExistence);
    let run = run.step(Event::Created { outcome: Ok(()) });
    assert_eq!(run.action(), Action::CheckExistence);
    // One answer for two packages is no answer.
    let run = run.step(Event::Existence { exists: vec![true] });
    assert_eq!(run.action(), Action::CheckExistence);
    let run = run.step(Event::Existence { exists: vec![true, true] });
    assert_eq!(run.action(), Action::ListBindings);
    let run = run.step(Event::Published { result: Ok(()) });
    assert_eq!(run.action(), Action::ListBindings);
}

#[test]
fn the_run_keeps_what_it_was_given() {
    let run = start(true, &["A"]);
    assert_eq!(run.target(), &target(true));
    assert_eq!(run.packages(), &vec![pkg("A")]);
    assert_eq!(run.phase(), Phase::Probing);
}

#[test]
fn the_cache_is_saved_after_a_batch_and_when_all_was_done() {
    assert!(cache_is_saved(RunEnd::AlreadyConfigured));
    assert!(cache_is_saved(RunEnd::Configured));
    assert!(cache_is_saved(RunEnd::PartlyConfigured));
    assert!(!cache_is_saved(RunEnd::DryRun));
    assert!(!cache_is_saved(RunEnd::Aborted));
    assert!(!cache_is_saved(RunEnd::NoPackages));
    assert!(!cache_is_saved(RunEnd::PublishFailed));
    assert!(!cache_is_saved(RunEnd::QueryFailed));
}

#[test]
fn the_missing_packages_are_found_by_position() {
    assert_eq!(absent_positions(&vec![true, false, true, false, false]), vec![1, 3, 4]);
    assert_eq!(absent_positions(&vec![true, true]), Vec::<usize>::new());
    assert_eq!(absent_positions(&vec![]), Vec::<usize>::new());
}

#[test]
fn a_placeholder_that_could_not_be_built_ends_the_run_too() {
    let run = start(false, &["A"]);
    let run = run.step(Event::Existence { exists: vec![false] });
    let run = run.step(consent(true));
    let error = PublishError::Broken {
        package: "A".to_string(),
        reason: "permission denied".to_string(),
    };
    let run = run.step(Event::Published { result: Err(error.clone()) });
    assert_eq!(run.phase(), Phase::Ended(RunEnd::PublishFailed));
    assert_eq!(run.publish_error(), &Some(error));
    assert_eq!(
        run.summary(),
        Some(Summary {
            end: RunEnd::PublishFailed,
            packages: 1,
            attempted: 0,
            configured: 0,
            failed: 0,
        })
    );
}

#[test]
fn a_run_that_goes_on_has_no_summary() {
    let run = start(false, &["A"]);
    assert_eq!(run.summary(), None);
    let run = run.step(Event::Existence { exists: vec![true] });
    assert_eq!(run.summary(), None);
}

#[test]
fn a_dry_run_reports_what_it_would_configure() {
    let run = start(true, &["A", "B", "C"]);
    let run = run.step(Event::Existence { exists: vec![true, true, true] });
    let run = run.step(Event::Bindings { listing: Ok(vec![bound_to_target("B")]) });
    assert_eq!(
        run.summary(),
        Some(Summary {
            end: RunEnd::DryRun,
            packages: 3,
            attempted: 2,
            configured: 0,
            failed: 0,
        })
    );
}
