//! Trusted-publishing bindings, and the difference between the bindings a
//! workspace wants and those the registry already has.
use vstd::prelude::*;
use crate::cache::{cache_key, key_of, TrustpubCache};
use crate::package::{Package, PackageView};

verus! {

/// A binding as the registry stores it: the named workflow of the named
/// repository may publish the named package.
#[derive(Clone, Debug, PartialEq, Eq)]
pub struct GithubConfig {
    pub crate_name: String,
    pub repository_owner: String,
    pub repository_name: String,
    pub workflow_filename: String,
}

/// The mathematical content of a [`GithubConfig`].
pub struct GithubConfigView {
    pub crate_name: Seq<char>,
    pub repository_owner: Seq<char>,
    pub repository_name: Seq<char>,
    pub workflow_filename: Seq<char>,
}

impl View for GithubConfig {
    type V = GithubConfigView;

    open spec fn view(&self) -> GithubConfigView {
        GithubConfigView {
            crate_name: self.crate_name@,
            repository_owner: self.repository_owner@,
            repository_name: self.repository_name@,
            workflow_filename: self.workflow_filename@,
        }
    }
}

impl DeepView for GithubConfig {
    type V = GithubConfigView;

    open spec fn deep_view(&self) -> GithubConfigView {
        self@
    }
}

/// Whether `config` is the binding of `package` to the repository
/// `owner/repo`. The workflow plays no part in a binding's identity.
pub open spec fn binds(
    config: GithubConfigView,
    owner: Seq<char>,
    repo: Seq<char>,
    package: Seq<char>,
) -> bool {
    config.repository_owner == owner && config.repository_name == repo && config.crate_name
        == package
}

/// Whether the registry's bindings hold one of `package` to `owner/repo`.
pub open spec fn bound(
    existing: Seq<GithubConfigView>,
    owner: Seq<char>,
    repo: Seq<char>,
    package: Seq<char>,
) -> bool {
    exists|i: int| 0 <= i < existing.len() && binds(#[trigger] existing[i], owner, repo, package)
}

/// The names of the given packages, in order.
pub open spec fn names_of(packages: Seq<PackageView>) -> Seq<Seq<char>> {
    packages.map_values(|p: PackageView| p.name)
}

/// The packages that still need a binding to `owner/repo`: those of `names`
/// that the registry's bindings do not cover, in the order of `names`.
pub open spec fn desired(
    names: Seq<Seq<char>>,
    existing: Seq<GithubConfigView>,
    owner: Seq<char>,
    repo: Seq<char>,
) -> Seq<Seq<char>> {
    names.filter(|name: Seq<char>| !bound(existing, owner, repo, name))
}

/// The cache tokens of the bindings to `owner/repo` that the registry holds.
pub open spec fn observed(existing: Seq<GithubConfigView>, owner: Seq<char>, repo: Seq<char>) -> Set<
    Seq<char>,
> {
    Set::new(
        |key: Seq<char>|
            exists|i: int|
                0 <= i < existing.len() && (#[trigger] existing[i]).repository_owner == owner
                    && existing[i].repository_name == repo && key == key_of(
                    owner,
                    repo,
                    existing[i].crate_name,
                ),
    )
}

/// The binding that a run asks the registry to create for `package`.
pub open spec fn request_for(
    package: Seq<char>,
    owner: Seq<char>,
    repo: Seq<char>,
    workflow: Seq<char>,
) -> GithubConfigView {
    GithubConfigView {
        crate_name: package,
        repository_owner: owner,
        repository_name: repo,
        workflow_filename: workflow,
    }
}

/// The bindings that a run creates when every request for `names` succeeds.
pub open spec fn created(
    names: Seq<Seq<char>>,
    owner: Seq<char>,
    repo: Seq<char>,
    workflow: Seq<char>,
) -> Seq<GithubConfigView> {
    names.map_values(|name: Seq<char>| request_for(name, owner, repo, workflow))
}

impl GithubConfig {
    /// Whether this is the binding of `package` to `owner/repo`.
    pub fn binds(&self, owner: &String, repo: &String, package: &String) -> (yes: bool)
        ensures
            yes == binds(self@, owner@, repo@, package@),
    {
        self.repository_owner == *owner && self.repository_name == *repo && self.crate_name
            == *package
    }
}

/// Whether the registry's bindings hold one of `package` to `owner/repo`.
pub fn is_bound(existing: &Vec<GithubConfig>, owner: &String, repo: &String, package: &String) -> (yes:
    bool)
    ensures
        yes == bound(existing.deep_view(), owner@, repo@, package@),
{
    let mut i: usize = 0;
    while i < existing.len()
        invariant
            i <= existing.len(),
            forall|j: int| 0 <= j < i ==> !binds(existing.deep_view()[j], owner@, repo@, package@),
        decreases existing.len() - i,
    {
        if existing[i].binds(owner, repo, package) {
            assert(binds(existing.deep_view()[i as int], owner@, repo@, package@));
            return true;
        }
        i = i + 1;
    }
    false
}

/// The names of the packages that still need a binding to `owner/repo`, in
/// the order of `packages`. The cache has no say in this.
pub fn to_configure(
    packages: &Vec<Package>,
    existing: &Vec<GithubConfig>,
    owner: &String,
    repo: &String,
) -> (pending: Vec<String>)
    ensures
        pending.deep_view() == desired(
            names_of(packages.deep_view()),
            existing.deep_view(),
            owner@,
            repo@,
        ),
{
    let ghost names = names_of(packages.deep_view());
    let ghost missing = |name: Seq<char>| !bound(existing.deep_view(), owner@, repo@, name);
    let mut pending: Vec<String> = Vec::new();
    let mut i: usize = 0;
    assert(pending.deep_view() =~= names.take(0).filter(missing)) by {
        reveal(Seq::filter);
    }
    while i < packages.len()
        invariant
            i <= packages.len(),
            names == names_of(packages.deep_view()),
            missing == |name: Seq<char>| !bound(existing.deep_view(), owner@, repo@, name),
            pending.deep_view() == names.take(i as int).filter(missing),
        decreases packages.len() - i,
    {
        let ghost before = pending.deep_view();
        proof {
            assert(names.take(i + 1).drop_last() =~= names.take(i as int));
            assert(names.take(i + 1).last() == packages[i as int].name@);
            reveal(Seq::filter);
        }
        if !is_bound(existing, owner, repo, &packages[i].name) {
            pending.push(packages[i].name.clone());
            assert(pending.deep_view() =~= before.push(packages[i as int].name@));
        }
        i = i + 1;
    }
    assert(names.take(packages.len() as int) =~= names);
    pending
}

/// Records in the cache every binding to `owner/repo` that the registry
/// holds. What the cache held before stays.
pub fn merge_observed(
    cache: &mut TrustpubCache,
    existing: &Vec<GithubConfig>,
    owner: &String,
    repo: &String,
)
    ensures
        final(cache)@ == old(cache)@.union(observed(existing.deep_view(), owner@, repo@)),
{
    let ghost all = existing.deep_view();
    let mut i: usize = 0;
    assert(cache@ =~= old(cache)@.union(observed(all.take(0), owner@, repo@)));
    while i < existing.len()
        invariant
            i <= existing.len(),
            all == existing.deep_view(),
            cache@ == old(cache)@.union(observed(all.take(i as int), owner@, repo@)),
        decreases existing.len() - i,
    {
        let ghost before = cache@;
        if existing[i].repository_owner == *owner && existing[i].repository_name == *repo {
            let key = cache_key(owner.as_str(), repo.as_str(), existing[i].crate_name.as_str());
            cache.insert(key);
        }
        proof {
            lemma_observed_step(all.take(i + 1), owner@, repo@);
            assert(all.take(i + 1).drop_last() =~= all.take(i as int));
            assert(cache@ =~= old(cache)@.union(observed(all.take(i + 1), owner@, repo@)));
        }
        i = i + 1;
    }
    assert(all.take(existing.len() as int) =~= all);
}

/// What the last binding of a list adds to the observed tokens.
proof fn lemma_observed_step(existing: Seq<GithubConfigView>, owner: Seq<char>, repo: Seq<char>)
    requires
        existing.len() > 0,
    ensures
        observed(existing, owner, repo) == if existing.last().repository_owner == owner
            && existing.last().repository_name == repo {
            observed(existing.drop_last(), owner, repo).insert(
                key_of(owner, repo, existing.last().crate_name),
            )
        } else {
            observed(existing.drop_last(), owner, repo)
        },
{
    let rest = existing.drop_last();
    let last = existing.last();
    let hit = last.repository_owner == owner && last.repository_name == repo;
    let stepped = if hit {
        observed(rest, owner, repo).insert(key_of(owner, repo, last.crate_name))
    } else {
        observed(rest, owner, repo)
    };
    assert forall|key: Seq<char>| observed(existing, owner, repo).contains(key)
        == stepped.contains(key) by {
        if observed(existing, owner, repo).contains(key) {
            let i = choose|i: int|
                0 <= i < existing.len() && (#[trigger] existing[i]).repository_owner == owner
                    && existing[i].repository_name == repo && key == key_of(
                    owner,
                    repo,
                    existing[i].crate_name,
                );
            if i < rest.len() {
                assert(rest[i] == existing[i]);
            }
        }
        if observed(rest, owner, repo).contains(key) {
            let i = choose|i: int|
                0 <= i < rest.len() && (#[trigger] rest[i]).repository_owner == owner
                    && rest[i].repository_name == repo && key == key_of(
                    owner,
                    repo,
                    rest[i].crate_name,
                );
            assert(existing[i] == rest[i]);
        }
        if hit && key == key_of(owner, repo, last.crate_name) {
            assert(existing[existing.len() - 1] == last);
        }
    }
    assert(observed(existing, owner, repo) =~= stepped);
}

/// A package of the workspace that the registry does not show as bound to
/// `owner/repo` is among those to configure, whatever any cache says of it.
pub proof fn law_unbound_package_is_desired(
    cache: Set<Seq<char>>,
    names: Seq<Seq<char>>,
    existing: Seq<GithubConfigView>,
    owner: Seq<char>,
    repo: Seq<char>,
    package: Seq<char>,
)
    requires
        names.contains(package),
        !bound(existing, owner, repo, package),
    ensures
        desired(names, existing, owner, repo).contains(package),
{
    let missing = |name: Seq<char>| !bound(existing, owner, repo, name);
    let i = choose|i: int| 0 <= i < names.len() && names[i] == package;
    names.lemma_filter_contains(missing, i);
}

/// Only packages of the workspace that the registry does not show as bound
/// are configured.
pub proof fn law_desired_is_unbound(
    names: Seq<Seq<char>>,
    existing: Seq<GithubConfigView>,
    owner: Seq<char>,
    repo: Seq<char>,
    package: Seq<char>,
)
    requires
        desired(names, existing, owner, repo).contains(package),
    ensures
        names.contains(package),
        !bound(existing, owner, repo, package),
{
    let missing = |name: Seq<char>| !bound(existing, owner, repo, name);
    let wanted = names.filter(missing);
    let i = choose|i: int| 0 <= i < wanted.len() && wanted[i] == package;
    names.lemma_filter_pred(missing, i);
    names.lemma_filter_contains_rev(missing, package);
}

/// Idempotence: once the registry holds the bindings that a run created for
/// everything it had to configure, a second run has nothing to configure.
pub proof fn law_second_run_is_quiet(
    names: Seq<Seq<char>>,
    existing: Seq<GithubConfigView>,
    owner: Seq<char>,
    repo: Seq<char>,
    workflow: Seq<char>,
)
    ensures
        desired(
            names,
            existing + created(desired(names, existing, owner, repo), owner, repo, workflow),
            owner,
            repo,
        ) == Seq::<Seq<char>>::empty(),
{
    let first = desired(names, existing, owner, repo);
    let made = created(first, owner, repo, workflow);
    let after = existing + made;
    let missing = |name: Seq<char>| !bound(after, owner, repo, name);
    assert forall|i: int| 0 <= i < names.len() implies !missing(#[trigger] names[i]) by {
        let name = names[i];
        if bound(existing, owner, repo, name) {
            let j = choose|j: int|
                0 <= j < existing.len() && binds(#[trigger] existing[j], owner, repo, name);
            assert(after[j] == existing[j]);
        } else {
            law_unbound_package_is_desired(Set::empty(), names, existing, owner, repo, name);
            let k = choose|k: int| 0 <= k < first.len() && first[k] == name;
            assert(after[existing.len() + k] == made[k]);
            assert(binds(after[existing.len() + k], owner, repo, name));
        }
    }
    assert(names.all(|name: Seq<char>| !missing(name)));
    names.lemma_all_neg_filter_empty(missing);
    assert(names.filter(missing) =~= Seq::<Seq<char>>::empty());
}

/// A second run asks again for exactly the bindings that the first did not
/// get: what was created, whether by that run or by anyone else, is left out.
pub proof fn law_rerun_skips_what_was_created(
    names: Seq<Seq<char>>,
    existing: Seq<GithubConfigView>,
    owner: Seq<char>,
    repo: Seq<char>,
    workflow: Seq<char>,
    done: Seq<Seq<char>>,
    package: Seq<char>,
)
    ensures
        desired(names, existing + created(done, owner, repo, workflow), owner, repo).contains(
            package,
        ) <==> desired(names, existing, owner, repo).contains(package) && !done.contains(package),
{
    let made = created(done, owner, repo, workflow);
    let after = existing + made;
    if bound(after, owner, repo, package) {
        let j = choose|j: int| 0 <= j < after.len() && binds(#[trigger] after[j], owner, repo, package);
        if j < existing.len() {
            assert(existing[j] == after[j]);
        } else {
            assert(made[j - existing.len()] == after[j]);
            assert(done[j - existing.len()] == package);
        }
    }
    if bound(existing, owner, repo, package) {
        let j = choose|j: int|
            0 <= j < existing.len() && binds(#[trigger] existing[j], owner, repo, package);
        assert(after[j] == existing[j]);
    }
    if done.contains(package) {
        let k = choose|k: int| 0 <= k < done.len() && done[k] == package;
        assert(after[existing.len() + k] == made[k]);
        assert(binds(after[existing.len() + k], owner, repo, package));
    }
    if desired(names, after, owner, repo).contains(package) {
        law_desired_is_unbound(names, after, owner, repo, package);
        law_unbound_package_is_desired(Set::empty(), names, existing, owner, repo, package);
    }
    if desired(names, existing, owner, repo).contains(package) && !done.contains(package) {
        law_desired_is_unbound(names, existing, owner, repo, package);
        law_unbound_package_is_desired(Set::empty(), names, after, owner, repo, package);
    }
}

} // verus!
