//! Workspace packages and the rule that decides which of them are published.
use vstd::prelude::*;
use crate::text::contains_string;

verus! {

/// One package of the workspace, as the build tool's metadata describes it.
#[derive(Clone, Debug, PartialEq, Eq)]
pub struct Package {
    pub name: String,
    pub id: String,
    pub version: String,
    pub description: Option<String>,
    pub license: Option<String>,
    pub repository: Option<String>,
    /// The registries the package may be published to. `None` puts no limit
    /// on them; an empty list forbids publishing.
    pub publish: Option<Vec<String>>,
}

/// The mathematical content of a [`Package`].
pub struct PackageView {
    pub name: Seq<char>,
    pub id: Seq<char>,
    pub version: Seq<char>,
    pub description: Option<Seq<char>>,
    pub license: Option<Seq<char>>,
    pub repository: Option<Seq<char>>,
    pub publish: Option<Seq<Seq<char>>>,
}

impl View for Package {
    type V = PackageView;

    open spec fn view(&self) -> PackageView {
        PackageView {
            name: self.name@,
            id: self.id@,
            version: self.version@,
            description: self.description.deep_view(),
            license: self.license.deep_view(),
            repository: self.repository.deep_view(),
            publish: self.publish.deep_view(),
        }
    }
}

impl DeepView for Package {
    type V = PackageView;

    open spec fn deep_view(&self) -> PackageView {
        self@
    }
}

/// What the build tool reports of a workspace: every package it knows, in
/// its own order, and the identifiers of those that are workspace members.
#[derive(Clone, Debug, PartialEq, Eq)]
pub struct CargoMetadata {
    pub packages: Vec<Package>,
    pub workspace_members: Vec<String>,
}

/// A package is publishable when it is a workspace member and its publish
/// list is either absent or not empty.
pub open spec fn publishable(p: PackageView, members: Seq<Seq<char>>) -> bool {
    members.contains(p.id) && (p.publish is None || p.publish->0.len() > 0)
}

/// The publishable packages of `packages`, in the order of that list.
pub open spec fn publishable_of(packages: Seq<PackageView>, members: Seq<Seq<char>>) -> Seq<
    PackageView,
> {
    packages.filter(|p: PackageView| publishable(p, members))
}

impl Package {
    /// Whether this package is published from a workspace with the given
    /// member identifiers.
    pub fn is_publishable(&self, workspace_members: &Vec<String>) -> (yes: bool)
        ensures
            yes == publishable(self@, workspace_members.deep_view()),
    {
        if !contains_string(workspace_members, &self.id) {
            return false;
        }
        match &self.publish {
            Some(registries) => registries.len() > 0,
            None => true,
        }
    }
}

/// Keeps the packages that are workspace members and publishable, in the
/// order in which the metadata lists them.
pub fn publishable_packages(metadata: CargoMetadata) -> (kept: Vec<Package>)
    ensures
        kept.deep_view() == publishable_of(
            metadata.packages.deep_view(),
            metadata.workspace_members.deep_view(),
        ),
{
    let CargoMetadata { packages, workspace_members } = metadata;
    let ghost all = packages.deep_view();
    let ghost members = workspace_members.deep_view();
    let ghost keep = |p: PackageView| publishable(p, members);
    let mut kept: Vec<Package> = Vec::new();
    for pkg in it: packages
        invariant
            all.len() == it.seq().len(),
            forall|j: int| 0 <= j < all.len() ==> all[j] == it.seq()[j]@,
            members == workspace_members.deep_view(),
            keep == |p: PackageView| publishable(p, members),
            kept.deep_view() == all.take(it.index() as int).filter(keep),
    {
        let ghost before = kept.deep_view();
        let ghost i = it.index() as int;
        proof {
            assert(all.take(i + 1).drop_last() =~= all.take(i));
            assert(all.take(i + 1).last() == pkg@);
            reveal(Seq::filter);
        }
        if pkg.is_publishable(&workspace_members) {
            kept.push(pkg);
            assert(kept.deep_view() =~= before.push(pkg@));
        }
    }
    assert(all.take(all.len() as int) =~= all);
    kept
}

/// A package is among the publishable ones exactly when it is one of the
/// workspace's packages, is a member, and has a publish list that is absent
/// or not empty.
pub proof fn law_publishable_iff(
    packages: Seq<PackageView>,
    members: Seq<Seq<char>>,
    p: PackageView,
)
    ensures
        publishable_of(packages, members).contains(p) <==> packages.contains(p) && members.contains(
            p.id,
        ) && (p.publish is None || p.publish->0.len() > 0),
{
    let keep = |q: PackageView| publishable(q, members);
    let kept = packages.filter(keep);
    if kept.contains(p) {
        let i = choose|i: int| 0 <= i < kept.len() && kept[i] == p;
        packages.lemma_filter_pred(keep, i);
        packages.lemma_filter_contains_rev(keep, p);
    }
    if packages.contains(p) && publishable(p, members) {
        let i = choose|i: int| 0 <= i < packages.len() && packages[i] == p;
        packages.lemma_filter_contains(keep, i);
    }
}

/// The publishable packages stand in the order of the workspace's packages:
/// they are what is left of the list when the others are struck out.
pub proof fn law_publishable_keeps_order(packages: Seq<PackageView>, members: Seq<Seq<char>>)
    ensures
        publishable_of(packages, members).len() <= packages.len(),
        packages.len() > 0 ==> publishable_of(packages, members) == if publishable(
            packages.last(),
            members,
        ) {
            publishable_of(packages.drop_last(), members).push(packages.last())
        } else {
            publishable_of(packages.drop_last(), members)
        },
{
    let keep = |q: PackageView| publishable(q, members);
    packages.lemma_filter_len(keep);
    reveal(Seq::filter);
}

} // verus!
