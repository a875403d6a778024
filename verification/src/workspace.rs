//! What a workspace declares, and the search for one package in it by name.

use vstd::prelude::*;
use vstd::string::*;
use crate::error::{BuildError, BuildErrorView};
use crate::text::{
    contains,
    eq_ignore_ascii_case,
    lemma_same_ignoring_case_equivalence,
    occurs_in,
    same_ignoring_case,
};

verus! {

/// A package that a workspace declares.
#[derive(Debug)]
pub struct Package {
    pub name: String,
    pub manifest_path: String,
}

/// A `Package` with its texts as sequences of characters.
pub struct PackageView {
    pub name: Seq<char>,
    pub manifest_path: Seq<char>,
}

impl View for Package {
    type V = PackageView;

    open spec fn view(&self) -> PackageView {
        PackageView { name: self.name@, manifest_path: self.manifest_path@ }
    }
}

impl DeepView for Package {
    type V = PackageView;

    open spec fn deep_view(&self) -> PackageView {
        self@
    }
}

impl Clone for Package {
    fn clone(&self) -> (r: Package)
        ensures
            r == *self,
    {
        Package { name: self.name.clone(), manifest_path: self.manifest_path.clone() }
    }
}

/// What the metadata query tells of a workspace: its packages, and the
/// directory that all of them share for their build output.
#[derive(Debug)]
pub struct Workspace {
    pub packages: Vec<Package>,
    pub target_directory: String,
}

/// A `Workspace` with its texts as sequences of characters.
pub struct WorkspaceView {
    pub packages: Seq<PackageView>,
    pub target_directory: Seq<char>,
}

impl View for Workspace {
    type V = WorkspaceView;

    open spec fn view(&self) -> WorkspaceView {
        WorkspaceView {
            packages: self.packages.deep_view(),
            target_directory: self.target_directory@,
        }
    }
}

/// A package found in a workspace: its manifest, and the workspace's shared
/// output directory, under which a nested build can keep its own
/// intermediate files.
#[derive(Debug)]
pub struct Member {
    pub manifest_path: String,
    pub target_directory: String,
}

/// A `Member` with its paths as sequences of characters.
pub struct MemberView {
    pub manifest_path: Seq<char>,
    pub target_directory: Seq<char>,
}

impl View for Member {
    type V = MemberView;

    open spec fn view(&self) -> MemberView {
        MemberView {
            manifest_path: self.manifest_path@,
            target_directory: self.target_directory@,
        }
    }
}

/// The package at position `i` bears `name`, whatever the case of its ASCII letters.
pub open spec fn is_match(packages: Seq<PackageView>, name: Seq<char>, i: int) -> bool {
    0 <= i < packages.len() && same_ignoring_case(packages[i].name, name)
}

/// The position of the one package that bears `name`. Where none does the
/// package is not found; where several do the name is ambiguous.
pub open spec fn lookup(packages: Seq<PackageView>, name: Seq<char>) -> Result<
    int,
    BuildErrorView,
> {
    if !(exists|i: int| is_match(packages, name, i)) {
        Err(BuildErrorView::PackageNotFound { name })
    } else {
        let i = choose|i: int| is_match(packages, name, i);
        if forall|j: int| is_match(packages, name, j) ==> j == i {
            Ok(i)
        } else {
            Err(BuildErrorView::PackageAmbiguous { name })
        }
    }
}

/// The manifest lies in the local copy of a registry, not in a directory of
/// the user's own.
pub open spec fn in_registry(manifest_path: Seq<char>) -> bool {
    occurs_in(manifest_path, ".cargo/registry"@) || occurs_in(manifest_path, ".cargo\\registry"@)
}

/// Searches the packages of a workspace for the one that bears `name`.
pub fn find_package(packages: &Vec<Package>, name: &str) -> (r: Result<usize, BuildError>)
    ensures
        r is Ok == lookup(packages.deep_view(), name@) is Ok,
        r is Ok ==> r->Ok_0 == lookup(packages.deep_view(), name@)->Ok_0,
        r is Err ==> r->Err_0@ == lookup(packages.deep_view(), name@)->Err_0,
{
    let ghost views = packages.deep_view();
    let mut found: Option<usize> = None;
    let mut several = false;
    let mut i: usize = 0;
    while i < packages.len()
        invariant
            i <= packages.len(),
            views == packages.deep_view(),
            views.len() == packages.len(),
            found is Some ==> found->0 < i && is_match(views, name@, found->0 as int),
            found is None ==> !several && forall|j: int| 0 <= j < i ==> !is_match(views, name@, j),
            !several ==> forall|j: int|
                0 <= j < i && is_match(views, name@, j) ==> found == Some(j as usize),
            several ==> exists|j: int|
                0 <= j < i && j != found->0 && #[trigger] is_match(views, name@, j),
        decreases packages.len() - i,
    {
        if eq_ignore_ascii_case(packages[i].name.as_str(), name) {
            assert(is_match(views, name@, i as int));
            if found.is_some() {
                several = true;
            } else {
                found = Some(i);
            }
        }
        i += 1;
    }
    match found {
        None => Err(BuildError::PackageNotFound { name: String::from_str(name) }),
        Some(at) => {
            if several {
                Err(BuildError::PackageAmbiguous { name: String::from_str(name) })
            } else {
                Ok(at)
            }
        },
    }
}

/// What the search for `name` in a workspace gives: the manifest of the one
/// package that bears the name, with the workspace's output directory.
pub open spec fn member_of(w: WorkspaceView, name: Seq<char>) -> Result<
    MemberView,
    BuildErrorView,
> {
    match lookup(w.packages, name) {
        Ok(i) => Ok(
            MemberView {
                manifest_path: w.packages[i].manifest_path,
                target_directory: w.target_directory,
            },
        ),
        Err(e) => Err(e),
    }
}

impl Workspace {
    /// Finds the package that bears `name`, whatever the case of its ASCII letters.
    pub fn find_package(&self, name: &str) -> (r: Result<Member, BuildError>)
        ensures
            r is Ok == member_of(self@, name@) is Ok,
            r is Ok ==> r->Ok_0@ == member_of(self@, name@)->Ok_0,
            r is Err ==> r->Err_0@ == member_of(self@, name@)->Err_0,
    {
        match find_package(&self.packages, name) {
            Ok(i) => Ok(
                Member {
                    manifest_path: self.packages[i].manifest_path.clone(),
                    target_directory: self.target_directory.clone(),
                },
            ),
            Err(e) => Err(e),
        }
    }
}

/// Tells whether a manifest lies in the local copy of a registry.
pub fn is_registry_path(manifest_path: &str) -> (r: bool)
    ensures
        r == in_registry(manifest_path@),
{
    contains(manifest_path, ".cargo/registry") || contains(manifest_path, ".cargo\\registry")
}

/// The search does not depend on the case of the ASCII letters of the name
/// searched for: two names that differ in nothing else find the same package,
/// or both find none, or both are ambiguous.
pub proof fn lemma_lookup_ignores_case(packages: Seq<PackageView>, a: Seq<char>, b: Seq<char>)
    requires
        same_ignoring_case(a, b),
    ensures
        lookup(packages, a) is Ok <==> lookup(packages, b) is Ok,
        lookup(packages, a) is Ok ==> lookup(packages, a)->Ok_0 == lookup(packages, b)->Ok_0,
        lookup(packages, a) is Err ==> (lookup(packages, a)->Err_0 is PackageNotFound <==> lookup(
            packages,
            b,
        )->Err_0 is PackageNotFound),
{
    assert forall|i: int| is_match(packages, a, i) == is_match(packages, b, i) by {
        if 0 <= i < packages.len() {
            lemma_same_ignoring_case_equivalence(a, b, packages[i].name);
            lemma_same_ignoring_case_equivalence(packages[i].name, a, b);
            lemma_same_ignoring_case_equivalence(packages[i].name, b, a);
        }
    }
}

/// The search finds a package exactly where one and only one bears the name;
/// it reports the package as not found exactly where none does, and the
/// error carries the name that was searched for.
pub proof fn lemma_lookup_outcomes(packages: Seq<PackageView>, name: Seq<char>)
    ensures
        lookup(packages, name) is Ok ==> is_match(packages, name, lookup(packages, name)->Ok_0),
        lookup(packages, name) is Ok <==> exists|i: int|
            is_match(packages, name, i) && forall|j: int|
                is_match(packages, name, j) ==> j == i,
        lookup(packages, name) == Err::<int, BuildErrorView>(
            BuildErrorView::PackageNotFound { name },
        ) <==> forall|i: int| !is_match(packages, name, i),
        lookup(packages, name) is Err ==> lookup(packages, name)->Err_0
            == (BuildErrorView::PackageNotFound { name }) || lookup(packages, name)->Err_0
            == (BuildErrorView::PackageAmbiguous { name }),
{
}

} // verus!
