//! One build request on its way: the decisions between the steps that the
//! surroundings carry out. `BinCrate::run` takes what the last step gave and
//! names the next one, until it names the end.

use vstd::prelude::*;
use vstd::string::*;
use crate::builder::{SourceSpec, SourceSpecView};
use crate::cache::{
    CacheKey,
    CacheKeyView,
    CacheRoot,
    entry_path_of,
    lock_path,
    lock_path_of,
    manifest_in,
    manifest_path,
};
use crate::command::{
    Invocation,
    InvocationStyle,
    InvocationView,
    Output,
    OutputView,
    arguments,
    command_line,
    locate,
    located,
};
use crate::environment::{
    EnvPolicy,
    EnvPolicyView,
    Vars,
    nested_env,
    nested_environment,
};
use crate::error::{BuildError, BuildErrorView};
use crate::path::{parent, parent_of};
use crate::registry::{download_url, download_url_of, is_success, is_success_status};
use crate::workspace::{Workspace, WorkspaceView, in_registry, is_registry_path, member_of};

verus! {

/// How far a request has come: which answer it waits for.
#[derive(Debug)]
pub enum Phase {
    /// Nothing has been asked for yet.
    Ready,
    /// The workspace's metadata has been asked for.
    Inspecting,
    /// The lock on the cache entry has been asked for.
    Locking,
    /// The lock is held; whether the entry exists has been asked.
    Probing,
    /// The lock is held; the old entry is being removed.
    Clearing,
    /// The lock is held; the archive has been asked for.
    Fetching,
    /// The lock is held; the archive is being unpacked into the entry.
    Unpacking,
    /// The lock is held; the source directory is being copied into the entry.
    Copying,
    /// The lock is held; whether the new entry holds a manifest has been asked.
    Checking,
    /// The lock is held; the entry is being removed after this failure.
    Discarding(BuildError),
    /// The lock is being given back, after this failure if there was one.
    Unlocking(Option<BuildError>),
    /// The toolchain runs.
    Building,
    /// The request has ended.
    Finished,
}

/// A `Phase` with its texts as sequences of characters.
pub enum PhaseView {
    Ready,
    Inspecting,
    Locking,
    Probing,
    Clearing,
    Fetching,
    Unpacking,
    Copying,
    Checking,
    Discarding(BuildErrorView),
    Unlocking(Option<BuildErrorView>),
    Building,
    Finished,
}

impl View for Phase {
    type V = PhaseView;

    open spec fn view(&self) -> PhaseView {
        match self {
            Phase::Ready => PhaseView::Ready,
            Phase::Inspecting => PhaseView::Inspecting,
            Phase::Locking => PhaseView::Locking,
            Phase::Probing => PhaseView::Probing,
            Phase::Clearing => PhaseView::Clearing,
            Phase::Fetching => PhaseView::Fetching,
            Phase::Unpacking => PhaseView::Unpacking,
            Phase::Copying => PhaseView::Copying,
            Phase::Checking => PhaseView::Checking,
            Phase::Discarding(e) => PhaseView::Discarding(e@),
            Phase::Unlocking(outcome) => PhaseView::Unlocking(failure_of(*outcome)),
            Phase::Building => PhaseView::Building,
            Phase::Finished => PhaseView::Finished,
        }
    }
}

impl Clone for Phase {
    fn clone(&self) -> (r: Phase)
        ensures
            r == *self,
    {
        match self {
            Phase::Ready => Phase::Ready,
            Phase::Inspecting => Phase::Inspecting,
            Phase::Locking => Phase::Locking,
            Phase::Probing => Phase::Probing,
            Phase::Clearing => Phase::Clearing,
            Phase::Fetching => Phase::Fetching,
            Phase::Unpacking => Phase::Unpacking,
            Phase::Copying => Phase::Copying,
            Phase::Checking => Phase::Checking,
            Phase::Discarding(e) => Phase::Discarding(e.clone()),
            Phase::Unlocking(outcome) => match outcome {
                Some(e) => Phase::Unlocking(Some(e.clone())),
                None => Phase::Unlocking(None),
            },
            Phase::Building => Phase::Building,
            Phase::Finished => Phase::Finished,
        }
    }
}

/// What the surroundings report of the step that was asked for.
#[derive(Debug)]
pub enum Event {
    /// The request begins.
    Start,
    /// The step was carried out.
    Done,
    /// The step failed.
    Failed { message: String },
    /// The answer to `Probe`: whether the path exists.
    Exists(bool),
    /// The answer to `Inspect`.
    Inspected(Workspace),
    /// The answer to `Fetch`: the status of the registry's response.
    Status(u16),
    /// The answer to `Invoke`: the exit code of the toolchain, where it left one.
    Exited { code: Option<i32> },
}

/// An `Event` with its texts as sequences of characters.
pub enum EventView {
    Start,
    Done,
    Failed { message: Seq<char> },
    Exists(bool),
    Inspected(WorkspaceView),
    Status(u16),
    Exited { code: Option<i32> },
}

impl View for Event {
    type V = EventView;

    open spec fn view(&self) -> EventView {
        match self {
            Event::Start => EventView::Start,
            Event::Done => EventView::Done,
            Event::Failed { message } => EventView::Failed { message: message@ },
            Event::Exists(present) => EventView::Exists(*present),
            Event::Inspected(workspace) => EventView::Inspected(workspace@),
            Event::Status(status) => EventView::Status(*status),
            Event::Exited { code } => EventView::Exited { code: *code },
        }
    }
}

/// The step that the surroundings are to carry out next.
#[derive(Debug)]
pub enum Action {
    /// Query the metadata of the workspace with this manifest, with the
    /// packages that it depends on where `dependencies` is set; answer with
    /// `Inspected`, or `Failed`.
    Inspect { manifest_path: String, dependencies: bool },
    /// Take the exclusive lock on this file, waiting for it where another
    /// holds it; answer with `Done`, or `Failed`.
    Lock { path: String },
    /// See whether this path exists; answer with `Exists`, or `Failed`.
    Probe { path: String },
    /// Remove this directory with all that it holds, if it is there; answer
    /// with `Done`, or `Failed`.
    Remove { path: String },
    /// Ask the registry for the archive at this address; answer with the
    /// `Status` of its response, or `Failed` where none came.
    Fetch { url: String },
    /// Unpack the archive just received so that its tree lies in this
    /// directory; answer with `Done`, or `Failed`.
    Unpack { into: String },
    /// Copy the tree of the first directory into the second; answer with
    /// `Done`, or `Failed`.
    Copy { from: String, into: String },
    /// Give back the lock on this file; answer with `Done`, or `Failed`.
    Unlock { path: String },
    /// Run the toolchain; answer with `Exited`, or `Failed` where it could
    /// not be started.
    Invoke(Invocation),
    /// The request has ended, with the place of the artifact or the error.
    Finish(Result<Output, BuildError>),
}

/// An `Action` with its texts as sequences of characters.
pub enum ActionView {
    Inspect { manifest_path: Seq<char>, dependencies: bool },
    Lock { path: Seq<char> },
    Probe { path: Seq<char> },
    Remove { path: Seq<char> },
    Fetch { url: Seq<char> },
    Unpack { into: Seq<char> },
    Copy { from: Seq<char>, into: Seq<char> },
    Unlock { path: Seq<char> },
    Invoke(InvocationView),
    Finish(Result<OutputView, BuildErrorView>),
}

impl View for Action {
    type V = ActionView;

    open spec fn view(&self) -> ActionView {
        match self {
            Action::Inspect { manifest_path, dependencies } => ActionView::Inspect {
                manifest_path: manifest_path@,
                dependencies: *dependencies,
            },
            Action::Lock { path } => ActionView::Lock { path: path@ },
            Action::Probe { path } => ActionView::Probe { path: path@ },
            Action::Remove { path } => ActionView::Remove { path: path@ },
            Action::Fetch { url } => ActionView::Fetch { url: url@ },
            Action::Unpack { into } => ActionView::Unpack { into: into@ },
            Action::Copy { from, into } => ActionView::Copy { from: from@, into: into@ },
            Action::Unlock { path } => ActionView::Unlock { path: path@ },
            Action::Invoke(invocation) => ActionView::Invoke(invocation@),
            Action::Finish(result) => ActionView::Finish(
                match result {
                    Ok(output) => Ok(output@),
                    Err(e) => Err(e@),
                },
            ),
        }
    }
}

/// A build request with everything settled, and how far it has come.
#[derive(Debug)]
pub struct BinCrate {
    pub name: String,
    pub force_rebuild: bool,
    pub envs: Vec<(String, String)>,
    pub features: Vec<String>,
    pub target: String,
    pub output_dir: String,
    pub cargo_args: Vec<String>,
    /// The manifest that is built, once it is known.
    pub manifest_path: Option<String>,
    pub source: SourceSpec,
    pub env_policy: EnvPolicy,
    /// The variables of the calling process.
    pub vars: Vec<(String, String)>,
    pub cache_root: CacheRoot,
    /// The base address of the registry.
    pub registry: String,
    /// The number drawn for this request.
    pub suffix: u64,
    pub phase: Phase,
}

/// A `BinCrate` with its texts as sequences of characters.
pub struct BinCrateView {
    pub name: Seq<char>,
    pub force_rebuild: bool,
    pub envs: Vars,
    pub features: Seq<Seq<char>>,
    pub target: Seq<char>,
    pub output_dir: Seq<char>,
    pub cargo_args: Seq<Seq<char>>,
    pub manifest_path: Option<Seq<char>>,
    pub source: SourceSpecView,
    pub env_policy: EnvPolicyView,
    pub vars: Vars,
    pub cache_root: Seq<char>,
    pub registry: Seq<char>,
    pub suffix: u64,
    pub phase: PhaseView,
}

impl View for BinCrate {
    type V = BinCrateView;

    open spec fn view(&self) -> BinCrateView {
        BinCrateView {
            name: self.name@,
            force_rebuild: self.force_rebuild,
            envs: self.envs.deep_view(),
            features: self.features.deep_view(),
            target: self.target@,
            output_dir: self.output_dir@,
            cargo_args: self.cargo_args.deep_view(),
            manifest_path: self.manifest_path.deep_view(),
            source: self.source@,
            env_policy: self.env_policy@,
            vars: self.vars.deep_view(),
            cache_root: self.cache_root@,
            registry: self.registry@,
            suffix: self.suffix,
            phase: self.phase@,
        }
    }
}

/// Where the source of a request was found: the manifest to build, and the
/// directory in which the toolchain is to run.
#[derive(Debug)]
pub struct ResolvedManifest {
    pub manifest: String,
    pub working_dir: String,
}

/// A `ResolvedManifest` with its paths as sequences of characters.
pub struct ResolvedManifestView {
    pub manifest: Seq<char>,
    pub working_dir: Seq<char>,
}

impl View for ResolvedManifest {
    type V = ResolvedManifestView;

    open spec fn view(&self) -> ResolvedManifestView {
        ResolvedManifestView { manifest: self.manifest@, working_dir: self.working_dir@ }
    }
}

/// The failure held by `outcome`, if any, as its view.
pub open spec fn failure_of(outcome: Option<BuildError>) -> Option<BuildErrorView> {
    match outcome {
        Some(e) => Some(e@),
        None => None,
    }
}

/// How the toolchain is asked for the artifact: a member of a workspace is
/// installed by name, every other source is built directly.
pub open spec fn style_of(source: SourceSpecView) -> InvocationStyle {
    match source {
        SourceSpecView::WorkspaceMember { .. } => InvocationStyle::Install,
        _ => InvocationStyle::Build,
    }
}

/// The key under which the source of a request is kept: name and version for
/// a package of the registry, else the name with the number drawn for the request.
pub open spec fn cache_key_of(s: BinCrateView) -> CacheKeyView {
    match s.source {
        SourceSpecView::RegistryPackage { version } => CacheKeyView::Versioned {
            name: s.name,
            version,
        },
        _ => CacheKeyView::Fresh { name: s.name, suffix: s.suffix },
    }
}

/// The directory that holds the cached source of a request.
pub open spec fn entry_of(s: BinCrateView) -> Seq<char> {
    entry_path_of(s.cache_root, cache_key_of(s))
}

/// The path that the source names: the manifest, the directory to copy, or
/// the manifest of the workspace. A package of the registry names none.
pub open spec fn origin_of(source: SourceSpecView) -> Seq<char> {
    match source {
        SourceSpecView::ExplicitManifest { path } => path,
        SourceSpecView::SourceDirectory { dir } => dir,
        SourceSpecView::WorkspaceMember { workspace } => workspace,
        SourceSpecView::RegistryPackage { .. } => Seq::empty(),
    }
}

/// The version that the source names, where it is a package of the registry.
pub open spec fn version_of(source: SourceSpecView) -> Seq<char> {
    match source {
        SourceSpecView::RegistryPackage { version } => version,
        _ => Seq::empty(),
    }
}

/// The address from which the source of a request is downloaded.
pub open spec fn url_of(s: BinCrateView) -> Seq<char> {
    download_url_of(s.registry, s.name, version_of(s.source))
}

/// The source of the request is kept in the cache: a package of the
/// registry, or a copy of a directory.
pub open spec fn cached(source: SourceSpecView) -> bool {
    source is RegistryPackage || source is SourceDirectory
}

/// Where the source of a request was found, once its manifest is known. A
/// cached source is built in its entry, every other in the directory that
/// holds its manifest.
pub open spec fn resolved_of(s: BinCrateView) -> Option<ResolvedManifestView> {
    match s.manifest_path {
        None => None,
        Some(manifest) => if cached(s.source) {
            Some(ResolvedManifestView { manifest, working_dir: entry_of(s) })
        } else {
            match parent_of(manifest) {
                Some(working_dir) => Some(ResolvedManifestView { manifest, working_dir }),
                None => None,
            }
        },
    }
}

/// The phase of the request fits its source: only a member of a workspace
/// waits for the workspace, only a cached source waits for the cache, only a
/// package of the registry for the registry, only a copy for the copying;
/// and while the toolchain runs, it is known where.
pub open spec fn coherent(s: BinCrateView) -> bool {
    match s.phase {
        PhaseView::Ready | PhaseView::Finished => true,
        PhaseView::Inspecting => s.source is WorkspaceMember,
        PhaseView::Fetching | PhaseView::Unpacking => s.source is RegistryPackage,
        PhaseView::Copying => s.source is SourceDirectory,
        PhaseView::Building => resolved_of(s) is Some,
        _ => cached(s.source),
    }
}

/// An entry that exists is replaced: always for a copy of a directory, and
/// for a package of the registry where the request forces it.
pub open spec fn replaces(s: BinCrateView) -> bool {
    s.force_rebuild || s.source is SourceDirectory
}

/// The run of the toolchain for a request, in `working_dir`.
pub open spec fn invocation_of(
    s: BinCrateView,
    working_dir: Seq<char>,
    rerun_if_changed: Option<Seq<char>>,
) -> InvocationView {
    InvocationView {
        program: "cargo"@,
        args: arguments(
            style_of(s.source),
            s.name,
            s.target,
            s.output_dir,
            working_dir,
            s.features,
            s.cargo_args,
        ),
        env: nested_environment(s.vars, s.env_policy, s.envs),
        working_dir,
        rerun_if_changed,
    }
}

/// The request ends with the error `e`.
pub open spec fn fail_with(s: BinCrateView, e: BuildErrorView) -> (BinCrateView, ActionView) {
    (BinCrateView { phase: PhaseView::Finished, ..s }, ActionView::Finish(Err(e)))
}

/// The lock is given back; `outcome` is the failure to report after it, if any.
pub open spec fn release_with(s: BinCrateView, outcome: Option<BuildErrorView>) -> (
    BinCrateView,
    ActionView,
) {
    (
        BinCrateView { phase: PhaseView::Unlocking(outcome), ..s },
        ActionView::Unlock { path: lock_path_of(entry_of(s)) },
    )
}

/// The entry is removed because filling it failed with `e`.
pub open spec fn discard_with(s: BinCrateView, e: BuildErrorView) -> (BinCrateView, ActionView) {
    (
        BinCrateView { phase: PhaseView::Discarding(e), ..s },
        ActionView::Remove { path: entry_of(s) },
    )
}

/// The entry is filled: from the registry, or from the source directory.
pub open spec fn populate(s: BinCrateView) -> (BinCrateView, ActionView) {
    match s.source {
        SourceSpecView::RegistryPackage { .. } => (
            BinCrateView { phase: PhaseView::Fetching, ..s },
            ActionView::Fetch { url: url_of(s) },
        ),
        SourceSpecView::SourceDirectory { .. } => (
            BinCrateView { phase: PhaseView::Copying, ..s },
            ActionView::Copy { from: origin_of(s.source), into: entry_of(s) },
        ),
        _ => release_with(s, Some(BuildErrorView::Unexpected)),
    }
}

/// The new entry is asked for its manifest.
pub open spec fn check(s: BinCrateView) -> (BinCrateView, ActionView) {
    (
        BinCrateView { phase: PhaseView::Checking, ..s },
        ActionView::Probe { path: manifest_in(entry_of(s)) },
    )
}

/// The toolchain is run on `manifest`, in `working_dir`.
pub open spec fn invoke_in(
    s: BinCrateView,
    manifest: Seq<char>,
    working_dir: Seq<char>,
    rerun_if_changed: Option<Seq<char>>,
) -> (BinCrateView, ActionView) {
    (
        BinCrateView { phase: PhaseView::Building, manifest_path: Some(manifest), ..s },
        ActionView::Invoke(invocation_of(s, working_dir, rerun_if_changed)),
    )
}

/// The toolchain is run on `manifest`, in the directory that holds it. Where
/// `watched` is set, that directory is also the one to watch for changes.
pub open spec fn invoke_beside(s: BinCrateView, manifest: Seq<char>, watched: bool) -> (
    BinCrateView,
    ActionView,
) {
    match parent_of(manifest) {
        None => fail_with(s, BuildErrorView::NoParent { path: manifest }),
        Some(dir) => invoke_in(
            s,
            manifest,
            dir,
            if watched {
                Some(dir)
            } else {
                None
            },
        ),
    }
}

/// The first step of a request. A member of a workspace is searched among
/// all packages that the workspace knows, those that it depends on included.
pub open spec fn begin(s: BinCrateView) -> (BinCrateView, ActionView) {
    match s.source {
        SourceSpecView::ExplicitManifest { .. } => invoke_beside(s, origin_of(s.source), false),
        SourceSpecView::WorkspaceMember { .. } => (
            BinCrateView { phase: PhaseView::Inspecting, ..s },
            ActionView::Inspect { manifest_path: origin_of(s.source), dependencies: true },
        ),
        _ => (
            BinCrateView { phase: PhaseView::Locking, ..s },
            ActionView::Lock { path: lock_path_of(entry_of(s)) },
        ),
    }
}

/// The step after the workspace's metadata came: the package is searched by
/// name and built where it lies. A package of the user's own is watched for
/// changes; one that lies in the local copy of a registry is not.
pub open spec fn after_inspect(s: BinCrateView, w: WorkspaceView) -> (BinCrateView, ActionView) {
    match member_of(w, s.name) {
        Err(e) => fail_with(s, e),
        Ok(m) => invoke_beside(s, m.manifest_path, !in_registry(m.manifest_path)),
    }
}

/// What a request does with the answer `e` to the step it asked for: the
/// request as it goes on, and the next step.
pub open spec fn step(s: BinCrateView, e: EventView) -> (BinCrateView, ActionView) {
    match s.phase {
        PhaseView::Ready => match e {
            EventView::Start => begin(s),
            _ => fail_with(s, BuildErrorView::Unexpected),
        },
        PhaseView::Inspecting => match e {
            EventView::Inspected(w) => after_inspect(s, w),
            EventView::Failed { message } => fail_with(
                s,
                BuildErrorView::Metadata { manifest_path: origin_of(s.source), message },
            ),
            _ => fail_with(s, BuildErrorView::Unexpected),
        },
        PhaseView::Locking => match e {
            EventView::Done => (
                BinCrateView { phase: PhaseView::Probing, ..s },
                ActionView::Probe { path: entry_of(s) },
            ),
            EventView::Failed { message } => fail_with(
                s,
                BuildErrorView::Io { path: lock_path_of(entry_of(s)), message },
            ),
            _ => fail_with(s, BuildErrorView::Unexpected),
        },
        PhaseView::Probing => match e {
            EventView::Exists(present) => if !present {
                populate(s)
            } else if replaces(s) {
                (
                    BinCrateView { phase: PhaseView::Clearing, ..s },
                    ActionView::Remove { path: entry_of(s) },
                )
            } else {
                release_with(s, None)
            },
            EventView::Failed { message } => release_with(
                s,
                Some(BuildErrorView::Io { path: entry_of(s), message }),
            ),
            _ => release_with(s, Some(BuildErrorView::Unexpected)),
        },
        PhaseView::Clearing => match e {
            EventView::Done => populate(s),
            EventView::Failed { message } => release_with(
                s,
                Some(BuildErrorView::Io { path: entry_of(s), message }),
            ),
            _ => release_with(s, Some(BuildErrorView::Unexpected)),
        },
        PhaseView::Fetching => match e {
            EventView::Status(status) => if is_success_status(status) {
                (
                    BinCrateView { phase: PhaseView::Unpacking, ..s },
                    ActionView::Unpack { into: entry_of(s) },
                )
            } else {
                discard_with(s, BuildErrorView::Download { url: url_of(s), status })
            },
            EventView::Failed { message } => discard_with(
                s,
                BuildErrorView::Network { url: url_of(s), message },
            ),
            _ => discard_with(s, BuildErrorView::Unexpected),
        },
        PhaseView::Unpacking => match e {
            EventView::Done => check(s),
            EventView::Failed { message } => discard_with(
                s,
                BuildErrorView::Archive { into: entry_of(s), message },
            ),
            _ => discard_with(s, BuildErrorView::Unexpected),
        },
        PhaseView::Copying => match e {
            EventView::Done => check(s),
            EventView::Failed { message } => discard_with(
                s,
                BuildErrorView::Copy { from: origin_of(s.source), message },
            ),
            _ => discard_with(s, BuildErrorView::Unexpected),
        },
        PhaseView::Checking => match e {
            EventView::Exists(present) => if present {
                release_with(s, None)
            } else {
                discard_with(
                    s,
                    BuildErrorView::ManifestMissing { path: manifest_in(entry_of(s)) },
                )
            },
            EventView::Failed { message } => discard_with(
                s,
                BuildErrorView::Io { path: manifest_in(entry_of(s)), message },
            ),
            _ => discard_with(s, BuildErrorView::Unexpected),
        },
        PhaseView::Discarding(failure) => release_with(s, Some(failure)),
        PhaseView::Unlocking(outcome) => match outcome {
            Some(failure) => fail_with(s, failure),
            None => invoke_in(s, manifest_in(entry_of(s)), entry_of(s), None),
        },
        PhaseView::Building => match e {
            EventView::Exited { code } => if code == Some(0i32) {
                (
                    BinCrateView { phase: PhaseView::Finished, ..s },
                    ActionView::Finish(Ok(located(s.output_dir, s.name, style_of(s.source)))),
                )
            } else {
                fail_with(s, BuildErrorView::Toolchain { code })
            },
            EventView::Failed { message } => fail_with(s, BuildErrorView::Spawn { message }),
            _ => fail_with(s, BuildErrorView::Unexpected),
        },
        PhaseView::Finished => fail_with(s, BuildErrorView::Unexpected),
    }
}

impl BinCrate {
    /// How the toolchain is asked for the artifact.
    pub fn style(&self) -> (r: InvocationStyle)
        ensures
            r == style_of(self@.source),
    {
        match &self.source {
            SourceSpec::WorkspaceMember { .. } => InvocationStyle::Install,
            _ => InvocationStyle::Build,
        }
    }

    /// The key under which the source of this request is kept.
    pub fn cache_key(&self) -> (r: CacheKey)
        ensures
            r@ == cache_key_of(self@),
    {
        match &self.source {
            SourceSpec::RegistryPackage { version } => CacheKey::Versioned {
                name: self.name.clone(),
                version: version.clone(),
            },
            _ => CacheKey::Fresh { name: self.name.clone(), suffix: self.suffix },
        }
    }

    /// The directory that holds the cached source of this request.
    pub fn entry(&self) -> (r: String)
        ensures
            r@ == entry_of(self@),
    {
        let key = self.cache_key();
        self.cache_root.path(&key)
    }

    /// Where the source of this request was found, once its manifest is known.
    pub fn resolved(&self) -> (r: Option<ResolvedManifest>)
        ensures
            r is Some == resolved_of(self@) is Some,
            r is Some ==> r->0@ == resolved_of(self@)->0,
    {
        match &self.manifest_path {
            None => None,
            Some(manifest) => {
                let working_dir = match &self.source {
                    SourceSpec::RegistryPackage { .. } | SourceSpec::SourceDirectory { .. } => Some(
                        self.entry(),
                    ),
                    _ => parent(manifest.as_str()),
                };
                match working_dir {
                    Some(working_dir) => Some(
                        ResolvedManifest { manifest: manifest.clone(), working_dir },
                    ),
                    None => None,
                }
            },
        }
    }

    /// Tells whether an entry that exists is replaced.
    fn replaces(&self) -> (r: bool)
        ensures
            r == replaces(self@),
    {
        self.force_rebuild || matches!(self.source, SourceSpec::SourceDirectory { .. })
    }

    /// The path that the source of this request names.
    fn origin(&self) -> (r: String)
        ensures
            r@ == origin_of(self@.source),
    {
        match &self.source {
            SourceSpec::ExplicitManifest { path } => path.clone(),
            SourceSpec::SourceDirectory { dir } => dir.clone(),
            SourceSpec::WorkspaceMember { workspace } => workspace.clone(),
            SourceSpec::RegistryPackage { .. } => String::new(),
        }
    }

    /// The address from which the source of this request is downloaded.
    fn url(&self) -> (r: String)
        ensures
            r@ == url_of(self@),
    {
        let version = match &self.source {
            SourceSpec::RegistryPackage { version } => version.clone(),
            _ => String::new(),
        };
        download_url(self.registry.as_str(), self.name.as_str(), version.as_str())
    }

    /// The run of the toolchain for this request, in `working_dir`.
    fn invocation(&self, working_dir: String, rerun_if_changed: Option<String>) -> (r: Invocation)
        ensures
            r@ == invocation_of(self@, working_dir@, rerun_if_changed.deep_view()),
    {
        let args = command_line(
            self.style(),
            self.name.as_str(),
            self.target.as_str(),
            self.output_dir.as_str(),
            working_dir.as_str(),
            &self.features,
            &self.cargo_args,
        );
        let env = nested_env(&self.vars, &self.env_policy, &self.envs);
        Invocation { program: String::from_str("cargo"), args, env, working_dir, rerun_if_changed }
    }

    /// Ends the request with the error `e`.
    fn fail_with(&mut self, e: BuildError) -> (action: Action)
        ensures
            (final(self)@, action@) == fail_with(old(self)@, e@),
    {
        self.phase = Phase::Finished;
        Action::Finish(Err(e))
    }

    /// Gives the lock back, and keeps the failure to report after it.
    fn release_with(&mut self, outcome: Option<BuildError>) -> (action: Action)
        ensures
            (final(self)@, action@) == release_with(old(self)@, failure_of(outcome)),
    {
        let entry = self.entry();
        self.phase = Phase::Unlocking(outcome);
        Action::Unlock { path: lock_path(entry.as_str()) }
    }

    /// Has the entry removed because filling it failed with `e`.
    fn discard_with(&mut self, e: BuildError) -> (action: Action)
        ensures
            (final(self)@, action@) == discard_with(old(self)@, e@),
    {
        let entry = self.entry();
        self.phase = Phase::Discarding(e);
        Action::Remove { path: entry }
    }

    /// Has the entry filled, from the registry or from the source directory.
    fn populate(&mut self) -> (action: Action)
        ensures
            (final(self)@, action@) == populate(old(self)@),
    {
        match &self.source {
            SourceSpec::RegistryPackage { .. } => {
                let url = self.url();
                self.phase = Phase::Fetching;
                Action::Fetch { url }
            },
            SourceSpec::SourceDirectory { .. } => {
                let from = self.origin();
                let into = self.entry();
                self.phase = Phase::Copying;
                Action::Copy { from, into }
            },
            _ => self.release_with(Some(BuildError::Unexpected)),
        }
    }

    /// Asks whether the new entry holds a manifest.
    fn check(&mut self) -> (action: Action)
        ensures
            (final(self)@, action@) == check(old(self)@),
    {
        let entry = self.entry();
        self.phase = Phase::Checking;
        Action::Probe { path: manifest_path(entry.as_str()) }
    }

    /// Has the toolchain run on `manifest`, in `working_dir`.
    fn invoke_in(
        &mut self,
        manifest: String,
        working_dir: String,
        rerun_if_changed: Option<String>,
    ) -> (action: Action)
        ensures
            (final(self)@, action@) == invoke_in(
                old(self)@,
                manifest@,
                working_dir@,
                rerun_if_changed.deep_view(),
            ),
    {
        let invocation = self.invocation(working_dir, rerun_if_changed);
        self.phase = Phase::Building;
        self.manifest_path = Some(manifest);
        Action::Invoke(invocation)
    }

    /// Has the toolchain run on `manifest`, in the directory that holds it.
    fn invoke_beside(&mut self, manifest: String, watched: bool) -> (action: Action)
        ensures
            (final(self)@, action@) == invoke_beside(old(self)@, manifest@, watched),
    {
        match parent(manifest.as_str()) {
            None => self.fail_with(BuildError::NoParent { path: manifest }),
            Some(dir) => {
                let rerun_if_changed = if watched {
                    Some(dir.clone())
                } else {
                    None
                };
                self.invoke_in(manifest, dir, rerun_if_changed)
            },
        }
    }

    /// Names the first step of the request.
    fn begin(&mut self) -> (action: Action)
        ensures
            (final(self)@, action@) == begin(old(self)@),
    {
        match &self.source {
            SourceSpec::ExplicitManifest { .. } => {
                let manifest = self.origin();
                self.invoke_beside(manifest, false)
            },
            SourceSpec::WorkspaceMember { .. } => {
                let manifest_path = self.origin();
                self.phase = Phase::Inspecting;
                Action::Inspect { manifest_path, dependencies: true }
            },
            _ => {
                let entry = self.entry();
                self.phase = Phase::Locking;
                Action::Lock { path: lock_path(entry.as_str()) }
            },
        }
    }

    /// Searches the workspace for the package and has it built where it lies.
    fn after_inspect(&mut self, workspace: Workspace) -> (action: Action)
        ensures
            (final(self)@, action@) == after_inspect(old(self)@, workspace@),
    {
        match workspace.find_package(self.name.as_str()) {
            Err(e) => self.fail_with(e),
            Ok(member) => {
                let watched = !is_registry_path(member.manifest_path.as_str());
                self.invoke_beside(member.manifest_path, watched)
            },
        }
    }

    /// Takes the answer to the step that was asked for last, `Event::Start`
    /// at first, and names the next step. The request has ended when the
    /// step is `Action::Finish`.
    pub fn run(&mut self, event: Event) -> (action: Action)
        ensures
            (final(self)@, action@) == step(old(self)@, event@),
            coherent(old(self)@) ==> coherent(final(self)@),
    {
        let phase = self.phase.clone();
        match phase {
            Phase::Ready => match event {
                Event::Start => self.begin(),
                _ => self.fail_with(BuildError::Unexpected),
            },
            Phase::Inspecting => match event {
                Event::Inspected(workspace) => self.after_inspect(workspace),
                Event::Failed { message } => {
                    let manifest_path = self.origin();
                    self.fail_with(BuildError::Metadata { manifest_path, message })
                },
                _ => self.fail_with(BuildError::Unexpected),
            },
            Phase::Locking => match event {
                Event::Done => {
                    let path = self.entry();
                    self.phase = Phase::Probing;
                    Action::Probe { path }
                },
                Event::Failed { message } => {
                    let entry = self.entry();
                    self.fail_with(BuildError::Io { path: lock_path(entry.as_str()), message })
                },
                _ => self.fail_with(BuildError::Unexpected),
            },
            Phase::Probing => match event {
                Event::Exists(present) => {
                    if !present {
                        self.populate()
                    } else if self.replaces() {
                        let path = self.entry();
                        self.phase = Phase::Clearing;
                        Action::Remove { path }
                    } else {
                        self.release_with(None)
                    }
                },
                Event::Failed { message } => {
                    let path = self.entry();
                    self.release_with(Some(BuildError::Io { path, message }))
                },
                _ => self.release_with(Some(BuildError::Unexpected)),
            },
            Phase::Clearing => match event {
                Event::Done => self.populate(),
                Event::Failed { message } => {
                    let path = self.entry();
                    self.release_with(Some(BuildError::Io { path, message }))
                },
                _ => self.release_with(Some(BuildError::Unexpected)),
            },
            Phase::Fetching => match event {
                Event::Status(status) => {
                    if is_success(status) {
                        let into = self.entry();
                        self.phase = Phase::Unpacking;
                        Action::Unpack { into }
                    } else {
                        let url = self.url();
                        self.discard_with(BuildError::Download { url, status })
                    }
                },
                Event::Failed { message } => {
                    let url = self.url();
                    self.discard_with(BuildError::Network { url, message })
                },
                _ => self.discard_with(BuildError::Unexpected),
            },
            Phase::Unpacking => match event {
                Event::Done => self.check(),
                Event::Failed { message } => {
                    let into = self.entry();
                    self.discard_with(BuildError::Archive { into, message })
                },
                _ => self.discard_with(BuildError::Unexpected),
            },
            Phase::Copying => match event {
                Event::Done => self.check(),
                Event::Failed { message } => {
                    let from = self.origin();
                    self.discard_with(BuildError::Copy { from, message })
                },
                _ => self.discard_with(BuildError::Unexpected),
            },
            Phase::Checking => match event {
                Event::Exists(present) => {
                    if present {
                        self.release_with(None)
                    } else {
                        let entry = self.entry();
                        self.discard_with(
                            BuildError::ManifestMissing { path: manifest_path(entry.as_str()) },
                        )
                    }
                },
                Event::Failed { message } => {
                    let entry = self.entry();
                    self.discard_with(
                        BuildError::Io { path: manifest_path(entry.as_str()), message },
                    )
                },
                _ => self.discard_with(BuildError::Unexpected),
            },
            Phase::Discarding(failure) => self.release_with(Some(failure)),
            Phase::Unlocking(outcome) => match outcome {
                Some(failure) => self.fail_with(failure),
                None => {
                    let entry = self.entry();
                    let manifest = manifest_path(entry.as_str());
                    self.invoke_in(manifest, entry, None)
                },
            },
            Phase::Building => match event {
                Event::Exited { code } => {
                    if code == Some(0i32) {
                        let output = locate(
                            self.output_dir.as_str(),
                            self.name.as_str(),
                            self.style(),
                        );
                        self.phase = Phase::Finished;
                        Action::Finish(Ok(output))
                    } else {
                        self.fail_with(BuildError::Toolchain { code })
                    }
                },
                Event::Failed { message } => self.fail_with(BuildError::Spawn { message }),
                _ => self.fail_with(BuildError::Unexpected),
            },
            Phase::Finished => self.fail_with(BuildError::Unexpected),
        }
    }
}

} // verus!
