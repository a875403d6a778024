//! The request for a build, as the caller puts it together, and the choice
//! of the place where the package's source is taken from.

use vstd::prelude::*;
use vstd::string::*;
use crate::bin_crate::{BinCrate, BinCrateView, Phase, PhaseView, coherent};
use crate::cache::CacheRoot;
use crate::environment::{EnvPolicy, EnvPolicyView, Vars, outer_build_prefixes};
use crate::error::{BuildError, BuildErrorView};

verus! {

/// Where the source of the package is taken from. Exactly one of the four
/// holds of a request, chosen once, when the request is made.
#[derive(Debug)]
pub enum SourceSpec {
    /// The manifest at this path, used as it is.
    ExplicitManifest { path: String },
    /// A copy of this directory, made anew for each request.
    SourceDirectory { dir: String },
    /// The package of the registry in this version, downloaded once and kept.
    RegistryPackage { version: String },
    /// The package of this name among those of the workspace whose manifest
    /// this is, built where it lies.
    WorkspaceMember { workspace: String },
}

/// A `SourceSpec` with its texts as sequences of characters.
pub enum SourceSpecView {
    ExplicitManifest { path: Seq<char> },
    SourceDirectory { dir: Seq<char> },
    RegistryPackage { version: Seq<char> },
    WorkspaceMember { workspace: Seq<char> },
}

impl View for SourceSpec {
    type V = SourceSpecView;

    open spec fn view(&self) -> SourceSpecView {
        match self {
            SourceSpec::ExplicitManifest { path } => SourceSpecView::ExplicitManifest {
                path: path@,
            },
            SourceSpec::SourceDirectory { dir } => SourceSpecView::SourceDirectory { dir: dir@ },
            SourceSpec::RegistryPackage { version } => SourceSpecView::RegistryPackage {
                version: version@,
            },
            SourceSpec::WorkspaceMember { workspace } => SourceSpecView::WorkspaceMember {
                workspace: workspace@,
            },
        }
    }
}

/// What the surroundings of the calling process provide: the fallbacks for
/// what a request leaves open, the variables of the process, the root of the
/// source cache, the registry to download from, and a number drawn at random
/// for this request.
#[derive(Debug)]
pub struct Ambient {
    /// The output directory of the calling build.
    pub out_dir: Option<String>,
    /// The target that the calling build compiles for.
    pub target: Option<String>,
    /// The manifest of the workspace that the calling build belongs to.
    pub manifest_path: Option<String>,
    /// The variables of the calling process.
    pub vars: Vec<(String, String)>,
    pub cache_root: CacheRoot,
    /// The base address of the registry, without a slash at its end.
    pub registry: String,
    pub suffix: u64,
}

/// An `Ambient` with its texts as sequences of characters.
pub struct AmbientView {
    pub out_dir: Option<Seq<char>>,
    pub target: Option<Seq<char>>,
    pub manifest_path: Option<Seq<char>>,
    pub vars: Vars,
    pub cache_root: Seq<char>,
    pub registry: Seq<char>,
    pub suffix: u64,
}

impl View for Ambient {
    type V = AmbientView;

    open spec fn view(&self) -> AmbientView {
        AmbientView {
            out_dir: self.out_dir.deep_view(),
            target: self.target.deep_view(),
            manifest_path: self.manifest_path.deep_view(),
            vars: self.vars.deep_view(),
            cache_root: self.cache_root@,
            registry: self.registry@,
            suffix: self.suffix,
        }
    }
}

/// A request for a build in the making.
#[derive(Debug)]
pub struct Builder {
    pub name: String,
    pub version: Option<String>,
    pub source_dir: Option<String>,
    pub force_rebuild: bool,
    pub env: Vec<(String, String)>,
    pub features: Vec<String>,
    pub target: Option<String>,
    pub output_dir: Option<String>,
    pub cargo_args: Vec<String>,
    pub manifest_path: Option<String>,
    /// The name of the package that asks for the build, where it is not the
    /// one being built.
    pub user_crate_name: Option<String>,
    pub env_policy: EnvPolicy,
}

/// A `Builder` with its texts as sequences of characters.
pub struct BuilderView {
    pub name: Seq<char>,
    pub version: Option<Seq<char>>,
    pub source_dir: Option<Seq<char>>,
    pub force_rebuild: bool,
    pub env: Vars,
    pub features: Seq<Seq<char>>,
    pub target: Option<Seq<char>>,
    pub output_dir: Option<Seq<char>>,
    pub cargo_args: Seq<Seq<char>>,
    pub manifest_path: Option<Seq<char>>,
    pub user_crate_name: Option<Seq<char>>,
    pub env_policy: EnvPolicyView,
}

impl View for Builder {
    type V = BuilderView;

    open spec fn view(&self) -> BuilderView {
        BuilderView {
            name: self.name@,
            version: self.version.deep_view(),
            source_dir: self.source_dir.deep_view(),
            force_rebuild: self.force_rebuild,
            env: self.env.deep_view(),
            features: self.features.deep_view(),
            target: self.target.deep_view(),
            output_dir: self.output_dir.deep_view(),
            cargo_args: self.cargo_args.deep_view(),
            manifest_path: self.manifest_path.deep_view(),
            user_crate_name: self.user_crate_name.deep_view(),
            env_policy: self.env_policy@,
        }
    }
}

/// The request that asks for nothing yet: an empty name, nothing chosen, and
/// the policy that hides the outer build.
pub open spec fn empty_request() -> BuilderView {
    BuilderView {
        name: Seq::empty(),
        version: None,
        source_dir: None,
        force_rebuild: false,
        env: Seq::empty(),
        features: Seq::empty(),
        target: None,
        output_dir: None,
        cargo_args: Seq::empty(),
        manifest_path: None,
        user_crate_name: None,
        env_policy: EnvPolicyView::Drop(outer_build_prefixes()),
    }
}

/// The source of a request, by precedence: an explicit manifest, else a
/// source directory, else a version of the registry, else the workspace of
/// the surroundings. A request with none of them cannot be resolved.
pub open spec fn source_of(b: BuilderView, workspace: Option<Seq<char>>) -> Option<
    SourceSpecView,
> {
    if b.manifest_path is Some {
        Some(SourceSpecView::ExplicitManifest { path: b.manifest_path->0 })
    } else if b.source_dir is Some {
        Some(SourceSpecView::SourceDirectory { dir: b.source_dir->0 })
    } else if b.version is Some {
        Some(SourceSpecView::RegistryPackage { version: b.version->0 })
    } else if workspace is Some {
        Some(SourceSpecView::WorkspaceMember { workspace: workspace->0 })
    } else {
        None
    }
}

/// The request as it is run: what the builder holds, with the target and the
/// output directory of the surroundings where the builder names none, and
/// with nothing done yet.
pub open spec fn request_of(b: BuilderView, a: AmbientView, source: SourceSpecView)
    -> BinCrateView {
    BinCrateView {
        name: b.name,
        force_rebuild: b.force_rebuild,
        envs: b.env,
        features: b.features,
        target: if b.target is Some {
            b.target->0
        } else {
            a.target->0
        },
        output_dir: if b.output_dir is Some {
            b.output_dir->0
        } else {
            a.out_dir->0
        },
        cargo_args: b.cargo_args,
        manifest_path: None,
        source,
        env_policy: b.env_policy,
        vars: a.vars,
        cache_root: a.cache_root,
        registry: a.registry,
        suffix: a.suffix,
        phase: PhaseView::Ready,
    }
}

impl Default for Builder {
    fn default() -> (r: Builder)
        ensures
            r@ == empty_request(),
    {
        let r = Builder {
            name: String::new(),
            version: None,
            source_dir: None,
            force_rebuild: false,
            env: Vec::new(),
            features: Vec::new(),
            target: None,
            output_dir: None,
            cargo_args: Vec::new(),
            manifest_path: None,
            user_crate_name: None,
            env_policy: EnvPolicy::outer_build(),
        };
        assert(r@.env =~= Seq::empty());
        assert(r@.cargo_args =~= Seq::empty());
        r
    }
}

impl Builder {
    /// A request for the package `name`, with nothing else chosen.
    pub fn new(name: &str) -> (r: Builder)
        ensures
            r@ == (BuilderView { name: name@, ..empty_request() }),
    {
        let mut r = Builder::default();
        r.name = String::from_str(name);
        r
    }

    /// Adds a variable to the environment of the nested build.
    pub fn env(self, key: &str, value: &str) -> (r: Builder)
        ensures
            r@ == (BuilderView { env: self@.env.push((key@, value@)), ..self@ }),
    {
        let ghost before = self@;
        let mut b = self;
        b.env.push((String::from_str(key), String::from_str(value)));
        assert(b@.env =~= before.env.push((key@, value@)));
        b
    }

    /// Asks for a feature of the package.
    pub fn feature(self, feature: &str) -> (r: Builder)
        ensures
            r@ == (BuilderView { features: self@.features.push(feature@), ..self@ }),
    {
        let ghost before = self@;
        let mut b = self;
        b.features.push(String::from_str(feature));
        assert(b@.features =~= before.features.push(feature@));
        b
    }

    /// Adds arguments that are handed to the toolchain as they are, after all others.
    pub fn cargo_args(self, args: &[&str]) -> (r: Builder)
        ensures
            r@ == (BuilderView {
                cargo_args: self@.cargo_args + args@.map_values(|a: &str| a@),
                ..self@
            }),
    {
        let ghost before = self@;
        let mut b = self;
        let ghost added = args@.map_values(|a: &str| a@);
        let mut i: usize = 0;
        while i < args.len()
            invariant
                i <= args.len(),
                added == args@.map_values(|a: &str| a@),
                b@ == (BuilderView {
                    cargo_args: before.cargo_args + added.take(i as int),
                    ..before
                }),
            decreases args.len() - i,
        {
            let ghost held = b@.cargo_args;
            b.cargo_args.push(String::from_str(args[i]));
            assert(b@.cargo_args =~= held.push(added[i as int]));
            assert(before.cargo_args + added.take(i + 1) =~= (before.cargo_args + added.take(
                i as int,
            )).push(added[i as int]));
            i += 1;
        }
        assert(added.take(args.len() as int) =~= added);
        b
    }

    /// Adds one argument that is handed to the toolchain as it is, after all others.
    pub fn cargo_arg(self, arg: &str) -> (r: Builder)
        ensures
            r@ == (BuilderView { cargo_args: self@.cargo_args.push(arg@), ..self@ }),
    {
        let ghost before = self@;
        let mut b = self;
        b.cargo_args.push(String::from_str(arg));
        assert(b@.cargo_args =~= before.cargo_args.push(arg@));
        b
    }

    /// Settles the request against the surroundings: chooses the source,
    /// and takes the target and the output directory from the surroundings
    /// where the request names none. One of the two must name each.
    pub fn build(self, ambient: Ambient) -> (r: Result<BinCrate, BuildError>)
        requires
            self.target is Some || ambient.target is Some,
            self.output_dir is Some || ambient.out_dir is Some,
        ensures
            match source_of(self@, ambient@.manifest_path) {
                None => r is Err && r->Err_0@ == (BuildErrorView::Unresolvable {
                    name: self@.name,
                }),
                Some(source) => r is Ok && r->Ok_0@ == request_of(self@, ambient@, source)
                    && coherent(r->Ok_0@),
            },
    {
        let Builder {
            name,
            version,
            source_dir,
            force_rebuild,
            env,
            features,
            target,
            output_dir,
            cargo_args,
            manifest_path,
            user_crate_name: _,
            env_policy,
        } = self;
        let Ambient {
            out_dir,
            target: ambient_target,
            manifest_path: workspace,
            vars,
            cache_root,
            registry,
            suffix,
        } = ambient;
        let source = match manifest_path {
            Some(path) => SourceSpec::ExplicitManifest { path },
            None => match source_dir {
                Some(dir) => SourceSpec::SourceDirectory { dir },
                None => match version {
                    Some(version) => SourceSpec::RegistryPackage { version },
                    None => match workspace {
                        Some(workspace) => SourceSpec::WorkspaceMember { workspace },
                        None => {
                            return Err(BuildError::Unresolvable { name });
                        },
                    },
                },
            },
        };
        let target = match target {
            Some(t) => t,
            None => ambient_target.unwrap(),
        };
        let output_dir = match output_dir {
            Some(d) => d,
            None => out_dir.unwrap(),
        };
        Ok(
            BinCrate {
                name,
                force_rebuild,
                envs: env,
                features,
                target,
                output_dir,
                cargo_args,
                manifest_path: None,
                source,
                env_policy,
                vars,
                cache_root,
                registry,
                suffix,
                phase: Phase::Ready,
            },
        )
    }

    /// Names the target to compile for.
    pub fn target(self, target: &str) -> (r: Builder)
        ensures
            r@ == (BuilderView { target: Some(target@), ..self@ }),
    {
        let mut b = self;
        b.target = Some(String::from_str(target));
        b
    }
}

} // verus!
