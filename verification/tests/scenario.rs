use bindeps_simple::{
    Action, Ambient, BinCrate, BuildError, Builder, CacheKey, CacheRoot, Event, InvocationStyle,
    Output, Package, Phase, Workspace,
};

fn ambient() -> Ambient {
    Ambient {
        out_dir: None,
        target: None,
        manifest_path: None,
        vars: vec![
            ("PATH".to_string(), "/usr/bin".to_string()),
            ("RUSTFLAGS".to_string(), "-C target-cpu=native".to_string()),
        ],
        cache_root: CacheRoot::new("/cache"),
        registry: "https://crates.io/api/v1".to_string(),
        suffix: 7,
    }
}

/// Surroundings that keep what exists on disk in a list, and answer every
/// step from it.
struct World {
    existing: Vec<String>,
    locked: Vec<String>,
    status: u16,
    unpack_fails: bool,
    copy_fails: bool,
    with_manifest: bool,
    exit: Option<i32>,
    workspace: Vec<(String, String)>,
    steps: Vec<String>,
}

impl World {
    fn new() -> World {
        World {
            existing: Vec::new(),
            locked: Vec::new(),
            status: 200,
            unpack_fails: false,
            copy_fails: false,
            with_manifest: true,
            exit: Some(0),
            workspace: Vec::new(),
            steps: Vec::new(),
        }
    }

    fn has(&self, path: &str) -> bool {
        self.existing.iter().any(|p| p == path)
    }

    fn remove(&mut self, path: &str) {
        let inside = format!("{path}/");
        self.existing
            .retain(|p| p != path && !p.starts_with(&inside));
    }

    fn fill(&mut self, into: &str) {
        self.existing.push(into.to_string());
        if self.with_manifest {
            self.existing.push(format!("{into}/Cargo.toml"));
        }
    }

    fn perform(&mut self, action: &Action) -> Event {
        match action {
            Action::Inspect {
                manifest_path,
                dependencies,
            } => {
                assert!(dependencies);
                self.steps.push(format!("inspect {manifest_path}"));
                Event::Inspected(Workspace {
                    packages: self
                        .workspace
                        .iter()
                        .map(|(name, manifest_path)| Package {
                            name: name.clone(),
                            manifest_path: manifest_path.clone(),
                        })
                        .collect(),
                    target_directory: "/w/target".to_string(),
                })
            }
            Action::Lock { path } => {
                self.steps.push(format!("lock {path}"));
                assert!(!self.locked.contains(path));
                self.locked.push(path.clone());
                Event::Done
            }
            Action::Probe { path } => {
                self.steps.push(format!("probe {path}"));
                Event::Exists(self.has(path))
            }
            Action::Remove { path } => {
                self.steps.push(format!("remove {path}"));
                self.remove(path);
                Event::Done
            }
            Action::Fetch { url } => {
                self.steps.push(format!("fetch {url}"));
                Event::Status(self.status)
            }
            Action::Unpack { into } => {
                self.steps.push(format!("unpack {into}"));
                if self.unpack_fails {
                    self.existing.push(into.clone());
                    Event::Failed {
                        message: "unexpected end of file".to_string(),
                    }
                } else {
                    self.fill(into);
                    Event::Done
                }
            }
            Action::Copy { from, into } => {
                self.steps.push(format!("copy {from} {into}"));
                if self.copy_fails {
                    self.existing.push(into.clone());
                    Event::Failed {
                        message: format!("{from}/secret: permission denied"),
                    }
                } else {
                    self.fill(into);
                    Event::Done
                }
            }
            Action::Unlock { path } => {
                self.steps.push(format!("unlock {path}"));
                assert!(self.locked.contains(path));
                self.locked.retain(|p| p != path);
                Event::Done
            }
            Action::Invoke(invocation) => {
                self.steps.push(format!(
                    "invoke {} in {}",
                    invocation.args[0], invocation.working_dir
                ));
                assert!(self.locked.is_empty());
                Event::Exited { code: self.exit }
            }
            Action::Finish(_) => unreachable!(),
        }
    }

    fn drive(&mut self, request: &mut BinCrate) -> Result<Output, BuildError> {
        self.steps.clear();
        let mut event = Event::Start;
        loop {
            match request.run(event) {
                Action::Finish(result) => {
                    assert!(matches!(request.phase, Phase::Finished));
                    return result;
                }
                action => event = self.perform(&action),
            }
        }
    }
}

fn registry_request(force_rebuild: bool) -> BinCrate {
    let mut builder = Builder::new("demo").target("x86-unknown-none");
    builder.version = Some("1.0.0".to_string());
    builder.output_dir = Some("/tmp/out".to_string());
    builder.force_rebuild = force_rebuild;
    builder.build(ambient()).unwrap()
}

fn directory_request(suffix: u64) -> BinCrate {
    let mut builder = Builder::new("demo").target("x86-unknown-none");
    builder.source_dir = Some("/src/demo".to_string());
    builder.output_dir = Some("/tmp/out".to_string());
    let mut surroundings = ambient();
    surroundings.suffix = suffix;
    builder.build(surroundings).unwrap()
}

fn workspace_request(name: &str) -> BinCrate {
    let mut builder = Builder::new(name)
        .target("aarch64-unknown-none-softfloat")
        .cargo_args(&["-Z", "build-std=core,alloc"]);
    builder.output_dir = Some("/w/target/tmp".to_string());
    let mut surroundings = ambient();
    surroundings.manifest_path = Some("/w/Cargo.toml".to_string());
    builder.build(surroundings).unwrap()
}

fn texts(items: &[&str]) -> Vec<String> {
    items.iter().map(|s| s.to_string()).collect()
}

#[test]
fn registry_package_end_to_end() {
    let mut request = registry_request(false);

    match request.run(Event::Start) {
        Action::Lock { path } => assert_eq!(path, "/cache/demo-1.0.0.lock"),
        other => panic!("{other:?}"),
    }
    match request.run(Event::Done) {
        Action::Probe { path } => assert_eq!(path, "/cache/demo-1.0.0"),
        other => panic!("{other:?}"),
    }
    match request.run(Event::Exists(false)) {
        Action::Fetch { url } => {
            assert_eq!(url, "https://crates.io/api/v1/crates/demo/1.0.0/download")
        }
        other => panic!("{other:?}"),
    }
    match request.run(Event::Status(200)) {
        Action::Unpack { into } => assert_eq!(into, "/cache/demo-1.0.0"),
        other => panic!("{other:?}"),
    }
    match request.run(Event::Done) {
        Action::Probe { path } => assert_eq!(path, "/cache/demo-1.0.0/Cargo.toml"),
        other => panic!("{other:?}"),
    }
    match request.run(Event::Exists(true)) {
        Action::Unlock { path } => assert_eq!(path, "/cache/demo-1.0.0.lock"),
        other => panic!("{other:?}"),
    }
    match request.run(Event::Done) {
        Action::Invoke(invocation) => {
            assert_eq!(invocation.program, "cargo");
            assert_eq!(
                invocation.args,
                texts(&[
                    "build",
                    "-Z",
                    "unstable-options",
                    "--target",
                    "x86-unknown-none",
                    "--artifact-dir",
                    "/tmp/out",
                ])
            );
            assert_eq!(invocation.working_dir, "/cache/demo-1.0.0");
            assert_eq!(
                invocation.env,
                vec![("PATH".to_string(), "/usr/bin".to_string())]
            );
            assert_eq!(invocation.rerun_if_changed, None);
        }
        other => panic!("{other:?}"),
    }
    assert_eq!(
        request.manifest_path.as_deref(),
        Some("/cache/demo-1.0.0/Cargo.toml")
    );
    let resolved = request.resolved().unwrap();
    assert_eq!(resolved.manifest, "/cache/demo-1.0.0/Cargo.toml");
    assert_eq!(resolved.working_dir, "/cache/demo-1.0.0");
    match request.run(Event::Exited { code: Some(0) }) {
        Action::Finish(Ok(output)) => {
            assert_eq!(output.dir, "/tmp/out");
            assert_eq!(output.elf, "/tmp/out/demo");
        }
        other => panic!("{other:?}"),
    }
    assert!(matches!(request.phase, Phase::Finished));
}

#[test]
fn first_build_fills_the_cache_and_second_reuses_it() {
    let mut world = World::new();
    let output = world.drive(&mut registry_request(false)).unwrap();
    assert_eq!(output.elf, "/tmp/out/demo");
    assert_eq!(
        world.steps,
        texts(&[
            "lock /cache/demo-1.0.0.lock",
            "probe /cache/demo-1.0.0",
            "fetch https://crates.io/api/v1/crates/demo/1.0.0/download",
            "unpack /cache/demo-1.0.0",
            "probe /cache/demo-1.0.0/Cargo.toml",
            "unlock /cache/demo-1.0.0.lock",
            "invoke build in /cache/demo-1.0.0",
        ])
    );
    assert!(world.has("/cache/demo-1.0.0/Cargo.toml"));

    let output = world.drive(&mut registry_request(false)).unwrap();
    assert_eq!(output.elf, "/tmp/out/demo");
    assert_eq!(
        world.steps,
        texts(&[
            "lock /cache/demo-1.0.0.lock",
            "probe /cache/demo-1.0.0",
            "unlock /cache/demo-1.0.0.lock",
            "invoke build in /cache/demo-1.0.0",
        ])
    );
    assert!(world.has("/cache/demo-1.0.0/Cargo.toml"));
}

#[test]
fn second_request_waits_for_the_lock_and_finds_a_whole_entry() {
    let mut world = World::new();
    let mut first = registry_request(false);
    let mut second = registry_request(false);

    let mut event = Event::Start;
    let unpack = loop {
        match first.run(event) {
            action @ Action::Unpack { .. } => break action,
            action => event = world.perform(&action),
        }
    };
    assert!(!world.has("/cache/demo-1.0.0"));

    let lock = second.run(Event::Start);
    match &lock {
        Action::Lock { path } => assert!(world.locked.contains(path)),
        other => panic!("{other:?}"),
    }

    let mut event = world.perform(&unpack);
    let invoke = loop {
        match first.run(event) {
            action @ Action::Invoke(_) => break action,
            action => event = world.perform(&action),
        }
    };
    assert!(world.locked.is_empty());
    assert!(world.has("/cache/demo-1.0.0/Cargo.toml"));

    world.steps.clear();
    let mut event = world.perform(&lock);
    let result = loop {
        match second.run(event) {
            Action::Finish(result) => break result,
            action => event = world.perform(&action),
        }
    };
    assert_eq!(result.unwrap().elf, "/tmp/out/demo");
    assert_eq!(
        world.steps,
        texts(&[
            "lock /cache/demo-1.0.0.lock",
            "probe /cache/demo-1.0.0",
            "unlock /cache/demo-1.0.0.lock",
            "invoke build in /cache/demo-1.0.0",
        ])
    );

    let event = world.perform(&invoke);
    assert!(matches!(first.run(event), Action::Finish(Ok(_))));
}

#[test]
fn forced_rebuild_removes_and_fetches_again() {
    let mut world = World::new();
    world.drive(&mut registry_request(false)).unwrap();
    world.drive(&mut registry_request(true)).unwrap();
    assert_eq!(
        world.steps,
        texts(&[
            "lock /cache/demo-1.0.0.lock",
            "probe /cache/demo-1.0.0",
            "remove /cache/demo-1.0.0",
            "fetch https://crates.io/api/v1/crates/demo/1.0.0/download",
            "unpack /cache/demo-1.0.0",
            "probe /cache/demo-1.0.0/Cargo.toml",
            "unlock /cache/demo-1.0.0.lock",
            "invoke build in /cache/demo-1.0.0",
        ])
    );
}

#[test]
fn forced_rebuild_of_an_absent_entry_just_fetches() {
    let mut world = World::new();
    world.drive(&mut registry_request(true)).unwrap();
    assert_eq!(world.steps[2], "fetch https://crates.io/api/v1/crates/demo/1.0.0/download");
}

#[test]
fn explicit_manifest_goes_straight_to_the_toolchain() {
    let mut builder = Builder::new("demo").target("x86-unknown-none").feature("net");
    builder.manifest_path = Some("/src/demo/Cargo.toml".to_string());
    builder.version = Some("1.0.0".to_string());
    builder.output_dir = Some("/tmp/out".to_string());
    let mut surroundings = ambient();
    surroundings.manifest_path = Some("/w/Cargo.toml".to_string());
    let mut request = builder.build(surroundings).unwrap();
    match request.run(Event::Start) {
        Action::Invoke(invocation) => {
            assert_eq!(invocation.working_dir, "/src/demo");
            assert_eq!(invocation.args[0], "build");
            assert_eq!(invocation.args[7..], texts(&["--features", "net"]));
        }
        other => panic!("{other:?}"),
    }
    assert_eq!(request.manifest_path.as_deref(), Some("/src/demo/Cargo.toml"));

    let mut world = World::new();
    let mut builder = Builder::new("demo").target("x86-unknown-none");
    builder.manifest_path = Some("/src/demo/Cargo.toml".to_string());
    builder.output_dir = Some("/tmp/out".to_string());
    let output = world.drive(&mut builder.build(ambient()).unwrap()).unwrap();
    assert_eq!(world.steps, texts(&["invoke build in /src/demo"]));
    assert_eq!(output.elf, "/tmp/out/demo");
}

#[test]
fn explicit_manifest_without_a_parent_is_an_error() {
    let mut builder = Builder::new("demo").target("t");
    builder.manifest_path = Some("/".to_string());
    builder.output_dir = Some("/tmp/out".to_string());
    let mut request = builder.build(ambient()).unwrap();
    match request.run(Event::Start) {
        Action::Finish(Err(BuildError::NoParent { path })) => assert_eq!(path, "/"),
        other => panic!("{other:?}"),
    }
}

#[test]
fn source_directory_is_copied_into_a_fresh_entry_each_time() {
    let mut world = World::new();
    world.drive(&mut directory_request(1)).unwrap();
    assert_eq!(
        world.steps,
        texts(&[
            "lock /cache/demo-1.lock",
            "probe /cache/demo-1",
            "copy /src/demo /cache/demo-1",
            "probe /cache/demo-1/Cargo.toml",
            "unlock /cache/demo-1.lock",
            "invoke build in /cache/demo-1",
        ])
    );
    world.drive(&mut directory_request(2)).unwrap();
    assert_eq!(world.steps[2], "copy /src/demo /cache/demo-2");
    assert!(world.has("/cache/demo-1"));
    assert!(world.has("/cache/demo-2"));
}

#[test]
fn source_directory_never_reuses_an_entry() {
    let mut world = World::new();
    world.drive(&mut directory_request(1)).unwrap();
    world.drive(&mut directory_request(1)).unwrap();
    assert_eq!(
        world.steps[1..4],
        texts(&[
            "probe /cache/demo-1",
            "remove /cache/demo-1",
            "copy /src/demo /cache/demo-1",
        ])
    );
}

#[test]
fn failed_download_leaves_no_entry() {
    for status in [404u16, 500, 302, 199] {
        let mut world = World::new();
        world.status = status;
        match world.drive(&mut registry_request(false)) {
            Err(BuildError::Download { url, status: got }) => {
                assert_eq!(url, "https://crates.io/api/v1/crates/demo/1.0.0/download");
                assert_eq!(got, status);
            }
            other => panic!("{other:?}"),
        }
        assert_eq!(
            world.steps,
            texts(&[
                "lock /cache/demo-1.0.0.lock",
                "probe /cache/demo-1.0.0",
                "fetch https://crates.io/api/v1/crates/demo/1.0.0/download",
                "remove /cache/demo-1.0.0",
                "unlock /cache/demo-1.0.0.lock",
            ])
        );
        assert!(!world.has("/cache/demo-1.0.0"));
        assert!(world.locked.is_empty());
    }
}

#[test]
fn unreachable_registry_is_a_network_error() {
    let mut request = registry_request(false);
    request.run(Event::Start);
    request.run(Event::Done);
    request.run(Event::Exists(false));
    match request.run(Event::Failed {
        message: "connection refused".to_string(),
    }) {
        Action::Remove { path } => assert_eq!(path, "/cache/demo-1.0.0"),
        other => panic!("{other:?}"),
    }
    request.run(Event::Done);
    match request.run(Event::Done) {
        Action::Finish(Err(BuildError::Network { url, message })) => {
            assert_eq!(url, "https://crates.io/api/v1/crates/demo/1.0.0/download");
            assert_eq!(message, "connection refused");
        }
        other => panic!("{other:?}"),
    }
}

#[test]
fn broken_archive_is_removed() {
    let mut world = World::new();
    world.unpack_fails = true;
    match world.drive(&mut registry_request(false)) {
        Err(BuildError::Archive { into, message }) => {
            assert_eq!(into, "/cache/demo-1.0.0");
            assert_eq!(message, "unexpected end of file");
        }
        other => panic!("{other:?}"),
    }
    assert!(!world.has("/cache/demo-1.0.0"));
    assert_eq!(world.steps[4], "remove /cache/demo-1.0.0");
}

#[test]
fn failed_copy_is_removed() {
    let mut world = World::new();
    world.copy_fails = true;
    match world.drive(&mut directory_request(5)) {
        Err(BuildError::Copy { from, message }) => {
            assert_eq!(from, "/src/demo");
            assert_eq!(message, "/src/demo/secret: permission denied");
        }
        other => panic!("{other:?}"),
    }
    assert!(!world.has("/cache/demo-5"));
}

#[test]
fn entry_without_manifest_is_removed() {
    let mut world = World::new();
    world.with_manifest = false;
    match world.drive(&mut registry_request(false)) {
        Err(BuildError::ManifestMissing { path }) => {
            assert_eq!(path, "/cache/demo-1.0.0/Cargo.toml")
        }
        other => panic!("{other:?}"),
    }
    assert!(!world.has("/cache/demo-1.0.0"));
    assert!(world.locked.is_empty());
}

#[test]
fn lock_that_cannot_be_taken_ends_the_request() {
    let mut request = registry_request(false);
    request.run(Event::Start);
    match request.run(Event::Failed {
        message: "read-only file system".to_string(),
    }) {
        Action::Finish(Err(BuildError::Io { path, message })) => {
            assert_eq!(path, "/cache/demo-1.0.0.lock");
            assert_eq!(message, "read-only file system");
        }
        other => panic!("{other:?}"),
    }
}

#[test]
fn failed_removal_gives_the_lock_back_and_ends() {
    let mut request = registry_request(true);
    request.run(Event::Start);
    request.run(Event::Done);
    assert!(matches!(
        request.run(Event::Exists(true)),
        Action::Remove { .. }
    ));
    match request.run(Event::Failed {
        message: "busy".to_string(),
    }) {
        Action::Unlock { path } => assert_eq!(path, "/cache/demo-1.0.0.lock"),
        other => panic!("{other:?}"),
    }
    match request.run(Event::Done) {
        Action::Finish(Err(BuildError::Io { path, message })) => {
            assert_eq!(path, "/cache/demo-1.0.0");
            assert_eq!(message, "busy");
        }
        other => panic!("{other:?}"),
    }
}

#[test]
fn toolchain_failure_carries_the_status() {
    let mut world = World::new();
    world.exit = Some(101);
    assert!(matches!(
        world.drive(&mut registry_request(false)),
        Err(BuildError::Toolchain { code: Some(101) })
    ));
    world.exit = None;
    assert!(matches!(
        world.drive(&mut registry_request(false)),
        Err(BuildError::Toolchain { code: None })
    ));
}

#[test]
fn toolchain_that_cannot_start_is_an_error() {
    let mut builder = Builder::new("demo").target("t");
    builder.manifest_path = Some("/src/demo/Cargo.toml".to_string());
    builder.output_dir = Some("/tmp/out".to_string());
    let mut request = builder.build(ambient()).unwrap();
    request.run(Event::Start);
    match request.run(Event::Failed {
        message: "cargo: not found".to_string(),
    }) {
        Action::Finish(Err(BuildError::Spawn { message })) => {
            assert_eq!(message, "cargo: not found")
        }
        other => panic!("{other:?}"),
    }
}

#[test]
fn requests_know_their_cache_entry_and_style() {
    let request = registry_request(false);
    assert!(matches!(
        request.cache_key(),
        CacheKey::Versioned { name, version } if name == "demo" && version == "1.0.0"
    ));
    assert_eq!(request.entry(), "/cache/demo-1.0.0");
    assert_eq!(request.style(), InvocationStyle::Build);

    let request = directory_request(31);
    assert!(matches!(
        request.cache_key(),
        CacheKey::Fresh { name, suffix: 31 } if name == "demo"
    ));
    assert_eq!(request.entry(), "/cache/demo-31");
    assert_eq!(request.style(), InvocationStyle::Build);

    assert_eq!(workspace_request("demo").style(), InvocationStyle::Install);
}

#[test]
fn nothing_is_resolved_before_the_first_step() {
    assert!(registry_request(false).resolved().is_none());
    assert!(workspace_request("demo").resolved().is_none());
}

#[test]
fn workspace_member_is_installed_where_it_lies() {
    let mut world = World::new();
    world.workspace = vec![
        ("pie-boot".to_string(), "/w/pie-boot/Cargo.toml".to_string()),
        (
            "Pie-Boot-Loader-AArch64".to_string(),
            "/w/loader/Cargo.toml".to_string(),
        ),
    ];
    let mut request = workspace_request("pie-boot-loader-aarch64");
    match request.run(Event::Start) {
        Action::Inspect {
            manifest_path,
            dependencies,
        } => {
            assert_eq!(manifest_path, "/w/Cargo.toml");
            assert!(dependencies);
        }
        other => panic!("{other:?}"),
    }
    let answer = world.perform(&Action::Inspect {
        manifest_path: "/w/Cargo.toml".to_string(),
        dependencies: true,
    });
    match request.run(answer) {
        Action::Invoke(invocation) => {
            assert_eq!(
                invocation.args,
                texts(&[
                    "install",
                    "pie-boot-loader-aarch64",
                    "--locked",
                    "-Z",
                    "unstable-options",
                    "--target",
                    "aarch64-unknown-none-softfloat",
                    "--root",
                    "/w/target/tmp",
                    "--path",
                    "/w/loader",
                    "-Z",
                    "build-std=core,alloc",
                ])
            );
            assert_eq!(invocation.working_dir, "/w/loader");
            assert_eq!(invocation.rerun_if_changed.as_deref(), Some("/w/loader"));
        }
        other => panic!("{other:?}"),
    }
    assert_eq!(request.manifest_path.as_deref(), Some("/w/loader/Cargo.toml"));
    let resolved = request.resolved().unwrap();
    assert_eq!(resolved.manifest, "/w/loader/Cargo.toml");
    assert_eq!(resolved.working_dir, "/w/loader");
    match request.run(Event::Exited { code: Some(0) }) {
        Action::Finish(Ok(output)) => {
            assert_eq!(output.dir, "/w/target/tmp/bin");
            assert_eq!(output.elf, "/w/target/tmp/bin/pie-boot-loader-aarch64");
        }
        other => panic!("{other:?}"),
    }
}

#[test]
fn workspace_member_from_the_registry_is_not_watched() {
    let mut request = workspace_request("syn");
    request.run(Event::Start);
    let workspace = Workspace {
        packages: vec![Package {
            name: "syn".to_string(),
            manifest_path: "/home/u/.cargo/registry/src/i/syn-2.0.0/Cargo.toml".to_string(),
        }],
        target_directory: "/w/target".to_string(),
    };
    match request.run(Event::Inspected(workspace)) {
        Action::Invoke(invocation) => {
            assert_eq!(invocation.rerun_if_changed, None);
            assert_eq!(
                invocation.working_dir,
                "/home/u/.cargo/registry/src/i/syn-2.0.0"
            );
        }
        other => panic!("{other:?}"),
    }
}

#[test]
fn workspace_member_with_an_ambiguous_name_is_an_error() {
    let mut world = World::new();
    world.workspace = vec![
        ("demo".to_string(), "/w/a/Cargo.toml".to_string()),
        ("Demo".to_string(), "/w/b/Cargo.toml".to_string()),
    ];
    match world.drive(&mut workspace_request("demo")) {
        Err(BuildError::PackageAmbiguous { name }) => assert_eq!(name, "demo"),
        other => panic!("{other:?}"),
    }
}

#[test]
fn workspace_member_that_is_absent_is_named_in_the_error() {
    let mut world = World::new();
    world.workspace = vec![("pie-boot".to_string(), "/w/pie-boot/Cargo.toml".to_string())];
    match world.drive(&mut workspace_request("Absent")) {
        Err(e @ BuildError::PackageNotFound { .. }) => {
            assert_eq!(e.message(), "Cannot find package Absent, is it has lib.rs?")
        }
        other => panic!("{other:?}"),
    }
    assert_eq!(world.steps, texts(&["inspect /w/Cargo.toml"]));
}

#[test]
fn failed_metadata_query_names_the_workspace() {
    let mut request = workspace_request("demo");
    request.run(Event::Start);
    match request.run(Event::Failed {
        message: "cargo metadata exited with an error".to_string(),
    }) {
        Action::Finish(Err(BuildError::Metadata {
            manifest_path,
            message,
        })) => {
            assert_eq!(manifest_path, "/w/Cargo.toml");
            assert_eq!(message, "cargo metadata exited with an error");
        }
        other => panic!("{other:?}"),
    }
}

#[test]
fn unexpected_answers_end_the_request() {
    let mut request = registry_request(false);
    assert!(matches!(
        request.run(Event::Done),
        Action::Finish(Err(BuildError::Unexpected))
    ));
    assert!(matches!(
        request.run(Event::Start),
        Action::Finish(Err(BuildError::Unexpected))
    ));

    let mut request = registry_request(false);
    request.run(Event::Start);
    request.run(Event::Done);
    assert!(matches!(
        request.run(Event::Status(200)),
        Action::Unlock { .. }
    ));
    assert!(matches!(
        request.run(Event::Done),
        Action::Finish(Err(BuildError::Unexpected))
    ));

    let mut request = registry_request(false);
    request.run(Event::Start);
    request.run(Event::Done);
    request.run(Event::Exists(false));
    request.run(Event::Status(200));
    assert!(matches!(
        request.run(Event::Exists(true)),
        Action::Remove { .. }
    ));
}

#[test]
fn caller_entries_reach_the_nested_build() {
    let mut builder = Builder::new("demo")
        .target("t")
        .env("RUSTFLAGS", "-C debuginfo=2")
        .env("PATH", "/opt/bin");
    builder.manifest_path = Some("/src/demo/Cargo.toml".to_string());
    builder.output_dir = Some("/tmp/out".to_string());
    let mut request = builder.build(ambient()).unwrap();
    match request.run(Event::Start) {
        Action::Invoke(invocation) => assert_eq!(
            invocation.env,
            vec![
                ("PATH".to_string(), "/usr/bin".to_string()),
                ("RUSTFLAGS".to_string(), "-C debuginfo=2".to_string()),
                ("PATH".to_string(), "/opt/bin".to_string()),
            ]
        ),
        other => panic!("{other:?}"),
    }
}

#[test]
fn test_local() {
    let manifest = "/w/target/pie-boot/pie-boot/Cargo.toml".to_string();
    let mf = "/w";
    let mut builder = Builder::new("pie-boot-loader-aarch64");

    builder.manifest_path = Some(manifest);
    builder.user_crate_name = Some("pie-boot".into());
    builder.output_dir = Some(format!("{mf}/target/tmp"));

    let mut request = builder
        .target("aarch64-unknown-none-softfloat")
        .cargo_args(&["-Z", "build-std=core,alloc"])
        .build(ambient())
        .unwrap();
    let mut world = World::new();
    let output = world.drive(&mut request).unwrap();
    assert_eq!(world.steps, texts(&["invoke build in /w/target/pie-boot/pie-boot"]));
    assert_eq!(output.elf, "/w/target/tmp/pie-boot-loader-aarch64");
}

#[test]
fn test_crate_io() {
    let version = "0.1.6";
    let manifest = format!("/w/target/pie-boot-{version}/Cargo.toml");
    let mf = "/w";
    let mut builder = Builder::new("pie-boot-loader-aarch64");

    builder.manifest_path = Some(manifest);
    builder.user_crate_name = Some("pie-boot".into());
    builder.output_dir = Some(format!("{mf}/target/tmp"));

    let mut request = builder
        .target("aarch64-unknown-none-softfloat")
        .cargo_args(&["-Z", "build-std=core,alloc"])
        .build(ambient())
        .unwrap();
    match request.run(Event::Start) {
        Action::Invoke(invocation) => {
            assert_eq!(invocation.working_dir, "/w/target/pie-boot-0.1.6");
            assert_eq!(
                invocation.args,
                texts(&[
                    "build",
                    "-Z",
                    "unstable-options",
                    "--target",
                    "aarch64-unknown-none-softfloat",
                    "--artifact-dir",
                    "/w/target/tmp",
                    "-Z",
                    "build-std=core,alloc",
                ])
            );
        }
        other => panic!("{other:?}"),
    }
    assert!(matches!(
        request.run(Event::Exited { code: Some(0) }),
        Action::Finish(Ok(_))
    ));
}
