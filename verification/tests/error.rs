use bindeps_simple::BuildError;

fn s(text: &str) -> String {
    text.to_string()
}

#[test]
fn messages_name_the_stage_and_the_resource() {
    let cases = vec![
        (
            BuildError::Unresolvable { name: s("demo") },
            "no manifest, version or source directory given for package demo",
        ),
        (
            BuildError::NoParent { path: s("/") },
            "manifest path has no parent directory: /",
        ),
        (
            BuildError::PackageNotFound { name: s("demo") },
            "Cannot find package demo, is it has lib.rs?",
        ),
        (
            BuildError::PackageAmbiguous { name: s("syn") },
            "more than one package in the workspace is named syn",
        ),
        (
            BuildError::Metadata {
                manifest_path: s("/w/Cargo.toml"),
                message: s("no such file"),
            },
            "metadata query failed for /w/Cargo.toml: no such file",
        ),
        (
            BuildError::Io {
                path: s("/cache/demo-1.0.0"),
                message: s("permission denied"),
            },
            "I/O error at /cache/demo-1.0.0: permission denied",
        ),
        (
            BuildError::Copy {
                from: s("/src/demo"),
                message: s("/src/demo/a: unreadable"),
            },
            "copy failed from /src/demo: /src/demo/a: unreadable",
        ),
        (
            BuildError::Download {
                url: s("https://r/crates/demo/1.0.0/download"),
                status: 404,
            },
            "download failed with status 404: https://r/crates/demo/1.0.0/download",
        ),
        (
            BuildError::Network {
                url: s("https://r/crates/demo/1.0.0/download"),
                message: s("timed out"),
            },
            "download failed for https://r/crates/demo/1.0.0/download: timed out",
        ),
        (
            BuildError::Archive {
                into: s("/cache/demo-1.0.0"),
                message: s("unexpected end of file"),
            },
            "extraction failed into /cache/demo-1.0.0: unexpected end of file",
        ),
        (
            BuildError::ManifestMissing {
                path: s("/cache/demo-1.0.0/Cargo.toml"),
            },
            "manifest not found in resolved source: /cache/demo-1.0.0/Cargo.toml",
        ),
        (
            BuildError::Toolchain { code: Some(101) },
            "build failed with exit status 101",
        ),
        (
            BuildError::Toolchain { code: Some(-1) },
            "build failed with exit status -1",
        ),
        (
            BuildError::Toolchain { code: None },
            "build failed without an exit status",
        ),
        (
            BuildError::Spawn {
                message: s("cargo: not found"),
            },
            "toolchain could not be run: cargo: not found",
        ),
        (BuildError::Unexpected, "unexpected event"),
    ];
    for (error, message) in cases {
        assert_eq!(error.message(), message);
        assert_eq!(error.clone().message(), message);
    }
}
