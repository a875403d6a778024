//! The command line of the nested build, and where its artifact lands.

use vstd::prelude::*;
use vstd::string::*;
use crate::path::{join, joined};

verus! {

/// How the toolchain is asked to produce the artifact.
#[derive(Debug, Clone, Copy, PartialEq, Eq, Structural)]
pub enum InvocationStyle {
    /// Build the source tree directly; the artifact lands in the output
    /// directory itself.
    Build,
    /// Install the package by name; the artifact lands in the `bin`
    /// directory under the output directory.
    Install,
}

/// One run of the toolchain: the program, its arguments, the whole of its
/// environment, and the directory in which it runs.
#[derive(Debug)]
pub struct Invocation {
    pub program: String,
    pub args: Vec<String>,
    pub env: Vec<(String, String)>,
    pub working_dir: String,
    /// The directory whose changes make the requesting build run again,
    /// where there is one.
    pub rerun_if_changed: Option<String>,
}

/// An `Invocation` with its texts as sequences of characters.
pub struct InvocationView {
    pub program: Seq<char>,
    pub args: Seq<Seq<char>>,
    pub env: Seq<(Seq<char>, Seq<char>)>,
    pub working_dir: Seq<char>,
    pub rerun_if_changed: Option<Seq<char>>,
}

impl View for Invocation {
    type V = InvocationView;

    open spec fn view(&self) -> InvocationView {
        InvocationView {
            program: self.program@,
            args: self.args.deep_view(),
            env: self.env.deep_view(),
            working_dir: self.working_dir@,
            rerun_if_changed: self.rerun_if_changed.deep_view(),
        }
    }
}

/// Where the artifact of a build is found.
#[derive(Debug)]
pub struct Output {
    /// The directory that holds the artifact.
    pub dir: String,
    /// The artifact itself.
    pub elf: String,
}

/// An `Output` with its paths as sequences of characters.
pub struct OutputView {
    pub dir: Seq<char>,
    pub elf: Seq<char>,
}

impl View for Output {
    type V = OutputView;

    open spec fn view(&self) -> OutputView {
        OutputView { dir: self.dir@, elf: self.elf@ }
    }
}

impl Clone for Output {
    fn clone(&self) -> (r: Output)
        ensures
            r == *self,
    {
        Output { dir: self.dir.clone(), elf: self.elf.clone() }
    }
}

/// One `--features` flag with its value for each feature, in the caller's order.
pub open spec fn feature_flags(features: Seq<Seq<char>>) -> Seq<Seq<char>> {
    Seq::new(
        2 * features.len(),
        |i: int|
            if i % 2 == 0 {
                "--features"@
            } else {
                features[i / 2]
            },
    )
}

/// The arguments that select the subcommand, the target and the place of the output.
pub open spec fn leading_arguments(
    style: InvocationStyle,
    name: Seq<char>,
    target: Seq<char>,
    output_dir: Seq<char>,
    working_dir: Seq<char>,
) -> Seq<Seq<char>> {
    match style {
        InvocationStyle::Build => seq![
            "build"@,
            "-Z"@,
            "unstable-options"@,
            "--target"@,
            target,
            "--artifact-dir"@,
            output_dir,
        ],
        InvocationStyle::Install => seq![
            "install"@,
            name,
            "--locked"@,
            "-Z"@,
            "unstable-options"@,
            "--target"@,
            target,
            "--root"@,
            output_dir,
            "--path"@,
            working_dir,
        ],
    }
}

/// The arguments of the toolchain, in order: the subcommand, the target, the
/// place of the output, the feature flags, and last the caller's own
/// arguments as they were given.
pub open spec fn arguments(
    style: InvocationStyle,
    name: Seq<char>,
    target: Seq<char>,
    output_dir: Seq<char>,
    working_dir: Seq<char>,
    features: Seq<Seq<char>>,
    extra: Seq<Seq<char>>,
) -> Seq<Seq<char>> {
    leading_arguments(style, name, target, output_dir, working_dir) + feature_flags(features)
        + extra
}

/// Where the artifact of `name` lands under `output_dir`.
pub open spec fn located(output_dir: Seq<char>, name: Seq<char>, style: InvocationStyle)
    -> OutputView {
    match style {
        InvocationStyle::Build => OutputView { dir: output_dir, elf: joined(output_dir, name) },
        InvocationStyle::Install => OutputView {
            dir: joined(output_dir, "bin"@),
            elf: joined(joined(output_dir, "bin"@), name),
        },
    }
}

/// Puts the argument list of the toolchain together.
pub fn command_line(
    style: InvocationStyle,
    name: &str,
    target: &str,
    output_dir: &str,
    working_dir: &str,
    features: &Vec<String>,
    extra: &Vec<String>,
) -> (r: Vec<String>)
    ensures
        r.deep_view() == arguments(
            style,
            name@,
            target@,
            output_dir@,
            working_dir@,
            features.deep_view(),
            extra.deep_view(),
        ),
{
    let mut r: Vec<String> = Vec::new();
    match style {
        InvocationStyle::Build => {
            r.push(String::from_str("build"));
            r.push(String::from_str("-Z"));
            r.push(String::from_str("unstable-options"));
            r.push(String::from_str("--target"));
            r.push(String::from_str(target));
            r.push(String::from_str("--artifact-dir"));
            r.push(String::from_str(output_dir));
        },
        InvocationStyle::Install => {
            r.push(String::from_str("install"));
            r.push(String::from_str(name));
            r.push(String::from_str("--locked"));
            r.push(String::from_str("-Z"));
            r.push(String::from_str("unstable-options"));
            r.push(String::from_str("--target"));
            r.push(String::from_str(target));
            r.push(String::from_str("--root"));
            r.push(String::from_str(output_dir));
            r.push(String::from_str("--path"));
            r.push(String::from_str(working_dir));
        },
    }
    let ghost head = leading_arguments(style, name@, target@, output_dir@, working_dir@);
    let ghost wanted = features.deep_view();
    let mut i: usize = 0;
    while i < features.len()
        invariant
            i <= features.len(),
            wanted == features.deep_view(),
            r.deep_view() == head + feature_flags(wanted.take(i as int)),
        decreases features.len() - i,
    {
        let ghost before = r.deep_view();
        r.push(String::from_str("--features"));
        r.push(features[i].clone());
        assert(r.deep_view() =~= before.push("--features"@).push(wanted[i as int]));
        i += 1;
    }
    let ghost flagged = r.deep_view();
    let ghost rest = extra.deep_view();
    let mut k: usize = 0;
    while k < extra.len()
        invariant
            k <= extra.len(),
            rest == extra.deep_view(),
            r.deep_view() == flagged + rest.take(k as int),
        decreases extra.len() - k,
    {
        let ghost before = r.deep_view();
        r.push(extra[k].clone());
        assert(r.deep_view() =~= before.push(rest[k as int]));
        k += 1;
    }
    r
}

/// Names the place where the artifact of `name` lands under `output_dir`.
pub fn locate(output_dir: &str, name: &str, style: InvocationStyle) -> (r: Output)
    ensures
        r@ == located(output_dir@, name@, style),
{
    match style {
        InvocationStyle::Build => Output {
            dir: String::from_str(output_dir),
            elf: join(output_dir, name),
        },
        InvocationStyle::Install => {
            let dir = join(output_dir, "bin");
            let elf = join(dir.as_str(), name);
            Output { dir, elf }
        },
    }
}

} // verus!
