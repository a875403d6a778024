//! The one error value of a build request. Every failure is fatal to the
//! request, and its message names the stage and the resource involved.

use vstd::prelude::*;
use vstd::string::*;
use crate::text::{decimal, numeral, occurs_at, occurs_in, signed_decimal, signed_numeral};

verus! {

/// Why a build request failed.
#[derive(Debug)]
pub enum BuildError {
    /// The request gives no manifest, version or source directory, and the
    /// surroundings name no workspace.
    Unresolvable { name: String },
    /// The manifest path names no file, so there is no directory to build in.
    NoParent { path: String },
    /// No package of the workspace has the searched name.
    PackageNotFound { name: String },
    /// More than one package of the workspace has the searched name.
    PackageAmbiguous { name: String },
    /// The workspace metadata could not be queried.
    Metadata { manifest_path: String, message: String },
    /// A file system operation on the cache failed.
    Io { path: String, message: String },
    /// The source directory could not be copied.
    Copy { from: String, message: String },
    /// The registry answered with a status other than success.
    Download { url: String, status: u16 },
    /// The registry could not be reached.
    Network { url: String, message: String },
    /// The downloaded archive could not be unpacked.
    Archive { into: String, message: String },
    /// The resolved source holds no manifest.
    ManifestMissing { path: String },
    /// The toolchain ended with a status other than zero, or without one.
    Toolchain { code: Option<i32> },
    /// The toolchain could not be started.
    Spawn { message: String },
    /// An event arrived that answers no pending action.
    Unexpected,
}

/// A `BuildError` with its texts as sequences of characters.
pub enum BuildErrorView {
    Unresolvable { name: Seq<char> },
    NoParent { path: Seq<char> },
    PackageNotFound { name: Seq<char> },
    PackageAmbiguous { name: Seq<char> },
    Metadata { manifest_path: Seq<char>, message: Seq<char> },
    Io { path: Seq<char>, message: Seq<char> },
    Copy { from: Seq<char>, message: Seq<char> },
    Download { url: Seq<char>, status: u16 },
    Network { url: Seq<char>, message: Seq<char> },
    Archive { into: Seq<char>, message: Seq<char> },
    ManifestMissing { path: Seq<char> },
    Toolchain { code: Option<i32> },
    Spawn { message: Seq<char> },
    Unexpected,
}

impl View for BuildError {
    type V = BuildErrorView;

    open spec fn view(&self) -> BuildErrorView {
        match self {
            BuildError::Unresolvable { name } => BuildErrorView::Unresolvable { name: name@ },
            BuildError::NoParent { path } => BuildErrorView::NoParent { path: path@ },
            BuildError::PackageNotFound { name } => BuildErrorView::PackageNotFound {
                name: name@,
            },
            BuildError::PackageAmbiguous { name } => BuildErrorView::PackageAmbiguous {
                name: name@,
            },
            BuildError::Metadata { manifest_path, message } => BuildErrorView::Metadata {
                manifest_path: manifest_path@,
                message: message@,
            },
            BuildError::Io { path, message } => BuildErrorView::Io {
                path: path@,
                message: message@,
            },
            BuildError::Copy { from, message } => BuildErrorView::Copy {
                from: from@,
                message: message@,
            },
            BuildError::Download { url, status } => BuildErrorView::Download {
                url: url@,
                status: *status,
            },
            BuildError::Network { url, message } => BuildErrorView::Network {
                url: url@,
                message: message@,
            },
            BuildError::Archive { into, message } => BuildErrorView::Archive {
                into: into@,
                message: message@,
            },
            BuildError::ManifestMissing { path } => BuildErrorView::ManifestMissing {
                path: path@,
            },
            BuildError::Toolchain { code } => BuildErrorView::Toolchain { code: *code },
            BuildError::Spawn { message } => BuildErrorView::Spawn { message: message@ },
            BuildError::Unexpected => BuildErrorView::Unexpected,
        }
    }
}

/// The message of an error: the stage that failed, then the resource.
pub open spec fn message_of(e: BuildErrorView) -> Seq<char> {
    match e {
        BuildErrorView::Unresolvable { name } =>
            "no manifest, version or source directory given for package "@ + name,
        BuildErrorView::NoParent { path } => "manifest path has no parent directory: "@ + path,
        BuildErrorView::PackageNotFound { name } =>
            "Cannot find package "@ + name + ", is it has lib.rs?"@,
        BuildErrorView::PackageAmbiguous { name } =>
            "more than one package in the workspace is named "@ + name,
        BuildErrorView::Metadata { manifest_path, message } =>
            "metadata query failed for "@ + manifest_path + ": "@ + message,
        BuildErrorView::Io { path, message } => "I/O error at "@ + path + ": "@ + message,
        BuildErrorView::Copy { from, message } =>
            "copy failed from "@ + from + ": "@ + message,
        BuildErrorView::Download { url, status } =>
            "download failed with status "@ + numeral(status as nat) + ": "@ + url,
        BuildErrorView::Network { url, message } =>
            "download failed for "@ + url + ": "@ + message,
        BuildErrorView::Archive { into, message } =>
            "extraction failed into "@ + into + ": "@ + message,
        BuildErrorView::ManifestMissing { path } =>
            "manifest not found in resolved source: "@ + path,
        BuildErrorView::Toolchain { code } => match code {
            Some(c) => "build failed with exit status "@ + signed_numeral(c as int),
            None => "build failed without an exit status"@,
        },
        BuildErrorView::Spawn { message } => "toolchain could not be run: "@ + message,
        BuildErrorView::Unexpected => "unexpected event"@,
    }
}

/// `head`, then `a`.
fn two(head: &str, a: &str) -> (r: String)
    ensures
        r@ == head@ + a@,
{
    let mut r = String::from_str(head);
    r.append(a);
    r
}

/// `head`, then `a`, then `mid`, then `b`.
fn four(head: &str, a: &str, mid: &str, b: &str) -> (r: String)
    ensures
        r@ == head@ + a@ + mid@ + b@,
{
    let mut r = String::from_str(head);
    r.append(a);
    r.append(mid);
    r.append(b);
    r
}

impl BuildError {
    /// The human-readable message of this error.
    pub fn message(&self) -> (r: String)
        ensures
            r@ == message_of(self@),
    {
        match self {
            BuildError::Unresolvable { name } => two(
                "no manifest, version or source directory given for package ",
                name.as_str(),
            ),
            BuildError::NoParent { path } => two(
                "manifest path has no parent directory: ",
                path.as_str(),
            ),
            BuildError::PackageNotFound { name } => {
                let mut r = two("Cannot find package ", name.as_str());
                r.append(", is it has lib.rs?");
                r
            },
            BuildError::PackageAmbiguous { name } => two(
                "more than one package in the workspace is named ",
                name.as_str(),
            ),
            BuildError::Metadata { manifest_path, message } => four(
                "metadata query failed for ",
                manifest_path.as_str(),
                ": ",
                message.as_str(),
            ),
            BuildError::Io { path, message } => four(
                "I/O error at ",
                path.as_str(),
                ": ",
                message.as_str(),
            ),
            BuildError::Copy { from, message } => four(
                "copy failed from ",
                from.as_str(),
                ": ",
                message.as_str(),
            ),
            BuildError::Download { url, status } => {
                let number = decimal(*status as u64);
                four("download failed with status ", number.as_str(), ": ", url.as_str())
            },
            BuildError::Network { url, message } => four(
                "download failed for ",
                url.as_str(),
                ": ",
                message.as_str(),
            ),
            BuildError::Archive { into, message } => four(
                "extraction failed into ",
                into.as_str(),
                ": ",
                message.as_str(),
            ),
            BuildError::ManifestMissing { path } => two(
                "manifest not found in resolved source: ",
                path.as_str(),
            ),
            BuildError::Toolchain { code } => match code {
                Some(c) => {
                    let number = signed_decimal(*c);
                    two("build failed with exit status ", number.as_str())
                },
                None => String::from_str("build failed without an exit status"),
            },
            BuildError::Spawn { message } => two("toolchain could not be run: ", message.as_str()),
            BuildError::Unexpected => String::from_str("unexpected event"),
        }
    }
}

impl Clone for BuildError {
    fn clone(&self) -> (r: BuildError)
        ensures
            r == *self,
    {
        match self {
            BuildError::Unresolvable { name } => BuildError::Unresolvable { name: name.clone() },
            BuildError::NoParent { path } => BuildError::NoParent { path: path.clone() },
            BuildError::PackageNotFound { name } => BuildError::PackageNotFound {
                name: name.clone(),
            },
            BuildError::PackageAmbiguous { name } => BuildError::PackageAmbiguous {
                name: name.clone(),
            },
            BuildError::Metadata { manifest_path, message } => BuildError::Metadata {
                manifest_path: manifest_path.clone(),
                message: message.clone(),
            },
            BuildError::Io { path, message } => BuildError::Io {
                path: path.clone(),
                message: message.clone(),
            },
            BuildError::Copy { from, message } => BuildError::Copy {
                from: from.clone(),
                message: message.clone(),
            },
            BuildError::Download { url, status } => BuildError::Download {
                url: url.clone(),
                status: *status,
            },
            BuildError::Network { url, message } => BuildError::Network {
                url: url.clone(),
                message: message.clone(),
            },
            BuildError::Archive { into, message } => BuildError::Archive {
                into: into.clone(),
                message: message.clone(),
            },
            BuildError::ManifestMissing { path } => BuildError::ManifestMissing {
                path: path.clone(),
            },
            BuildError::Toolchain { code } => BuildError::Toolchain { code: *code },
            BuildError::Spawn { message } => BuildError::Spawn { message: message.clone() },
            BuildError::Unexpected => BuildError::Unexpected,
        }
    }
}

/// The texts that name what an error is about.
pub open spec fn resources_of(e: BuildErrorView) -> Seq<Seq<char>> {
    match e {
        BuildErrorView::Unresolvable { name } => seq![name],
        BuildErrorView::NoParent { path } => seq![path],
        BuildErrorView::PackageNotFound { name } => seq![name],
        BuildErrorView::PackageAmbiguous { name } => seq![name],
        BuildErrorView::Metadata { manifest_path, message } => seq![manifest_path, message],
        BuildErrorView::Io { path, message } => seq![path, message],
        BuildErrorView::Copy { from, message } => seq![from, message],
        BuildErrorView::Download { url, status } => seq![url, numeral(status as nat)],
        BuildErrorView::Network { url, message } => seq![url, message],
        BuildErrorView::Archive { into, message } => seq![into, message],
        BuildErrorView::ManifestMissing { path } => seq![path],
        BuildErrorView::Toolchain { code } => match code {
            Some(c) => seq![signed_numeral(c as int)],
            None => seq![],
        },
        BuildErrorView::Spawn { message } => seq![message],
        BuildErrorView::Unexpected => seq![],
    }
}

/// `part` stands in a text that is put together from `before`, `part` and `after`.
proof fn lemma_occurs_between(before: Seq<char>, part: Seq<char>, after: Seq<char>)
    ensures
        occurs_in(before + part + after, part),
{
    let whole = before + part + after;
    assert(occurs_at(whole, part, before.len() as int));
}

/// The message of an error names every resource that the error is about:
/// the package, the path, the address, the status.
pub proof fn lemma_message_names_resources(e: BuildErrorView, i: int)
    requires
        0 <= i < resources_of(e).len(),
    ensures
        occurs_in(message_of(e), resources_of(e)[i]),
{
    let part = resources_of(e)[i];
    let none = Seq::<char>::empty();
    match e {
        BuildErrorView::Unresolvable { name } => {
            let head = "no manifest, version or source directory given for package "@;
            lemma_occurs_between(head, part, none);
        },
        BuildErrorView::NoParent { path } => {
            let head = "manifest path has no parent directory: "@;
            lemma_occurs_between(head, part, none);
        },
        BuildErrorView::PackageNotFound { name } => {
            lemma_occurs_between("Cannot find package "@, part, ", is it has lib.rs?"@);
        },
        BuildErrorView::PackageAmbiguous { name } => {
            let head = "more than one package in the workspace is named "@;
            lemma_occurs_between(head, part, none);
        },
        BuildErrorView::Metadata { manifest_path, message } => {
            lemma_between_or_last("metadata query failed for "@, manifest_path, message, i);
        },
        BuildErrorView::Io { path, message } => {
            lemma_between_or_last("I/O error at "@, path, message, i);
        },
        BuildErrorView::Copy { from, message } => {
            lemma_between_or_last("copy failed from "@, from, message, i);
        },
        BuildErrorView::Download { url, status } => {
            lemma_between_or_last(
                "download failed with status "@,
                numeral(status as nat),
                url,
                1 - i,
            );
        },
        BuildErrorView::Network { url, message } => {
            lemma_between_or_last("download failed for "@, url, message, i);
        },
        BuildErrorView::Archive { into, message } => {
            lemma_between_or_last("extraction failed into "@, into, message, i);
        },
        BuildErrorView::ManifestMissing { path } => {
            let head = "manifest not found in resolved source: "@;
            lemma_occurs_between(head, part, none);
        },
        BuildErrorView::Toolchain { code } => {
            let head = "build failed with exit status "@;
            lemma_occurs_between(head, part, none);
        },
        BuildErrorView::Spawn { message } => {
            let head = "toolchain could not be run: "@;
            lemma_occurs_between(head, part, none);
        },
        BuildErrorView::Unexpected => {},
    }
}

/// Both `a` and `b` stand in the text `head`, `a`, a colon and a blank, `b`.
proof fn lemma_between_or_last(head: Seq<char>, a: Seq<char>, b: Seq<char>, which: int)
    requires
        which == 0 || which == 1,
    ensures
        occurs_in(
            head + a + ": "@ + b,
            if which == 0 {
                a
            } else {
                b
            },
        ),
{
    let whole = head + a + ": "@ + b;
    if which == 0 {
        lemma_occurs_between(head, a, ": "@ + b);
        assert(whole =~= head + a + (": "@ + b));
    } else {
        lemma_occurs_between(head + a + ": "@, b, Seq::empty());
    }
}

} // verus!
