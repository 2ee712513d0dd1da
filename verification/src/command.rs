//! The command lines of the tools that a run drives: the build tool, the
//! shell utilities for the staging directory and the release tool.
//!
//! Nothing here starts a process. An [`Invocation`] says which program is to
//! be started with which arguments; starting it is the caller's business.
use crate::naming::{staging_dir, staging_dir_name};
use crate::text::texts;
use vstd::prelude::*;

verus! {

/// A program and the arguments it is started with.
#[derive(Debug, Clone, PartialEq, Eq)]
pub struct Invocation {
    pub program: String,
    pub args: Vec<String>,
}

/// An [`Invocation`] as plain text.
pub struct InvocationView {
    pub program: Seq<char>,
    pub args: Seq<Seq<char>>,
}

impl View for Invocation {
    type V = InvocationView;

    open spec fn view(&self) -> InvocationView {
        InvocationView { program: self.program@, args: texts(self.args@) }
    }
}

/// `cargo clean`
pub open spec fn clean_command() -> InvocationView {
    InvocationView { program: "cargo"@, args: seq!["clean"@] }
}

/// `cargo build --release --target=<target>`
pub open spec fn build_command(target: Seq<char>) -> InvocationView {
    InvocationView { program: "cargo"@, args: seq!["build"@, "--release"@, "--target="@ + target] }
}

/// `cargo pkgid`
pub open spec fn metadata_command() -> InvocationView {
    InvocationView { program: "cargo"@, args: seq!["pkgid"@] }
}

/// `rm -r -f gh-tmp`
pub open spec fn remove_staging_command() -> InvocationView {
    InvocationView { program: "rm"@, args: seq!["-r"@, "-f"@, staging_dir()] }
}

/// `mkdir gh-tmp`
pub open spec fn make_staging_command() -> InvocationView {
    InvocationView { program: "mkdir"@, args: seq![staging_dir()] }
}

/// `gh release create <version>`
pub open spec fn create_release_command(version: Seq<char>) -> InvocationView {
    InvocationView { program: "gh"@, args: seq!["release"@, "create"@, version] }
}

/// `gh release upload <version> <archive> --clobber`
pub open spec fn upload_command(version: Seq<char>, archive: Seq<char>) -> InvocationView {
    InvocationView {
        program: "gh"@,
        args: seq!["release"@, "upload"@, version, archive, "--clobber"@],
    }
}

/// Appends one argument.
fn push_arg(args: &mut Vec<String>, arg: &str)
    ensures
        texts(final(args)@) == texts(old(args)@).push(arg@),
{
    args.push(String::from_str(arg));
}

/// The command that resets the build workspace.
pub fn clean() -> (invocation: Invocation)
    ensures
        invocation@ == clean_command(),
{
    let mut args: Vec<String> = Vec::new();
    push_arg(&mut args, "clean");
    proof {
        assert(texts(args@) =~= seq!["clean"@]);
    }
    Invocation { program: String::from_str("cargo"), args }
}

/// The command that builds the release binary for `target`.
pub fn build(target: &str) -> (invocation: Invocation)
    ensures
        invocation@ == build_command(target@),
{
    let mut flag = String::from_str("--target=");
    flag.append(target);
    let mut args: Vec<String> = Vec::new();
    push_arg(&mut args, "build");
    push_arg(&mut args, "--release");
    push_arg(&mut args, flag.as_str());
    proof {
        assert(texts(args@) =~= seq!["build"@, "--release"@, "--target="@ + target@]);
    }
    Invocation { program: String::from_str("cargo"), args }
}

/// The command that prints the package's identifier.
pub fn metadata() -> (invocation: Invocation)
    ensures
        invocation@ == metadata_command(),
{
    let mut args: Vec<String> = Vec::new();
    push_arg(&mut args, "pkgid");
    proof {
        assert(texts(args@) =~= seq!["pkgid"@]);
    }
    Invocation { program: String::from_str("cargo"), args }
}

/// The command that removes the staging directory, whether it exists or not.
pub fn remove_staging() -> (invocation: Invocation)
    ensures
        invocation@ == remove_staging_command(),
{
    let dir = staging_dir_name();
    let mut args: Vec<String> = Vec::new();
    push_arg(&mut args, "-r");
    push_arg(&mut args, "-f");
    push_arg(&mut args, dir.as_str());
    proof {
        assert(texts(args@) =~= seq!["-r"@, "-f"@, staging_dir()]);
    }
    Invocation { program: String::from_str("rm"), args }
}

/// The command that creates the staging directory.
pub fn make_staging() -> (invocation: Invocation)
    ensures
        invocation@ == make_staging_command(),
{
    let dir = staging_dir_name();
    let mut args: Vec<String> = Vec::new();
    push_arg(&mut args, dir.as_str());
    proof {
        assert(texts(args@) =~= seq![staging_dir()]);
    }
    Invocation { program: String::from_str("mkdir"), args }
}

/// The command that creates the release tagged `version`.
pub fn create_release(version: &str) -> (invocation: Invocation)
    ensures
        invocation@ == create_release_command(version@),
{
    let mut args: Vec<String> = Vec::new();
    push_arg(&mut args, "release");
    push_arg(&mut args, "create");
    push_arg(&mut args, version);
    proof {
        assert(texts(args@) =~= seq!["release"@, "create"@, version@]);
    }
    Invocation { program: String::from_str("gh"), args }
}

/// The command that uploads `archive` to the release tagged `version`,
/// replacing an asset of the same name.
pub fn upload(version: &str, archive: &str) -> (invocation: Invocation)
    ensures
        invocation@ == upload_command(version@, archive@),
{
    let mut args: Vec<String> = Vec::new();
    push_arg(&mut args, "release");
    push_arg(&mut args, "upload");
    push_arg(&mut args, version);
    push_arg(&mut args, archive);
    push_arg(&mut args, "--clobber");
    proof {
        assert(texts(args@) =~= seq!["release"@, "upload"@, version@, archive@, "--clobber"@]);
    }
    Invocation { program: String::from_str("gh"), args }
}

} // verus!
