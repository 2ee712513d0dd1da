//! Why a run was given up.
use vstd::prelude::*;

verus! {

/// What a process wrote before it exited.
#[derive(Debug, Clone, PartialEq, Eq)]
pub struct Captured {
    pub stdout: Vec<u8>,
    pub stderr: Vec<u8>,
}

/// A [`Captured`] as plain bytes.
pub struct CapturedView {
    pub stdout: Seq<u8>,
    pub stderr: Seq<u8>,
}

impl View for Captured {
    type V = CapturedView;

    open spec fn view(&self) -> CapturedView {
        CapturedView { stdout: self.stdout@, stderr: self.stderr@ }
    }
}

impl DeepView for Captured {
    type V = CapturedView;

    open spec fn deep_view(&self) -> CapturedView {
        self@
    }
}

/// The reason for which a run was given up. Each kind of failure has a
/// variant of its own and carries what is known about it.
#[derive(Debug, Clone, PartialEq, Eq)]
pub enum Failure {
    /// No binary name was given on the command line.
    MissingBinaryName,
    /// Resetting the build workspace failed.
    CleanFailed(Captured),
    /// The build for `target` failed; `output` holds what the build tool said.
    BuildFailed { target: String, output: Captured },
    /// The query for the package's identifier failed.
    MetadataFailed(Captured),
    /// The package's identifier was not UTF-8 text.
    NotText,
    /// The package's identifier, `input`, holds no version.
    VersionNotFound { input: String },
    /// The old staging directory could not be removed.
    RemoveStagingFailed(Captured),
    /// The staging directory could not be created.
    MakeStagingFailed(Captured),
    /// The upload of `archive` failed.
    UploadFailed { archive: String, output: Captured },
    /// The operating system refused an operation; `message` is its error.
    Io { message: String },
    /// The run was told of something it had not asked for.
    UnexpectedEvent,
}

/// A [`Failure`] as plain text and bytes.
pub enum FailureView {
    MissingBinaryName,
    CleanFailed(CapturedView),
    BuildFailed { target: Seq<char>, output: CapturedView },
    MetadataFailed(CapturedView),
    NotText,
    VersionNotFound { input: Seq<char> },
    RemoveStagingFailed(CapturedView),
    MakeStagingFailed(CapturedView),
    UploadFailed { archive: Seq<char>, output: CapturedView },
    Io { message: Seq<char> },
    UnexpectedEvent,
}

impl View for Failure {
    type V = FailureView;

    open spec fn view(&self) -> FailureView {
        match *self {
            Failure::MissingBinaryName => FailureView::MissingBinaryName,
            Failure::CleanFailed(output) => FailureView::CleanFailed(output@),
            Failure::BuildFailed { target, output } => FailureView::BuildFailed {
                target: target@,
                output: output@,
            },
            Failure::MetadataFailed(output) => FailureView::MetadataFailed(output@),
            Failure::NotText => FailureView::NotText,
            Failure::VersionNotFound { input } => FailureView::VersionNotFound { input: input@ },
            Failure::RemoveStagingFailed(output) => FailureView::RemoveStagingFailed(output@),
            Failure::MakeStagingFailed(output) => FailureView::MakeStagingFailed(output@),
            Failure::UploadFailed { archive, output } => FailureView::UploadFailed {
                archive: archive@,
                output: output@,
            },
            Failure::Io { message } => FailureView::Io { message: message@ },
            Failure::UnexpectedEvent => FailureView::UnexpectedEvent,
        }
    }
}

impl DeepView for Failure {
    type V = FailureView;

    open spec fn deep_view(&self) -> FailureView {
        self@
    }
}

/// The one-line description of a failure.
pub open spec fn message_of(failure: FailureView) -> Seq<char> {
    match failure {
        FailureView::MissingBinaryName => "Binary Name is a compulsory positional arg"@,
        FailureView::CleanFailed(_) => "cargo clean failed"@,
        FailureView::BuildFailed { target, output } => "cargo build --release --target="@ + target
            + " failed"@,
        FailureView::MetadataFailed(_) => "cargo pkgid failed"@,
        FailureView::NotText => "cargo pkgid contained non-utf8 text"@,
        FailureView::VersionNotFound { input } => "Version not found in "@ + input,
        FailureView::RemoveStagingFailed(_) => "rm -r -f gh-tmp failed"@,
        FailureView::MakeStagingFailed(_) => "mkdir gh-tmp failed"@,
        FailureView::UploadFailed { archive, output } => "gh release upload "@ + archive
            + " failed"@,
        FailureView::Io { message } => message,
        FailureView::UnexpectedEvent => "unexpected event"@,
    }
}

impl Failure {
    /// The one-line description of this failure; see [`message_of`].
    pub fn message(&self) -> (text: String)
        ensures
            text@ == message_of(self@),
    {
        match self {
            Failure::MissingBinaryName => String::from_str(
                "Binary Name is a compulsory positional arg",
            ),
            Failure::CleanFailed(_) => String::from_str("cargo clean failed"),
            Failure::BuildFailed { target, output: _ } => {
                let mut text = String::from_str("cargo build --release --target=");
                text.append(target.as_str());
                text.append(" failed");
                text
            },
            Failure::MetadataFailed(_) => String::from_str("cargo pkgid failed"),
            Failure::NotText => String::from_str("cargo pkgid contained non-utf8 text"),
            Failure::VersionNotFound { input } => {
                let mut text = String::from_str("Version not found in ");
                text.append(input.as_str());
                text
            },
            Failure::RemoveStagingFailed(_) => String::from_str("rm -r -f gh-tmp failed"),
            Failure::MakeStagingFailed(_) => String::from_str("mkdir gh-tmp failed"),
            Failure::UploadFailed { archive, output: _ } => {
                let mut text = String::from_str("gh release upload ");
                text.append(archive.as_str());
                text.append(" failed");
                text
            },
            Failure::Io { message } => message.clone(),
            Failure::UnexpectedEvent => String::from_str("unexpected event"),
        }
    }

    /// What the failed process wrote, for the failures that come from one.
    pub fn output(&self) -> (captured: Option<&Captured>)
        ensures
            captured == match *self {
                Failure::CleanFailed(output) => Some(&output),
                Failure::BuildFailed { target, output } => Some(&output),
                Failure::MetadataFailed(output) => Some(&output),
                Failure::RemoveStagingFailed(output) => Some(&output),
                Failure::MakeStagingFailed(output) => Some(&output),
                Failure::UploadFailed { archive, output } => Some(&output),
                _ => None,
            },
    {
        match self {
            Failure::CleanFailed(output) => Some(output),
            Failure::BuildFailed { target: _, output } => Some(output),
            Failure::MetadataFailed(output) => Some(output),
            Failure::RemoveStagingFailed(output) => Some(output),
            Failure::MakeStagingFailed(output) => Some(output),
            Failure::UploadFailed { archive: _, output } => Some(output),
            _ => None,
        }
    }
}

} // verus!
