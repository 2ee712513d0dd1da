//! A run, as a machine: in each state it waits for the outcome of one
//! action, and the outcome decides the next state.
//!
//! The states and their order:
//!
//! 1. reset the build workspace;
//! 2. build the release binary for each target in turn;
//! 3. ask for the package's identifier and read the version out of it;
//! 4. remove the old staging directory and make a new one;
//! 5. for each target in turn, archive its binary and fingerprint it;
//! 6. create the release (a failure here is tolerated, the release may
//!    exist already);
//! 7. upload each archive in turn;
//! 8. report, remove the staging directory, and stop.
//!
//! Any failure in 1 to 7, but for the one tolerated, takes the run straight
//! to 8. This module holds the machine as mathematics; the module `run`
//! holds the code that follows it, and the module `laws` what is proved of
//! it.
use crate::args::ArgumentsView;
use crate::command::{
    build_command, clean_command, create_release_command, make_staging_command, metadata_command,
    remove_staging_command, upload_command, InvocationView,
};
use crate::digest::is_fingerprint;
use crate::failure::{CapturedView, FailureView};
use crate::naming::{archive_path, binary_path};
use crate::records::{archives, distinct, recorded, RecordView};
use crate::report::report_lines;
use crate::version::resolved_version;
use vstd::prelude::*;

verus! {

/// Where a run stands: the action whose outcome it is waiting for. The
/// number in `Build`, `Archive` and `Digest` is the place of a target, the
/// one in `Upload` the place of a record.
#[derive(Debug, Clone, Copy, PartialEq, Eq, Structural)]
pub enum Phase {
    Clean,
    Build(usize),
    Metadata,
    RemoveStaging,
    MakeStaging,
    Archive(usize),
    Digest(usize),
    CreateRelease,
    Upload(usize),
    Report,
    Cleanup,
    Finished,
    CleanupFailed,
}

/// An outcome, as plain text and bytes.
pub enum EventView {
    /// A process ran and exited.
    Exited { success: bool, output: CapturedView },
    /// An archive was written, or the report was printed.
    Completed,
    /// A file was fingerprinted. A `digest` that has not the shape of a
    /// fingerprint is no answer.
    Digested { digest: Seq<char> },
    /// The operating system refused; `message` is its error.
    Failed { message: Seq<char> },
}

/// An action, as plain text.
pub enum ActionView {
    /// Start the program and wait for it.
    Spawn(InvocationView),
    /// Write the gzip-compressed tar archive `archive` that holds the file
    /// `source` under the name `entry`, and nothing else.
    Archive { source: Seq<char>, archive: Seq<char>, entry: Seq<char> },
    /// Fingerprint the file `path`.
    Digest { path: Seq<char> },
    /// Print the lines.
    Report { lines: Seq<Seq<char>> },
    /// Leave; the run is over.
    Exit,
    /// Leave in alarm; the staging directory could not be removed.
    Fatal { message: Seq<char> },
}

/// The state of a run.
pub struct RunView {
    pub bin_name: Seq<char>,
    pub targets: Seq<Seq<char>>,
    pub phase: Phase,
    /// The version; empty until it has been read.
    pub version: Seq<char>,
    pub records: Seq<RecordView>,
    /// Why the run was given up, if it was.
    pub failure: Option<FailureView>,
    /// What the release tool wrote when it could not create the release.
    pub warning: Option<CapturedView>,
}

/// The state in which a run starts.
pub open spec fn initial(arguments: ArgumentsView) -> RunView {
    RunView {
        bin_name: arguments.bin_name,
        targets: arguments.targets,
        phase: Phase::Clean,
        version: Seq::empty(),
        records: Seq::empty(),
        failure: None,
        warning: None,
    }
}

/// The action whose outcome the run is waiting for.
pub open spec fn pending(s: RunView) -> ActionView {
    match s.phase {
        Phase::Clean => ActionView::Spawn(clean_command()),
        Phase::Build(i) => ActionView::Spawn(build_command(s.targets[i as int])),
        Phase::Metadata => ActionView::Spawn(metadata_command()),
        Phase::RemoveStaging => ActionView::Spawn(remove_staging_command()),
        Phase::MakeStaging => ActionView::Spawn(make_staging_command()),
        Phase::Archive(i) => ActionView::Archive {
            source: binary_path(s.targets[i as int], s.bin_name),
            archive: archive_path(s.bin_name, s.version, s.targets[i as int]),
            entry: s.bin_name,
        },
        Phase::Digest(i) => ActionView::Digest {
            path: binary_path(s.targets[i as int], s.bin_name),
        },
        Phase::CreateRelease => ActionView::Spawn(create_release_command(s.version)),
        Phase::Upload(j) => ActionView::Spawn(
            upload_command(s.version, s.records[j as int].archive),
        ),
        Phase::Report => ActionView::Report { lines: report_lines(s.failure, s.records) },
        Phase::Cleanup => ActionView::Spawn(remove_staging_command()),
        Phase::Finished => ActionView::Exit,
        Phase::CleanupFailed => ActionView::Fatal { message: "Error in cleanup"@ },
    }
}

/// Whether the run is over.
pub open spec fn is_over(s: RunView) -> bool {
    s.phase is Finished || s.phase is CleanupFailed
}

/// The run given up for `failure`: what is left is to report and to clean.
pub open spec fn failed(s: RunView, failure: FailureView) -> RunView {
    RunView { phase: Phase::Report, failure: Some(failure), ..s }
}

/// The run at another phase.
pub open spec fn moved(s: RunView, phase: Phase) -> RunView {
    RunView { phase, ..s }
}

/// The failure that a command's unsuccessful exit means.
pub open spec fn command_failure(s: RunView, output: CapturedView) -> FailureView {
    match s.phase {
        Phase::Clean => FailureView::CleanFailed(output),
        Phase::Build(i) => FailureView::BuildFailed { target: s.targets[i as int], output },
        Phase::Metadata => FailureView::MetadataFailed(output),
        Phase::RemoveStaging => FailureView::RemoveStagingFailed(output),
        Phase::MakeStaging => FailureView::MakeStagingFailed(output),
        Phase::Upload(j) => FailureView::UploadFailed {
            archive: s.records[j as int].archive,
            output,
        },
        _ => FailureView::UnexpectedEvent,
    }
}

/// The phase after the builds: the next build, or the identifier query.
pub open spec fn build_from(s: RunView, i: int) -> Phase {
    if i < s.targets.len() {
        Phase::Build(i as usize)
    } else {
        Phase::Metadata
    }
}

/// The phase after the staging directory was made or a target was done: the
/// next target's archive, or the release.
pub open spec fn archive_from(s: RunView, i: int) -> Phase {
    if i < s.targets.len() {
        Phase::Archive(i as usize)
    } else {
        Phase::CreateRelease
    }
}

/// The phase after the release was created or an archive was uploaded: the
/// next upload, or the report.
pub open spec fn upload_from(s: RunView, j: int) -> Phase {
    if j < s.records.len() {
        Phase::Upload(j as usize)
    } else {
        Phase::Report
    }
}

/// The state after a command whose success is required has succeeded and
/// left `output`.
pub open spec fn succeeded(s: RunView, output: CapturedView) -> RunView {
    match s.phase {
        Phase::Clean => moved(s, build_from(s, 0)),
        Phase::Build(i) => moved(s, build_from(s, i + 1)),
        Phase::Metadata => match resolved_version(output.stdout) {
            Ok(version) => RunView { phase: Phase::RemoveStaging, version, ..s },
            Err(failure) => failed(s, failure),
        },
        Phase::RemoveStaging => moved(s, Phase::MakeStaging),
        Phase::MakeStaging => moved(s, archive_from(s, 0)),
        Phase::Upload(j) => moved(s, upload_from(s, j + 1)),
        _ => s,
    }
}

/// The state after the outcome `e` of the pending action.
pub open spec fn step(s: RunView, e: EventView) -> RunView {
    match s.phase {
        Phase::Finished | Phase::CleanupFailed => s,
        Phase::Report => moved(s, Phase::Cleanup),
        Phase::Cleanup => match e {
            EventView::Exited { success: true, output } => moved(s, Phase::Finished),
            _ => moved(s, Phase::CleanupFailed),
        },
        Phase::Archive(i) => match e {
            EventView::Completed => moved(s, Phase::Digest(i)),
            EventView::Failed { message } => failed(s, FailureView::Io { message }),
            _ => failed(s, FailureView::UnexpectedEvent),
        },
        Phase::Digest(i) => match e {
            EventView::Digested { digest } => if is_fingerprint(digest) {
                RunView {
                    phase: archive_from(s, i + 1),
                    records: recorded(
                        s.records,
                        archive_path(s.bin_name, s.version, s.targets[i as int]),
                        digest,
                    ),
                    ..s
                }
            } else {
                failed(s, FailureView::UnexpectedEvent)
            },
            EventView::Failed { message } => failed(s, FailureView::Io { message }),
            _ => failed(s, FailureView::UnexpectedEvent),
        },
        Phase::CreateRelease => match e {
            EventView::Exited { success, output } => RunView {
                phase: upload_from(s, 0),
                warning: if success {
                    None
                } else {
                    Some(output)
                },
                ..s
            },
            EventView::Failed { message } => failed(s, FailureView::Io { message }),
            _ => failed(s, FailureView::UnexpectedEvent),
        },
        _ => match e {
            EventView::Exited { success, output } => if success {
                succeeded(s, output)
            } else {
                failed(s, command_failure(s, output))
            },
            EventView::Failed { message } => failed(s, FailureView::Io { message }),
            _ => failed(s, FailureView::UnexpectedEvent),
        },
    }
}

/// The archive paths of the first `count` targets.
pub open spec fn archive_paths(s: RunView, count: int) -> Seq<Seq<char>> {
    s.targets.take(count).map_values(|t: Seq<char>| archive_path(s.bin_name, s.version, t))
}

/// The first `count` targets are archived: the version is known, and the
/// records are for the archives of those targets, one for each distinct
/// target, in the order in which the targets first occur.
pub open spec fn packed(s: RunView, count: int) -> bool {
    &&& s.version.len() > 0
    &&& archives(s.records) == distinct(archive_paths(s, count))
}

/// Whether everything asked for was done: the run is past the uploads and
/// was not given up.
pub open spec fn is_success(s: RunView) -> bool {
    &&& s.failure is None
    &&& (s.phase is Report || s.phase is Cleanup || s.phase is Finished || s.phase
        is CleanupFailed)
}

/// What holds of every state that a run can reach.
pub open spec fn inv(s: RunView) -> bool {
    &&& archives(s.records).no_duplicates()
    &&& s.records.len() <= s.targets.len() <= usize::MAX
    &&& forall|j: int| 0 <= j < s.records.len() ==> is_fingerprint((#[trigger] s.records[j]).digest)
    &&& match s.phase {
        Phase::Clean | Phase::Metadata => s.records.len() == 0 && s.failure is None,
        Phase::Build(i) => i < s.targets.len() && s.records.len() == 0 && s.failure is None,
        Phase::RemoveStaging | Phase::MakeStaging => packed(s, 0) && s.failure is None,
        Phase::Archive(i) | Phase::Digest(i) => i < s.targets.len() && packed(s, i as int)
            && s.failure is None,
        Phase::CreateRelease => packed(s, s.targets.len() as int) && s.failure is None,
        Phase::Upload(j) => j < s.records.len() && packed(s, s.targets.len() as int)
            && s.failure is None,
        Phase::Report | Phase::Cleanup | Phase::Finished | Phase::CleanupFailed => s.failure
            is None ==> packed(s, s.targets.len() as int),
    }
}

} // verus!
