//! A run in progress: the code that follows the machine of the module
//! `model`.
//!
//! A [`Run`] never does anything by itself. It names the next [`Action`],
//! the caller carries it out and hands back what came of it as an [`Event`]:
//!
//! ```text
//! let mut run = Run::new(arguments);
//! while !run.is_over() {
//!     let event = perform(run.action());
//!     run.advance(event);
//! }
//! ```
use crate::args::Arguments;
use crate::command::{
    build, clean, create_release, make_staging, metadata, remove_staging, upload, Invocation,
};
use crate::digest::is_fingerprint_text;
use crate::failure::{Captured, Failure};
use crate::laws::{lemma_initial_inv, lemma_step_keeps_inv};
use crate::model::{
    archive_from, build_from, command_failure, failed, initial, inv, is_over, pending, step,
    succeeded, upload_from, ActionView, EventView, Phase, RunView,
};
use crate::naming::{archive_path_of, binary_path_of};
use crate::records::Records;
use crate::report::report;
use crate::text::texts;
use crate::version::resolve_version;
use vstd::prelude::*;

verus! {

/// What came of an action.
#[derive(Debug, Clone, PartialEq, Eq)]
pub enum Event {
    /// The process ran and exited; `success` is its exit status.
    Exited { success: bool, output: Captured },
    /// The archive was written, or the report was printed.
    Completed,
    /// The file was fingerprinted. A `digest` that has not the shape of a
    /// fingerprint, 64 characters of lowercase hexadecimal, is no answer.
    Digested { digest: String },
    /// The operating system refused; `message` is its error.
    Failed { message: String },
}

impl View for Event {
    type V = EventView;

    open spec fn view(&self) -> EventView {
        match *self {
            Event::Exited { success, output } => EventView::Exited { success, output: output@ },
            Event::Completed => EventView::Completed,
            Event::Digested { digest } => EventView::Digested { digest: digest@ },
            Event::Failed { message } => EventView::Failed { message: message@ },
        }
    }
}

/// What the caller is to do next.
#[derive(Debug, Clone, PartialEq, Eq)]
pub enum Action {
    /// Start the program, wait for it, and answer with [`Event::Exited`];
    /// with [`Event::Failed`] if it could not be started.
    Spawn(Invocation),
    /// Write the gzip-compressed tar archive `archive` that holds the file
    /// `source` under the name `entry`, and answer with
    /// [`Event::Completed`] or [`Event::Failed`].
    Archive { source: String, archive: String, entry: String },
    /// Fingerprint the file `path` and answer with [`Event::Digested`] or
    /// [`Event::Failed`].
    Digest { path: String },
    /// Print the lines and answer with [`Event::Completed`].
    Report { lines: Vec<String> },
    /// Leave with exit status zero; the run is over.
    Exit,
    /// Panic with `message`; the staging directory could not be removed.
    Fatal { message: String },
}

impl View for Action {
    type V = ActionView;

    open spec fn view(&self) -> ActionView {
        match *self {
            Action::Spawn(invocation) => ActionView::Spawn(invocation@),
            Action::Archive { source, archive, entry } => ActionView::Archive {
                source: source@,
                archive: archive@,
                entry: entry@,
            },
            Action::Digest { path } => ActionView::Digest { path: path@ },
            Action::Report { lines } => ActionView::Report { lines: texts(lines@) },
            Action::Exit => ActionView::Exit,
            Action::Fatal { message } => ActionView::Fatal { message: message@ },
        }
    }
}

/// A run in progress.
pub struct Run {
    bin_name: String,
    targets: Vec<String>,
    phase: Phase,
    version: String,
    records: Records,
    failure: Option<Failure>,
    warning: Option<Captured>,
}

impl View for Run {
    type V = RunView;

    closed spec fn view(&self) -> RunView {
        RunView {
            bin_name: self.bin_name@,
            targets: texts(self.targets@),
            phase: self.phase,
            version: self.version@,
            records: self.records@,
            failure: self.failure.deep_view(),
            warning: self.warning.deep_view(),
        }
    }
}

impl Run {
    /// The run is in a state that a run can reach.
    pub open spec fn wf(&self) -> bool {
        inv(self@)
    }

    /// A run that is about to start.
    pub fn new(arguments: Arguments) -> (run: Run)
        ensures
            run.wf(),
            run@ == initial(arguments@),
    {
        proof {
            assert(arguments@.targets.len() == arguments.targets.len());
            lemma_initial_inv(arguments@);
        }
        Run {
            bin_name: arguments.bin_name,
            targets: arguments.targets,
            phase: Phase::Clean,
            version: String::new(),
            records: Records::new(),
            failure: None,
            warning: None,
        }
    }

    /// Where the run stands.
    pub fn phase(&self) -> (phase: Phase)
        ensures
            phase == self@.phase,
    {
        self.phase
    }

    /// Whether the run is over.
    pub fn is_over(&self) -> (over: bool)
        ensures
            over == is_over(self@),
    {
        match self.phase {
            Phase::Finished | Phase::CleanupFailed => true,
            _ => false,
        }
    }

    /// The name of the binary.
    pub fn bin_name(&self) -> (name: &str)
        ensures
            name@ == self@.bin_name,
    {
        self.bin_name.as_str()
    }

    /// The targets, in the order given.
    pub fn targets(&self) -> (targets: &[String])
        ensures
            texts(targets@) == self@.targets,
    {
        self.targets.as_slice()
    }

    /// The version; empty until it has been read.
    pub fn version(&self) -> (version: &str)
        ensures
            version@ == self@.version,
    {
        self.version.as_str()
    }

    /// The archives made so far, with their fingerprints.
    pub fn records(&self) -> (records: &Records)
        ensures
            records@ == self@.records,
    {
        &self.records
    }

    /// Why the run was given up, if it was.
    pub fn failure(&self) -> (failure: &Option<Failure>)
        ensures
            failure.deep_view() == self@.failure,
    {
        &self.failure
    }

    /// What the release tool wrote when it could not create the release;
    /// the release may have existed already.
    pub fn warning(&self) -> (warning: &Option<Captured>)
        ensures
            warning.deep_view() == self@.warning,
    {
        &self.warning
    }

    /// The action whose outcome the run is waiting for.
    pub fn action(&self) -> (action: Action)
        requires
            self.wf(),
        ensures
            action@ == pending(self@),
    {
        match self.phase {
            Phase::Clean => Action::Spawn(clean()),
            Phase::Build(i) => Action::Spawn(build(self.targets[i].as_str())),
            Phase::Metadata => Action::Spawn(metadata()),
            Phase::RemoveStaging => Action::Spawn(remove_staging()),
            Phase::MakeStaging => Action::Spawn(make_staging()),
            Phase::Archive(i) => Action::Archive {
                source: binary_path_of(self.targets[i].as_str(), self.bin_name.as_str()),
                archive: archive_path_of(
                    self.bin_name.as_str(),
                    self.version.as_str(),
                    self.targets[i].as_str(),
                ),
                entry: self.bin_name.clone(),
            },
            Phase::Digest(i) => Action::Digest {
                path: binary_path_of(self.targets[i].as_str(), self.bin_name.as_str()),
            },
            Phase::CreateRelease => Action::Spawn(create_release(self.version.as_str())),
            Phase::Upload(j) => Action::Spawn(
                upload(self.version.as_str(), self.records.get(j).archive.as_str()),
            ),
            Phase::Report => Action::Report { lines: report(&self.failure, &self.records) },
            Phase::Cleanup => Action::Spawn(remove_staging()),
            Phase::Finished => Action::Exit,
            Phase::CleanupFailed => Action::Fatal { message: String::from_str("Error in cleanup") },
        }
    }

    /// Gives the run up for `failure`.
    fn fail(&mut self, failure: Failure)
        ensures
            final(self)@ == failed(old(self)@, failure@),
    {
        self.failure = Some(failure);
        self.phase = Phase::Report;
    }

    /// The failure that the pending command's unsuccessful exit means.
    fn command_failure(&self, output: Captured) -> (failure: Failure)
        requires
            self.wf(),
        ensures
            failure@ == command_failure(self@, output@),
    {
        match self.phase {
            Phase::Clean => Failure::CleanFailed(output),
            Phase::Build(i) => Failure::BuildFailed { target: self.targets[i].clone(), output },
            Phase::Metadata => Failure::MetadataFailed(output),
            Phase::RemoveStaging => Failure::RemoveStagingFailed(output),
            Phase::MakeStaging => Failure::MakeStagingFailed(output),
            Phase::Upload(j) => Failure::UploadFailed {
                archive: self.records.get(j).archive.clone(),
                output,
            },
            _ => Failure::UnexpectedEvent,
        }
    }

    /// The phase from the build of target `i` on.
    fn build_from(&self, i: usize) -> (phase: Phase)
        ensures
            phase == build_from(self@, i as int),
    {
        if i < self.targets.len() {
            Phase::Build(i)
        } else {
            Phase::Metadata
        }
    }

    /// The phase from the archive of target `i` on.
    fn archive_from(&self, i: usize) -> (phase: Phase)
        ensures
            phase == archive_from(self@, i as int),
    {
        if i < self.targets.len() {
            Phase::Archive(i)
        } else {
            Phase::CreateRelease
        }
    }

    /// The phase from the upload of record `j` on.
    fn upload_from(&self, j: usize) -> (phase: Phase)
        ensures
            phase == upload_from(self@, j as int),
    {
        if j < self.records.len() {
            Phase::Upload(j)
        } else {
            Phase::Report
        }
    }

    /// Goes on after a command whose success is required has succeeded.
    fn succeed(&mut self, output: Captured)
        requires
            old(self).wf(),
        ensures
            final(self)@ == succeeded(old(self)@, output@),
    {
        match self.phase {
            Phase::Clean => {
                self.phase = self.build_from(0);
            },
            Phase::Build(i) => {
                self.phase = self.build_from(i + 1);
            },
            Phase::Metadata => match resolve_version(output.stdout) {
                Ok(version) => {
                    self.version = version;
                    self.phase = Phase::RemoveStaging;
                },
                Err(failure) => {
                    self.fail(failure);
                },
            },
            Phase::RemoveStaging => {
                self.phase = Phase::MakeStaging;
            },
            Phase::MakeStaging => {
                self.phase = self.archive_from(0);
            },
            Phase::Upload(j) => {
                self.phase = self.upload_from(j + 1);
            },
            _ => {},
        }
    }

    /// Takes in the outcome of the pending action and moves to the next
    /// state; see [`step`].
    pub fn advance(&mut self, event: Event)
        requires
            old(self).wf(),
        ensures
            final(self).wf(),
            final(self)@ == step(old(self)@, event@),
    {
        proof {
            lemma_step_keeps_inv(self@, event@);
        }
        match self.phase {
            Phase::Finished | Phase::CleanupFailed => {},
            Phase::Report => {
                self.phase = Phase::Cleanup;
            },
            Phase::Cleanup => match event {
                Event::Exited { success: true, output: _ } => {
                    self.phase = Phase::Finished;
                },
                _ => {
                    self.phase = Phase::CleanupFailed;
                },
            },
            Phase::Archive(i) => match event {
                Event::Completed => {
                    self.phase = Phase::Digest(i);
                },
                Event::Failed { message } => {
                    self.fail(Failure::Io { message });
                },
                _ => {
                    self.fail(Failure::UnexpectedEvent);
                },
            },
            Phase::Digest(i) => match event {
                Event::Digested { digest } => if !is_fingerprint_text(digest.as_str()) {
                    self.fail(Failure::UnexpectedEvent);
                } else {
                    let archive = archive_path_of(
                        self.bin_name.as_str(),
                        self.version.as_str(),
                        self.targets[i].as_str(),
                    );
                    self.records.insert(archive, digest);
                    self.phase = self.archive_from(i + 1);
                },
                Event::Failed { message } => {
                    self.fail(Failure::Io { message });
                },
                _ => {
                    self.fail(Failure::UnexpectedEvent);
                },
            },
            Phase::CreateRelease => match event {
                Event::Exited { success, output } => {
                    self.warning = if success {
                        None
                    } else {
                        Some(output)
                    };
                    self.phase = self.upload_from(0);
                },
                Event::Failed { message } => {
                    self.fail(Failure::Io { message });
                },
                _ => {
                    self.fail(Failure::UnexpectedEvent);
                },
            },
            _ => match event {
                Event::Exited { success, output } => {
                    if success {
                        self.succeed(output);
                    } else {
                        let failure = self.command_failure(output);
                        self.fail(failure);
                    }
                },
                Event::Failed { message } => {
                    self.fail(Failure::Io { message });
                },
                _ => {
                    self.fail(Failure::UnexpectedEvent);
                },
            },
        }
    }
}

} // verus!
