//! What is proved of the machine in the module `model`.
use crate::args::ArgumentsView;
use crate::command::remove_staging_command;
use crate::digest::is_fingerprint;
use crate::failure::{message_of, CapturedView, FailureView};
use crate::model::{
    archive_paths, failed, initial, inv, is_over, is_success, packed, pending, step, upload_from,
    ActionView, EventView, Phase, RunView,
};
use crate::naming::{archive_path, lemma_archive_path_injective};
use crate::records::{
    archives, distinct, lemma_distinct, lemma_distinct_map, lemma_recorded_archives,
    lemma_recorded_items, recorded,
};
use crate::version::lemma_resolved_version_is_not_empty;
use vstd::prelude::*;

verus! {

/// A run starts in a state that the invariant holds of. (The targets are
/// as many as a list in memory can hold.)
pub proof fn lemma_initial_inv(arguments: ArgumentsView)
    requires
        arguments.targets.len() <= usize::MAX,
    ensures
        inv(initial(arguments)),
{
}

/// No target archived yet means no record yet.
proof fn lemma_packed_none(s: RunView)
    requires
        s.records.len() == 0,
        s.version.len() > 0,
    ensures
        packed(s, 0),
{
    assert(archive_paths(s, 0) =~= Seq::<Seq<char>>::empty());
    assert(archives(s.records) =~= Seq::<Seq<char>>::empty());
}

/// Recording the archive of the next target keeps the records in step with
/// the targets.
proof fn lemma_packed_next(s: RunView, i: int, digest: Seq<char>)
    requires
        0 <= i < s.targets.len(),
        packed(s, i),
    ensures
        packed(
            RunView {
                records: recorded(
                    s.records,
                    archive_path(s.bin_name, s.version, s.targets[i]),
                    digest,
                ),
                ..s
            },
            i + 1,
        ),
        recorded(s.records, archive_path(s.bin_name, s.version, s.targets[i]), digest).len()
            <= i + 1,
        archives(
            recorded(s.records, archive_path(s.bin_name, s.version, s.targets[i]), digest),
        ).no_duplicates(),
{
    let path = archive_path(s.bin_name, s.version, s.targets[i]);
    let after = RunView { records: recorded(s.records, path, digest), ..s };
    lemma_recorded_archives(s.records, path, digest);
    let before_paths = archive_paths(s, i);
    let after_paths = archive_paths(after, i + 1);
    assert(after_paths.drop_last() =~= before_paths);
    lemma_distinct(after_paths);
}

/// Each step keeps the invariant.
pub proof fn lemma_step_keeps_inv(s: RunView, e: EventView)
    requires
        inv(s),
    ensures
        inv(step(s, e)),
{
    match s.phase {
        Phase::Metadata => {
            if step(s, e).phase is RemoveStaging {
                lemma_resolved_version_is_not_empty(e->output.stdout);
                lemma_packed_none(step(s, e));
            }
        },
        Phase::Digest(i) => {
            if let EventView::Digested { digest } = e {
                lemma_packed_next(s, i as int, digest);
                lemma_recorded_items(
                    s.records,
                    archive_path(s.bin_name, s.version, s.targets[i as int]),
                    digest,
                );
            }
        },
        _ => {},
    }
}

/// A step changes little: the binary and the targets stay, the version
/// changes only when it is read, the records change only when a file has
/// been fingerprinted, and a run that was given up stays given up for the
/// same reason.
pub proof fn lemma_step_frame(s: RunView, e: EventView)
    requires
        inv(s),
    ensures
        step(s, e).bin_name == s.bin_name,
        step(s, e).targets == s.targets,
        !(s.phase is Metadata) ==> step(s, e).version == s.version,
        !(s.phase is Digest) ==> step(s, e).records == s.records,
        s.failure is Some ==> step(s, e).failure == s.failure,
{
}

/// A run that did everything has as many records as there are distinct
/// targets.
pub proof fn lemma_one_record_per_distinct_target(s: RunView)
    requires
        inv(s),
        is_success(s),
    ensures
        s.records.len() == s.targets.to_set().len(),
{
    let path = |t: Seq<char>| archive_path(s.bin_name, s.version, t);
    assert forall|x: Seq<char>, y: Seq<char>| #[trigger] path(x) == #[trigger] path(y) implies x
        == y by {
        lemma_archive_path_injective(s.bin_name, s.version, x, y);
    }
    assert(s.targets.take(s.targets.len() as int) =~= s.targets);
    lemma_distinct_map(s.targets, path);
    lemma_distinct(s.targets);
    assert(archives(s.records).len() == s.records.len());
}

/// Once all targets are archived, every record is for the archive of one of
/// the targets, at the path that the naming template gives it.
pub proof fn lemma_record_follows_template(s: RunView, j: int)
    requires
        inv(s),
        packed(s, s.targets.len() as int),
        0 <= j < s.records.len(),
    ensures
        exists|k: int|
            0 <= k < s.targets.len() && s.records[j].archive == archive_path(
                s.bin_name,
                s.version,
                #[trigger] s.targets[k],
            ),
{
    let paths = archive_paths(s, s.targets.len() as int);
    lemma_distinct(paths);
    let archive = archives(s.records)[j];
    assert(distinct(paths).to_set().contains(archive));
    assert(paths.contains(archive));
}

/// Once all targets are archived, every target has its record.
pub proof fn lemma_target_has_record(s: RunView, k: int)
    requires
        inv(s),
        packed(s, s.targets.len() as int),
        0 <= k < s.targets.len(),
    ensures
        exists|j: int|
            0 <= j < s.records.len() && (#[trigger] s.records[j]).archive == archive_path(
                s.bin_name,
                s.version,
                s.targets[k],
            ),
{
    let paths = archive_paths(s, s.targets.len() as int);
    lemma_distinct(paths);
    let archive = archive_path(s.bin_name, s.version, s.targets[k]);
    assert(paths[k] == archive);
    assert(paths.to_set().contains(archive));
    assert(distinct(paths).contains(archive));
}

/// The archive that a run asks for is at the path that the naming template
/// gives: `gh-tmp/<bin_name>-<version>-<target>.tar.gz`, and it holds the
/// binary under its own name.
pub proof fn lemma_archive_follows_template(s: RunView, i: usize)
    requires
        s.phase == Phase::Archive(i),
    ensures
        pending(s) == (ActionView::Archive {
            source: "target/"@ + s.targets[i as int] + "/release/"@ + s.bin_name,
            archive: "gh-tmp"@ + "/"@ + s.bin_name + "-"@ + s.version + "-"@ + s.targets[i as int]
                + ".tar.gz"@,
            entry: s.bin_name,
        }),
{
}

/// When the release cannot be created the run goes on as if it had been:
/// nothing is given up, the records stay, and the uploads follow. What the
/// release tool wrote is kept as a warning.
pub proof fn lemma_release_failure_is_tolerated(s: RunView, output: CapturedView)
    requires
        inv(s),
        s.phase is CreateRelease,
    ensures
        ({
            let t = step(s, EventView::Exited { success: false, output });
            &&& t.failure is None
            &&& t.warning == Some(output)
            &&& t.records == s.records
            &&& t.version == s.version
            &&& t.phase == upload_from(s, 0)
            &&& t.phase == step(s, EventView::Exited { success: true, output }).phase
        }),
{
}

/// A failed upload ends the run's work at once: the failure names the
/// archive, and what follows is the report.
pub proof fn lemma_upload_failure_is_fatal(s: RunView, j: usize, output: CapturedView)
    requires
        inv(s),
        s.phase == Phase::Upload(j),
    ensures
        step(s, EventView::Exited { success: false, output }) == failed(
            s,
            FailureView::UploadFailed { archive: s.records[j as int].archive, output },
        ),
{
}

/// What a run that did everything prints: two lines for each record, the
/// first with the archive's path, the second with its fingerprint, which is
/// 64 characters of lowercase hexadecimal.
pub proof fn lemma_report_of_success(s: RunView, j: int)
    requires
        inv(s),
        s.phase is Report,
        s.failure is None,
        0 <= j < s.records.len(),
    ensures
        pending(s) is Report,
        pending(s)->lines.len() == 2 * s.records.len(),
        pending(s)->lines[2 * j] == "url "@ + s.records[j].archive,
        pending(s)->lines[2 * j + 1] == "sha256 "@ + s.records[j].digest,
        is_fingerprint(s.records[j].digest),
{
}

/// What a run that was given up prints: one line that tells why.
pub proof fn lemma_report_of_failure(s: RunView)
    requires
        s.phase is Report,
        s.failure is Some,
    ensures
        pending(s) == (ActionView::Report {
            lines: seq!["Aborting: Error, "@ + message_of(s.failure->0)],
        }),
{
}

/// A run that has been given up is past its work: it reports, cleans or is
/// over.
pub proof fn lemma_failure_ends_work(s: RunView)
    requires
        inv(s),
        s.failure is Some,
    ensures
        s.phase is Report || s.phase is Cleanup || is_over(s),
{
}

/// After the report the staging directory is removed, whatever the report's
/// outcome and whether or not the run had been given up.
pub proof fn lemma_report_then_cleanup(s: RunView, e: EventView)
    requires
        s.phase is Report,
    ensures
        step(s, e).phase is Cleanup,
        pending(step(s, e)) == ActionView::Spawn(remove_staging_command()),
{
}

/// A run comes to its end only from the removal of the staging directory,
/// and it ends well exactly when the removal succeeded.
pub proof fn lemma_over_only_after_cleanup(s: RunView, e: EventView)
    requires
        !is_over(s),
        is_over(step(s, e)),
    ensures
        s.phase is Cleanup,
        pending(s) == ActionView::Spawn(remove_staging_command()),
        step(s, e).phase is Finished <==> (e is Exited && e->success),
{
}

/// An upper bound on the number of steps that a run still takes.
pub open spec fn steps_left(s: RunView) -> nat {
    let n = s.targets.len();
    match s.phase {
        Phase::Finished | Phase::CleanupFailed => 0,
        Phase::Cleanup => 1,
        Phase::Report => 2,
        Phase::Upload(j) => (2 + n - j) as nat,
        Phase::CreateRelease => 3 + n,
        Phase::Digest(i) => (3 + n + 2 * (n - i)) as nat,
        Phase::Archive(i) => (4 + n + 2 * (n - i)) as nat,
        Phase::MakeStaging => 5 + 3 * n,
        Phase::RemoveStaging => 6 + 3 * n,
        Phase::Metadata => 7 + 3 * n,
        Phase::Build(i) => (8 + 4 * n - i) as nat,
        Phase::Clean => 9 + 4 * n,
    }
}

/// Every step brings a run nearer to its end: a run of `n` targets is over
/// after at most `4 * n + 9` steps, whatever the outcomes are.
pub proof fn lemma_steps_left_decreases(s: RunView, e: EventView)
    requires
        inv(s),
        !is_over(s),
    ensures
        steps_left(step(s, e)) < steps_left(s),
        steps_left(s) <= 4 * s.targets.len() + 9,
{
}

/// A run is over exactly when no step is left.
pub proof fn lemma_no_steps_left(s: RunView)
    requires
        inv(s),
    ensures
        steps_left(s) == 0 <==> is_over(s),
{
}

/// The state after a row of outcomes, each answering the action that was
/// pending when it came.
pub open spec fn after(s: RunView, events: Seq<EventView>) -> RunView
    decreases events.len(),
{
    if events.len() == 0 {
        s
    } else {
        step(after(s, events.drop_last()), events.last())
    }
}

/// Whatever the outcomes are, the run stays in a state that the invariant
/// holds of, and it stays the run of the same binary for the same targets.
pub proof fn lemma_after_keeps_inv(s: RunView, events: Seq<EventView>)
    requires
        inv(s),
    ensures
        inv(after(s, events)),
        after(s, events).bin_name == s.bin_name,
        after(s, events).targets == s.targets,
    decreases events.len(),
{
    if events.len() > 0 {
        lemma_after_keeps_inv(s, events.drop_last());
        lemma_step_keeps_inv(after(s, events.drop_last()), events.last());
    }
}

/// Whatever the outcomes are, each of them brings the run nearer to its
/// end, and a run that is over stays over.
pub proof fn lemma_after_steps_left(s: RunView, events: Seq<EventView>)
    requires
        inv(s),
    ensures
        steps_left(after(s, events)) + events.len() <= steps_left(s) || is_over(after(s, events)),
    decreases events.len(),
{
    if events.len() > 0 {
        let before = after(s, events.drop_last());
        lemma_after_keeps_inv(s, events.drop_last());
        lemma_after_steps_left(s, events.drop_last());
        if !is_over(before) {
            lemma_steps_left_decreases(before, events.last());
        }
    }
}

/// Every run ends: a run of `n` targets is over after `4 * n + 9` outcomes,
/// whatever they are.
pub proof fn lemma_every_run_ends(arguments: ArgumentsView, events: Seq<EventView>)
    requires
        arguments.targets.len() <= usize::MAX,
        events.len() >= 4 * arguments.targets.len() + 9,
    ensures
        is_over(after(initial(arguments), events)),
{
    lemma_initial_inv(arguments);
    lemma_after_keeps_inv(initial(arguments), events);
    lemma_after_steps_left(initial(arguments), events);
    lemma_no_steps_left(after(initial(arguments), events));
}

/// No run ends without having asked for the staging directory to be removed:
/// whatever the outcomes were that took a run to its end, at some point
/// before the end the removal was the pending action. This holds of runs
/// that did all their work and of runs that were given up alike.
pub proof fn lemma_cleanup_before_the_end(arguments: ArgumentsView, events: Seq<EventView>)
    requires
        is_over(after(initial(arguments), events)),
    ensures
        exists|k: int|
            0 <= k < events.len() && (#[trigger] after(initial(arguments), events.take(k))).phase
                is Cleanup && pending(after(initial(arguments), events.take(k)))
                == ActionView::Spawn(remove_staging_command()),
    decreases events.len(),
{
    let start = initial(arguments);
    if events.len() > 0 {
        let shorter = events.drop_last();
        let before = after(start, shorter);
        if is_over(before) {
            lemma_cleanup_before_the_end(arguments, shorter);
            let k = choose|k: int|
                0 <= k < shorter.len() && (#[trigger] after(start, shorter.take(k))).phase
                    is Cleanup && pending(after(start, shorter.take(k))) == ActionView::Spawn(
                    remove_staging_command(),
                );
            assert(shorter.take(k) =~= events.take(k));
        } else {
            lemma_over_only_after_cleanup(before, events.last());
            assert(events.take(events.len() - 1) =~= shorter);
        }
    }
}

/// A run that did everything it was asked to do has one record for each
/// distinct target that it was given, whatever the outcomes were that took
/// it there.
pub proof fn lemma_successful_run_records(arguments: ArgumentsView, events: Seq<EventView>)
    requires
        arguments.targets.len() <= usize::MAX,
        is_success(after(initial(arguments), events)),
    ensures
        after(initial(arguments), events).records.len() == arguments.targets.to_set().len(),
{
    lemma_initial_inv(arguments);
    lemma_after_keeps_inv(initial(arguments), events);
    lemma_one_record_per_distinct_target(after(initial(arguments), events));
}

} // verus!
