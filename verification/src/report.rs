//! What a run prints when it is over.
use crate::failure::{message_of, Failure, FailureView};
use crate::records::{RecordView, Records};
use crate::text::texts;
use vstd::prelude::*;

verus! {

/// The line that tells of a failed run.
pub open spec fn abort_line(failure: FailureView) -> Seq<char> {
    "Aborting: Error, "@ + message_of(failure)
}

/// The two lines for each archive, in the order of the records: `url` and
/// the archive's path, then `sha256` and its fingerprint.
pub open spec fn record_lines(records: Seq<RecordView>) -> Seq<Seq<char>> {
    Seq::new(
        2 * records.len(),
        |i: int|
            if i % 2 == 0 {
                "url "@ + records[i / 2].archive
            } else {
                "sha256 "@ + records[i / 2].digest
            },
    )
}

/// The lines that a run prints: one line for a failure, else the lines of
/// the records.
pub open spec fn report_lines(failure: Option<FailureView>, records: Seq<RecordView>) -> Seq<
    Seq<char>,
> {
    match failure {
        Some(failure) => seq![abort_line(failure)],
        None => record_lines(records),
    }
}

/// The line that tells of a failed run; see [`abort_line`].
pub fn abort_line_of(failure: &Failure) -> (line: String)
    ensures
        line@ == abort_line(failure@),
{
    let mut line = String::from_str("Aborting: Error, ");
    let message = failure.message();
    line.append(message.as_str());
    line
}

/// The lines for the records; see [`record_lines`].
pub fn lines_of_records(records: &Records) -> (lines: Vec<String>)
    ensures
        texts(lines@) == record_lines(records@),
{
    let mut lines: Vec<String> = Vec::new();
    let mut at: usize = 0;
    while at < records.len()
        invariant
            at <= records@.len(),
            lines@.len() == 2 * at,
            texts(lines@) == record_lines(records@).take(2 * at),
        decreases records@.len() - at,
    {
        let record = records.get(at);
        let mut url = String::from_str("url ");
        url.append(record.archive.as_str());
        let mut sha = String::from_str("sha256 ");
        sha.append(record.digest.as_str());
        lines.push(url);
        lines.push(sha);
        at = at + 1;
    }
    lines
}

/// The lines that a run prints; see [`report_lines`].
pub fn report(failure: &Option<Failure>, records: &Records) -> (lines: Vec<String>)
    ensures
        texts(lines@) == report_lines(failure.deep_view(), records@),
{
    match failure {
        Some(failure) => {
            let mut lines: Vec<String> = Vec::new();
            lines.push(abort_line_of(failure));
            lines
        },
        None => lines_of_records(records),
    }
}

} // verus!
