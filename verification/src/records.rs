//! The archives of a run and their fingerprints, in the order in which the
//! archives were first made.
//!
//! The collection behaves as a map from archive path to fingerprint: a path
//! occurs at most once, and recording a path again replaces its fingerprint
//! and leaves its place unchanged.
use crate::text::same_text;
use vstd::prelude::*;

verus! {

/// An archive and the fingerprint that goes with it.
#[derive(Debug, Clone, PartialEq, Eq)]
pub struct ArchiveRecord {
    pub archive: String,
    pub digest: String,
}

/// An [`ArchiveRecord`] as plain text.
pub struct RecordView {
    pub archive: Seq<char>,
    pub digest: Seq<char>,
}

impl View for ArchiveRecord {
    type V = RecordView;

    open spec fn view(&self) -> RecordView {
        RecordView { archive: self.archive@, digest: self.digest@ }
    }
}

/// The archive paths of `records`, in order.
pub open spec fn archives(records: Seq<RecordView>) -> Seq<Seq<char>> {
    records.map_values(|r: RecordView| r.archive)
}

/// The place of `archive` in `records`, or their number when it is not
/// among them.
pub open spec fn place_of(records: Seq<RecordView>, archive: Seq<char>, from: int) -> int
    decreases records.len() - from,
{
    if from < 0 || from >= records.len() {
        records.len() as int
    } else if records[from].archive == archive {
        from
    } else {
        place_of(records, archive, from + 1)
    }
}

/// `records` after `archive` was recorded with `digest`: replaced where it
/// stood, else added at the end.
pub open spec fn recorded(records: Seq<RecordView>, archive: Seq<char>, digest: Seq<char>) -> Seq<
    RecordView,
> {
    let at = place_of(records, archive, 0);
    if at < records.len() {
        records.update(at, RecordView { archive, digest })
    } else {
        records.push(RecordView { archive, digest })
    }
}

/// `items` without repetitions: of equal items the first stays.
pub open spec fn distinct<A>(items: Seq<A>) -> Seq<A>
    decreases items.len(),
{
    if items.len() == 0 {
        items
    } else if distinct(items.drop_last()).contains(items.last()) {
        distinct(items.drop_last())
    } else {
        distinct(items.drop_last()).push(items.last())
    }
}

/// What [`place_of`] returns lies between `from` and the end, no record
/// before it is for `archive`, and unless it is the end the record there is.
pub proof fn lemma_place_of(records: Seq<RecordView>, archive: Seq<char>, from: int)
    requires
        0 <= from <= records.len(),
    ensures
        from <= place_of(records, archive, from) <= records.len(),
        forall|k: int|
            from <= k < place_of(records, archive, from) ==> (#[trigger] records[k]).archive
                != archive,
        place_of(records, archive, from) < records.len() ==> records[place_of(
            records,
            archive,
            from,
        )].archive == archive,
    decreases records.len() - from,
{
    if from < records.len() && records[from].archive != archive {
        lemma_place_of(records, archive, from + 1);
    }
}

/// Recording an archive leaves the paths as they were when the archive was
/// among them, and adds it at the end when it was not.
pub proof fn lemma_recorded_archives(
    records: Seq<RecordView>,
    archive: Seq<char>,
    digest: Seq<char>,
)
    ensures
        archives(recorded(records, archive, digest)) == if archives(records).contains(archive) {
            archives(records)
        } else {
            archives(records).push(archive)
        },
{
    lemma_place_of(records, archive, 0);
    let at = place_of(records, archive, 0);
    let after = recorded(records, archive, digest);
    if at < records.len() {
        assert(archives(records)[at] == archive);
        assert(archives(after) =~= archives(records));
    } else {
        if archives(records).contains(archive) {
            let k = choose|k: int|
                0 <= k < archives(records).len() && archives(records)[k] == archive;
            assert(records[k].archive == archive);
        }
        assert(archives(after) =~= archives(records).push(archive));
    }
}

/// Recording an archive changes no record but the one for that archive.
pub proof fn lemma_recorded_items(records: Seq<RecordView>, archive: Seq<char>, digest: Seq<char>)
    ensures
        forall|j: int|
            0 <= j < recorded(records, archive, digest).len() ==> {
                ||| (#[trigger] recorded(records, archive, digest)[j]) == (RecordView {
                    archive,
                    digest,
                })
                ||| (j < records.len() && recorded(records, archive, digest)[j] == records[j])
            },
{
    lemma_place_of(records, archive, 0);
}

/// Items that are all different stay so when one is added that is not
/// among them.
pub proof fn lemma_push_keeps_distinct<A>(items: Seq<A>, last: A)
    requires
        items.no_duplicates(),
        !items.contains(last),
    ensures
        items.push(last).no_duplicates(),
{
    assert forall|i: int, j: int|
        0 <= i < items.len() + 1 && 0 <= j < items.len() + 1 && i != j implies items.push(
        last,
    )[i] != items.push(last)[j] by {
        if i < items.len() {
            assert(items.contains(items[i]));
        }
        if j < items.len() {
            assert(items.contains(items[j]));
        }
    }
}

/// Nothing occurs twice in [`distinct`] items, and they are the items that
/// occur at all.
pub proof fn lemma_distinct<A>(items: Seq<A>)
    ensures
        distinct(items).no_duplicates(),
        distinct(items).to_set() == items.to_set(),
        distinct(items).len() == items.to_set().len(),
        distinct(items).len() <= items.len(),
    decreases items.len(),
{
    if items.len() > 0 {
        let rest = items.drop_last();
        let last = items.last();
        lemma_distinct(rest);
        assert(items =~= rest.push(last));
        rest.lemma_push_to_set_commute(last);
        if distinct(rest).contains(last) {
            assert(rest.to_set().insert(last) =~= rest.to_set());
        } else {
            distinct(rest).lemma_push_to_set_commute(last);
        }
    }
    assert(distinct(items).to_set() =~= items.to_set());
    distinct(items).unique_seq_to_set();
}

/// Taking the distinct items commutes with a function that tells them apart.
pub proof fn lemma_distinct_map<A, B>(items: Seq<A>, f: spec_fn(A) -> B)
    requires
        forall|x: A, y: A| #[trigger] f(x) == #[trigger] f(y) ==> x == y,
    ensures
        distinct(items.map_values(f)) == distinct(items).map_values(f),
    decreases items.len(),
{
    let mapped = items.map_values(f);
    if items.len() > 0 {
        let rest = items.drop_last();
        let last = items.last();
        lemma_distinct_map(rest, f);
        assert(mapped.drop_last() =~= rest.map_values(f));
        // `last` was seen before exactly when `f(last)` was.
        let seen = distinct(rest);
        if seen.contains(last) {
            let k = choose|k: int| 0 <= k < seen.len() && seen[k] == last;
            assert(seen.map_values(f)[k] == f(last));
        }
        if seen.map_values(f).contains(f(last)) {
            let k = choose|k: int|
                0 <= k < seen.map_values(f).len() && seen.map_values(f)[k] == f(last);
            assert(seen[k] == last);
        }
    }
    assert(distinct(mapped) =~= distinct(items).map_values(f));
}

/// The archives of a run with their fingerprints.
pub struct Records {
    items: Vec<ArchiveRecord>,
}

impl View for Records {
    type V = Seq<RecordView>;

    closed spec fn view(&self) -> Seq<RecordView> {
        self.items@.map_values(|r: ArchiveRecord| r@)
    }
}

impl Records {
    /// No archive is recorded twice.
    pub open spec fn wf(&self) -> bool {
        archives(self@).no_duplicates()
    }

    /// No records.
    pub fn new() -> (records: Records)
        ensures
            records@ == Seq::<RecordView>::empty(),
            records.wf(),
    {
        Records { items: Vec::new() }
    }

    /// The number of archives.
    pub fn len(&self) -> (n: usize)
        ensures
            n == self@.len(),
    {
        self.items.len()
    }

    /// The record at place `at`.
    pub fn get(&self, at: usize) -> (record: &ArchiveRecord)
        requires
            at < self@.len(),
        ensures
            record@ == self@[at as int],
    {
        &self.items[at]
    }

    /// The place of `archive` among the records, if it is recorded.
    pub fn find(&self, archive: &str) -> (place: Option<usize>)
        ensures
            match place {
                Some(at) => at < self@.len() && at == place_of(self@, archive@, 0),
                None => place_of(self@, archive@, 0) == self@.len(),
            },
    {
        let mut at: usize = 0;
        while at < self.items.len()
            invariant
                at <= self@.len(),
                self@.len() == self.items@.len(),
                place_of(self@, archive@, 0) == place_of(self@, archive@, at as int),
            decreases self@.len() - at,
        {
            if same_text(self.items[at].archive.as_str(), archive) {
                return Some(at);
            }
            at = at + 1;
        }
        None
    }

    /// Records `archive` with `digest`; see [`recorded`].
    pub fn insert(&mut self, archive: String, digest: String)
        requires
            old(self).wf(),
        ensures
            final(self).wf(),
            final(self)@ == recorded(old(self)@, archive@, digest@),
    {
        let place = self.find(archive.as_str());
        proof {
            lemma_recorded_archives(self@, archive@, digest@);
            if !archives(self@).contains(archive@) {
                lemma_push_keeps_distinct(archives(self@), archive@);
            }
        }
        match place {
            Some(at) => {
                self.items[at] = ArchiveRecord { archive, digest };
            },
            None => {
                self.items.push(ArchiveRecord { archive, digest });
            },
        }
        proof {
            assert(self@ =~= recorded(old(self)@, archive@, digest@));
        }
    }
}

} // verus!
