//! Bulk ingestion of the remote history.
//!
//! A run asks for the identifiers that the archive lacks, a batch at a time,
//! takes what the source delivered for them, stores the messages among it and
//! stops once it has seen more misses in a row than the threshold allows.
//! Fetching is done by the caller: the run only says what to fetch and takes
//! the answer.

use crate::gaps::{is_gap_run, lemma_gap_run_len, SkippingIter};
use crate::record::{record_of, MessageRecord, MessageRecordView, RawMessage, RawMessageView};
use crate::store::{Database, StoreError, StoreOp};
use std::collections::BTreeSet;
use vstd::prelude::*;

verus! {

/// How many identifiers one request asks for.
pub const BATCH_SIZE: usize = 100;

/// How many misses in a row a run tolerates; one more ends it.
pub const MISS_THRESHOLD: u32 = 10;

/// What the source delivered for one requested identifier.
#[derive(Debug, Clone)]
pub enum Fetched {
    /// A message.
    Found(RawMessage),
    /// Nothing: the source knows no message of that identifier.
    NotFound,
    /// An empty shell in place of a message.
    Tombstone,
    /// Something that could not be read. The message exists, so this is no
    /// sign of having run past the end of the history.
    Malformed,
}

/// What a [`Fetched`] holds.
pub enum FetchedView {
    Found(RawMessageView),
    NotFound,
    Tombstone,
    Malformed,
}

impl View for Fetched {
    type V = FetchedView;

    open spec fn view(&self) -> FetchedView {
        match self {
            Fetched::Found(m) => FetchedView::Found(m@),
            Fetched::NotFound => FetchedView::NotFound,
            Fetched::Tombstone => FetchedView::Tombstone,
            Fetched::Malformed => FetchedView::Malformed,
        }
    }
}

/// Whether an item counts as a miss.
pub open spec fn is_miss(item: FetchedView) -> bool {
    item is NotFound || item is Tombstone
}

/// How a delivered slot is classified: no message is a miss, an empty shell
/// is a tombstone, anything else is a message.
pub open spec fn classified(slot: Option<RawMessageView>) -> FetchedView {
    match slot {
        None => FetchedView::NotFound,
        Some(m) => if m.empty {
            FetchedView::Tombstone
        } else {
            FetchedView::Found(m)
        },
    }
}

impl Fetched {
    /// Classifies what the source delivered for one identifier.
    pub fn classify(slot: Option<RawMessage>) -> (f: Fetched)
        ensures
            f@ == classified(
                match slot {
                    Some(m) => Some(m@),
                    None => None,
                },
            ),
    {
        match slot {
            None => Fetched::NotFound,
            Some(m) => if m.empty {
                Fetched::Tombstone
            } else {
                Fetched::Found(m)
            },
        }
    }
}

/// Where a scan over delivered items stands.
pub struct Scan {
    /// The records to store, in the order of their items.
    pub records: Seq<MessageRecordView>,
    /// Misses in a row up to here.
    pub misses: nat,
    /// Items looked at.
    pub examined: nat,
    /// Whether the scan has ended.
    pub stopped: bool,
}

/// A scan that has stored and examined nothing and has `misses` misses in a
/// row behind it.
pub open spec fn scan_start(misses: nat) -> Scan {
    Scan { records: Seq::empty(), misses, examined: 0, stopped: misses > MISS_THRESHOLD }
}

/// One item further. A scan that has ended looks at nothing. A message is
/// stored and clears the misses; a miss adds one, and ends the scan once the
/// misses exceed the threshold; an unreadable item changes neither.
pub open spec fn scan_step(s: Scan, item: FetchedView) -> Scan {
    if s.stopped {
        s
    } else {
        match item {
            FetchedView::Found(m) => Scan {
                records: s.records.push(record_of(m)),
                misses: 0,
                examined: s.examined + 1,
                stopped: false,
            },
            FetchedView::Malformed => Scan { examined: s.examined + 1, ..s },
            _ => Scan {
                misses: s.misses + 1,
                examined: s.examined + 1,
                stopped: s.misses + 1 > MISS_THRESHOLD,
                ..s
            },
        }
    }
}

/// The scan `start` taken over `items`, in order.
pub open spec fn scan(start: Scan, items: Seq<FetchedView>) -> Scan
    decreases items.len(),
{
    if items.len() == 0 {
        start
    } else {
        scan_step(scan(start, items.drop_last()), items.last())
    }
}

/// What the items hold, in order.
pub open spec fn fetched_view(items: Seq<Fetched>) -> Seq<FetchedView> {
    items.map_values(|f: Fetched| f@)
}

/// What the records hold, in order.
pub open spec fn records_view(records: Seq<MessageRecord>) -> Seq<MessageRecordView> {
    records.map_values(|r: MessageRecord| r@)
}

/// What is to be done with one batch of delivered items.
#[derive(Debug)]
pub struct BatchPlan {
    /// The records to store, in order.
    pub records: Vec<MessageRecord>,
    /// Misses in a row after the batch.
    pub misses: u32,
    /// How many items were looked at.
    pub examined: usize,
    /// Whether the run ends here.
    pub stop: bool,
}

impl View for BatchPlan {
    type V = Scan;

    open spec fn view(&self) -> Scan {
        Scan {
            records: records_view(self.records@),
            misses: self.misses as nat,
            examined: self.examined as nat,
            stopped: self.stop,
        }
    }
}

/// Scans one batch: decides which messages to store, how many misses in a
/// row stand after it, and whether the run ends. `misses` is the number of
/// misses in a row before the batch.
pub fn plan_batch(misses: u32, batch: Vec<Fetched>) -> (plan: BatchPlan)
    ensures
        plan@ == scan(scan_start(misses as nat), fetched_view(batch@)),
        plan@.records.len() <= plan@.examined <= batch@.len(),
{
    let ghost items = fetched_view(batch@);
    let ghost start = scan_start(misses as nat);
    let mut records: Vec<MessageRecord> = Vec::new();
    let mut misses = misses;
    let mut examined: usize = 0;
    let mut stop = misses > MISS_THRESHOLD;
    let ghost all = batch@;
    let total = batch.len();
    assert(records_view(records@) =~= Seq::<MessageRecordView>::empty());
    for item in it: batch
        invariant
            it.seq() == all,
            items == fetched_view(all),
            all.len() == total,
            start.records.len() == 0,
            start.examined == 0,
            !stop ==> misses <= MISS_THRESHOLD,
            records@.len() <= examined <= it.index(),
            (Scan {
                records: records_view(records@),
                misses: misses as nat,
                examined: examined as nat,
                stopped: stop,
            }) == scan(start, items.take(it.index() as int)),
    {
        let ghost prior = records_view(records@);
        proof {
            let i = it.index() as int;
            assert(items.take(i + 1).drop_last() =~= items.take(i));
        }
        if !stop {
            examined = examined + 1;
            match item {
                Fetched::Found(m) => {
                    let ghost mv = m@;
                    records.push(MessageRecord::from_raw(m));
                    misses = 0;
                    assert(records_view(records@) =~= prior.push(record_of(mv)));
                },
                Fetched::Malformed => {},
                _ => {
                    misses = misses + 1;
                    stop = misses > MISS_THRESHOLD;
                },
            }
        }
    }
    assert(items.take(all.len() as int) =~= items);
    BatchPlan { records, misses, examined, stop }
}

/// A scan that began with `misses` misses behind it has ended exactly when
/// its misses exceed the threshold.
pub proof fn lemma_stopped_iff_over(misses: nat, items: Seq<FetchedView>)
    ensures
        scan(scan_start(misses), items).stopped <==> scan(scan_start(misses), items).misses
            > MISS_THRESHOLD,
    decreases items.len(),
{
    if items.len() > 0 {
        lemma_stopped_iff_over(misses, items.drop_last());
    }
}

/// A run that takes the history in batches does what one scan over the
/// whole would do: taking up the scan with the misses that the first batch
/// left stores the same records, looks at as many items and ends in the
/// same place.
pub proof fn lemma_scan_in_batches(misses: nat, first: Seq<FetchedView>, second: Seq<FetchedView>)
    ensures
        ({
            let whole = scan(scan_start(misses), first + second);
            let head = scan(scan_start(misses), first);
            let tail = scan(scan_start(head.misses), second);
            &&& whole.records == head.records + tail.records
            &&& whole.examined == head.examined + tail.examined
            &&& whole.misses == tail.misses
            &&& whole.stopped == tail.stopped
        }),
    decreases second.len(),
{
    let head = scan(scan_start(misses), first);
    lemma_stopped_iff_over(misses, first);
    if second.len() > 0 {
        let front = second.drop_last();
        lemma_scan_in_batches(misses, first, front);
        assert((first + second).drop_last() =~= first + front);
        let tail = scan(scan_start(head.misses), front);
        let whole = scan(scan_start(misses), first + front);
        if !whole.stopped {
            if let FetchedView::Found(m) = second.last() {
                assert((head.records + tail.records).push(record_of(m)) =~= head.records
                    + tail.records.push(record_of(m)));
            }
        }
    }
}

/// A scan never looks at more items than it is given, never stores more
/// than it looks at, and while it has not ended its misses are within the
/// threshold.
pub proof fn lemma_scan_bounds(start: Scan, items: Seq<FetchedView>)
    requires
        !start.stopped ==> start.misses <= MISS_THRESHOLD,
    ensures
        start.examined <= scan(start, items).examined <= start.examined + items.len(),
        scan(start, items).records.len() - start.records.len() <= scan(start, items).examined
            - start.examined,
        start.records.len() <= scan(start, items).records.len(),
        !scan(start, items).stopped ==> scan(start, items).misses <= MISS_THRESHOLD,
        start.stopped ==> scan(start, items) == start,
    decreases items.len(),
{
    if items.len() > 0 {
        lemma_scan_bounds(start, items.drop_last());
    }
}

/// Past the end of the history a run ends promptly. Where every item from
/// position `n` on is a miss, and there are more of them than the threshold
/// allows, the scan has ended, it has looked at no more than `n` items and
/// the threshold plus one, and it stores only what it found among the first
/// `n` items.
pub proof fn lemma_scan_stops_after_misses(start: Scan, items: Seq<FetchedView>, n: int)
    requires
        !start.stopped ==> start.misses <= MISS_THRESHOLD,
        0 <= n,
        n + MISS_THRESHOLD + 1 <= items.len(),
        forall|k: int| n <= k < items.len() ==> is_miss(#[trigger] items[k]),
    ensures
        scan(start, items).stopped,
        scan(start, items).examined <= start.examined + n + MISS_THRESHOLD + 1,
        scan(start, items).records == scan(start, items.take(n)).records,
{
    lemma_scan_tail_of_misses(start, items, n, items.len() as int);
    assert(items.take(items.len() as int) =~= items);
}

/// The scan over the first `m` items, of which those from `n` on are misses.
proof fn lemma_scan_tail_of_misses(start: Scan, items: Seq<FetchedView>, n: int, m: int)
    requires
        !start.stopped ==> start.misses <= MISS_THRESHOLD,
        0 <= n <= m <= items.len(),
        forall|k: int| n <= k < items.len() ==> is_miss(#[trigger] items[k]),
    ensures
        scan(start, items.take(m)).records == scan(start, items.take(n)).records,
        scan(start, items.take(m)).examined <= start.examined + m,
        scan(start, items.take(m)).stopped ==> scan(start, items.take(m)).examined
            <= start.examined + n + MISS_THRESHOLD + 1,
        !scan(start, items.take(m)).stopped ==> m - n <= scan(start, items.take(m)).misses
            <= MISS_THRESHOLD,
    decreases m - n,
{
    if m == n {
        lemma_scan_bounds(start, items.take(n));
    } else {
        lemma_scan_tail_of_misses(start, items, n, m - 1);
        assert(items.take(m).drop_last() =~= items.take(m - 1));
    }
}

/// How a run treats what the archive holds already.
#[derive(Debug, Clone, Copy, PartialEq, Eq, Structural)]
pub enum BackfillMode {
    /// Fetch what the archive lacks.
    Normal,
    /// Fetch nothing.
    Skip,
    /// Fetch everything again, as if the archive were empty.
    Force,
}

impl BackfillMode {
    /// The mode that the two switches of the configuration ask for. Skipping
    /// wins over forcing.
    pub fn from_flags(skip_populate: bool, force_repopulate: bool) -> (mode: BackfillMode)
        ensures
            mode == if skip_populate {
                BackfillMode::Skip
            } else if force_repopulate {
                BackfillMode::Force
            } else {
                BackfillMode::Normal
            },
    {
        if skip_populate {
            BackfillMode::Skip
        } else if force_repopulate {
            BackfillMode::Force
        } else {
            BackfillMode::Normal
        }
    }
}

/// The identifiers that a run in `mode` leaves out: none at all when it is
/// to fetch everything again, those stored now otherwise. `None` where no
/// run is to be made.
pub fn exclusions(mode: BackfillMode, db: &Database) -> (r: Result<
    Option<BTreeSet<i32>>,
    StoreError,
>)
    ensures
        mode == BackfillMode::Skip ==> r matches Ok(None),
        mode == BackfillMode::Force ==> (r matches Ok(Some(set)) && set@ == Set::<i32>::empty()),
        mode == BackfillMode::Normal ==> match r {
            Ok(found) => found is Some,
            Err(e) => e.op == StoreOp::ExistingIds && e.id is None,
        },
{
    match mode {
        BackfillMode::Skip => Ok(None),
        BackfillMode::Force => Ok(Some(BTreeSet::new())),
        BackfillMode::Normal => match db.existing_ids() {
            Ok(set) => Ok(Some(set)),
            Err(e) => Err(e),
        },
    }
}

/// What a run holds.
pub struct BackfillView {
    /// The identifiers that the run leaves out.
    pub excluded: Set<i32>,
    /// The least identifier not yet asked for.
    pub cursor: int,
    /// How many identifiers were asked for and are not answered yet.
    pub outstanding: nat,
    /// Misses in a row up to here.
    pub misses: nat,
    /// Messages stored so far.
    pub added: nat,
    /// Delivered items looked at so far.
    pub examined: nat,
    /// Whether the run is over.
    pub finished: bool,
}

impl BackfillView {
    /// What holds of every run: nothing was looked at, nor is awaited, that
    /// was not asked for, and nothing was stored that was not looked at.
    pub open spec fn wf(self) -> bool {
        &&& 1 <= self.cursor <= i32::MAX + 1
        &&& self.examined + self.outstanding <= self.cursor - 1
        &&& self.added <= self.examined
    }
}

/// One run of the backfill over a snapshot of the stored identifiers.
pub struct Backfill<'a> {
    gaps: SkippingIter<'a>,
    outstanding: usize,
    misses: u32,
    added: u64,
    examined: u64,
    finished: bool,
}

impl<'a> View for Backfill<'a> {
    type V = BackfillView;

    closed spec fn view(&self) -> BackfillView {
        BackfillView {
            excluded: self.gaps.excluded(),
            cursor: self.gaps.cursor(),
            outstanding: self.outstanding as nat,
            misses: self.misses as nat,
            added: self.added as nat,
            examined: self.examined as nat,
            finished: self.finished,
        }
    }
}

impl<'a> Backfill<'a> {
    #[verifier::type_invariant]
    spec fn inv(self) -> bool {
        self@.wf()
    }

    /// Starts a run that leaves out the identifiers of `existing`.
    pub fn new(existing: &'a BTreeSet<i32>) -> (run: Self)
        ensures
            run@ == (BackfillView {
                excluded: existing@,
                cursor: 1,
                outstanding: 0,
                misses: 0,
                added: 0,
                examined: 0,
                finished: false,
            }),
            run@.wf(),
    {
        Backfill {
            gaps: SkippingIter::new(existing),
            outstanding: 0,
            misses: 0,
            added: 0,
            examined: 0,
            finished: false,
        }
    }

    /// Whether the run is over.
    pub fn is_finished(&self) -> (b: bool)
        ensures
            b == self@.finished,
    {
        self.finished
    }

    /// How many messages the run has stored.
    pub fn added(&self) -> (n: u64)
        ensures
            n == self@.added,
    {
        self.added
    }

    /// How many delivered items the run has looked at.
    pub fn examined(&self) -> (n: u64)
        ensures
            n == self@.examined,
    {
        self.examined
    }

    /// The identifiers to fetch next: the next [`BATCH_SIZE`] that the
    /// snapshot lacks, in ascending order. A run that is over asks for
    /// nothing, and a run that has no identifier left to ask for is over.
    pub fn next_request(&mut self) -> (ids: Vec<i32>)
        ensures
            final(self)@.wf(),
            old(self)@.finished ==> ids@.len() == 0 && final(self)@ == old(self)@,
            !old(self)@.finished ==> {
                &&& is_gap_run(old(self)@.excluded, old(self)@.cursor, final(self)@.cursor, ids@)
                &&& ids@.len() <= BATCH_SIZE
                &&& ids@.len() < BATCH_SIZE ==> final(self)@.cursor == i32::MAX + 1
                &&& final(self)@ == (BackfillView {
                    cursor: final(self)@.cursor,
                    outstanding: ids@.len(),
                    finished: ids@.len() == 0,
                    ..old(self)@
                })
            },
    {
        proof {
            use_type_invariant(&*self);
        }
        if self.finished {
            return Vec::new();
        }
        let mut gaps = self.gaps;
        let ids = gaps.next_batch(BATCH_SIZE);
        proof {
            lemma_gap_run_len(gaps.excluded(), self.gaps.cursor(), gaps.cursor(), ids@);
        }
        self.outstanding = 0;
        self.gaps = gaps;
        self.outstanding = ids.len();
        self.finished = ids.len() == 0;
        ids
    }

    /// Takes what the source delivered for the last request, in the order of
    /// the request: stores the messages among it, counts the misses and
    /// decides whether the run is over. Items beyond the number asked for are
    /// not looked at. A failure of the archive ends the run.
    #[verifier::loop_isolation(false)]
    pub fn absorb(&mut self, db: &Database, batch: Vec<Fetched>) -> (r: Result<(), StoreError>)
        ensures
            final(self)@.wf(),
            old(self)@.finished ==> r is Ok && final(self)@ == old(self)@,
            !old(self)@.finished ==> ({
                let asked = if batch@.len() <= old(self)@.outstanding {
                    batch@.len() as int
                } else {
                    old(self)@.outstanding as int
                };
                let s = scan(scan_start(old(self)@.misses), fetched_view(batch@).take(asked));
                match r {
                    Ok(_) => final(self)@ == (BackfillView {
                        outstanding: 0,
                        misses: s.misses,
                        added: old(self)@.added + s.records.len(),
                        examined: old(self)@.examined + s.examined,
                        finished: s.stopped,
                        ..old(self)@
                    }),
                    Err(e) => {
                        &&& e.op == StoreOp::Upsert
                        &&& final(self)@.finished
                        &&& old(self)@.added <= final(self)@.added < old(self)@.added
                            + s.records.len()
                        &&& e.id == Some(
                            s.records[final(self)@.added - old(self)@.added].id as i64,
                        )
                    },
                }
            }),
    {
        proof {
            use_type_invariant(&*self);
        }
        if self.finished {
            return Ok(());
        }
        let mut batch = batch;
        let ghost given = fetched_view(batch@);
        batch.truncate(self.outstanding);
        assert(fetched_view(batch@) =~= given.take(batch@.len() as int));
        let plan = plan_batch(self.misses, batch);
        self.outstanding = 0;
        self.examined = self.examined + plan.examined as u64;
        self.misses = plan.misses;
        let ghost before = self.added;
        let mut i: usize = 0;
        while i < plan.records.len()
            invariant
                i <= plan.records@.len(),
                self.added == before + i,
                before + plan.records@.len() <= self.examined,
                self.gaps == old(self).gaps,
                self.outstanding == 0,
                self.misses == plan.misses,
                self.examined == old(self).examined + plan.examined,
                !self.finished,
                1 <= self.gaps.cursor() <= i32::MAX + 1,
                self.examined <= self.gaps.cursor() - 1,
            decreases plan.records@.len() - i,
        {
            match db.upsert_one(&plan.records[i]) {
                Ok(_) => {},
                Err(e) => {
                    self.finished = true;
                    return Err(e);
                },
            }
            self.added = self.added + 1;
            i = i + 1;
        }
        self.finished = plan.stop;
        Ok(())
    }
}

} // verus!
