use vstd::prelude::*;

use crate::naming::{extract_stem, parse_u32, parsed_u32, stem_of_extract};
use crate::queue::{batch_len, CompletedUpload, PendingUpload, QueueError, UploadQueue, UploadStats};

verus! {

/// What the content store returned for one uploaded file.
#[derive(Debug, Clone)]
pub struct UploadResult {
    pub cid: String,
    pub size: u64,
}

/// Errors of a publish run.
#[derive(Debug, Clone)]
pub enum LocalityUploadError {
    DatabaseError(String),
    StorageError(String),
    FileError(String),
    QueueError(String),
}

/// Errors of a publish run over administrative areas, which go through the same
/// pipeline.
pub type AreaUploadError = LocalityUploadError;

pub open spec fn invalid_id_message(stem: Seq<char>) -> Seq<char> {
    "Invalid locality ID in filename: "@ + stem
}

/// The region id named by a file in a country directory: `None` for a file that is
/// not an extract, an error for an extract whose stem is not a `u32`.
pub fn locality_id_of_file(name: &str) -> (r: Result<Option<u32>, LocalityUploadError>)
    ensures
        extract_stem(name@) is None ==> r == Ok::<Option<u32>, LocalityUploadError>(None),
        extract_stem(name@) is Some && parsed_u32(extract_stem(name@)->Some_0) is Some ==> r
            == Ok::<Option<u32>, LocalityUploadError>(parsed_u32(extract_stem(name@)->Some_0)),
        extract_stem(name@) is Some && parsed_u32(extract_stem(name@)->Some_0) is None ==> (
        r matches Err(LocalityUploadError::QueueError(m)) && m@ == invalid_id_message(
            extract_stem(name@)->Some_0,
        )),
{
    match stem_of_extract(name) {
        None => Ok(None),
        Some(stem) => match parse_u32(stem.as_str()) {
            Some(id) => Ok(Some(id)),
            None => {
                proof {
                    reveal_strlit("Invalid locality ID in filename: ");
                }
                let mut m = String::from_str("Invalid locality ID in filename: ");
                m.append(stem.as_str());
                Err(LocalityUploadError::QueueError(m))
            },
        },
    }
}

/// A pending upload as plain values: (country, region id, local path).
pub type PendingView = (Seq<char>, u32, Seq<char>);

/// A completed upload as plain values: (country, region id, content id, size).
pub type CompletedView = (Seq<char>, u32, Seq<char>, u64);

/// A dedup key: (country, region id).
pub type MappingKey = (Seq<char>, u32);

pub open spec fn pending_view(p: PendingUpload) -> PendingView {
    (p.country_code@, p.locality_id, p.file_path@)
}

pub open spec fn completed_view(c: CompletedUpload) -> CompletedView {
    (c.country_code@, c.locality_id, c.cid@, c.file_size)
}

pub open spec fn pending_views(s: Seq<PendingUpload>) -> Seq<PendingView> {
    s.map_values(|p: PendingUpload| pending_view(p))
}

pub open spec fn completed_views(s: Seq<CompletedUpload>) -> Seq<CompletedView> {
    s.map_values(|c: CompletedUpload| completed_view(c))
}

pub open spec fn outcome_view(o: Option<UploadResult>) -> Option<(Seq<char>, u64)> {
    match o {
        Some(u) => Some((u.cid@, u.size)),
        None => None,
    }
}

pub open spec fn outcome_views(s: Seq<Option<UploadResult>>) -> Seq<Option<(Seq<char>, u64)>> {
    s.map_values(|o: Option<UploadResult>| outcome_view(o))
}

/// What the scanner did with one extract found on disk.
#[derive(Debug, Clone, Copy, PartialEq, Eq, Structural)]
pub enum FileAction {
    /// The catalog does not know the region: the file is left alone.
    UnknownRegion,
    /// The region already has a dedup mapping: nothing to publish.
    AlreadyMapped,
    /// The file was queued; `flush_now` says that a batch is due before scanning on.
    Enqueued { flush_now: bool },
    /// The queue is at its hard capacity: the file waits for a later run.
    QueueFull,
}

/// The action for one found extract, given what the catalog and the dedup store said
/// and the queue's state before it.
pub open spec fn file_action(
    region_known: bool,
    already_mapped: bool,
    queued: nat,
    capacity: nat,
    trigger: nat,
) -> FileAction {
    if !region_known {
        FileAction::UnknownRegion
    } else if already_mapped {
        FileAction::AlreadyMapped
    } else if queued >= capacity {
        FileAction::QueueFull
    } else {
        FileAction::Enqueued { flush_now: queued + 1 >= trigger }
    }
}

/// Decides what to do with one extract found on disk, and queues it when it still
/// needs publishing.
pub fn process_file_for_upload(
    queue: &mut UploadQueue,
    country_code: &str,
    locality_id: u32,
    file_path: &str,
    region_known: bool,
    already_mapped: bool,
) -> (r: FileAction)
    requires
        old(queue).wf(),
    ensures
        final(queue).wf(),
        final(queue).batch_trigger() == old(queue).batch_trigger(),
        final(queue).capacity() == old(queue).capacity(),
        r == file_action(
            region_known,
            already_mapped,
            old(queue).items().len(),
            old(queue).capacity(),
            old(queue).batch_trigger(),
        ),
        r is Enqueued ==> final(queue).items().drop_last() == old(queue).items()
            && final(queue).items().len() == old(queue).items().len() + 1
            && pending_view(final(queue).items().last()) == (
            country_code@,
            locality_id,
            file_path@,
        ),
        !(r is Enqueued) ==> final(queue).items() == old(queue).items(),
{
    if !region_known {
        return FileAction::UnknownRegion;
    }
    if already_mapped {
        return FileAction::AlreadyMapped;
    }
    let pending = PendingUpload::new(
        String::from_str(country_code),
        locality_id,
        String::from_str(file_path),
    );
    match queue.add_upload(pending) {
        Ok(()) => {
            proof {
                assert(final(queue).items().drop_last() =~= old(queue).items());
            }
            FileAction::Enqueued { flush_now: queue.is_full() }
        },
        Err(QueueError::AtCapacity { .. }) => FileAction::QueueFull,
    }
}

/// The completed uploads of a batch: each item whose upload returned a result, in
/// batch order, with the returned content id and size.
pub open spec fn settled(
    batch: Seq<PendingView>,
    outcomes: Seq<Option<(Seq<char>, u64)>>,
) -> Seq<CompletedView>
    decreases batch.len(),
{
    if batch.len() == 0 || outcomes.len() == 0 {
        Seq::empty()
    } else {
        let prev = settled(batch.drop_last(), outcomes.drop_last());
        match outcomes.last() {
            Some(stored) => prev.push((batch.last().0, batch.last().1, stored.0, stored.1)),
            None => prev,
        }
    }
}

/// How many uploads of a batch failed.
pub open spec fn failures(outcomes: Seq<Option<(Seq<char>, u64)>>) -> nat
    decreases outcomes.len(),
{
    if outcomes.len() == 0 {
        0
    } else {
        failures(outcomes.drop_last()) + if outcomes.last() is None {
            1nat
        } else {
            0nat
        }
    }
}

/// Total size of completed uploads.
pub open spec fn total_size(done: Seq<CompletedView>) -> nat
    decreases done.len(),
{
    if done.len() == 0 {
        0
    } else {
        total_size(done.drop_last()) + done.last().3 as nat
    }
}

/// A batch's uploads split into what the store accepted and how many failed.
pub struct BatchOutcome {
    pub completed: Vec<CompletedUpload>,
    pub failed: u64,
}

/// Partitions a batch by the result of each item's upload (`None` for a failure).
pub fn settle_batch(batch: Vec<PendingUpload>, outcomes: Vec<Option<UploadResult>>) -> (r:
    BatchOutcome)
    requires
        batch@.len() == outcomes@.len(),
    ensures
        completed_views(r.completed@) == settled(
            pending_views(batch@),
            outcome_views(outcomes@),
        ),
        r.failed as nat == failures(outcome_views(outcomes@)),
{
    let mut completed: Vec<CompletedUpload> = Vec::new();
    let mut failed: u64 = 0;
    let mut i: usize = 0;
    while i < batch.len()
        invariant
            batch@.len() == outcomes@.len(),
            i <= batch@.len(),
            completed_views(completed@) == settled(
                pending_views(batch@).take(i as int),
                outcome_views(outcomes@).take(i as int),
            ),
            failed as nat == failures(outcome_views(outcomes@).take(i as int)),
            failed <= i,
        decreases batch@.len() - i,
    {
        let ghost pb = pending_views(batch@).take(i + 1);
        let ghost ob = outcome_views(outcomes@).take(i + 1);
        proof {
            assert(pb.drop_last() =~= pending_views(batch@).take(i as int));
            assert(ob.drop_last() =~= outcome_views(outcomes@).take(i as int));
            assert(ob.last() == outcome_view(outcomes@[i as int]));
            assert(pb.last() == pending_view(batch@[i as int]));
        }
        match &outcomes[i] {
            Some(stored) => {
                let item = &batch[i];
                let done = CompletedUpload::new(
                    item.country_code.clone(),
                    item.locality_id,
                    stored.cid.clone(),
                    stored.size,
                );
                let ghost before = completed@;
                completed.push(done);
                proof {
                    assert(completed_views(completed@) =~= completed_views(before).push(
                        completed_view(done),
                    ));
                }
            },
            None => {
                failed = failed + 1;
            },
        }
        i = i + 1;
    }
    proof {
        assert(pending_views(batch@).take(i as int) =~= pending_views(batch@));
        assert(outcome_views(outcomes@).take(i as int) =~= outcome_views(outcomes@));
    }
    BatchOutcome { completed, failed }
}

/// The rows written to the dedup store for a batch: one per completed upload.
pub fn mapping_rows(completed: &Vec<CompletedUpload>) -> (rows: Vec<(String, u32, String, u64)>)
    ensures
        rows@.len() == completed@.len(),
        forall|i: int|
            0 <= i < rows@.len() ==> (#[trigger] rows@[i]).0@ == completed@[i].country_code@
                && rows@[i].1 == completed@[i].locality_id && rows@[i].2@ == completed@[i].cid@
                && rows@[i].3 == completed@[i].file_size,
{
    let mut rows: Vec<(String, u32, String, u64)> = Vec::new();
    let mut i: usize = 0;
    while i < completed.len()
        invariant
            i <= completed@.len(),
            rows@.len() == i,
            forall|j: int|
                0 <= j < i ==> (#[trigger] rows@[j]).0@ == completed@[j].country_code@
                    && rows@[j].1 == completed@[j].locality_id && rows@[j].2@
                    == completed@[j].cid@ && rows@[j].3 == completed@[j].file_size,
        decreases completed@.len() - i,
    {
        let c = &completed[i];
        rows.push((c.country_code.clone(), c.locality_id, c.cid.clone(), c.file_size));
        i = i + 1;
    }
    rows
}

/// True when a batch outcome has rows to write to the dedup store.
pub fn needs_upsert(outcome: &BatchOutcome) -> (r: bool)
    ensures
        r <==> outcome.completed@.len() > 0,
{
    outcome.completed.len() > 0
}

/// The statistics after a batch, given whether its dedup upsert succeeded.
pub open spec fn stats_after_batch(
    stats: UploadStats,
    done: Seq<CompletedView>,
    failed: nat,
    upsert_ok: bool,
) -> UploadStats {
    if done.len() > 0 && !upsert_ok {
        stats
    } else {
        UploadStats {
            total_uploaded: (stats.total_uploaded + done.len()) as u64,
            total_failed: (stats.total_failed + failed) as u64,
            total_bytes_uploaded: (stats.total_bytes_uploaded + total_size(done)) as u64,
        }
    }
}

proof fn lemma_total_size_prefix(done: Seq<CompletedView>, k: int)
    requires
        0 <= k <= done.len(),
    ensures
        total_size(done.take(k)) <= total_size(done),
    decreases done.len(),
{
    if k < done.len() {
        lemma_total_size_prefix(done.drop_last(), k);
        assert(done.drop_last().take(k) =~= done.take(k));
    } else {
        assert(done.take(k) =~= done);
    }
}

/// Records a batch in the statistics. The upserted rows are counted only when the
/// dedup upsert succeeded; when it failed nothing of the batch is counted and the
/// error is returned.
pub fn commit_batch(
    stats: &mut UploadStats,
    outcome: &BatchOutcome,
    upsert: Result<(), String>,
) -> (r: Result<(), LocalityUploadError>)
    requires
        old(stats).total_uploaded + outcome.completed@.len() <= u64::MAX,
        old(stats).total_failed + outcome.failed <= u64::MAX,
        old(stats).total_bytes_uploaded + total_size(completed_views(outcome.completed@))
            <= u64::MAX,
    ensures
        *final(stats) == stats_after_batch(
            *old(stats),
            completed_views(outcome.completed@),
            outcome.failed as nat,
            upsert is Ok,
        ),
        r is Err <==> outcome.completed@.len() > 0 && upsert is Err,
        r is Err ==> r == Err::<(), LocalityUploadError>(
            LocalityUploadError::DatabaseError(upsert->Err_0),
        ),
{
    let ghost done = completed_views(outcome.completed@);
    if outcome.completed.len() > 0 {
        if let Err(e) = upsert {
            return Err(LocalityUploadError::DatabaseError(e));
        }
        let mut i: usize = 0;
        while i < outcome.completed.len()
            invariant
                i <= outcome.completed@.len(),
                done == completed_views(outcome.completed@),
                stats.total_uploaded == old(stats).total_uploaded + i,
                stats.total_failed == old(stats).total_failed,
                stats.total_bytes_uploaded == old(stats).total_bytes_uploaded + total_size(
                    done.take(i as int),
                ),
                old(stats).total_uploaded + outcome.completed@.len() <= u64::MAX,
                old(stats).total_bytes_uploaded + total_size(done) <= u64::MAX,
            decreases outcome.completed@.len() - i,
        {
            proof {
                assert(done.take(i + 1).drop_last() =~= done.take(i as int));
                lemma_total_size_prefix(done, i + 1);
            }
            stats.increment_uploaded(outcome.completed[i].file_size);
            i = i + 1;
        }
        proof {
            assert(done.take(i as int) =~= done);
        }
    }
    let mut k: u64 = 0;
    let ghost mid = *stats;
    while k < outcome.failed
        invariant
            k <= outcome.failed,
            stats.total_uploaded == mid.total_uploaded,
            stats.total_bytes_uploaded == mid.total_bytes_uploaded,
            stats.total_failed == mid.total_failed + k,
            mid.total_failed == old(stats).total_failed,
            old(stats).total_failed + outcome.failed <= u64::MAX,
        decreases outcome.failed - k,
    {
        stats.increment_failed();
        k = k + 1;
    }
    Ok(())
}

proof fn lemma_total_size_concat(a: Seq<CompletedView>, b: Seq<CompletedView>)
    ensures
        total_size(a + b) == total_size(a) + total_size(b),
    decreases b.len(),
{
    if b.len() == 0 {
        assert(a + b =~= a);
    } else {
        lemma_total_size_concat(a, b.drop_last());
        assert((a + b).drop_last() =~= a + b.drop_last());
    }
}

/// The state of a publish run: its queue and its statistics, owned together. Every
/// upload that the statistics count has a row in the dedup store: `recorded` holds the
/// completed uploads of every batch whose upsert succeeded.
pub struct PublishState {
    queue: UploadQueue,
    stats: UploadStats,
    recorded: Ghost<Seq<CompletedView>>,
}

impl PublishState {
    pub closed spec fn queue_view(&self) -> UploadQueue {
        self.queue
    }

    pub closed spec fn stats_view(&self) -> UploadStats {
        self.stats
    }

    /// The completed uploads whose mapping rows were written, in order.
    pub closed spec fn recorded(&self) -> Seq<CompletedView> {
        self.recorded@
    }

    pub closed spec fn wf(&self) -> bool {
        &&& self.queue.wf()
        &&& self.stats.total_uploaded == self.recorded@.len()
        &&& self.stats.total_bytes_uploaded == total_size(self.recorded@)
    }

    pub fn new(batch_size: usize, max_queue_size: usize) -> (r: PublishState)
        ensures
            r.wf(),
            r.queue_view().items().len() == 0,
            r.queue_view().batch_trigger() == batch_size as nat,
            r.queue_view().capacity() == max_queue_size as nat,
            r.stats_view() == UploadStats::new_spec(),
            r.recorded() == Seq::<CompletedView>::empty(),
    {
        PublishState {
            queue: UploadQueue::new(batch_size, max_queue_size),
            stats: UploadStats::new(),
            recorded: Ghost(Seq::empty()),
        }
    }

    pub fn stats(&self) -> (r: UploadStats)
        ensures
            r == self.stats_view(),
    {
        self.stats
    }

    pub fn is_queue_empty(&self) -> (r: bool)
        ensures
            r <==> self.queue_view().items().len() == 0,
    {
        self.queue.is_empty()
    }

    /// Handles one extract found on disk, as `process_file_for_upload` does.
    pub fn on_file(
        &mut self,
        country_code: &str,
        locality_id: u32,
        file_path: &str,
        region_known: bool,
        already_mapped: bool,
    ) -> (r: FileAction)
        requires
            old(self).wf(),
        ensures
            final(self).wf(),
            final(self).stats_view() == old(self).stats_view(),
            final(self).recorded() == old(self).recorded(),
            final(self).queue_view().batch_trigger() == old(self).queue_view().batch_trigger(),
            final(self).queue_view().capacity() == old(self).queue_view().capacity(),
            r == file_action(
                region_known,
                already_mapped,
                old(self).queue_view().items().len(),
                old(self).queue_view().capacity(),
                old(self).queue_view().batch_trigger(),
            ),
            r is Enqueued ==> final(self).queue_view().items().drop_last() == old(
                self,
            ).queue_view().items() && final(self).queue_view().items().len() == old(
                self,
            ).queue_view().items().len() + 1 && pending_view(
                final(self).queue_view().items().last(),
            ) == (country_code@, locality_id, file_path@),
            !(r is Enqueued) ==> final(self).queue_view().items() == old(
                self,
            ).queue_view().items(),
    {
        process_file_for_upload(
            &mut self.queue,
            country_code,
            locality_id,
            file_path,
            region_known,
            already_mapped,
        )
    }

    /// Takes the next batch off the queue; the statistics do not change.
    pub fn take_batch(&mut self) -> (batch: Vec<PendingUpload>)
        requires
            old(self).wf(),
        ensures
            final(self).wf(),
            final(self).stats_view() == old(self).stats_view(),
            final(self).recorded() == old(self).recorded(),
            batch@ == old(self).queue_view().items().take(
                batch_len(&old(self).queue_view()) as int,
            ),
            final(self).queue_view().items() == old(self).queue_view().items().skip(
                batch_len(&old(self).queue_view()) as int,
            ),
            final(self).queue_view().batch_trigger() == old(self).queue_view().batch_trigger(),
            final(self).queue_view().capacity() == old(self).queue_view().capacity(),
    {
        self.queue.take_batch()
    }

    /// Records a settled batch: when its upsert succeeded (or it had nothing to
    /// upsert) its uploads and failures are counted and its completed uploads join
    /// `recorded`; when the upsert failed nothing changes and the error is returned.
    pub fn finish_batch(&mut self, outcome: &BatchOutcome, upsert: Result<(), String>) -> (r:
        Result<(), LocalityUploadError>)
        requires
            old(self).wf(),
            old(self).stats_view().total_uploaded + outcome.completed@.len() <= u64::MAX,
            old(self).stats_view().total_failed + outcome.failed <= u64::MAX,
            old(self).stats_view().total_bytes_uploaded + total_size(
                completed_views(outcome.completed@),
            ) <= u64::MAX,
        ensures
            final(self).wf(),
            final(self).queue_view() == old(self).queue_view(),
            final(self).stats_view() == stats_after_batch(
                old(self).stats_view(),
                completed_views(outcome.completed@),
                outcome.failed as nat,
                upsert is Ok,
            ),
            r is Err <==> outcome.completed@.len() > 0 && upsert is Err,
            r is Err ==> final(self).recorded() == old(self).recorded(),
            r is Ok ==> final(self).recorded() == old(self).recorded() + completed_views(
                outcome.completed@,
            ),
    {
        let ok = upsert.is_ok();
        let r = commit_batch(&mut self.stats, outcome, upsert);
        if r.is_ok() {
            proof {
                let done = completed_views(outcome.completed@);
                lemma_total_size_concat(self.recorded@, done);
                if done.len() == 0 {
                    assert(self.recorded@ + done =~= self.recorded@);
                }
                self.recorded = Ghost(self.recorded@ + done);
            }
        }
        r
    }
}

/// Batch atomicity: when the dedup upsert of a batch with completed uploads fails,
/// nothing of the batch is counted, however many of its uploads the store accepted.
pub proof fn lemma_failed_upsert_counts_nothing(
    stats: UploadStats,
    done: Seq<CompletedView>,
    failed: nat,
)
    requires
        done.len() > 0,
    ensures
        stats_after_batch(stats, done, failed, false) == stats,
        stats_after_batch(stats, done, failed, false).total_uploaded == stats.total_uploaded,
{
}

/// The dedup keys that a publish run writes when every upload and upsert succeeds:
/// each found extract of a known region that had no mapping.
pub open spec fn published_keys(
    found: Seq<MappingKey>,
    known: Set<u32>,
    mapped: Set<MappingKey>,
) -> Set<MappingKey> {
    Set::new(
        |k: MappingKey|
            exists|i: int|
                0 <= i < found.len() && found[i] == k && known.contains(k.1) && !mapped.contains(
                    k,
                ),
    )
}

/// Idempotence of publishing: after a run in which every upload and upsert
/// succeeded, a second run over the same extracts, catalog and dedup store queues
/// nothing, since every extract of a known region now has a mapping.
pub proof fn lemma_publish_twice_uploads_nothing(
    found: Seq<MappingKey>,
    known: Set<u32>,
    mapped: Set<MappingKey>,
    queued: nat,
    capacity: nat,
    trigger: nat,
)
    ensures
        forall|i: int|
            0 <= i < found.len() ==> !(#[trigger] file_action(
                known.contains(found[i].1),
                mapped.union(published_keys(found, known, mapped)).contains(found[i]),
                queued,
                capacity,
                trigger,
            ) is Enqueued),
{
    assert forall|i: int| 0 <= i < found.len() implies !(#[trigger] file_action(
        known.contains(found[i].1),
        mapped.union(published_keys(found, known, mapped)).contains(found[i]),
        queued,
        capacity,
        trigger,
    ) is Enqueued) by {
        if known.contains(found[i].1) && !mapped.contains(found[i]) {
            assert(published_keys(found, known, mapped).contains(found[i]));
        }
    }
}

} // verus!
