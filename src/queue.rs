use vstd::prelude::*;

verus! {

/// A produced extract that has no dedup mapping yet and waits to be uploaded.
#[derive(Debug, Clone)]
pub struct PendingUpload {
    pub country_code: String,
    pub locality_id: u32,
    pub file_path: String,
}

impl PendingUpload {
    pub fn new(country_code: String, locality_id: u32, file_path: String) -> (r: PendingUpload)
        ensures
            r.country_code@ == country_code@,
            r.locality_id == locality_id,
            r.file_path@ == file_path@,
    {
        PendingUpload { country_code, locality_id, file_path }
    }
}

/// An extract that the content store accepted, with the identifier it returned.
#[derive(Debug, Clone)]
pub struct CompletedUpload {
    pub country_code: String,
    pub locality_id: u32,
    pub cid: String,
    pub file_size: u64,
}

impl CompletedUpload {
    pub fn new(country_code: String, locality_id: u32, cid: String, file_size: u64) -> (r:
        CompletedUpload)
        ensures
            r.country_code@ == country_code@,
            r.locality_id == locality_id,
            r.cid@ == cid@,
            r.file_size == file_size,
    {
        CompletedUpload { country_code, locality_id, cid, file_size }
    }
}

/// Why an item was not accepted by the queue.
#[derive(Debug, Clone, Copy, PartialEq, Eq, Structural)]
pub enum QueueError {
    /// The queue already holds as many items as its hard capacity allows.
    AtCapacity { capacity: usize },
}

/// Ordered pending uploads with a flush threshold and a hard capacity.
pub struct UploadQueue {
    pending: Vec<PendingUpload>,
    batch_size: usize,
    max_queue_size: usize,
}

impl UploadQueue {
    /// The queued items, oldest first.
    pub closed spec fn items(&self) -> Seq<PendingUpload> {
        self.pending@
    }

    /// The number of items at which a batch should be taken.
    pub closed spec fn batch_trigger(&self) -> nat {
        self.batch_size as nat
    }

    /// The number of items beyond which nothing more is accepted.
    pub closed spec fn capacity(&self) -> nat {
        self.max_queue_size as nat
    }

    pub closed spec fn wf(&self) -> bool {
        self.pending@.len() <= self.max_queue_size
    }

    pub fn new(batch_size: usize, max_queue_size: usize) -> (r: UploadQueue)
        ensures
            r.wf(),
            r.items() == Seq::<PendingUpload>::empty(),
            r.batch_trigger() == batch_size as nat,
            r.capacity() == max_queue_size as nat,
    {
        UploadQueue { pending: Vec::new(), batch_size, max_queue_size }
    }

    pub fn len(&self) -> (r: usize)
        ensures
            r as nat == self.items().len(),
    {
        self.pending.len()
    }

    pub fn is_empty(&self) -> (r: bool)
        ensures
            r <==> self.items().len() == 0,
    {
        self.pending.len() == 0
    }

    /// True once the queue holds at least a batch worth of items.
    pub fn is_full(&self) -> (r: bool)
        ensures
            r <==> self.items().len() >= self.batch_trigger(),
    {
        self.pending.len() >= self.batch_size
    }

    /// Appends an item, unless the queue is at its hard capacity.
    pub fn add_upload(&mut self, upload: PendingUpload) -> (r: Result<(), QueueError>)
        requires
            old(self).wf(),
        ensures
            final(self).wf(),
            final(self).batch_trigger() == old(self).batch_trigger(),
            final(self).capacity() == old(self).capacity(),
            old(self).items().len() >= old(self).capacity() ==> r == Err::<(), QueueError>(
                QueueError::AtCapacity { capacity: old(self).capacity() as usize },
            ) && final(self).items() == old(self).items(),
            old(self).items().len() < old(self).capacity() ==> r is Ok && final(self).items()
                == old(self).items().push(upload),
    {
        if self.pending.len() >= self.max_queue_size {
            return Err(QueueError::AtCapacity { capacity: self.max_queue_size });
        }
        self.pending.push(upload);
        Ok(())
    }

    /// Removes and returns the oldest items, at most a batch of them.
    pub fn take_batch(&mut self) -> (batch: Vec<PendingUpload>)
        requires
            old(self).wf(),
        ensures
            final(self).wf(),
            final(self).batch_trigger() == old(self).batch_trigger(),
            final(self).capacity() == old(self).capacity(),
            batch@ == old(self).items().take(batch_len(old(self)) as int),
            final(self).items() == old(self).items().skip(batch_len(old(self)) as int),
            batch@ + final(self).items() == old(self).items(),
    {
        let n: usize = if self.pending.len() < self.batch_size {
            self.pending.len()
        } else {
            self.batch_size
        };
        let mut rest = self.pending.split_off(n);
        std::mem::swap(&mut self.pending, &mut rest);
        proof {
            assert(rest@ + self.pending@ =~= old(self).pending@);
        }
        rest
    }
}

/// How many items a batch taken from the queue holds.
pub open spec fn batch_len(q: &UploadQueue) -> nat {
    if q.items().len() < q.batch_trigger() {
        q.items().len()
    } else {
        q.batch_trigger()
    }
}

/// Running totals of a publish run.
#[derive(Debug, Clone, Copy, PartialEq, Eq, Structural)]
pub struct UploadStats {
    pub total_uploaded: u64,
    pub total_failed: u64,
    pub total_bytes_uploaded: u64,
}

impl UploadStats {
    pub open spec fn new_spec() -> UploadStats {
        UploadStats { total_uploaded: 0, total_failed: 0, total_bytes_uploaded: 0 }
    }

    pub fn new() -> (r: UploadStats)
        ensures
            r == UploadStats::new_spec(),
    {
        UploadStats { total_uploaded: 0, total_failed: 0, total_bytes_uploaded: 0 }
    }

    pub fn increment_uploaded(&mut self, file_size: u64)
        requires
            old(self).total_uploaded < u64::MAX,
            old(self).total_bytes_uploaded + file_size <= u64::MAX,
        ensures
            final(self).total_uploaded == old(self).total_uploaded + 1,
            final(self).total_bytes_uploaded == old(self).total_bytes_uploaded + file_size,
            final(self).total_failed == old(self).total_failed,
    {
        self.total_uploaded = self.total_uploaded + 1;
        self.total_bytes_uploaded = self.total_bytes_uploaded + file_size;
    }

    pub fn increment_failed(&mut self)
        requires
            old(self).total_failed < u64::MAX,
        ensures
            final(self).total_failed == old(self).total_failed + 1,
            final(self).total_uploaded == old(self).total_uploaded,
            final(self).total_bytes_uploaded == old(self).total_bytes_uploaded,
    {
        self.total_failed = self.total_failed + 1;
    }
}

} // verus!
