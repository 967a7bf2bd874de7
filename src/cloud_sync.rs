use crate::aws_manager::{
    part_numbers, parts_complete, ObjectInfo, UploadSession, CHUNK_SIZE, MAX_CHUNKS,
};
use crate::chunk::{chunk_plan, entry_view, lemma_part_count_bounds, part_count, Chunk};
use crate::clock::{local_today_at, parse_time_of_day, time_of_day_of, utc_now_timestamp};
use crate::errors::CloudSyncError;
use crate::onedrive_manager::ItemInfo;
use vstd::prelude::*;

verus! {

/// Age in seconds past which a direct download address is fetched anew
/// before the next part is read.
pub const DOWNLOAD_URL_MAX_AGE_SECS: i64 = 1800;

/// Seconds in a day: how far a wake time that is not in the future rolls.
pub const SECONDS_PER_DAY: i64 = 86400;

/// One entry of the bucket listing.
pub struct StoredObject {
    pub filename: String,
    pub size: Option<u64>,
}

/// How a file is moved.
#[derive(PartialEq, Eq, Structural, Clone, Copy, Debug)]
pub enum TransferMethod {
    /// Read whole, written as one object.
    SingleShot,
    /// Read and written part by part.
    Multipart,
}

/// What a pass does with one changed item.
#[derive(PartialEq, Eq, Structural, Clone, Copy, Debug)]
pub enum ReconcileAction {
    /// Not a file: nothing to move.
    Skip,
    /// Not in the bucket: move it.
    Add,
    /// In the bucket at this listing index: read its metadata, then decide
    /// with `backup_needed`.
    Compare(usize),
}

/// The reconciliation rule. A recorded modification time decides alone:
/// a transfer is needed when it differs from the source's. Without one the
/// sizes decide: a non-empty source is sent when the bucket has no size or
/// another size; an empty source is never sent on that ground.
pub open spec fn transfer_needed(f_size: u64, t_size: Option<u64>, f_mtime: i64, t_mtime: Option<
    i64,
>) -> bool {
    match t_mtime {
        Some(t) => f_mtime != t,
        None => f_size != 0 && (t_size is None || t_size.unwrap() != f_size),
    }
}

/// Index of the first listing entry named `filename`, if any.
pub open spec fn first_match(objects: Seq<StoredObject>, filename: Seq<char>) -> Option<int> {
    if exists|k: int| 0 <= k < objects.len() && objects[k].filename@ == filename {
        Some(
            choose|k: int|
                0 <= k < objects.len() && objects[k].filename@ == filename && forall|j: int|
                    0 <= j < k ==> objects[j].filename@ != filename,
        )
    } else {
        None
    }
}

/// How a file of `size` bytes is moved.
pub open spec fn method_for(size: u64) -> TransferMethod {
    if size > CHUNK_SIZE {
        TransferMethod::Multipart
    } else {
        TransferMethod::SingleShot
    }
}

/// Returns true if the file differs between the drive (`f_…`) and the
/// bucket (`t_…`), by the reconciliation rule.
pub fn backup_needed(f_size: u64, t_size: Option<u64>, f_mtime: i64, t_mtime: Option<i64>) -> (r:
    bool)
    ensures
        r == transfer_needed(f_size, t_size, f_mtime, t_mtime),
{
    match t_mtime {
        Some(t) => f_mtime != t,
        None => f_size != 0 && match t_size {
            Some(s) => s != f_size,
            None => true,
        },
    }
}

/// Whether a source record must be moved, given what the bucket holds
/// under its name (`None`: nothing).
pub fn needs_transfer(item: &ItemInfo, dest: Option<&ObjectInfo>) -> (r: bool)
    ensures
        r == match dest {
            None => true,
            Some(t) => transfer_needed(item.size, t.size, item.mtime, t.mtime),
        },
{
    match dest {
        None => true,
        Some(t) => backup_needed(item.size, t.size, item.mtime, t.mtime),
    }
}

/// Reconciliation law: an empty source file is never sent because of sizes;
/// without a recorded time on the bucket side it is left alone.
pub proof fn lemma_empty_file_never_sent_by_size(t_size: Option<u64>, f_mtime: i64)
    ensures
        !transfer_needed(0, t_size, f_mtime, None),
{
}

/// Index of the first listing entry named `filename`.
pub fn find_object(objects: &Vec<StoredObject>, filename: &String) -> (r: Option<usize>)
    ensures
        match r {
            Some(k) => first_match(objects@, filename@) == Some(k as int),
            None => first_match(objects@, filename@) is None,
        },
{
    let mut i: usize = 0;
    while i < objects.len()
        invariant
            i <= objects@.len(),
            forall|j: int| 0 <= j < i ==> objects@[j].filename@ != filename@,
        decreases objects@.len() - i,
    {
        if objects[i].filename == *filename {
            proof {
                let k = choose|k: int|
                    0 <= k < objects@.len() && objects@[k].filename@ == filename@ && forall|j: int|
                        0 <= j < k ==> objects@[j].filename@ != filename@;
                assert(0 <= i < objects@.len() && objects@[i as int].filename@ == filename@
                    && forall|j: int| 0 <= j < i ==> objects@[j].filename@ != filename@);
                if k < i {
                } else if k > i {
                    assert(objects@[i as int].filename@ != filename@);
                }
            }
            return Some(i);
        }
        i = i + 1;
    }
    None
}

/// What a pass does with one changed item: skips what is not a file, adds
/// a file the bucket lacks, and compares one it has.
pub fn reconcile_action(item: &ItemInfo, objects: &Vec<StoredObject>) -> (r: ReconcileAction)
    ensures
        !item.file ==> r == ReconcileAction::Skip,
        item.file && first_match(objects@, item.filename@) is None ==> r == ReconcileAction::Add,
        item.file && first_match(objects@, item.filename@) is Some ==> r
            == ReconcileAction::Compare(first_match(objects@, item.filename@).unwrap() as usize),
{
    if !item.file {
        return ReconcileAction::Skip;
    }
    match find_object(objects, &item.filename) {
        Some(k) => ReconcileAction::Compare(k),
        None => ReconcileAction::Add,
    }
}

/// How a file of `size` bytes is moved: whole when it fits in one part,
/// part by part otherwise.
pub fn transfer_method(size: u64) -> (r: TransferMethod)
    ensures
        r == method_for(size),
{
    if size > CHUNK_SIZE {
        TransferMethod::Multipart
    } else {
        TransferMethod::SingleShot
    }
}

/// A whole-file read must bring exactly the size the feed reported.
pub fn check_download_size(got: usize, expected: u64) -> (r: Result<(), CloudSyncError>)
    ensures
        r is Ok <==> got == expected,
        r matches Err(e) ==> (e matches CloudSyncError::OneDrive(m) && m@
            == "download size mismatch"@),
{
    if got as u128 != expected as u128 {
        return Err(CloudSyncError::OneDrive(String::from_str("download size mismatch")));
    }
    Ok(())
}

/// One ranged read must bring exactly the bytes `from..=to`; a short or
/// long part is an integrity failure of the file.
pub fn check_part_length(got: usize, from: u64, to: u64) -> (r: Result<(), CloudSyncError>)
    ensures
        r is Ok <==> got == to - from + 1,
        r matches Err(e) ==> (e matches CloudSyncError::OneDrive(m) && m@
            == "part size mismatch"@),
{
    if got as i128 != to as i128 - from as i128 + 1 {
        return Err(CloudSyncError::OneDrive(String::from_str("part size mismatch")));
    }
    Ok(())
}

/// Whether a file the bucket already holds must be sent again, from the
/// size its listing gives and the modification time its metadata records.
pub fn stored_needs_transfer(item: &ItemInfo, stored: &StoredObject, stored_mtime: Option<i64>) -> (r:
    bool)
    ensures
        r == transfer_needed(item.size, stored.size, item.mtime, stored_mtime),
{
    backup_needed(item.size, stored.size, item.mtime, stored_mtime)
}

/// The next step of one synchronisation pass.
#[derive(PartialEq, Eq, Structural, Clone, Copy, Debug)]
pub enum PassAction {
    /// Read the bucket listing.
    FetchListing,
    /// Reconcile the changed item with this index.
    Reconcile(usize),
    /// Every changed item is handled: persist the cursor.
    SaveCursor,
}

/// One step of a pass over `n_changes` changed items. With no change the
/// listing is not read at all; otherwise the listing is read once, then the
/// items are reconciled in feed order, and the cursor is persisted only
/// after the last one.
pub fn pass_step(n_changes: usize, listing_fetched: bool, next_item: usize) -> (r: PassAction)
    ensures
        n_changes == 0 ==> r == PassAction::SaveCursor,
        n_changes > 0 && !listing_fetched ==> r == PassAction::FetchListing,
        n_changes > 0 && listing_fetched && next_item < n_changes ==> r == PassAction::Reconcile(
            next_item,
        ),
        n_changes > 0 && listing_fetched && next_item >= n_changes ==> r == PassAction::SaveCursor,
{
    if n_changes == 0 {
        PassAction::SaveCursor
    } else if !listing_fetched {
        PassAction::FetchListing
    } else if next_item < n_changes {
        PassAction::Reconcile(next_item)
    } else {
        PassAction::SaveCursor
    }
}

/// A direct download address obtained at `created_at` must be fetched anew
/// at `now`.
pub fn download_url_stale(created_at: i64, now: i64) -> (r: bool)
    ensures
        r == (now - created_at > DOWNLOAD_URL_MAX_AGE_SECS),
{
    (now as i128 - created_at as i128) > DOWNLOAD_URL_MAX_AGE_SECS as i128
}

/// The next wake time: today's occurrence `proposed` of the configured time
/// of day if it is strictly after `now`, else one day later. `None` only
/// where that time does not fit an `i64`.
pub fn next_wake(now: i64, proposed: i64) -> (r: Option<i64>)
    ensures
        proposed > now ==> r == Some(proposed),
        proposed <= now && proposed + SECONDS_PER_DAY <= i64::MAX ==> r == Some(
            (proposed + SECONDS_PER_DAY) as i64,
        ),
        proposed <= now && proposed + SECONDS_PER_DAY > i64::MAX ==> r is None,
{
    if proposed <= now {
        proposed.checked_add(SECONDS_PER_DAY)
    } else {
        Some(proposed)
    }
}

/// Whole seconds to sleep from `now` until `wake`; none when `wake` has
/// passed.
pub fn sleep_seconds(now: i64, wake: i64) -> (r: u64)
    ensures
        wake > now ==> r == wake - now,
        wake <= now ==> r == 0,
{
    if wake > now {
        (wake as i128 - now as i128) as u64
    } else {
        0
    }
}

/// Seconds to sleep until the next occurrence, in local time, of the time
/// of day `time` (`HH:MM:SS`): today's if it is still ahead, else
/// tomorrow's. `None` when `time` is not a time of day, or when the local
/// calendar has no single such instant today.
pub fn seconds_until_next(time: &str) -> (r: Option<u64>)
    ensures
        time_of_day_of(time@) is None ==> r is None,
        r is Some ==> time_of_day_of(time@) is Some,
        r matches Some(d) ==> d < 4 * 86400,
{
    let seconds_of_day = match parse_time_of_day(time) {
        Some(t) => t,
        None => {
            return None;
        },
    };
    let now = utc_now_timestamp();
    let proposed = match local_today_at(now, seconds_of_day) {
        Some(p) => p,
        None => {
            return None;
        },
    };
    match next_wake(now, proposed) {
        Some(wake) => Some(sleep_seconds(now, wake)),
        None => None,
    }
}

/// The next step of a multipart transfer.
#[derive(PartialEq, Eq, Structural, Clone, Copy, Debug)]
pub enum TransferAction {
    /// The credentials are stale: refresh them before reading the source.
    RefreshToken,
    /// There is no direct download address yet, or it is too old: fetch one.
    FetchDownloadUrl,
    /// Read bytes `from..=to` of the source and upload them as this part.
    ReadPart(i32, u64, u64),
    /// Every part is uploaded, in order: ask the bucket to assemble them.
    Complete,
}

/// A multipart transfer of one file in progress: the plan still to walk,
/// the upload session, when the download address was fetched, and the part
/// handed out for reading but not yet uploaded.
pub struct MultipartTransfer {
    walk: Chunk,
    session: UploadSession,
    url_fetched_at: Option<i64>,
    pending: Option<(i32, u64, u64)>,
}

impl MultipartTransfer {
    /// Size of the file.
    pub closed spec fn spec_size(&self) -> int {
        self.walk.spec_size()
    }

    /// Number of parts the file is cut into.
    pub open spec fn part_total(&self) -> int {
        part_count(self.spec_size(), CHUNK_SIZE as int)
    }

    /// The upload session, with the parts uploaded so far.
    pub closed spec fn spec_session(&self) -> UploadSession {
        self.session
    }

    /// Number of parts uploaded so far.
    pub open spec fn uploaded(&self) -> int {
        self.spec_session().spec_parts().len() as int
    }

    /// When the download address in use was fetched, if one was.
    pub closed spec fn spec_url_fetched_at(&self) -> Option<i64> {
        self.url_fetched_at
    }

    /// The part handed out for reading and not yet uploaded, if any.
    pub closed spec fn spec_pending(&self) -> Option<(i32, u64, u64)> {
        self.pending
    }

    pub closed spec fn wf(&self) -> bool {
        &&& self.walk.wf()
        &&& self.walk.spec_chunk_size() == CHUNK_SIZE
        &&& self.walk.remaining() == chunk_plan(self.spec_size(), CHUNK_SIZE as int).skip(
            self.walk.next_index(),
        )
        &&& 0 <= self.walk.next_index() <= self.part_total()
        &&& parts_complete(part_numbers(self.session.spec_parts()), self.uploaded())
        &&& match self.pending {
            Some(p) => {
                &&& self.walk.next_index() == self.uploaded() + 1
                &&& entry_view(p) == chunk_plan(self.spec_size(), CHUNK_SIZE as int)[self.uploaded()]
            },
            None => self.walk.next_index() == self.uploaded(),
        }
    }

    /// Starts the transfer of a file of `size` bytes into a fresh upload
    /// session. The size must have passed the capacity check.
    pub fn start(size: u64, session: UploadSession) -> (r: Self)
        requires
            size > 0,
            part_count(size as int, CHUNK_SIZE as int) <= MAX_CHUNKS,
            session.spec_parts().len() == 0,
        ensures
            r.wf(),
            r.spec_size() == size,
            r.spec_session() == session,
            r.uploaded() == 0,
            r.spec_url_fetched_at() is None,
            r.spec_pending() is None,
    {
        let walk = Chunk::new(size, CHUNK_SIZE);
        let r = MultipartTransfer { walk, session, url_fetched_at: None, pending: None };
        assert(part_numbers(session.spec_parts()) =~= Seq::<int>::empty());
        r
    }

    /// The upload session, with the parts uploaded so far.
    pub fn session(&self) -> (r: &UploadSession)
        ensures
            *r == self.spec_session(),
    {
        &self.session
    }

    /// Decides the next step. Stale credentials are refreshed before any
    /// source read; a missing download address, or one older than
    /// `DOWNLOAD_URL_MAX_AGE_SECS` at `now`, is fetched anew; then the parts
    /// of the plan are handed out one at a time, in order, each only after
    /// the previous one was uploaded; once all are uploaded the transfer
    /// completes.
    pub fn next_action(&mut self, tokens_expired: bool, now: i64) -> (r: TransferAction)
        requires
            old(self).wf(),
        ensures
            final(self).wf(),
            final(self).spec_size() == old(self).spec_size(),
            final(self).spec_session() == old(self).spec_session(),
            final(self).spec_url_fetched_at() == old(self).spec_url_fetched_at(),
            tokens_expired ==> r == TransferAction::RefreshToken && *final(self) == *old(self),
            !tokens_expired && (old(self).spec_url_fetched_at() is None || now - old(
                self,
            ).spec_url_fetched_at().unwrap() > DOWNLOAD_URL_MAX_AGE_SECS) ==> r
                == TransferAction::FetchDownloadUrl && *final(self) == *old(self),
            r matches TransferAction::ReadPart(part, from, to) ==> {
                &&& !tokens_expired
                &&& old(self).spec_url_fetched_at() is Some
                &&& now - old(self).spec_url_fetched_at().unwrap() <= DOWNLOAD_URL_MAX_AGE_SECS
                &&& old(self).uploaded() < old(self).part_total()
                &&& entry_view((part, from, to)) == chunk_plan(
                    old(self).spec_size(),
                    CHUNK_SIZE as int,
                )[old(self).uploaded()]
                &&& final(self).spec_pending() == Some((part, from, to))
            },
            r == TransferAction::Complete ==> {
                &&& old(self).uploaded() == old(self).part_total()
                &&& parts_complete(
                    part_numbers(final(self).spec_session().spec_parts()),
                    final(self).part_total(),
                )
            },
            !tokens_expired && old(self).spec_url_fetched_at() is Some && now - old(
                self,
            ).spec_url_fetched_at().unwrap() <= DOWNLOAD_URL_MAX_AGE_SECS ==> (r is ReadPart
                <==> old(self).uploaded() < old(self).part_total()),
            !tokens_expired && old(self).spec_url_fetched_at() is Some && now - old(
                self,
            ).spec_url_fetched_at().unwrap() <= DOWNLOAD_URL_MAX_AGE_SECS && old(self).uploaded()
                == old(self).part_total() ==> r == TransferAction::Complete,
            r == TransferAction::RefreshToken ==> tokens_expired,
            r == TransferAction::FetchDownloadUrl ==> !tokens_expired && (old(
                self,
            ).spec_url_fetched_at() is None || now - old(self).spec_url_fetched_at().unwrap()
                > DOWNLOAD_URL_MAX_AGE_SECS),
    {
        if tokens_expired {
            return TransferAction::RefreshToken;
        }
        match self.url_fetched_at {
            None => {
                return TransferAction::FetchDownloadUrl;
            },
            Some(t) => {
                if download_url_stale(t, now) {
                    return TransferAction::FetchDownloadUrl;
                }
            },
        }
        match self.pending {
            Some(p) => {
                proof {
                    lemma_part_count_bounds(self.spec_size(), CHUNK_SIZE as int);
                }
                TransferAction::ReadPart(p.0, p.1, p.2)
            },
            None => {
                let ghost k = self.walk.next_index();
                match self.walk.next() {
                    Some(p) => {
                        self.pending = Some(p);
                        TransferAction::ReadPart(p.0, p.1, p.2)
                    },
                    None => {
                        proof {
                            let whole = chunk_plan(self.spec_size(), CHUNK_SIZE as int);
                            assert(whole.skip(k).len() == 0);
                        }
                        TransferAction::Complete
                    },
                }
            },
        }
    }

    /// Notes that a download address was fetched at `now`.
    pub fn url_fetched(&mut self, now: i64)
        requires
            old(self).wf(),
        ensures
            final(self).wf(),
            final(self).spec_url_fetched_at() == Some(now),
            final(self).spec_size() == old(self).spec_size(),
            final(self).spec_session() == old(self).spec_session(),
            final(self).spec_pending() == old(self).spec_pending(),
    {
        self.url_fetched_at = Some(now);
    }

    /// Records the upload of the part handed out last, with the integrity
    /// tag the bucket gave it.
    pub fn part_uploaded(&mut self, e_tag: Option<String>)
        requires
            old(self).wf(),
            old(self).spec_pending() is Some,
        ensures
            final(self).wf(),
            final(self).spec_pending() is None,
            final(self).uploaded() == old(self).uploaded() + 1,
            final(self).spec_session().spec_parts().last().part_number == old(
                self,
            ).spec_pending().unwrap().0,
            final(self).spec_session().spec_parts().last().e_tag@ == match e_tag {
                Some(t) => t@,
                None => Seq::<char>::empty(),
            },
            final(self).spec_session().spec_upload_id() == old(self).spec_session().spec_upload_id(),
            final(self).spec_size() == old(self).spec_size(),
            final(self).spec_url_fetched_at() == old(self).spec_url_fetched_at(),
    {
        let p = match self.pending {
            Some(p) => p,
            None => {
                return;
            },
        };
        let ghost before = self.session.spec_parts();
        self.session.record_part(p.0, e_tag);
        self.pending = None;
        proof {
            let after = self.session.spec_parts();
            let n = before.len() as int;
            assert forall|i: int| 0 <= i < after.len() implies #[trigger] part_numbers(after)[i]
                == i + 1 by {
                if i < n {
                    assert(after[i] == after.take(n)[i]);
                    assert(part_numbers(before)[i] == i + 1);
                }
            }
        }
    }
}

/// Capacity law: the capacity check counts exactly the parts the planner
/// produces, so the two never disagree on whether a file fits.
pub proof fn lemma_capacity_check_agrees_with_plan(size: int, chunk_size: int, max_chunks: int)
    requires
        chunk_size > 0,
    ensures
        (size > 0 && part_count(size, chunk_size) <= max_chunks) <==> (size > 0 && chunk_plan(
            size,
            chunk_size,
        ).len() <= max_chunks),
{
}

} // verus!
