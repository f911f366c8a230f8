//! The download engine without its I/O: what happens to one download, which
//! downloads may run, and what the whole run comes to.
//!
//! The caller owns the transfers. It asks the pool which download to start,
//! performs the request, and reports how it ended; the pool never lets more
//! than its limit run at once and gives its report only when every download
//! has been attempted. One failed download stops no other.

use crate::errors::GhrError;
use crate::errors::Result;
use crate::github::is_success;
use crate::github::status_is_success;
use crate::release::DownloadTask;
use crate::release::TaskView;
use crate::text::decimal;
use crate::text::to_decimal;
use vstd::prelude::*;
use vstd::string::StringExecFns;

verus! {

/// At which step a download failed.
#[derive(Clone, Copy, Debug, PartialEq, Eq, Structural)]
pub enum FailureKind {
    /// The request could not be sent.
    Request,
    /// The response had a status outside 2xx.
    Status,
    /// The body broke off while it was read.
    Transfer,
    /// The file could not be written.
    Write,
}

/// How one download ended.
#[derive(Debug)]
pub enum DownloadOutcome {
    /// The file was written; `bytes` is its size.
    Success { bytes: u64 },
    /// The download failed; other downloads are not affected.
    Failure { kind: FailureKind, message: String },
}

/// An outcome as the contracts see it.
pub enum OutcomeView {
    Success { bytes: u64 },
    Failure { kind: FailureKind, message: Seq<char> },
}

impl View for DownloadOutcome {
    type V = OutcomeView;

    open spec fn view(&self) -> OutcomeView {
        match self {
            DownloadOutcome::Success { bytes } => OutcomeView::Success { bytes: *bytes },
            DownloadOutcome::Failure { kind, message } => OutcomeView::Failure {
                kind: *kind,
                message: message@,
            },
        }
    }
}

/// The message of a failure; `detail` is the status of the response or the
/// text of the underlying error.
pub open spec fn failure_message(kind: FailureKind, task: TaskView, detail: Seq<char>) -> Seq<
    char,
> {
    match kind {
        FailureKind::Request => "Failed to download '"@ + task.name + "': "@ + detail,
        FailureKind::Status => "HTTP "@ + detail + " for '"@ + task.name + "'"@,
        FailureKind::Transfer => "Failed to read chunk for '"@ + task.name + "': "@ + detail,
        FailureKind::Write => "Failed to save '"@ + task.destination + "': "@ + detail,
    }
}

/// The failure of `task` at the step `kind`.
pub fn failure(kind: FailureKind, task: &DownloadTask, detail: &str) -> (r: DownloadOutcome)
    ensures
        r@ == (OutcomeView::Failure { kind, message: failure_message(kind, task@, detail@) }),
{
    let mut m: String;
    match kind {
        FailureKind::Request => {
            m = String::from_str("Failed to download '");
            m.append(task.name.as_str());
            m.append("': ");
            m.append(detail);
        },
        FailureKind::Status => {
            m = String::from_str("HTTP ");
            m.append(detail);
            m.append(" for '");
            m.append(task.name.as_str());
            m.append("'");
        },
        FailureKind::Transfer => {
            m = String::from_str("Failed to read chunk for '");
            m.append(task.name.as_str());
            m.append("': ");
            m.append(detail);
        },
        FailureKind::Write => {
            m = String::from_str("Failed to save '");
            m.append(task.destination.as_str());
            m.append("': ");
            m.append(detail);
        },
    }
    DownloadOutcome::Failure { kind, message: m }
}

/// What the status of the response means for a download: with a status
/// outside 2xx the download has failed, else its body is to be read.
pub fn check_download_status(task: &DownloadTask, code: u16, status: &str) -> (r: Option<
    DownloadOutcome,
>)
    ensures
        r is None <==> is_success(code),
        r matches Some(o) ==> o@ == (OutcomeView::Failure {
            kind: FailureKind::Status,
            message: failure_message(FailureKind::Status, task@, status@),
        }),
{
    if status_is_success(code) {
        None
    } else {
        Some(failure(FailureKind::Status, task, status))
    }
}

/// How far a download has come.
#[derive(Clone, Copy, Debug, PartialEq, Eq, Structural)]
pub struct Progress {
    /// The position of the download in the plan.
    pub task: usize,
    /// The bytes received so far.
    pub received: u64,
    /// The bytes expected in all.
    pub total: u64,
}

/// The bytes received once a chunk of `len` bytes has come in on top of
/// `received`. The count stops at the largest number it can hold.
pub open spec fn received_after(received: u64, len: usize) -> u64 {
    if received + len <= u64::MAX {
        (received + len) as u64
    } else {
        u64::MAX
    }
}

/// The progress of download `task` after a chunk of `len` bytes.
pub fn on_chunk(task: usize, plan: &DownloadTask, received: u64, len: usize) -> (p: Progress)
    ensures
        p == (Progress { task, received: received_after(received, len), total: plan.size }),
        p.received >= received,
{
    let more: u64 = if len as u128 <= u64::MAX as u128 {
        len as u64
    } else {
        u64::MAX
    };
    let sum = if received <= u64::MAX - more {
        received + more
    } else {
        u64::MAX
    };
    Progress { task, received: sum, total: plan.size }
}

/// The outcome of a download whose body was read to the end and written.
pub fn completed(received: u64) -> (r: DownloadOutcome)
    ensures
        r@ == (OutcomeView::Success { bytes: received }),
{
    DownloadOutcome::Success { bytes: received }
}

/// Where a download stands in the pool.
#[derive(Debug)]
pub enum Slot {
    /// Not started yet.
    Pending,
    /// Started and not yet reported back.
    InFlight,
    /// Attempted, with its outcome.
    Done(DownloadOutcome),
}

/// A slot as the contracts see it.
pub enum SlotView {
    Pending,
    InFlight,
    Done(OutcomeView),
}

impl View for Slot {
    type V = SlotView;

    open spec fn view(&self) -> SlotView {
        match self {
            Slot::Pending => SlotView::Pending,
            Slot::InFlight => SlotView::InFlight,
            Slot::Done(outcome) => SlotView::Done(outcome@),
        }
    }
}

/// How many of the slots are in flight.
pub open spec fn count_in_flight(slots: Seq<SlotView>) -> nat
    decreases slots.len(),
{
    if slots.len() == 0 {
        0
    } else {
        count_in_flight(slots.drop_last()) + if slots.last() is InFlight {
            1nat
        } else {
            0nat
        }
    }
}

/// The pool as the contracts see it.
pub struct PoolView {
    /// How many downloads may be in flight at once.
    pub limit: nat,
    /// How many downloads have been started; they are started in the order
    /// of the plan.
    pub started: nat,
    /// One slot for each download of the plan.
    pub slots: Seq<SlotView>,
}

impl PoolView {
    /// How many downloads are in flight.
    pub open spec fn in_flight(self) -> nat {
        count_in_flight(self.slots)
    }

    /// What holds of the pool at all times: the limit is at least one and
    /// never exceeded, and exactly the downloads before `started` have left
    /// the pending state.
    pub open spec fn wf(self) -> bool {
        &&& self.limit >= 1
        &&& self.in_flight() <= self.limit
        &&& self.started <= self.slots.len()
        &&& forall|i: int| 0 <= i < self.started ==> !((#[trigger] self.slots[i]) is Pending)
        &&& forall|i: int| self.started <= i < self.slots.len() ==> (#[trigger] self.slots[i])
            is Pending
    }

    /// Every download has been attempted.
    pub open spec fn finished(self) -> bool {
        forall|i: int| 0 <= i < self.slots.len() ==> (#[trigger] self.slots[i]) is Done
    }

    /// A download can be started now.
    pub open spec fn can_start(self) -> bool {
        self.started < self.slots.len() && self.in_flight() < self.limit
    }
}

/// Putting `v` into slot `i` changes the count by what the slot loses and
/// what it gains.
pub proof fn lemma_count_update(slots: Seq<SlotView>, i: int, v: SlotView)
    requires
        0 <= i < slots.len(),
    ensures
        count_in_flight(slots.update(i, v)) + (if slots[i] is InFlight {
            1nat
        } else {
            0nat
        }) == count_in_flight(slots) + (if v is InFlight {
            1nat
        } else {
            0nat
        }),
    decreases slots.len(),
{
    let after = slots.update(i, v);
    if i == slots.len() - 1 {
        assert(after.drop_last() =~= slots.drop_last());
    } else {
        lemma_count_update(slots.drop_last(), i, v);
        assert(after.drop_last() =~= slots.drop_last().update(i, v));
    }
}

/// Among slots that are all pending none is in flight.
pub proof fn lemma_count_none_pending(slots: Seq<SlotView>)
    requires
        forall|i: int| 0 <= i < slots.len() ==> (#[trigger] slots[i]) is Pending,
    ensures
        count_in_flight(slots) == 0,
    decreases slots.len(),
{
    if slots.len() > 0 {
        let rest = slots.drop_last();
        assert forall|i: int| 0 <= i < rest.len() implies (#[trigger] rest[i]) is Pending by {
            assert(rest[i] == slots[i]);
        }
        lemma_count_none_pending(rest);
    }
}

/// Where the count is zero no slot is in flight.
pub proof fn lemma_count_zero(slots: Seq<SlotView>, i: int)
    requires
        0 <= i < slots.len(),
        count_in_flight(slots) == 0,
    ensures
        !(slots[i] is InFlight),
    decreases slots.len(),
{
    if i < slots.len() - 1 {
        lemma_count_zero(slots.drop_last(), i);
    }
}

/// While a download is left to attempt, one is in flight or one can be
/// started: the pool never comes to a halt before the plan is done.
pub proof fn law_pool_never_stalls(pool: PoolView)
    requires
        pool.wf(),
        !pool.finished(),
    ensures
        pool.in_flight() > 0 || pool.can_start(),
{
    if pool.in_flight() == 0 && pool.started == pool.slots.len() {
        assert forall|i: int| 0 <= i < pool.slots.len() implies (#[trigger] pool.slots[i])
            is Done by {
            lemma_count_zero(pool.slots, i);
        }
    }
}

/// A finished pool has nothing in flight and nothing left to start.
pub proof fn law_finished_pool_is_idle(pool: PoolView)
    requires
        pool.wf(),
        pool.finished(),
    ensures
        pool.in_flight() == 0,
        pool.started == pool.slots.len(),
    decreases pool.slots.len(),
{
    if pool.started < pool.slots.len() {
        assert(pool.slots[pool.started as int] is Pending);
    }
    lemma_done_not_in_flight(pool.slots);
}

/// Among slots that are all done none is in flight.
proof fn lemma_done_not_in_flight(slots: Seq<SlotView>)
    requires
        forall|i: int| 0 <= i < slots.len() ==> (#[trigger] slots[i]) is Done,
    ensures
        count_in_flight(slots) == 0,
    decreases slots.len(),
{
    if slots.len() > 0 {
        let rest = slots.drop_last();
        assert forall|i: int| 0 <= i < rest.len() implies (#[trigger] rest[i]) is Done by {
            assert(rest[i] == slots[i]);
        }
        lemma_done_not_in_flight(rest);
    }
}

/// What a run of downloads came to: the assets that were downloaded and,
/// for each that was not, its name and the message of its failure, both in
/// the order of the plan.
#[derive(Debug)]
pub struct DownloadReport {
    pub succeeded: Vec<String>,
    pub failed: Vec<(String, String)>,
}

/// A report as the contracts see it.
pub struct ReportView {
    pub succeeded: Seq<Seq<char>>,
    pub failed: Seq<(Seq<char>, Seq<char>)>,
}

impl View for DownloadReport {
    type V = ReportView;

    open spec fn view(&self) -> ReportView {
        ReportView {
            succeeded: self.succeeded@.map_values(|s: String| s@),
            failed: self.failed@.map_values(|f: (String, String)| (f.0@, f.1@)),
        }
    }
}

/// The report on a plan whose downloads stand as `slots` say. A download
/// that has not been attempted appears on neither list.
pub open spec fn aggregated(names: Seq<Seq<char>>, slots: Seq<SlotView>) -> ReportView
    recommends
        names.len() == slots.len(),
    decreases slots.len(),
{
    if slots.len() == 0 || names.len() == 0 {
        ReportView { succeeded: Seq::empty(), failed: Seq::empty() }
    } else {
        let before = aggregated(names.drop_last(), slots.drop_last());
        match slots.last() {
            SlotView::Done(OutcomeView::Success { .. }) => ReportView {
                succeeded: before.succeeded.push(names.last()),
                failed: before.failed,
            },
            SlotView::Done(OutcomeView::Failure { message, .. }) => ReportView {
                succeeded: before.succeeded,
                failed: before.failed.push((names.last(), message)),
            },
            _ => before,
        }
    }
}

/// The names of the downloads of a plan.
pub open spec fn names_of(tasks: Seq<DownloadTask>) -> Seq<Seq<char>> {
    tasks.map_values(|t: DownloadTask| t.name@)
}

/// The messages of a list of failures, each but the first behind `, `.
pub open spec fn joined_messages(failed: Seq<(Seq<char>, Seq<char>)>) -> Seq<char>
    decreases failed.len(),
{
    if failed.len() == 0 {
        Seq::empty()
    } else if failed.len() == 1 {
        failed[0].1
    } else {
        joined_messages(failed.drop_last()) + ", "@ + failed.last().1
    }
}

/// Every download of a finished plan is on exactly one of the two lists.
pub proof fn law_report_accounts_for_every_download(names: Seq<Seq<char>>, slots: Seq<SlotView>)
    requires
        names.len() == slots.len(),
        forall|i: int| 0 <= i < slots.len() ==> (#[trigger] slots[i]) is Done,
    ensures
        aggregated(names, slots).succeeded.len() + aggregated(names, slots).failed.len()
            == slots.len(),
    decreases slots.len(),
{
    if slots.len() > 0 {
        let rest = slots.drop_last();
        assert forall|i: int| 0 <= i < rest.len() implies (#[trigger] rest[i]) is Done by {
            assert(rest[i] == slots[i]);
        }
        assert(slots.last() == slots[slots.len() - 1]);
        law_report_accounts_for_every_download(names.drop_last(), rest);
    }
}

impl DownloadReport {
    /// Whether no download failed.
    pub fn is_success(&self) -> (b: bool)
        ensures
            b == (self@.failed.len() == 0),
    {
        self.failed.len() == 0
    }

    /// The line that sums the run up.
    pub fn summary(&self) -> (r: String)
        ensures
            r@ == "Download complete: "@ + decimal(self@.succeeded.len()) + " succeeded, "@
                + decimal(self@.failed.len()) + " failed"@,
    {
        let mut s = String::from_str("Download complete: ");
        s.append(to_decimal(self.succeeded.len() as u64).as_str());
        s.append(" succeeded, ");
        s.append(to_decimal(self.failed.len() as u64).as_str());
        s.append(" failed");
        s
    }

    /// The result of the run as a whole: an error that lists the failures
    /// where there is one, after every download has been attempted.
    pub fn to_result(&self) -> (r: Result<()>)
        ensures
            r is Ok <==> self@.failed.len() == 0,
            r matches Err(e) ==> e matches GhrError::Generic(m) && m@ == "Failed to download "@
                + decimal(self@.failed.len()) + " asset(s): "@ + joined_messages(self@.failed),
    {
        let n = self.failed.len();
        if n == 0 {
            return Ok(());
        }
        let ghost failed = self@.failed;
        let mut joined = String::new();
        let mut i: usize = 0;
        assert(failed.take(0) =~= Seq::empty());
        while i < n
            invariant
                i <= n,
                n == self.failed@.len(),
                failed == self@.failed,
                joined@ == joined_messages(failed.take(i as int)),
            decreases n - i,
        {
            proof {
                let upto = failed.take(i + 1);
                assert(upto.drop_last() =~= failed.take(i as int));
                assert(upto.last() == failed[i as int]);
                assert(failed[i as int].1 == self.failed@[i as int].1@);
                if i == 0 {
                    assert(upto[0] == failed[0]);
                }
            }
            if i > 0 {
                joined.append(", ");
            }
            joined.append(self.failed[i].1.as_str());
            assert(joined@ =~= joined_messages(failed.take(i + 1)));
            i += 1;
        }
        assert(failed.take(n as int) =~= failed);
        let mut m = String::from_str("Failed to download ");
        m.append(to_decimal(n as u64).as_str());
        m.append(" asset(s): ");
        m.append(joined.as_str());
        Err(GhrError::Generic(m))
    }
}

/// A pool of downloads with a bound on how many run at once.
pub struct DownloadPool {
    limit: usize,
    next: usize,
    in_flight: usize,
    slots: Vec<Slot>,
}

impl View for DownloadPool {
    type V = PoolView;

    closed spec fn view(&self) -> PoolView {
        PoolView {
            limit: self.limit as nat,
            started: self.next as nat,
            slots: self.slots@.map_values(|s: Slot| s@),
        }
    }
}

impl DownloadPool {
    /// The pool's counters agree with its slots. `new` makes such a pool and
    /// every method keeps it so.
    pub closed spec fn wf(&self) -> bool {
        &&& self@.wf()
        &&& self.in_flight == self@.in_flight()
    }

    /// A pool whose counters agree with its slots keeps within its limit.
    pub proof fn lemma_wf(&self)
        requires
            self.wf(),
        ensures
            self@.wf(),
    {
    }

    /// A pool for a plan of `total` downloads, of which at most `limit` run
    /// at once. Nothing has been started.
    pub fn new(total: usize, limit: usize) -> (pool: DownloadPool)
        requires
            limit >= 1,
        ensures
            pool@.limit == limit,
            pool@.started == 0,
            pool@.slots == Seq::new(total as nat, |i: int| SlotView::Pending),
            pool.wf(),
            pool@.wf(),
    {
        let mut slots: Vec<Slot> = Vec::new();
        let mut i: usize = 0;
        while i < total
            invariant
                i <= total,
                slots@.len() == i,
                forall|j: int| 0 <= j < i ==> slots@[j]@ is Pending,
            decreases total - i,
        {
            slots.push(Slot::Pending);
            i += 1;
        }
        proof {
            let views = slots@.map_values(|s: Slot| s@);
            assert(views =~= Seq::new(total as nat, |i: int| SlotView::Pending));
            lemma_count_none_pending(views);
        }
        DownloadPool { limit, next: 0, in_flight: 0, slots }
    }

    /// How many downloads the plan has.
    pub fn total(&self) -> (n: usize)
        ensures
            n == self@.slots.len(),
    {
        self.slots.len()
    }

    /// How many downloads are in flight.
    pub fn in_flight(&self) -> (n: usize)
        requires
            self.wf(),
        ensures
            n == self@.in_flight(),
            n <= self@.limit,
    {
        self.in_flight
    }

    /// The download to start now, if one may be started: the next of the
    /// plan, as long as fewer than the limit are in flight. The download
    /// counts as in flight from this call on.
    pub fn next_to_start(&mut self) -> (r: Option<usize>)
        requires
            old(self).wf(),
        ensures
            final(self).wf(),
            final(self)@.wf(),
            final(self)@.limit == old(self)@.limit,
            r is Some <==> old(self)@.can_start(),
            match r {
                Some(i) => {
                    &&& i == old(self)@.started
                    &&& final(self)@.started == i + 1
                    &&& final(self)@.slots == old(self)@.slots.update(i as int, SlotView::InFlight)
                    &&& final(self)@.in_flight() == old(self)@.in_flight() + 1
                },
                None => final(self)@ == old(self)@,
            },
    {
        if self.next < self.slots.len() && self.in_flight < self.limit {
            let i = self.next;
            let ghost before = self@.slots;
            self.slots.set(i, Slot::InFlight);
            self.next = i + 1;
            self.in_flight = self.in_flight + 1;
            proof {
                let after = self.slots@.map_values(|s: Slot| s@);
                assert(after =~= before.update(i as int, SlotView::InFlight));
                lemma_count_update(before, i as int, SlotView::InFlight);
                assert(before[i as int] is Pending);
            }
            Some(i)
        } else {
            None
        }
    }

    /// Whether download `task` has been started and not yet reported back.
    pub fn is_in_flight(&self, task: usize) -> (b: bool)
        ensures
            b == (task < self@.slots.len() && self@.slots[task as int] is InFlight),
    {
        if task < self.slots.len() {
            match &self.slots[task] {
                Slot::InFlight => true,
                _ => false,
            }
        } else {
            false
        }
    }

    /// Records how download `task`, which is in flight, ended. Its place
    /// becomes free for the next download.
    pub fn complete(&mut self, task: usize, outcome: DownloadOutcome)
        requires
            old(self).wf(),
            task < old(self)@.slots.len(),
            old(self)@.slots[task as int] is InFlight,
        ensures
            final(self).wf(),
            final(self)@.wf(),
            final(self)@.limit == old(self)@.limit,
            final(self)@.started == old(self)@.started,
            final(self)@.slots == old(self)@.slots.update(task as int, SlotView::Done(outcome@)),
            final(self)@.in_flight() == old(self)@.in_flight() - 1,
    {
        let ghost before = self@.slots;
        let ghost done = SlotView::Done(outcome@);
        proof {
            lemma_count_update(before, task as int, done);
        }
        self.slots.set(task, Slot::Done(outcome));
        self.in_flight = self.in_flight - 1;
        proof {
            let after = self.slots@.map_values(|s: Slot| s@);
            assert(after =~= before.update(task as int, done));
        }
    }

    /// Whether every download has been attempted.
    pub fn is_finished(&self) -> (b: bool)
        requires
            self.wf(),
        ensures
            b == self@.finished(),
    {
        proof {
            let pool = self@;
            if pool.finished() {
                law_finished_pool_is_idle(pool);
            } else {
                law_pool_never_stalls(pool);
            }
        }
        self.next == self.slots.len() && self.in_flight == 0
    }

    /// The report on the plan `tasks` that the pool was made for. It is
    /// given only once every download has been attempted.
    pub fn report(&self, tasks: &[DownloadTask]) -> (r: DownloadReport)
        requires
            self@.finished(),
            tasks@.len() == self@.slots.len(),
        ensures
            r@ == aggregated(names_of(tasks@), self@.slots),
            r@.succeeded.len() + r@.failed.len() == tasks@.len(),
    {
        let ghost names = names_of(tasks@);
        let ghost slots = self@.slots;
        let mut succeeded: Vec<String> = Vec::new();
        let mut failed: Vec<(String, String)> = Vec::new();
        let n = tasks.len();
        let mut i: usize = 0;
        assert(names.take(0) =~= Seq::empty());
        assert(slots.take(0) =~= Seq::empty());
        while i < n
            invariant
                i <= n,
                n == tasks@.len(),
                n == self.slots@.len(),
                names == names_of(tasks@),
                slots == self@.slots,
                slots == self.slots@.map_values(|s: Slot| s@),
                succeeded@.map_values(|s: String| s@) == aggregated(
                    names.take(i as int),
                    slots.take(i as int),
                ).succeeded,
                failed@.map_values(|f: (String, String)| (f.0@, f.1@)) == aggregated(
                    names.take(i as int),
                    slots.take(i as int),
                ).failed,
            decreases n - i,
        {
            let ghost ok_before = succeeded@.map_values(|s: String| s@);
            let ghost bad_before = failed@.map_values(|f: (String, String)| (f.0@, f.1@));
            proof {
                assert(names.take(i + 1).drop_last() =~= names.take(i as int));
                assert(slots.take(i + 1).drop_last() =~= slots.take(i as int));
                assert(names.take(i + 1).last() == tasks@[i as int].name@);
                assert(slots.take(i + 1).last() == self.slots@[i as int]@);
            }
            match &self.slots[i] {
                Slot::Done(DownloadOutcome::Success { .. }) => {
                    succeeded.push(tasks[i].name.clone());
                    assert(succeeded@.map_values(|s: String| s@) =~= ok_before.push(
                        tasks@[i as int].name@,
                    ));
                },
                Slot::Done(DownloadOutcome::Failure { message, .. }) => {
                    failed.push((tasks[i].name.clone(), message.clone()));
                    assert(failed@.map_values(|f: (String, String)| (f.0@, f.1@))
                        =~= bad_before.push((tasks@[i as int].name@, message@)));
                },
                _ => {},
            }
            i += 1;
        }
        proof {
            assert(names.take(n as int) =~= names);
            assert(slots.take(n as int) =~= slots);
            law_report_accounts_for_every_download(names, slots);
        }
        DownloadReport { succeeded, failed }
    }
}

} // verus!
