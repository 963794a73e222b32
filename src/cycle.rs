use vstd::prelude::*;
use crate::email::{EmailId, EmailSummary};
use crate::merge::{merge_summaries, merged_from};

verus! {

/// Paging of one scheduled poll cycle: pages 0, 1, ... are fetched in turn,
/// at most `pages_to_fetch` of them, stopping at the first empty page.
pub struct PollCycle {
    pub pages_to_fetch: u32,
    /// Pages fetched so far (all of them non-empty).
    pub pages_done: u32,
    /// An empty page was returned: no further page is fetched.
    pub exhausted: bool,
    /// Summaries of the fetched pages, in fetch order.
    pub fetched: Vec<EmailSummary>,
}

impl PollCycle {
    pub open spec fn well_formed(&self) -> bool {
        self.pages_done <= self.pages_to_fetch
    }

    /// The page to fetch next, if any.
    pub open spec fn pending_page(&self) -> Option<u32> {
        if self.exhausted || self.pages_done >= self.pages_to_fetch {
            None
        } else {
            Some(self.pages_done)
        }
    }

    /// A cycle that has fetched nothing yet.
    pub fn new(pages_to_fetch: u32) -> (r: PollCycle)
        ensures
            r.well_formed(),
            r.pages_to_fetch == pages_to_fetch,
            r.pages_done == 0,
            !r.exhausted,
            r.fetched@.len() == 0,
    {
        PollCycle { pages_to_fetch, pages_done: 0, exhausted: false, fetched: Vec::new() }
    }

    /// The page to fetch next: page 0 first, then each following page, until
    /// `pages_to_fetch` pages are in or a page came back empty.
    pub fn next_page(&self) -> (r: Option<u32>)
        ensures
            r == self.pending_page(),
    {
        if self.exhausted || self.pages_done >= self.pages_to_fetch {
            None
        } else {
            Some(self.pages_done)
        }
    }

    /// Records the result of fetching the pending page: an empty page ends
    /// the paging; otherwise its summaries join the fetched ones.
    pub fn page_fetched(&mut self, items: Vec<EmailSummary>)
        requires
            old(self).well_formed(),
            old(self).pending_page() is Some,
        ensures
            final(self).well_formed(),
            final(self).pages_to_fetch == old(self).pages_to_fetch,
            items@.len() == 0 ==> final(self).exhausted && final(self).fetched == old(
                self,
            ).fetched && final(self).pages_done == old(self).pages_done,
            items@.len() > 0 ==> !final(self).exhausted && final(self).fetched@ == old(
                self,
            ).fetched@ + items@ && final(self).pages_done == old(self).pages_done + 1,
    {
        if items.len() == 0 {
            self.exhausted = true;
            return;
        }
        let mut items = items;
        let ghost added = items@;
        self.fetched.append(&mut items);
        self.pages_done = self.pages_done + 1;
        assert(self.fetched@ == old(self).fetched@ + added);
    }

    /// The cycle's batch: the fetched summaries merged and deduplicated, newest
    /// identifier first; `None` when nothing was fetched, which ends the cycle
    /// without touching the cache.
    pub fn finish(&self) -> (r: Option<Vec<EmailSummary>>)
        ensures
            match r {
                Some(batch) => self.fetched@.len() > 0 && merged_from(batch@, self.fetched@),
                None => self.fetched@.len() == 0,
            },
    {
        if self.fetched.len() == 0 {
            None
        } else {
            Some(merge_summaries(&self.fetched))
        }
    }
}

/// Identifiers of `items`, in order, whose body is not among `cached`.
pub open spec fn uncached_ids(items: Seq<EmailSummary>, cached: Seq<EmailId>) -> Seq<EmailId>
    decreases items.len(),
{
    if items.len() == 0 {
        Seq::empty()
    } else if cached.contains(items.last().id) {
        uncached_ids(items.drop_last(), cached)
    } else {
        uncached_ids(items.drop_last(), cached).push(items.last().id)
    }
}

/// Identifiers whose bodies a sync fetches: those of `items` (in order) whose
/// body is not cached yet; cached bodies are never fetched again.
pub fn bodies_to_fetch(items: &Vec<EmailSummary>, cached: &Vec<EmailId>) -> (r: Vec<EmailId>)
    ensures
        r@ == uncached_ids(items@, cached@),
{
    let mut r: Vec<EmailId> = Vec::new();
    let mut i: usize = 0;
    while i < items.len()
        invariant
            0 <= i <= items@.len(),
            r@ == uncached_ids(items@.take(i as int), cached@),
        decreases items.len() - i,
    {
        let id = items[i].id;
        assert(items@.take(i + 1).drop_last() =~= items@.take(i as int));
        let mut found = false;
        let mut j: usize = 0;
        while j < cached.len()
            invariant
                0 <= j <= cached@.len(),
                found <==> exists|k: int| 0 <= k < j && cached@[k] == id,
            decreases cached.len() - j,
        {
            if cached[j] == id {
                found = true;
            }
            j = j + 1;
        }
        if !found {
            r.push(id);
        }
        i = i + 1;
    }
    assert(items@.take(items@.len() as int) =~= items@);
    r
}

/// When the daemon's main loop runs the next poll cycle; times are
/// milliseconds on a monotonic clock.
#[derive(Debug, Clone, Copy)]
pub struct Schedule {
    pub next_run_ms: u64,
}

impl Schedule {
    /// A schedule whose first cycle is due at once.
    pub fn starting_at(now_ms: u64) -> (r: Schedule)
        ensures
            r.next_run_ms == now_ms,
    {
        Schedule { next_run_ms: now_ms }
    }

    /// Whether a cycle runs on this iteration: when its time has come, or
    /// when the push listener signalled a change since the last iteration
    /// (however many signals were queued, one cycle runs).
    pub fn is_due(&self, now_ms: u64, woken: bool) -> (r: bool)
        ensures
            r == (woken || now_ms >= self.next_run_ms),
    {
        woken || now_ms >= self.next_run_ms
    }

    /// Records a cycle that started at `now_ms`: the next one is due
    /// `interval_secs` seconds later (saturating at the clock's end).
    pub fn ran_at(&mut self, now_ms: u64, interval_secs: u64)
        ensures
            final(self).next_run_ms == if now_ms + interval_secs * 1000 > u64::MAX {
                u64::MAX as int
            } else {
                now_ms + interval_secs * 1000
            },
    {
        let step: u64 = if interval_secs > u64::MAX / 1000 {
            u64::MAX
        } else {
            interval_secs * 1000
        };
        self.next_run_ms = if now_ms > u64::MAX - step {
            u64::MAX
        } else {
            now_ms + step
        };
    }
}

/// How an IDLE wait of the push listener ended.
#[derive(Debug, Clone, Copy, PartialEq, Eq, Structural)]
pub enum IdleOutcome {
    /// The server reported a change to the mailbox.
    MailboxChanged,
    /// The wait reached its timeout.
    TimedOut,
    /// Entering IDLE or waiting in it failed.
    Failed,
}

/// What the push listener does after an IDLE wait.
#[derive(Debug, Clone, Copy, PartialEq, Eq, Structural)]
pub enum IdleAction {
    /// Signal the main loop, then wait again on the same session.
    SignalAndWait,
    /// Wait again on the same session (re-entering IDLE keeps it fresh).
    Wait,
    /// Drop the session and reconnect after a short backoff.
    Reconnect,
}

/// Seconds of one IDLE wait before the listener re-enters IDLE.
pub const IDLE_WAIT_SECS: u64 = 60;

/// The push listener's decision after one IDLE wait.
pub fn after_idle(outcome: IdleOutcome) -> (r: IdleAction)
    ensures
        r == match outcome {
            IdleOutcome::MailboxChanged => IdleAction::SignalAndWait,
            IdleOutcome::TimedOut => IdleAction::Wait,
            IdleOutcome::Failed => IdleAction::Reconnect,
        },
{
    match outcome {
        IdleOutcome::MailboxChanged => IdleAction::SignalAndWait,
        IdleOutcome::TimedOut => IdleAction::Wait,
        IdleOutcome::Failed => IdleAction::Reconnect,
    }
}

} // verus!
