//! The debounced task scheduler.
//!
//! A task is registered under a caller-chosen id and runs once after a fixed
//! delay, unless it is cancelled or replaced first. Registering an id again
//! replaces the pending task: only the newest registration may run. A drain
//! tells every pending task to run at once.
//!
//! `Scheduler` holds the table of pending tasks and makes every decision:
//! which registration owns an id, whether a task that woke up may run, and
//! whether a finished task may remove the entry of its id. The caller waits
//! (for the delay, for a token) and runs the work, and reports each wake-up
//! and each completion back.
//!
//! `SchedulerModel` is the table as a mathematical value; the laws at the end
//! of the module are stated over it.

use std::collections::HashMap;
use std::time::Duration;
use tokio_util::sync::CancellationToken;
use vstd::prelude::*;

verus! {

broadcast use vstd::std_specs::hash::group_hash_axioms;

/// The cancellation token of `tokio_util`. Nothing inside it is visible to
/// the proofs: it is created, handed on and fired.
#[verifier::external_type_specification]
#[verifier::external_body]
pub struct ExCancellationToken(tokio_util::sync::CancellationToken);

/// `CancellationToken::new`. Nothing is claimed of the token.
#[verifier::external_body]
fn new_token() -> (token: CancellationToken) {
    CancellationToken::new()
}

/// `CancellationToken::cancel`: wakes whoever waits for the token. Nothing
/// is claimed of it.
#[verifier::external_body]
fn fire_token(token: &CancellationToken) {
    token.cancel()
}

/// `CancellationToken::clone`: a second handle to the same token. Nothing is
/// claimed of it.
#[verifier::external_body]
fn share_token(token: &CancellationToken) -> (copy: CancellationToken) {
    token.clone()
}

/// How long a caller that waits for a drain sleeps between two looks at the
/// table, in milliseconds.
pub const DRAIN_POLL_MILLIS: u64 = 100;

/// Why a waiting task woke up.
#[derive(Clone, Copy, Debug, PartialEq, Eq, Structural)]
pub enum Wake {
    /// Its own cancellation token fired.
    Cancelled,
    /// The start token it was given fired: a drain was requested.
    Drained,
    /// Its delay elapsed.
    Elapsed,
}

/// What the table knows of one pending task.
#[derive(Clone, Copy, Debug, PartialEq, Eq, Structural)]
pub struct TaskState {
    /// The logical time of the registration; no two registrations share one.
    pub timestamp: u64,
    /// Whether cancellation was requested.
    pub cancelled: bool,
    /// Whether the work has started.
    pub running: bool,
}

struct TaskData {
    token: CancellationToken,
    state: TaskState,
}

/// What a registration hands to the caller that will wait and run the work.
pub struct Ticket {
    pub task_id: u64,
    pub timestamp: u64,
    /// Fires when this registration is cancelled or replaced.
    pub cancel_token: CancellationToken,
    /// Fires when a drain is requested.
    pub start_token: CancellationToken,
    /// How long to wait before the work runs.
    pub delay: Duration,
    /// Whether an earlier registration of the id was replaced.
    pub replaced: bool,
    /// The timestamp of the registration that was replaced, if one was: the
    /// one whose token `add_task` fired.
    pub superseded: Option<u64>,
}

/// One thing that can happen to the table.
pub enum SchedulerEvent {
    Add(u64),
    Cancel(u64),
    Drain,
    Begin(u64, u64, Wake),
    Finish(u64, u64),
}

/// The table of pending tasks as a mathematical value.
pub struct SchedulerModel {
    pub pending: Map<u64, TaskState>,
    /// The timestamp of the next registration.
    pub clock: nat,
    /// Every registration with a smaller timestamp was told to run at once.
    pub drain_mark: nat,
}

impl SchedulerModel {
    /// The invariant of the table: every timestamp in it was handed out, and
    /// the drain mark is no later than the clock.
    pub open spec fn wf(self) -> bool {
        &&& self.drain_mark <= self.clock
        &&& self.clock <= u64::MAX
        &&& forall|id: u64| #[trigger]
            self.pending.contains_key(id) ==> self.pending[id].timestamp < self.clock
    }

    /// Whether a further registration is possible.
    pub open spec fn can_add(self) -> bool {
        self.clock < u64::MAX
    }

    /// The table after `id` is registered: a fresh entry with the current
    /// clock as its timestamp replaces whatever the id had.
    pub open spec fn added(self, id: u64) -> SchedulerModel {
        if self.can_add() {
            SchedulerModel {
                pending: self.pending.insert(
                    id,
                    TaskState { timestamp: self.clock as u64, cancelled: false, running: false },
                ),
                clock: self.clock + 1,
                drain_mark: self.drain_mark,
            }
        } else {
            self
        }
    }

    /// The table after cancellation of `id` is requested: the entry stays,
    /// marked.
    pub open spec fn cancelled(self, id: u64) -> SchedulerModel {
        if self.pending.contains_key(id) {
            SchedulerModel {
                pending: self.pending.insert(
                    id,
                    TaskState {
                        timestamp: self.pending[id].timestamp,
                        cancelled: true,
                        running: self.pending[id].running,
                    },
                ),
                clock: self.clock,
                drain_mark: self.drain_mark,
            }
        } else {
            self
        }
    }

    /// The table after a drain is requested.
    pub open spec fn drained(self) -> SchedulerModel {
        SchedulerModel { pending: self.pending, clock: self.clock, drain_mark: self.clock }
    }

    /// Whether the entry of `id` was told to run at once.
    pub open spec fn signalled(self, id: u64) -> bool {
        self.pending.contains_key(id) && self.pending[id].timestamp < self.drain_mark
    }

    /// Whether the entry of `id` belongs to the registration `timestamp`.
    pub open spec fn owns(self, id: u64, timestamp: u64) -> bool {
        self.pending.contains_key(id) && self.pending[id].timestamp == timestamp
    }

    /// Whether the registration `timestamp` of `id`, having woken for `wake`,
    /// may run its work: it still owns the entry, was not cancelled, has not
    /// started, and did not wake for its cancellation; a wake-up for a drain
    /// counts only where the registration was signalled.
    pub open spec fn may_begin(self, id: u64, timestamp: u64, wake: Wake) -> bool {
        &&& self.owns(id, timestamp)
        &&& !self.pending[id].cancelled
        &&& !self.pending[id].running
        &&& wake != Wake::Cancelled
        &&& wake == Wake::Drained ==> self.signalled(id)
    }

    /// The table after that decision: a task that may run is marked running.
    pub open spec fn begun(self, id: u64, timestamp: u64, wake: Wake) -> SchedulerModel {
        if self.may_begin(id, timestamp, wake) {
            SchedulerModel {
                pending: self.pending.insert(
                    id,
                    TaskState { timestamp, cancelled: false, running: true },
                ),
                clock: self.clock,
                drain_mark: self.drain_mark,
            }
        } else {
            self
        }
    }

    /// The table after the registration `timestamp` of `id` is done: its
    /// entry is removed only where it still owns it.
    pub open spec fn finished(self, id: u64, timestamp: u64) -> SchedulerModel {
        if self.owns(id, timestamp) {
            SchedulerModel {
                pending: self.pending.remove(id),
                clock: self.clock,
                drain_mark: self.drain_mark,
            }
        } else {
            self
        }
    }

    /// The table after one event.
    pub open spec fn step(self, event: SchedulerEvent) -> SchedulerModel {
        match event {
            SchedulerEvent::Add(id) => self.added(id),
            SchedulerEvent::Cancel(id) => self.cancelled(id),
            SchedulerEvent::Drain => self.drained(),
            SchedulerEvent::Begin(id, timestamp, wake) => self.begun(id, timestamp, wake),
            SchedulerEvent::Finish(id, timestamp) => self.finished(id, timestamp),
        }
    }

    /// The table after a sequence of events, first to last.
    pub open spec fn run(self, events: Seq<SchedulerEvent>) -> SchedulerModel
        decreases events.len(),
    {
        if events.len() == 0 {
            self
        } else {
            self.run(events.drop_last()).step(events.last())
        }
    }

    /// The table after the pending task of `id`, woken by a drain, has run
    /// its work, where it may, and cleaned up.
    pub open spec fn settled(self, id: u64) -> SchedulerModel {
        if self.pending.contains_key(id) {
            let timestamp = self.pending[id].timestamp;
            self.begun(id, timestamp, Wake::Drained).finished(id, timestamp)
        } else {
            self
        }
    }

    /// The table after the pending tasks of `ids` have done so, one after
    /// the other.
    pub open spec fn settled_all(self, ids: Seq<u64>) -> SchedulerModel
        decreases ids.len(),
    {
        if ids.len() == 0 {
            self
        } else {
            self.settled_all(ids.drop_last()).settled(ids.last())
        }
    }

    /// Whether the registration `timestamp` of `id` was made and can no
    /// longer start: it was replaced, cancelled, started or removed.
    pub open spec fn spent(self, id: u64, timestamp: u64) -> bool {
        &&& timestamp < self.clock
        &&& !(self.owns(id, timestamp) && !self.pending[id].cancelled
            && !self.pending[id].running)
    }
}

/// The scheduler: the table of pending tasks, the delay of every task, and
/// the token that tells the pending tasks to run at once.
pub struct Scheduler {
    tasks: HashMap<u64, TaskData>,
    task_duration: Duration,
    start_token: CancellationToken,
    next_timestamp: u64,
    drained_before: u64,
}

/// The view is what the decisions rest on: the entries with their
/// timestamps and marks, the clock and the drain mark. The tokens are not in
/// it: they only carry wake-ups.
impl View for Scheduler {
    type V = SchedulerModel;

    closed spec fn view(&self) -> SchedulerModel {
        SchedulerModel {
            pending: Map::new(
                |id: u64| self.tasks@.contains_key(id),
                |id: u64| self.tasks@[id].state,
            ),
            clock: self.next_timestamp as nat,
            drain_mark: self.drained_before as nat,
        }
    }
}

impl Scheduler {
    /// The invariant of the table: every timestamp in it was handed out.
    pub open spec fn wf(&self) -> bool {
        self@.wf()
    }

    /// The delay that every task waits.
    pub closed spec fn delay(&self) -> Duration {
        self.task_duration
    }

    /// A scheduler without tasks.
    pub fn new(task_duration: Duration) -> (r: Self)
        ensures
            r.wf(),
            r@.pending == Map::<u64, TaskState>::empty(),
            r@.clock == 0,
            r@.drain_mark == 0,
            r.delay() == task_duration,
    {
        let r = Self {
            tasks: HashMap::new(),
            task_duration,
            start_token: new_token(),
            next_timestamp: 0,
            drained_before: 0,
        };
        assert(r@.pending =~= Map::<u64, TaskState>::empty());
        r
    }

    /// Registers a task under `task_id`. A pending task of that id is
    /// cancelled and replaced. The ticket tells the caller what to wait for,
    /// and which registration was replaced.
    ///
    /// `None`, with nothing changed, only where every timestamp has been
    /// handed out.
    ///
    /// The contract speaks of the table. That the token of the replaced
    /// registration is fired, and that the new entry holds a fresh one, is
    /// done by calls into `tokio_util` of which nothing is proved: a token
    /// is opaque, and firing it changes nothing that a contract can name.
    /// Whether work runs never depends on a token: `begin` decides by the
    /// table alone.
    pub fn add_task(&mut self, task_id: u64) -> (ticket: Option<Ticket>)
        requires
            old(self).wf(),
        ensures
            final(self).wf(),
            final(self)@ == old(self)@.added(task_id),
            final(self).delay() == old(self).delay(),
            ticket.is_some() == old(self)@.can_add(),
            ticket matches Some(t) ==> {
                &&& t.task_id == task_id
                &&& t.timestamp == old(self)@.clock
                &&& t.delay == old(self).delay()
                &&& t.replaced == old(self)@.pending.contains_key(task_id)
                &&& t.superseded == if old(self)@.pending.contains_key(task_id) {
                    Some(old(self)@.pending[task_id].timestamp)
                } else {
                    None
                }
                &&& t.superseded matches Some(earlier) ==> final(self)@.spent(task_id, earlier)
                &&& final(self)@.may_begin(task_id, t.timestamp, Wake::Elapsed)
            },
    {
        if self.next_timestamp == u64::MAX {
            return None;
        }
        let superseded = match self.get(task_id) {
            Some(state) => Some(state.timestamp),
            None => None,
        };
        let old_task = self.cancel_task(task_id);
        let ghost marked = self@;
        let cancel_token = new_token();
        let token_clone = share_token(&cancel_token);
        let timestamp = self.next_timestamp;
        self.tasks.insert(
            task_id,
            TaskData {
                token: token_clone,
                state: TaskState { timestamp, cancelled: false, running: false },
            },
        );
        self.next_timestamp = timestamp + 1;
        proof {
            let fresh = TaskState { timestamp, cancelled: false, running: false };
            assert(self@.pending =~= marked.pending.insert(task_id, fresh));
            assert(marked.pending.insert(task_id, fresh) =~= old(self)@.pending.insert(
                task_id,
                fresh,
            ));
            assert(self@.pending =~= old(self)@.added(task_id).pending);
        }
        Some(
            Ticket {
                task_id,
                timestamp,
                cancel_token,
                start_token: share_token(&self.start_token),
                delay: self.task_duration,
                replaced: old_task,
                superseded,
            },
        )
    }

    /// Requests cancellation of the task under `task_id`: fires its token
    /// and marks its entry, which stays until the task removes it. Returns
    /// whether there was such a task.
    ///
    /// The contract states the mark, which is what keeps the work from
    /// starting. The firing only wakes the waiting task early; nothing is
    /// proved of it.
    pub fn cancel_task(&mut self, task_id: u64) -> (found: bool)
        requires
            old(self).wf(),
        ensures
            final(self).wf(),
            found == old(self)@.pending.contains_key(task_id),
            final(self)@ == old(self)@.cancelled(task_id),
            final(self).delay() == old(self).delay(),
    {
        match self.tasks.remove(&task_id) {
            Some(data) => {
                fire_token(&data.token);
                let state = TaskState {
                    timestamp: data.state.timestamp,
                    cancelled: true,
                    running: data.state.running,
                };
                self.tasks.insert(task_id, TaskData { token: data.token, state });
                assert(self@.pending =~= old(self)@.cancelled(task_id).pending);
                true
            },
            None => {
                assert(self@.pending =~= old(self)@.pending);
                false
            },
        }
    }

    /// Requests a drain: fires the start token, so that every pending task
    /// runs at once, and replaces it, so that later tasks are not affected.
    /// The table itself is emptied by the tasks as they finish; `is_empty`
    /// tells when that is done.
    ///
    /// The contract states the drain mark, by which `begin` tells the tasks
    /// that were told to run from those registered later. The firing and the
    /// replacing of the start token only wake the waiting tasks; nothing is
    /// proved of them.
    pub fn complete_all(&mut self)
        requires
            old(self).wf(),
        ensures
            final(self).wf(),
            final(self)@ == old(self)@.drained(),
            final(self).delay() == old(self).delay(),
            forall|id: u64| #[trigger]
                old(self)@.pending.contains_key(id) ==> final(self)@.signalled(id),
    {
        fire_token(&self.start_token);
        self.start_token = new_token();
        self.drained_before = self.next_timestamp;
        assert(self@.pending =~= old(self)@.pending);
    }

    /// Whether no task is pending.
    pub fn is_empty(&self) -> (r: bool)
        ensures
            r == self@.pending.is_empty(),
            r <==> forall|id: u64| !self@.pending.contains_key(id),
    {
        let r = self.tasks.is_empty();
        proof {
            assert(self@.pending.dom() =~= self.tasks@.dom());
            if !r {
                assert(exists|id: u64| self.tasks@.dom().contains(id)) by {
                    if forall|id: u64| !self.tasks@.dom().contains(id) {
                        assert(self.tasks@.dom() =~= Set::<u64>::empty());
                    }
                }
            }
        }
        r
    }

    /// What the table knows of the task under `task_id`.
    pub fn get(&self, task_id: u64) -> (r: Option<TaskState>)
        ensures
            r == if self@.pending.contains_key(task_id) {
                Some(self@.pending[task_id])
            } else {
                None
            },
    {
        match self.tasks.get(&task_id) {
            Some(data) => Some(data.state),
            None => None,
        }
    }

    /// Decides whether the registration `timestamp` of `task_id`, which woke
    /// up for `wake`, runs its work, and marks it running if so.
    pub fn begin(&mut self, task_id: u64, timestamp: u64, wake: Wake) -> (run: bool)
        requires
            old(self).wf(),
        ensures
            final(self).wf(),
            run == old(self)@.may_begin(task_id, timestamp, wake),
            final(self)@ == old(self)@.begun(task_id, timestamp, wake),
            final(self).delay() == old(self).delay(),
    {
        let state = match self.tasks.get(&task_id) {
            Some(data) => data.state,
            None => { return false; },
        };
        let woken = match wake {
            Wake::Cancelled => false,
            Wake::Drained => state.timestamp < self.drained_before,
            Wake::Elapsed => true,
        };
        if state.timestamp != timestamp || state.cancelled || state.running || !woken {
            return false;
        }
        match self.tasks.remove(&task_id) {
            Some(data) => {
                self.tasks.insert(
                    task_id,
                    TaskData {
                        token: data.token,
                        state: TaskState { timestamp, cancelled: false, running: true },
                    },
                );
            },
            None => {},
        }
        assert(self@.pending =~= old(self)@.begun(task_id, timestamp, wake).pending);
        true
    }

    /// Ends the registration `timestamp` of `task_id`: removes the entry of
    /// the id only where that registration still owns it, so that a replaced
    /// task never removes the entry of its successor. Returns whether the
    /// entry was removed.
    pub fn finish(&mut self, task_id: u64, timestamp: u64) -> (removed: bool)
        requires
            old(self).wf(),
        ensures
            final(self).wf(),
            removed == old(self)@.owns(task_id, timestamp),
            final(self)@ == old(self)@.finished(task_id, timestamp),
            final(self).delay() == old(self).delay(),
    {
        let owned = match self.tasks.get(&task_id) {
            Some(data) => data.state.timestamp == timestamp,
            None => false,
        };
        if owned {
            self.tasks.remove(&task_id);
            assert(self@.pending =~= old(self)@.pending.remove(task_id));
        }
        owned
    }
}

/// Every event keeps the table well formed.
pub proof fn lemma_step_keeps_wf(s: SchedulerModel, event: SchedulerEvent)
    requires
        s.wf(),
    ensures
        s.step(event).wf(),
{
}

/// A registration that can no longer start stays so, whatever happens next.
pub proof fn lemma_spent_is_stable(
    s: SchedulerModel,
    event: SchedulerEvent,
    id: u64,
    timestamp: u64,
)
    requires
        s.wf(),
        s.spent(id, timestamp),
    ensures
        s.step(event).spent(id, timestamp),
{
}

/// A registration that can no longer start never runs: after any sequence
/// of events, no wake-up lets it begin.
pub proof fn lemma_spent_never_begins(
    s: SchedulerModel,
    events: Seq<SchedulerEvent>,
    id: u64,
    timestamp: u64,
    wake: Wake,
)
    requires
        s.wf(),
        s.spent(id, timestamp),
    ensures
        s.run(events).wf(),
        s.run(events).spent(id, timestamp),
        !s.run(events).may_begin(id, timestamp, wake),
    decreases events.len(),
{
    if events.len() > 0 {
        lemma_spent_never_begins(s, events.drop_last(), id, timestamp, wake);
        lemma_step_keeps_wf(s.run(events.drop_last()), events.last());
        lemma_spent_is_stable(s.run(events.drop_last()), events.last(), id, timestamp);
    }
}

/// Coalescing: when an id is registered again, every earlier registration
/// of it can no longer start, and the new one may start once its delay has
/// elapsed. So of any number of registrations of one id made before any of
/// them started, exactly the last runs.
pub proof fn lemma_only_the_last_registration_runs(s: SchedulerModel, id: u64, earlier: u64)
    requires
        s.wf(),
        s.can_add(),
        earlier < s.clock,
    ensures
        s.added(id).spent(id, earlier),
        s.added(id).may_begin(id, s.clock as u64, Wake::Elapsed),
        !s.added(id).spent(id, s.clock as u64),
{
}

/// A task runs at most once: a registration that was allowed to begin is
/// spent at once.
pub proof fn lemma_begins_at_most_once(s: SchedulerModel, id: u64, timestamp: u64, wake: Wake)
    requires
        s.wf(),
        s.may_begin(id, timestamp, wake),
    ensures
        s.begun(id, timestamp, wake).spent(id, timestamp),
{
}

/// Cancellation before the start prevents the run: once cancellation of an
/// id is requested, the registration that held the id can no longer start.
pub proof fn lemma_cancel_prevents_start(s: SchedulerModel, id: u64)
    requires
        s.wf(),
        s.pending.contains_key(id),
    ensures
        s.cancelled(id).spent(id, s.pending[id].timestamp),
        forall|wake: Wake| !s.cancelled(id).may_begin(id, s.pending[id].timestamp, wake),
{
}

/// Cancellation after the start does not undo it: a running task stays
/// running, keeps its entry, and removes it when it finishes.
pub proof fn lemma_cancel_spares_a_running_task(s: SchedulerModel, id: u64)
    requires
        s.wf(),
        s.pending.contains_key(id),
        s.pending[id].running,
    ensures
        s.cancelled(id).pending[id].running,
        s.cancelled(id).owns(id, s.pending[id].timestamp),
        !s.cancelled(id).finished(id, s.pending[id].timestamp).pending.contains_key(id),
{
}

/// A replaced task never removes the entry of its successor.
pub proof fn lemma_stale_finish_changes_nothing(s: SchedulerModel, id: u64, earlier: u64)
    requires
        s.wf(),
        s.can_add(),
        earlier < s.clock,
    ensures
        s.added(id).finished(id, earlier) == s.added(id),
{
}

/// A drain tells every pending task to run at once: each one that has not
/// been cancelled and has not started may begin, and removes its entry when
/// it finishes. Tasks registered afterwards are not told. A second drain
/// right after the first changes nothing.
pub proof fn lemma_drain_signals_all_pending(s: SchedulerModel, id: u64)
    requires
        s.wf(),
    ensures
        s.drained().wf(),
        s.drained().pending == s.pending,
        s.drained().drained() == s.drained(),
        s.pending.contains_key(id) ==> s.drained().signalled(id),
        s.pending.contains_key(id) && !s.pending[id].cancelled && !s.pending[id].running
            ==> s.drained().may_begin(id, s.pending[id].timestamp, Wake::Drained),
        s.pending.contains_key(id) ==> !s.drained().finished(
            id,
            s.pending[id].timestamp,
        ).pending.contains_key(id),
        s.drained().can_add() ==> !s.drained().added(id).signalled(id),
        s.pending.is_empty() ==> s.drained().pending.is_empty(),
{
}

proof fn lemma_settled_all(s: SchedulerModel, ids: Seq<u64>)
    requires
        s.wf(),
    ensures
        s.settled_all(ids).wf(),
        forall|id: u64| #[trigger]
            s.settled_all(ids).pending.contains_key(id) <==> (s.pending.contains_key(id)
                && !ids.contains(id)),
    decreases ids.len(),
{
    if ids.len() > 0 {
        let front = ids.drop_last();
        lemma_settled_all(s, front);
        assert forall|id: u64| #[trigger]
            s.settled_all(ids).pending.contains_key(id) <==> (s.pending.contains_key(id)
                && !ids.contains(id)) by {
            if front.contains(id) {
                let i = choose|i: int| 0 <= i < front.len() && front[i] == id;
                assert(ids[i] == id);
            }
            if id == ids.last() {
                assert(ids[ids.len() - 1] == id);
            }
            if ids.contains(id) && id != ids.last() {
                let i = choose|i: int| 0 <= i < ids.len() && ids[i] == id;
                assert(front[i] == id);
            }
        }
    }
}

/// A drain empties the table: once every task that was pending at the drain
/// has woken, run and cleaned up, in whatever order, no task is pending, so
/// the wait for the drain ends.
pub proof fn lemma_drain_empties_the_table(s: SchedulerModel, ids: Seq<u64>)
    requires
        s.wf(),
        forall|id: u64| s.pending.contains_key(id) ==> ids.contains(id),
    ensures
        s.drained().settled_all(ids).pending == Map::<u64, TaskState>::empty(),
{
    lemma_settled_all(s.drained(), ids);
    assert(s.drained().settled_all(ids).pending =~= Map::<u64, TaskState>::empty());
}

} // verus!
