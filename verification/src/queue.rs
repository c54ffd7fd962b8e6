//! The queue that admits Git tasks: at most one task per repository, tasks
//! started in the order they were queued, and no more tasks running at once
//! than the concurrency limit allows.
//!
//! The queue itself decides; blocking until a decision changes is the
//! caller's part (it holds the queue behind a lock and waits for a change).
use vstd::prelude::*;
use std::collections::VecDeque;

verus! {

/// A task waiting for its turn.
pub struct QueueEntry {
    ticket: u64,
    repository_id: String,
    label: String,
}

/// The tasks that wait and the repositories whose tasks run.
pub struct OperationQueue {
    next_ticket: u64,
    /// Whether the ticket count has passed its largest value and started
    /// again at 1.
    wrapped: Ghost<bool>,
    waiting: VecDeque<QueueEntry>,
    active: Vec<String>,
    limit: usize,
}

/// The right to run one repository's task; handing it back to
/// [`OperationQueue::release`] ends the task.
pub struct OperationPermit {
    repository_id: String,
}

/// What the queue holds at one moment.
pub struct OperationQueueSnapshot {
    /// The repositories whose tasks run, each once.
    pub active: Vec<String>,
    /// The waiting tasks in queue order, as (repository id, label).
    pub waiting: Vec<(String, String)>,
    pub limit: usize,
}

pub struct WaitingView {
    pub ticket: u64,
    pub repository_id: Seq<char>,
    pub label: Seq<char>,
}

/// The abstract state of a queue.
pub struct QueueView {
    pub next_ticket: u64,
    pub wrapped: bool,
    pub waiting: Seq<WaitingView>,
    pub active: Seq<Seq<char>>,
    pub limit: usize,
}

/// The error when a repository's task already runs.
pub open spec fn busy_error() -> Seq<char> {
    "该项目正在执行 Git 任务"@
}

/// The error when a repository's task already waits.
pub open spec fn queued_error() -> Seq<char> {
    "该项目已在 Git 任务队列中"@
}

/// The error when a ticket no longer waits.
pub open spec fn removed_error() -> Seq<char> {
    "任务已从队列中移除"@
}

/// A concurrency limit brought into `1..=8`.
pub open spec fn clamp_limit(limit: int) -> usize {
    if limit < 1 {
        1
    } else if limit > 8 {
        8
    } else {
        limit as usize
    }
}

/// The ticket after `t`; the count wraps past the largest ticket to 1, so a
/// ticket is never 0.
pub open spec fn ticket_after(t: u64) -> u64 {
    if t == u64::MAX {
        1
    } else {
        (t + 1) as u64
    }
}

impl QueueView {
    pub open spec fn waiting_ids(self) -> Seq<Seq<char>> {
        self.waiting.map_values(|e: WaitingView| e.repository_id)
    }

    /// Whether the repository has a task in the queue, running or waiting.
    pub open spec fn holds(self, id: Seq<char>) -> bool {
        self.active.contains(id) || self.waiting_ids().contains(id)
    }

    /// Whether `ticket` belongs to a waiting task.
    pub open spec fn is_waiting(self, ticket: u64) -> bool {
        exists|i: int| 0 <= i < self.waiting.len() && #[trigger] self.waiting[i].ticket == ticket
    }

    /// What every queue satisfies: a limit in `1..=8`, a nonzero next
    /// ticket, the waiting line in ticket order until the ticket count has
    /// wrapped, and each repository in the queue at most once.
    pub open spec fn consistent(self) -> bool {
        &&& 1 <= self.limit <= 8
        &&& self.next_ticket >= 1
        &&& !self.wrapped ==> self.tickets_ordered()
        &&& self.active.no_duplicates()
        &&& self.waiting_ids().no_duplicates()
        &&& self.active.disjoint(self.waiting_ids())
    }

    /// Whether the waiting tickets increase along the line and all lie below
    /// the next ticket, so that the line is in the order the tasks were
    /// queued. It holds until the ticket count wraps past its largest value.
    pub open spec fn tickets_ordered(self) -> bool {
        &&& forall|i: int, j: int|
            0 <= i < j < self.waiting.len() ==> self.waiting[i].ticket < self.waiting[j].ticket
        &&& forall|i: int| 0 <= i < self.waiting.len() ==> self.waiting[i].ticket < self.next_ticket
    }

    /// Whether no more tasks run than the limit allows.
    pub open spec fn within_limit(self) -> bool {
        self.active.len() <= self.limit
    }

    /// The queue after `id` was queued with `label`.
    pub open spec fn enqueued(self, id: Seq<char>, label: Seq<char>) -> QueueView {
        QueueView {
            next_ticket: ticket_after(self.next_ticket),
            wrapped: self.wrapped || self.next_ticket == u64::MAX,
            waiting: self.waiting.push(
                WaitingView { ticket: self.next_ticket, repository_id: id, label: label },
            ),
            ..self
        }
    }

    /// Whether the task with `ticket` may start now: it is first in line and
    /// fewer tasks run than the limit allows.
    pub open spec fn may_start(self, ticket: u64) -> bool {
        &&& self.waiting.len() > 0
        &&& self.waiting[0].ticket == ticket
        &&& self.active.len() < self.limit
    }

    /// The queue after its first waiting task started.
    pub open spec fn started(self) -> QueueView {
        QueueView {
            waiting: self.waiting.drop_first(),
            active: self.active.push(self.waiting[0].repository_id),
            ..self
        }
    }

    /// The queue after the task of `id` ended.
    pub open spec fn released(self, id: Seq<char>) -> QueueView {
        if self.active.contains(id) {
            QueueView { active: self.active.remove(self.active.index_of(id)), ..self }
        } else {
            self
        }
    }

    /// The queue with its limit set from `limit`.
    pub open spec fn limited(self, limit: int) -> QueueView {
        QueueView { limit: clamp_limit(limit), ..self }
    }
}

impl View for QueueEntry {
    type V = WaitingView;

    closed spec fn view(&self) -> WaitingView {
        WaitingView { ticket: self.ticket, repository_id: self.repository_id@, label: self.label@ }
    }
}

impl View for OperationQueue {
    type V = QueueView;

    closed spec fn view(&self) -> QueueView {
        QueueView {
            next_ticket: self.next_ticket,
            wrapped: self.wrapped@,
            waiting: self.waiting@.map_values(|e: QueueEntry| e@),
            active: self.active@.map_values(|s: String| s@),
            limit: self.limit,
        }
    }
}

impl View for OperationPermit {
    type V = Seq<char>;

    closed spec fn view(&self) -> Seq<char> {
        self.repository_id@
    }
}

fn clamp(limit: usize) -> (r: usize)
    ensures
        r == clamp_limit(limit as int),
{
    if limit < 1 {
        1
    } else if limit > 8 {
        8
    } else {
        limit
    }
}

impl OperationPermit {
    /// The repository whose task this permit lets run.
    pub fn repository_id(&self) -> (r: &String)
        ensures
            r@ == self@,
    {
        &self.repository_id
    }
}

impl OperationQueue {
    /// An empty queue whose limit is `limit` brought into `1..=8`.
    pub fn new(limit: usize) -> (q: OperationQueue)
        ensures
            q@.consistent(),
            q@.next_ticket == 1,
            q@.waiting.len() == 0,
            q@.active.len() == 0,
            q@.limit == clamp_limit(limit as int),
            q@.tickets_ordered(),
            q@.within_limit(),
    {
        let q = OperationQueue {
            next_ticket: 1,
            wrapped: Ghost(false),
            waiting: VecDeque::new(),
            active: Vec::new(),
            limit: clamp(limit),
        };
        assert(q@.waiting_ids() =~= Seq::<Seq<char>>::empty());
        assert(q@.active =~= Seq::<Seq<char>>::empty());
        q
    }

    fn active_position(&self, id: &String) -> (r: Option<usize>)
        ensures
            match r {
                Some(i) => i < self@.active.len() && self@.active[i as int] == id@,
                None => !self@.active.contains(id@),
            },
    {
        let mut i: usize = 0;
        while i < self.active.len()
            invariant
                i <= self@.active.len(),
                self@.active.len() == self.active@.len(),
                forall|k: int| 0 <= k < i ==> self@.active[k] != id@,
            decreases self.active@.len() - i,
        {
            if self.active[i] == *id {
                return Some(i);
            }
            i = i + 1;
        }
        None
    }

    fn waiting_has_id(&self, id: &String) -> (r: bool)
        ensures
            r == self@.waiting_ids().contains(id@),
    {
        let mut i: usize = 0;
        while i < self.waiting.len()
            invariant
                i <= self.waiting@.len(),
                self@.waiting_ids().len() == self.waiting@.len(),
                forall|k: int| 0 <= k < i ==> self@.waiting_ids()[k] != id@,
            decreases self.waiting@.len() - i,
        {
            if self.waiting[i].repository_id == *id {
                assert(self@.waiting_ids()[i as int] == id@);
                return true;
            }
            i = i + 1;
        }
        false
    }

    fn waiting_has_ticket(&self, ticket: u64) -> (r: bool)
        ensures
            r == self@.is_waiting(ticket),
    {
        let mut i: usize = 0;
        while i < self.waiting.len()
            invariant
                i <= self.waiting@.len(),
                self@.waiting.len() == self.waiting@.len(),
                forall|k: int| 0 <= k < i ==> self@.waiting[k].ticket != ticket,
            decreases self.waiting@.len() - i,
        {
            if self.waiting[i].ticket == ticket {
                assert(self@.waiting[i as int].ticket == ticket);
                return true;
            }
            i = i + 1;
        }
        false
    }

    /// Queues a task for `repository_id`. A repository whose task runs or
    /// waits is refused; otherwise the task gets the next ticket and its
    /// place in line (1 for the first).
    pub fn enqueue(&mut self, repository_id: String, label: String) -> (r: Result<(u64, usize), String>)
        requires
            old(self)@.consistent(),
        ensures
            final(self)@.consistent(),
            old(self)@.active.contains(repository_id@) ==> (r matches Err(e) && e@ == busy_error()
                && final(self)@ == old(self)@),
            !old(self)@.active.contains(repository_id@) && old(self)@.waiting_ids().contains(
                repository_id@,
            ) ==> (r matches Err(e) && e@ == queued_error() && final(self)@ == old(self)@),
            !old(self)@.holds(repository_id@) ==> (r matches Ok((ticket, position)) && ticket
                == old(self)@.next_ticket && position == old(self)@.waiting.len() + 1
                && final(self)@ == old(self)@.enqueued(repository_id@, label@)),
            old(self)@.tickets_ordered() && old(self)@.next_ticket < u64::MAX
                ==> final(self)@.tickets_ordered(),
            old(self)@.within_limit() ==> final(self)@.within_limit(),
    {
        if self.active_position(&repository_id).is_some() {
            return Err(String::from_str("该项目正在执行 Git 任务"));
        }
        if self.waiting_has_id(&repository_id) {
            return Err(String::from_str("该项目已在 Git 任务队列中"));
        }
        let ticket = self.next_ticket;
        let ghost before = self@;
        let entry = QueueEntry { ticket, repository_id, label };
        proof {
            let after = before.enqueued(entry.repository_id@, entry.label@);
            lemma_enqueued_keeps_order(before, entry.repository_id@, entry.label@);
            assert(after.waiting_ids() =~= before.waiting_ids().push(entry.repository_id@));
            assert(after.consistent());
        }
        let next = if ticket == u64::MAX {
            1
        } else {
            ticket + 1
        };
        self.waiting.push_back(entry);
        self.next_ticket = next;
        if ticket == u64::MAX {
            self.wrapped = Ghost(true);
        }
        let position = self.waiting.len();
        proof {
            assert(self@.waiting =~= before.waiting.push(entry@));
            assert(self@ =~= before.enqueued(entry.repository_id@, entry.label@));
        }
        Ok((ticket, position))
    }

    /// One turn of waiting for the task with `ticket`: the task starts if
    /// it is first in line and the limit leaves room; a ticket that no longer
    /// waits is refused; otherwise `Ok(None)` asks the caller to wait for the
    /// queue to change and to ask again.
    pub fn wait(&mut self, ticket: u64) -> (r: Result<Option<OperationPermit>, String>)
        requires
            old(self)@.consistent(),
        ensures
            final(self)@.consistent(),
            old(self)@.may_start(ticket) ==> (r matches Ok(Some(p)) && p@ == old(
                self,
            )@.waiting[0].repository_id && final(self)@ == old(self)@.started()),
            !old(self)@.may_start(ticket) && !old(self)@.is_waiting(ticket) ==> (r matches Err(e)
                && e@ == removed_error() && final(self)@ == old(self)@),
            !old(self)@.may_start(ticket) && old(self)@.is_waiting(ticket) ==> (r matches Ok(None)
                && final(self)@ == old(self)@),
            old(self)@.tickets_ordered() ==> final(self)@.tickets_ordered(),
            old(self)@.within_limit() ==> final(self)@.within_limit(),
    {
        let is_next = self.waiting.len() > 0 && self.waiting[0].ticket == ticket;
        if is_next && self.active.len() < self.limit {
            let ghost before = self@;
            proof {
                let after = before.started();
                assert(after.waiting_ids() =~= before.waiting_ids().drop_first());
                assert(before.waiting_ids()[0] == before.waiting[0].repository_id);
                assert forall|i: int, j: int|
                    0 <= i < after.active.len() && 0 <= j < after.active.len() && i != j implies after.active[i]
                    != after.active[j] by {
                    if i == before.active.len() as int {
                        assert(before.waiting_ids()[0] == after.active[i]);
                    }
                    if j == before.active.len() as int {
                        assert(before.waiting_ids()[0] == after.active[j]);
                    }
                }
                assert forall|i: int, j: int|
                    0 <= i < after.active.len() && 0 <= j < after.waiting_ids().len() implies after.active[i]
                    != after.waiting_ids()[j] by {
                    assert(after.waiting_ids()[j] == before.waiting_ids()[j + 1]);
                    if i == before.active.len() as int {
                        assert(after.active[i] == before.waiting_ids()[0]);
                    }
                }
                assert(after.consistent());
            }
            let entry = match self.waiting.pop_front() {
                Some(entry) => entry,
                None => {
                    return Err(String::from_str("任务已从队列中移除"));
                },
            };
            let id = entry.repository_id;
            let permit_id = id.clone();
            self.active.push(id);
            proof {
                assert(self@.waiting =~= before.waiting.drop_first());
                assert(self@.active =~= before.active.push(before.waiting[0].repository_id));
                assert(self@ =~= before.started());
                lemma_started_keeps_order(before);
            }
            return Ok(Some(OperationPermit { repository_id: permit_id }));
        }
        if !self.waiting_has_ticket(ticket) {
            return Err(String::from_str("任务已从队列中移除"));
        }
        Ok(None)
    }

    /// Whether `repository_id` has a task in the queue, running or waiting.
    pub fn contains(&self, repository_id: &str) -> (r: bool)
        ensures
            r == self@.holds(repository_id@),
    {
        let id = String::from_str(repository_id);
        self.active_position(&id).is_some() || self.waiting_has_id(&id)
    }

    /// Sets the concurrency limit, brought into `1..=8`.
    pub fn set_limit(&mut self, limit: usize)
        requires
            old(self)@.consistent(),
        ensures
            final(self)@.consistent(),
            final(self)@ == old(self)@.limited(limit as int),
            old(self)@.tickets_ordered() ==> final(self)@.tickets_ordered(),
            old(self)@.active.len() <= clamp_limit(limit as int) ==> final(self)@.within_limit(),
    {
        self.limit = clamp(limit);
    }

    /// Ends the task that `permit` let run: its repository is no longer
    /// active.
    pub fn release(&mut self, permit: OperationPermit)
        requires
            old(self)@.consistent(),
        ensures
            final(self)@.consistent(),
            final(self)@ == old(self)@.released(permit@),
            old(self)@.tickets_ordered() ==> final(self)@.tickets_ordered(),
            old(self)@.within_limit() ==> final(self)@.within_limit(),
    {
        let id = permit.repository_id;
        match self.active_position(&id) {
            Some(i) => {
                let ghost before = self@;
                proof {
                    let k = before.active.index_of(id@);
                    assert(before.active.contains(id@));
                    assert(before.active[k] == id@);
                    assert(k == i);
                    let after = before.released(id@);
                    assert(after.active =~= before.active.remove(i as int));
                    assert forall|a: int, b: int|
                        0 <= a < after.active.len() && 0 <= b < after.active.len() && a != b implies after.active[a]
                        != after.active[b] by {
                        let a0 = if a < i { a } else { a + 1 };
                        let b0 = if b < i { b } else { b + 1 };
                        assert(after.active[a] == before.active[a0]);
                        assert(after.active[b] == before.active[b0]);
                    }
                    assert forall|a: int, b: int|
                        0 <= a < after.active.len() && 0 <= b < after.waiting_ids().len() implies after.active[a]
                        != after.waiting_ids()[b] by {
                        let a0 = if a < i { a } else { a + 1 };
                        assert(after.active[a] == before.active[a0]);
                    }
                    assert(after.consistent());
                }
                self.active.remove(i);
                proof {
                    assert(self@.active =~= before.active.remove(i as int));
                    assert(self@ =~= before.released(id@));
                }
            },
            None => {},
        }
    }

    /// The running repositories, the waiting tasks in order, and the limit.
    pub fn snapshot(&self) -> (s: OperationQueueSnapshot)
        ensures
            s.active@.map_values(|x: String| x@) == self@.active,
            s.waiting@.len() == self@.waiting.len(),
            forall|i: int|
                0 <= i < self@.waiting.len() ==> (#[trigger] s.waiting@[i]).0@
                    == self@.waiting[i].repository_id && s.waiting@[i].1@ == self@.waiting[i].label,
            s.limit == self@.limit,
    {
        let mut active: Vec<String> = Vec::new();
        let mut i: usize = 0;
        while i < self.active.len()
            invariant
                i <= self.active@.len(),
                self@.active.len() == self.active@.len(),
                active@.len() == i,
                forall|k: int| 0 <= k < i ==> (#[trigger] active@[k])@ == self@.active[k],
            decreases self.active@.len() - i,
        {
            let c = self.active[i].clone();
            assert(c@ == self@.active[i as int]);
            active.push(c);
            i = i + 1;
        }
        assert(active@.map_values(|x: String| x@) =~= self@.active);
        let mut waiting: Vec<(String, String)> = Vec::new();
        let mut j: usize = 0;
        while j < self.waiting.len()
            invariant
                j <= self.waiting@.len(),
                waiting@.len() == j,
                forall|k: int|
                    0 <= k < j ==> (#[trigger] waiting@[k]).0@ == self@.waiting[k].repository_id
                        && waiting@[k].1@ == self@.waiting[k].label,
            decreases self.waiting@.len() - j,
        {
            let entry = &self.waiting[j];
            waiting.push((entry.repository_id.clone(), entry.label.clone()));
            j = j + 1;
        }
        OperationQueueSnapshot { active, waiting, limit: self.limit }
    }
}


proof fn lemma_enqueued_keeps_order(v: QueueView, id: Seq<char>, label: Seq<char>)
    ensures
        v.tickets_ordered() && v.next_ticket < u64::MAX ==> v.enqueued(id, label).tickets_ordered(),
        v.within_limit() ==> v.enqueued(id, label).within_limit(),
{
    let w = v.enqueued(id, label);
    if v.tickets_ordered() && v.next_ticket < u64::MAX {
        assert forall|i: int, j: int|
            0 <= i < j < w.waiting.len() implies w.waiting[i].ticket < w.waiting[j].ticket by {
            if j == v.waiting.len() as int {
                assert(v.waiting[i].ticket < v.next_ticket);
            } else {
                assert(w.waiting[i] == v.waiting[i] && w.waiting[j] == v.waiting[j]);
            }
        }
        assert forall|i: int| 0 <= i < w.waiting.len() implies w.waiting[i].ticket < w.next_ticket by {
            if i < v.waiting.len() {
                assert(w.waiting[i] == v.waiting[i]);
            }
        }
    }
}

proof fn lemma_started_keeps_order(v: QueueView)
    requires
        v.waiting.len() > 0,
    ensures
        v.tickets_ordered() ==> v.started().tickets_ordered(),
        v.within_limit() && v.active.len() < v.limit ==> v.started().within_limit(),
{
    let w = v.started();
    if v.tickets_ordered() {
        assert forall|i: int, j: int|
            0 <= i < j < w.waiting.len() implies w.waiting[i].ticket < w.waiting[j].ticket by {
            assert(w.waiting[i] == v.waiting[i + 1] && w.waiting[j] == v.waiting[j + 1]);
        }
        assert forall|i: int| 0 <= i < w.waiting.len() implies w.waiting[i].ticket < w.next_ticket by {
            assert(w.waiting[i] == v.waiting[i + 1]);
        }
    }
}

/// Tasks are granted in the order they were queued: in any queue whose
/// ticket count has not wrapped, a task queued after another that still
/// waits cannot start, whatever the limit; and of two tasks queued one after
/// the other, the first has the smaller ticket.
pub proof fn law_granted_in_ticket_order(v: QueueView, earlier: u64, later: u64, id: Seq<char>, label: Seq<char>)
    requires
        v.consistent(),
        !v.wrapped,
    ensures
        v.is_waiting(earlier) && earlier < later ==> !v.may_start(later),
        !v.enqueued(id, label).wrapped ==> v.next_ticket < v.enqueued(id, label).next_ticket,
{
    if v.is_waiting(earlier) && earlier < later {
        let k = choose|k: int| 0 <= k < v.waiting.len() && #[trigger] v.waiting[k].ticket == earlier;
        if k > 0 {
            assert(v.waiting[0].ticket < v.waiting[k].ticket);
        }
    }
}

/// The line stays in ticket order through every operation, as long as the
/// ticket count has not reached its largest value when a task is queued.
pub proof fn law_tickets_stay_ordered(v: QueueView, id: Seq<char>, label: Seq<char>, limit: int)
    requires
        v.consistent(),
        v.tickets_ordered(),
    ensures
        v.next_ticket < u64::MAX ==> v.enqueued(id, label).tickets_ordered(),
        v.waiting.len() > 0 ==> v.started().tickets_ordered(),
        v.released(id).tickets_ordered(),
        v.limited(limit).tickets_ordered(),
{
    lemma_enqueued_keeps_order(v, id, label);
    if v.waiting.len() > 0 {
        lemma_started_keeps_order(v);
    }
}

/// No more tasks run than the limit allows, through every operation, as
/// long as the limit is not set below the number of running tasks.
pub proof fn law_running_within_limit(v: QueueView, ticket: u64, id: Seq<char>, label: Seq<char>, limit: int)
    requires
        v.consistent(),
        v.within_limit(),
    ensures
        v.enqueued(id, label).within_limit(),
        v.may_start(ticket) ==> v.started().within_limit(),
        v.released(id).within_limit(),
        v.active.len() <= clamp_limit(limit) ==> v.limited(limit).within_limit(),
{
    lemma_enqueued_keeps_order(v, id, label);
    if v.may_start(ticket) {
        lemma_started_keeps_order(v);
    }
    if v.active.contains(id) {
        assert(v.released(id).active.len() == v.active.len() - 1);
    }
}

/// Once a repository is queued, the queue holds it, so a second task for the
/// same repository is refused while the first waits.
pub proof fn law_enqueue_then_held(v: QueueView, id: Seq<char>, label: Seq<char>)
    requires
        v.consistent(),
        !v.holds(id),
    ensures
        v.enqueued(id, label).consistent(),
        v.enqueued(id, label).holds(id),
        v.enqueued(id, label).waiting.last().ticket == v.next_ticket,
{
    let w = v.enqueued(id, label);
    assert(w.waiting_ids() =~= v.waiting_ids().push(id));
    assert(w.waiting_ids()[w.waiting_ids().len() - 1] == id);
}

/// A task that starts is the first in line; it moves from the waiting line
/// to the running tasks, and the limit is not exceeded by it.
pub proof fn law_start_takes_front(v: QueueView, ticket: u64)
    requires
        v.consistent(),
        v.may_start(ticket),
    ensures
        ticket == v.waiting[0].ticket,
        v.started().active.contains(v.waiting[0].repository_id),
        !v.started().waiting_ids().contains(v.waiting[0].repository_id),
        v.started().active.len() <= v.limit,
        v.started().waiting.len() == v.waiting.len() - 1,
{
    let w = v.started();
    let id = v.waiting[0].repository_id;
    assert(w.active[w.active.len() - 1] == id);
    assert(w.waiting_ids() =~= v.waiting_ids().drop_first());
    assert(v.waiting_ids()[0] == id);
    if w.waiting_ids().contains(id) {
        let j = choose|j: int| 0 <= j < w.waiting_ids().len() && w.waiting_ids()[j] == id;
        assert(v.waiting_ids()[j + 1] == id);
    }
}

/// While as many tasks run as the limit allows, no waiting task starts.
pub proof fn law_full_queue_blocks(v: QueueView, ticket: u64)
    requires
        v.active.len() >= v.limit,
    ensures
        !v.may_start(ticket),
{
}

/// A task that started and then ended leaves its repository free: the queue
/// no longer holds it, and it may be queued again.
pub proof fn law_release_frees_repository(v: QueueView, ticket: u64)
    requires
        v.consistent(),
        v.may_start(ticket),
    ensures
        !v.started().released(v.waiting[0].repository_id).holds(v.waiting[0].repository_id),
        v.started().released(v.waiting[0].repository_id).active.len() == v.active.len(),
{
    let id = v.waiting[0].repository_id;
    let w = v.started();
    law_start_takes_front(v, ticket);
    assert(w.consistent()) by {
        assert(w.waiting_ids() =~= v.waiting_ids().drop_first());
        assert(v.waiting_ids()[0] == id);
        assert forall|i: int, j: int|
            0 <= i < w.active.len() && 0 <= j < w.active.len() && i != j implies w.active[i]
            != w.active[j] by {
            if i == v.active.len() as int {
                assert(v.waiting_ids()[0] == w.active[i]);
            }
            if j == v.active.len() as int {
                assert(v.waiting_ids()[0] == w.active[j]);
            }
        }
        assert forall|i: int, j: int|
            0 <= i < w.active.len() && 0 <= j < w.waiting_ids().len() implies w.active[i]
            != w.waiting_ids()[j] by {
            assert(w.waiting_ids()[j] == v.waiting_ids()[j + 1]);
        }
    }
    let k = w.active.index_of(id);
    assert(w.active[k] == id);
    let r = w.released(id);
    assert(r.active =~= w.active.remove(k));
    if r.active.contains(id) {
        let a = choose|a: int| 0 <= a < r.active.len() && r.active[a] == id;
        let a0 = if a < k { a } else { a + 1 };
        assert(w.active[a0] == id);
    }
}

/// Raising the limit lets the first waiting task start once fewer tasks run
/// than the new limit.
pub proof fn law_raised_limit_admits(v: QueueView, limit: int)
    requires
        v.waiting.len() > 0,
        v.active.len() < clamp_limit(limit),
    ensures
        v.limited(limit).may_start(v.waiting[0].ticket),
{
}

/// Tasks start in the order they were queued: while tickets in line are
/// distinct (as they are until the ticket count wraps), no task behind the
/// first may start.
pub proof fn law_first_in_first_out(v: QueueView, i: int)
    requires
        0 < i < v.waiting.len(),
        forall|a: int, b: int|
            0 <= a < v.waiting.len() && 0 <= b < v.waiting.len() && a != b ==> v.waiting[a].ticket
                != v.waiting[b].ticket,
    ensures
        !v.may_start(v.waiting[i].ticket),
{
}

/// The limit always lies in `1..=8`, and a limit already in range is kept.
pub proof fn law_limit_clamped(v: QueueView, limit: int)
    ensures
        1 <= v.limited(limit).limit <= 8,
        1 <= limit <= 8 ==> v.limited(limit).limit == limit,
{
}

} // verus!
