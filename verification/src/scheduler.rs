//! Scheduling work: which lane a work item runs in, one active turn per
//! conversation, one writer per memory scope, and bounded run queues.
use vstd::prelude::*;

use crate::context::Visibility;
use crate::event::{KernelEventEnvelope, KernelEventType};
use crate::foundation::AicoreError;
use crate::text::{append_str, owned, str_eq};

verus! {

broadcast use vstd::string::group_string_axioms;

/// What a work item does.
#[derive(Debug, Clone, PartialEq, Eq)]
pub enum WorkItemKind {
    StateMutation,
    ProviderCall,
    ToolCall,
    MemoryRead { scope: String },
    MemoryWrite { scope: String },
}

/// One piece of work for an instance, optionally within a conversation.
#[derive(Debug, Clone, PartialEq, Eq)]
pub struct WorkItem {
    pub invocation_id: String,
    pub instance_id: String,
    pub conversation_id: Option<String>,
    pub kind: WorkItemKind,
}

impl WorkItem {
    /// Work of `kind` for an invocation of `instance_id`, in no conversation.
    pub fn new(invocation_id: &str, instance_id: &str, kind: WorkItemKind) -> (r: Self)
        ensures
            r.invocation_id@ == invocation_id@,
            r.instance_id@ == instance_id@,
            r.conversation_id is None,
            r.kind == kind,
    {
        WorkItem { invocation_id: owned(invocation_id), instance_id: owned(instance_id), conversation_id: None, kind }
    }
}

/// Where work runs.
#[derive(Debug, Clone, PartialEq, Eq)]
pub enum ExecutionLane {
    InstanceState(String),
    ProviderRead(String),
    ToolRead(String),
    MemoryRead(String),
    MemoryWrite(String),
}

/// A lane as values: its kind (0 to 4, in declaration order) and its key.
pub open spec fn lane_key(l: ExecutionLane) -> (int, Seq<char>) {
    match l {
        ExecutionLane::InstanceState(s) => (0, s@),
        ExecutionLane::ProviderRead(s) => (1, s@),
        ExecutionLane::ToolRead(s) => (2, s@),
        ExecutionLane::MemoryRead(s) => (3, s@),
        ExecutionLane::MemoryWrite(s) => (4, s@),
    }
}

/// The lane of a work item: instance work runs in the instance's lanes,
/// memory work in its scope's lanes.
pub open spec fn lane_of(item: WorkItem) -> (int, Seq<char>) {
    match item.kind {
        WorkItemKind::StateMutation => (0, item.instance_id@),
        WorkItemKind::ProviderCall => (1, item.instance_id@),
        WorkItemKind::ToolCall => (2, item.instance_id@),
        WorkItemKind::MemoryRead { scope } => (3, scope@),
        WorkItemKind::MemoryWrite { scope } => (4, scope@),
    }
}

/// What a full run queue does.
#[derive(Debug, Clone, Copy, PartialEq, Eq, Structural)]
pub enum BackpressurePolicy {
    RejectWhenFull,
}

/// Limits on queues and parallel reads.
#[derive(Debug, Clone, Copy, PartialEq, Eq, Structural)]
pub struct ResourceBudget {
    pub max_queue_len: usize,
    pub max_parallel_reads: usize,
}

impl ResourceBudget {
    /// A budget with these limits.
    pub fn new(max_queue_len: usize, max_parallel_reads: usize) -> (r: Self)
        ensures
            r.max_queue_len == max_queue_len,
            r.max_parallel_reads == max_parallel_reads,
    {
        ResourceBudget { max_queue_len, max_parallel_reads }
    }
}

/// What a cancellation reaches.
#[derive(Debug, Clone, PartialEq, Eq)]
pub enum CancellationScope {
    Instance(String),
    Conversation(String),
    Turn(String),
    Invocation(String),
}

/// A lane held by an invocation until released.
#[derive(Debug, Clone, PartialEq, Eq)]
pub struct WorkerLease {
    pub invocation_id: String,
    pub lane: ExecutionLane,
    released: bool,
}

impl WorkerLease {
    /// Whether the lease was released.
    pub closed spec fn released_view(&self) -> bool {
        self.released
    }

    /// The invocation holding the lease.
    pub closed spec fn invocation_view(&self) -> Seq<char> {
        self.invocation_id@
    }

    /// The lane leased.
    pub closed spec fn lane_view(&self) -> ExecutionLane {
        self.lane
    }

    /// A lease of `lane` for `invocation_id`, not yet released.
    pub fn new(invocation_id: &str, lane: ExecutionLane) -> (r: Self)
        ensures
            r.invocation_view() == invocation_id@,
            r.lane_view() == lane,
            !r.released_view(),
    {
        WorkerLease { invocation_id: owned(invocation_id), lane, released: false }
    }

    /// Releases the lease.
    pub fn release(&mut self)
        ensures
            final(self).released_view(),
            final(self).invocation_view() == old(self).invocation_view(),
            final(self).lane_view() == old(self).lane_view(),
    {
        self.released = true;
    }

    /// Whether the lease was released.
    pub fn is_released(&self) -> (r: bool)
        ensures
            r == self.released_view(),
    {
        self.released
    }
}

/// A set of names kept as a list without repeats.
#[derive(Debug)]
pub struct NameSet {
    names: Vec<String>,
}

/// The views of a list of names.
pub open spec fn names_of(v: Seq<String>) -> Seq<Seq<char>> {
    v.map_values(|s: String| s@)
}

impl NameSet {
    #[verifier::type_invariant]
    spec fn no_repeats(self) -> bool {
        names_of(self.names@).no_duplicates()
    }

    /// The names in the set.
    pub closed spec fn view_set(&self) -> Set<Seq<char>> {
        names_of(self.names@).to_set()
    }

    /// An empty set.
    pub fn new() -> (r: Self)
        ensures
            r.view_set() == Set::<Seq<char>>::empty(),
    {
        let r = NameSet { names: Vec::new() };
        assert(names_of(r.names@).to_set() =~= Set::<Seq<char>>::empty());
        r
    }

    fn position(&self, name: &str) -> (r: Option<usize>)
        ensures
            match r {
                Some(i) => i < self.names@.len() && names_of(self.names@)[i as int] == name@,
                None => !names_of(self.names@).contains(name@),
            },
    {
        let mut i: usize = 0;
        while i < self.names.len()
            invariant
                i <= self.names.len(),
                forall|j: int| 0 <= j < i ==> names_of(self.names@)[j] != name@,
            decreases self.names.len() - i,
        {
            if str_eq(self.names[i].as_str(), name) {
                return Some(i);
            }
            i = i + 1;
        }
        None
    }

    /// Whether `name` is in the set.
    pub fn contains(&self, name: &str) -> (r: bool)
        ensures
            r == self.view_set().contains(name@),
    {
        match self.position(name) {
            Some(i) => {
                assert(names_of(self.names@).contains(name@));
                true
            },
            None => false,
        }
    }

    /// Adds `name`; whether it was new.
    pub fn insert(&mut self, name: &str) -> (added: bool)
        ensures
            added == !old(self).view_set().contains(name@),
            final(self).view_set() == old(self).view_set().insert(name@),
    {
        proof { use_type_invariant(&*self); }
        match self.position(name) {
            Some(i) => {
                assert(names_of(self.names@).contains(name@));
                assert(self.view_set().insert(name@) =~= self.view_set());
                false
            },
            None => {
                let ghost before = names_of(self.names@);
                let mut names = Vec::new();
                std::mem::swap(&mut names, &mut self.names);
                names.push(owned(name));
                assert(names_of(names@) =~= before.push(name@));
                proof {
                    let after = names_of(names@);
                    assert forall|k: Seq<char>| #[trigger] after.to_set().contains(k) == before.to_set().insert(name@).contains(k) by {
                        if after.contains(k) {
                            let m = choose|m: int| 0 <= m < after.len() && after[m] == k;
                            if m < before.len() {
                                assert(before[m] == k);
                            }
                        }
                        if before.contains(k) {
                            let m = choose|m: int| 0 <= m < before.len() && before[m] == k;
                            assert(after[m] == k);
                        }
                        if k == name@ {
                            assert(after[before.len() as int] == name@);
                        }
                    }
                    assert(after.to_set() =~= before.to_set().insert(name@));
                    assert(after.no_duplicates()) by {
                        assert forall|a: int, b: int| 0 <= a < after.len() && 0 <= b < after.len() && a != b implies after[a] != after[b] by {
                            if a == before.len() as int {
                                assert(after[b] == before[b]);
                                assert(before[b] != name@);
                            } else if b == before.len() as int {
                                assert(after[a] == before[a]);
                                assert(before[a] != name@);
                            } else {
                                assert(after[a] == before[a] && after[b] == before[b]);
                            }
                        }
                    }
                }
                self.names = names;
                true
            },
        }
    }

    /// Removes `name`.
    pub fn remove(&mut self, name: &str)
        ensures
            final(self).view_set() == old(self).view_set().remove(name@),
    {
        proof { use_type_invariant(&*self); }
        match self.position(name) {
            Some(i) => {
                let ghost before = names_of(self.names@);
                let mut names = Vec::new();
                std::mem::swap(&mut names, &mut self.names);
                let _ = names.remove(i);
                proof {
                    assert(names_of(names@) =~= before.remove(i as int));
                    assert forall|k: Seq<char>| #[trigger] names_of(names@).to_set().contains(k)
                        == before.to_set().remove(name@).contains(k) by {
                        if names_of(names@).contains(k) {
                            let m = choose|m: int| 0 <= m < names_of(names@).len() && names_of(names@)[m] == k;
                            if m < i {
                                assert(before[m] == k);
                            } else {
                                assert(before[m + 1] == k);
                            }
                        }
                        if before.contains(k) && k != name@ {
                            let m = choose|m: int| 0 <= m < before.len() && before[m] == k;
                            if m < i {
                                assert(names_of(names@)[m] == k);
                            } else {
                                assert(names_of(names@)[m - 1] == k);
                            }
                        }
                    }
                    assert(names_of(names@).to_set() =~= before.to_set().remove(name@));
                }
                self.names = names;
            },
            None => {
                assert(self.view_set().remove(name@) =~= self.view_set());
            },
        }
    }
}

/// The instances that have a runtime.
#[derive(Debug)]
pub struct InstanceRuntimeRegistry {
    instances: NameSet,
}

impl InstanceRuntimeRegistry {
    /// The instances registered.
    pub closed spec fn instances_view(&self) -> Set<Seq<char>> {
        self.instances.view_set()
    }

    /// No instances.
    pub fn new() -> (r: Self)
        ensures
            r.instances_view() == Set::<Seq<char>>::empty(),
    {
        InstanceRuntimeRegistry { instances: NameSet::new() }
    }

    /// Registers `instance_id` (again, if it is already there).
    pub fn register(&mut self, instance_id: &str)
        ensures
            final(self).instances_view() == old(self).instances_view().insert(instance_id@),
    {
        let _ = self.instances.insert(instance_id);
    }
}

impl Default for InstanceRuntimeRegistry {
    fn default() -> (r: Self)
        ensures
            r.instances_view() == Set::<Seq<char>>::empty(),
    {
        InstanceRuntimeRegistry::new()
    }
}

/// A pool of workers per instance.
#[derive(Debug, Clone, Copy, PartialEq, Eq, Structural)]
pub struct InstanceWorkerPool;

/// Hands invocations to apps.
#[derive(Debug, Clone, Copy, PartialEq, Eq, Structural)]
pub struct AppInvocationDispatcher;

/// The lanes in use: the conversations with an active turn and the memory
/// scopes with a writer.
#[derive(Debug)]
pub struct ExecutionLanePool {
    active_conversations: NameSet,
    memory_writers: NameSet,
}

/// Whether `r` is the lane assignment for `item` given the conversations
/// `active` and memory writers `writers` in use before, and `active2` and
/// `writers2` after. A conversation with an active turn refuses a second one;
/// a memory scope with a writer refuses a second writer (the item's
/// conversation, if any, stays marked active then).
pub open spec fn lane_assignment(
    item: WorkItem,
    active: Set<Seq<char>>,
    writers: Set<Seq<char>>,
    r: Result<ExecutionLane, AicoreError>,
    active2: Set<Seq<char>>,
    writers2: Set<Seq<char>>,
) -> bool {
    if item.conversation_id is Some && active.contains(item.conversation_id->0@) {
        &&& r matches Err(AicoreError::Conflict(m)) && m@ == "active conversation: "@ + item.conversation_id->0@
        &&& active2 == active
        &&& writers2 == writers
    } else {
        let active1 = match item.conversation_id {
            Some(c) => active.insert(c@),
            None => active,
        };
        &&& active2 == active1
        &&& match item.kind {
            WorkItemKind::MemoryWrite { scope } => if writers.contains(scope@) {
                &&& r matches Err(AicoreError::Conflict(m)) && m@ == "memory writer scope: "@ + scope@
                &&& writers2 == writers
            } else {
                &&& r matches Ok(l) && lane_key(l) == lane_of(item)
                &&& writers2 == writers.insert(scope@)
            },
            _ => {
                &&& r matches Ok(l) && lane_key(l) == lane_of(item)
                &&& writers2 == writers
            },
        }
    }
}

/// The lanes in use after releasing `item`: its conversation and, for a
/// memory write, its scope are free again.
pub open spec fn released_sets(item: WorkItem, active: Set<Seq<char>>, writers: Set<Seq<char>>) -> (Set<Seq<char>>, Set<Seq<char>>) {
    let a = match item.conversation_id {
        Some(c) => active.remove(c@),
        None => active,
    };
    let w = match item.kind {
        WorkItemKind::MemoryWrite { scope } => writers.remove(scope@),
        _ => writers,
    };
    (a, w)
}

impl ExecutionLanePool {
    /// The conversations with an active turn.
    pub closed spec fn active_view(&self) -> Set<Seq<char>> {
        self.active_conversations.view_set()
    }

    /// The memory scopes with a writer.
    pub closed spec fn writers_view(&self) -> Set<Seq<char>> {
        self.memory_writers.view_set()
    }

    /// No lanes in use.
    pub fn new() -> (r: Self)
        ensures
            r.active_view() == Set::<Seq<char>>::empty(),
            r.writers_view() == Set::<Seq<char>>::empty(),
    {
        ExecutionLanePool { active_conversations: NameSet::new(), memory_writers: NameSet::new() }
    }

    /// Assigns the lane for `item`, marking its conversation active and, for
    /// a memory write, its scope written.
    pub fn lane_for(&mut self, item: &WorkItem) -> (r: Result<ExecutionLane, AicoreError>)
        ensures
            lane_assignment(*item, old(self).active_view(), old(self).writers_view(), r, final(self).active_view(), final(self).writers_view()),
    {
        let ghost active0 = self.active_conversations.view_set();
        match &item.conversation_id {
            Some(c) => {
                if !self.active_conversations.insert(c.as_str()) {
                    assert(active0.insert(c@) =~= active0);
                    let mut m = owned("active conversation: ");
                    append_str(&mut m, c.as_str());
                    return Err(AicoreError::Conflict(m));
                }
            },
            None => {},
        }
        match &item.kind {
            WorkItemKind::StateMutation => Ok(ExecutionLane::InstanceState(item.instance_id.clone())),
            WorkItemKind::ProviderCall => Ok(ExecutionLane::ProviderRead(item.instance_id.clone())),
            WorkItemKind::ToolCall => Ok(ExecutionLane::ToolRead(item.instance_id.clone())),
            WorkItemKind::MemoryRead { scope } => Ok(ExecutionLane::MemoryRead(scope.clone())),
            WorkItemKind::MemoryWrite { scope } => {
                let ghost writers0 = self.memory_writers.view_set();
                if !self.memory_writers.insert(scope.as_str()) {
                    assert(writers0.insert(scope@) =~= writers0);
                    let mut m = owned("memory writer scope: ");
                    append_str(&mut m, scope.as_str());
                    return Err(AicoreError::Conflict(m));
                }
                Ok(ExecutionLane::MemoryWrite(scope.clone()))
            },
        }
    }

    /// Frees the lanes of `item`.
    pub fn release(&mut self, item: &WorkItem)
        ensures
            (final(self).active_view(), final(self).writers_view()) == released_sets(*item, old(self).active_view(), old(self).writers_view()),
    {
        match &item.conversation_id {
            Some(c) => self.active_conversations.remove(c.as_str()),
            None => {},
        }
        match &item.kind {
            WorkItemKind::MemoryWrite { scope } => self.memory_writers.remove(scope.as_str()),
            _ => {},
        }
    }
}

impl Default for ExecutionLanePool {
    fn default() -> (r: Self)
        ensures
            r.active_view() == Set::<Seq<char>>::empty(),
            r.writers_view() == Set::<Seq<char>>::empty(),
    {
        ExecutionLanePool::new()
    }
}

/// A run queue that holds at most its capacity.
#[derive(Debug)]
pub struct BackpressureManager {
    queue: Vec<WorkItem>,
    capacity: usize,
}

impl BackpressureManager {
    /// The items queued.
    pub closed spec fn queue_view(&self) -> Seq<WorkItem> {
        self.queue@
    }

    /// How many items it holds at most.
    pub closed spec fn capacity_view(&self) -> nat {
        self.capacity as nat
    }

    /// An empty run queue that holds at most `capacity` items.
    pub fn new(capacity: usize) -> (r: Self)
        ensures
            r.queue_view() == Seq::<WorkItem>::empty(),
            r.capacity_view() == capacity,
    {
        BackpressureManager { queue: Vec::new(), capacity }
    }

    /// Queues `item`, or refuses it when the queue is full.
    pub fn push(&mut self, item: WorkItem) -> (r: Result<(), AicoreError>)
        ensures
            final(self).capacity_view() == old(self).capacity_view(),
            old(self).queue_view().len() < old(self).capacity_view() ==> r is Ok && final(self).queue_view() == old(self).queue_view().push(item),
            old(self).queue_view().len() >= old(self).capacity_view() ==> (r matches Err(AicoreError::Conflict(m)) && m@ == "queue full"@)
                && final(self).queue_view() == old(self).queue_view(),
    {
        if self.queue.len() >= self.capacity {
            return Err(AicoreError::Conflict(owned("queue full")));
        }
        self.queue.push(item);
        Ok(())
    }
}

/// Holds a budget.
#[derive(Debug, Clone, Copy, PartialEq, Eq, Structural)]
pub struct ResourceBudgetManager {
    budget: ResourceBudget,
}

impl ResourceBudgetManager {
    /// The budget held.
    pub closed spec fn budget_view(&self) -> ResourceBudget {
        self.budget
    }

    /// A manager of `budget`.
    pub fn new(budget: ResourceBudget) -> (r: Self)
        ensures
            r.budget_view() == budget,
    {
        ResourceBudgetManager { budget }
    }

    /// The budget held.
    pub fn budget(&self) -> (r: &ResourceBudget)
        ensures
            *r == self.budget_view(),
    {
        &self.budget
    }
}

/// Assigns lanes and records when work starts.
#[derive(Debug)]
pub struct KernelScheduler {
    lanes: ExecutionLanePool,
    events: Vec<KernelEventEnvelope>,
}

/// Whether `ev` records that the work of `item` started.
pub open spec fn is_work_started(ev: KernelEventEnvelope, item: WorkItem) -> bool {
    &&& ev.event_id@ == "event."@ + item.invocation_id@
    &&& ev.event_type == KernelEventType::WorkStarted
    &&& ev.instance_id@ == item.instance_id@
    &&& ev.app_id@ == "kernel.scheduler"@
    &&& ev.invocation_id@ == item.invocation_id@
    &&& ev.visibility == Visibility::Internal
}

impl KernelScheduler {
    /// The conversations with an active turn.
    pub closed spec fn active_view(&self) -> Set<Seq<char>> {
        self.lanes.active_view()
    }

    /// The memory scopes with a writer.
    pub closed spec fn writers_view(&self) -> Set<Seq<char>> {
        self.lanes.writers_view()
    }

    /// The events recorded, in order.
    pub closed spec fn events_view(&self) -> Seq<KernelEventEnvelope> {
        self.events@
    }

    /// A scheduler with no lanes in use and no events.
    pub fn new() -> (r: Self)
        ensures
            r.active_view() == Set::<Seq<char>>::empty(),
            r.writers_view() == Set::<Seq<char>>::empty(),
            r.events_view() == Seq::<KernelEventEnvelope>::empty(),
    {
        KernelScheduler { lanes: ExecutionLanePool::new(), events: Vec::new() }
    }

    /// Assigns the lane for `item`.
    pub fn assign_lane(&mut self, item: &WorkItem) -> (r: Result<ExecutionLane, AicoreError>)
        ensures
            lane_assignment(*item, old(self).active_view(), old(self).writers_view(), r, final(self).active_view(), final(self).writers_view()),
            final(self).events_view() == old(self).events_view(),
    {
        self.lanes.lane_for(item)
    }

    /// Frees the lanes of `item`.
    pub fn release(&mut self, item: &WorkItem)
        ensures
            (final(self).active_view(), final(self).writers_view()) == released_sets(*item, old(self).active_view(), old(self).writers_view()),
            final(self).events_view() == old(self).events_view(),
    {
        self.lanes.release(item);
    }

    /// Records that the work of `item` started.
    pub fn record_work_started(&mut self, item: &WorkItem)
        ensures
            final(self).events_view().len() == old(self).events_view().len() + 1,
            final(self).events_view().drop_last() == old(self).events_view(),
            is_work_started(final(self).events_view().last(), *item),
            final(self).active_view() == old(self).active_view(),
            final(self).writers_view() == old(self).writers_view(),
    {
        let mut event_id = owned("event.");
        append_str(&mut event_id, item.invocation_id.as_str());
        let ev = KernelEventEnvelope::new(
            event_id.as_str(),
            KernelEventType::WorkStarted,
            item.instance_id.as_str(),
            "kernel.scheduler",
            item.invocation_id.as_str(),
            Visibility::Internal,
        );
        self.events.push(ev);
    }

    /// The events recorded, in order.
    pub fn events(&self) -> (r: &[KernelEventEnvelope])
        ensures
            r@ == self.events_view(),
    {
        self.events.as_slice()
    }
}

impl Default for KernelScheduler {
    fn default() -> (r: Self)
        ensures
            r.active_view() == Set::<Seq<char>>::empty(),
            r.writers_view() == Set::<Seq<char>>::empty(),
            r.events_view() == Seq::<KernelEventEnvelope>::empty(),
    {
        KernelScheduler::new()
    }
}

/// Releasing a successfully assigned item frees exactly what the assignment
/// took: the lanes in use are those before the assignment, when the item's
/// conversation and memory-write scope were free before.
pub proof fn lemma_release_undoes_assignment(
    item: WorkItem,
    active: Set<Seq<char>>,
    writers: Set<Seq<char>>,
    r: Result<ExecutionLane, AicoreError>,
    active2: Set<Seq<char>>,
    writers2: Set<Seq<char>>,
)
    requires
        lane_assignment(item, active, writers, r, active2, writers2),
        r is Ok,
    ensures
        released_sets(item, active2, writers2) == (active, writers),
{
    match item.conversation_id {
        Some(c) => {
            assert(!active.contains(c@));
            assert(active2.remove(c@) =~= active);
        },
        None => {},
    }
    match item.kind {
        WorkItemKind::MemoryWrite { scope } => {
            assert(!writers.contains(scope@));
            assert(writers2.remove(scope@) =~= writers);
        },
        _ => {},
    }
}

/// Work items of one kind from different instances (or scopes) never share a
/// lane, and an assigned lane always has the item's kind and key.
pub proof fn lemma_distinct_keys_distinct_lanes(
    a: WorkItem,
    b: WorkItem,
    la: ExecutionLane,
    lb: ExecutionLane,
)
    requires
        lane_key(la) == lane_of(a),
        lane_key(lb) == lane_of(b),
        lane_of(a) != lane_of(b),
    ensures
        la != lb,
{
}

/// Each kind of work runs in its own kind of lane, keyed by its instance or
/// memory scope: state mutations in the instance-state lane, provider calls
/// in the provider-read lane, tool calls in the tool-read lane, memory reads
/// and writes in the memory lanes of their scope. So a tool call and a
/// provider call of one instance never share a lane.
pub proof fn lemma_lane_per_work_kind(item: WorkItem, lane: ExecutionLane)
    requires
        lane_key(lane) == lane_of(item),
    ensures
        item.kind is StateMutation ==> (lane matches ExecutionLane::InstanceState(i) && i@ == item.instance_id@),
        item.kind is ProviderCall ==> (lane matches ExecutionLane::ProviderRead(i) && i@ == item.instance_id@),
        item.kind is ToolCall ==> (lane matches ExecutionLane::ToolRead(i) && i@ == item.instance_id@),
        item.kind matches WorkItemKind::MemoryRead { scope } ==> (lane matches ExecutionLane::MemoryRead(s) && s@ == scope@),
        item.kind matches WorkItemKind::MemoryWrite { scope } ==> (lane matches ExecutionLane::MemoryWrite(s) && s@ == scope@),
{
}

/// A lane the scheduler hands out for an item is the lane of its kind
/// (see `lemma_lane_per_work_kind`).
pub proof fn lemma_assigned_lane_per_work_kind(
    item: WorkItem,
    active: Set<Seq<char>>,
    writers: Set<Seq<char>>,
    lane: ExecutionLane,
    active2: Set<Seq<char>>,
    writers2: Set<Seq<char>>,
)
    requires
        lane_assignment(item, active, writers, Ok(lane), active2, writers2),
    ensures
        item.kind is ToolCall ==> (lane matches ExecutionLane::ToolRead(i) && i@ == item.instance_id@),
        item.kind is ProviderCall ==> (lane matches ExecutionLane::ProviderRead(i) && i@ == item.instance_id@),
        item.kind is StateMutation ==> (lane matches ExecutionLane::InstanceState(i) && i@ == item.instance_id@),
{
    lemma_lane_per_work_kind(item, lane);
}

} // verus!
