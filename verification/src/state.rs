//! Runtime state of the tasks, kept between checks.
use vstd::prelude::*;
use crate::net::{Ipv4, Ipv6};
use crate::text_map::{TextMap, key_set};

verus! {

broadcast use vstd::string::group_string_axioms;

/// Runtime state of one task between checks.
#[derive(Debug, Clone)]
pub struct TaskRuntimeState {
    /// Last IPv4 address that every IPv4 domain was synchronised to.
    pub last_ipv4: Option<Ipv4>,
    /// Last IPv6 address that every IPv6 domain was synchronised to.
    pub last_ipv6: Option<Ipv6>,
    /// Consecutive failures to obtain the IPv4 address.
    pub ipv4_fail_count: u32,
    /// Consecutive failures to obtain the IPv6 address.
    pub ipv6_fail_count: u32,
    /// Consecutive synchronisation rounds with a failure.
    pub consecutive_failures: u32,
    /// Checks since the provider's records were last compared.
    pub check_counter: u32,
    /// Time of the last attempt.
    pub last_sync_time: Option<String>,
    /// Summary of the last error.
    pub last_error: Option<String>,
    /// Address last synchronised per record, keyed `full_domain:A` or `full_domain:AAAA`.
    pub synced_domains: TextMap<String>,
}

impl TaskRuntimeState {
    /// The synced-domain map is well formed.
    pub open spec fn wf(&self) -> bool {
        self.synced_domains.wf()
    }

    /// A fresh state: nothing synchronised, every counter zero.
    pub open spec fn is_fresh(&self) -> bool {
        &&& self.wf()
        &&& self.last_ipv4 is None && self.last_ipv6 is None
        &&& self.ipv4_fail_count == 0 && self.ipv6_fail_count == 0
        &&& self.consecutive_failures == 0 && self.check_counter == 0
        &&& self.last_sync_time is None && self.last_error is None
        &&& self.synced_domains@ == Map::<Seq<char>, String>::empty()
    }

    /// A fresh state.
    pub fn new() -> (r: Self)
        ensures r.is_fresh(),
    {
        TaskRuntimeState {
            last_ipv4: None,
            last_ipv6: None,
            ipv4_fail_count: 0,
            ipv6_fail_count: 0,
            consecutive_failures: 0,
            check_counter: 0,
            last_sync_time: None,
            last_error: None,
            synced_domains: TextMap::new(),
        }
    }
}

impl Default for TaskRuntimeState {
    fn default() -> (r: Self)
        ensures r.is_fresh(),
    {
        TaskRuntimeState::new()
    }
}

impl TaskRuntimeState {
    /// `b` holds the same state as `a`.
    pub open spec fn same_as(self, b: TaskRuntimeState) -> bool {
        &&& self.last_ipv4 == b.last_ipv4
        &&& self.last_ipv6 == b.last_ipv6
        &&& self.ipv4_fail_count == b.ipv4_fail_count
        &&& self.ipv6_fail_count == b.ipv6_fail_count
        &&& self.consecutive_failures == b.consecutive_failures
        &&& self.check_counter == b.check_counter
        &&& self.last_sync_time == b.last_sync_time
        &&& self.last_error == b.last_error
        &&& self.synced_domains@ == b.synced_domains@
        &&& self.wf() == b.wf()
    }

    /// A copy of the state.
    pub fn snapshot(&self) -> (r: Self)
        requires self.wf(),
        ensures r.same_as(*self),
    {
        TaskRuntimeState {
            last_ipv4: self.last_ipv4,
            last_ipv6: self.last_ipv6,
            ipv4_fail_count: self.ipv4_fail_count,
            ipv6_fail_count: self.ipv6_fail_count,
            consecutive_failures: self.consecutive_failures,
            check_counter: self.check_counter,
            last_sync_time: self.last_sync_time.clone(),
            last_error: self.last_error.clone(),
            synced_domains: self.synced_domains.duplicate(),
        }
    }
}

/// What reading the state of `name` gives and leaves: a copy of the stored state, or,
/// where there is none, a fresh state that is also stored.
pub open spec fn got_state(
    before: Map<Seq<char>, TaskRuntimeState>,
    after: Map<Seq<char>, TaskRuntimeState>,
    name: Seq<char>,
    r: TaskRuntimeState,
) -> bool {
    &&& r.wf()
    &&& before.contains_key(name) ==> after == before && r.same_as(before[name])
    &&& !before.contains_key(name) ==> {
        &&& r.is_fresh()
        &&& after.dom() == before.dom().insert(name)
        &&& after[name].is_fresh()
        &&& forall|k: Seq<char>| #[trigger] before.contains_key(k) ==> after[k] == before[k]
    }
}

/// A state that was written is read back: reading `name` after its state was replaced
/// by `state` gives a copy of `state` and changes nothing.
pub proof fn law_state_read_after_write(
    before: Map<Seq<char>, TaskRuntimeState>,
    written: Map<Seq<char>, TaskRuntimeState>,
    after: Map<Seq<char>, TaskRuntimeState>,
    name: Seq<char>,
    state: TaskRuntimeState,
    r: TaskRuntimeState,
)
    requires
        written == before.insert(name, state),
        got_state(written, after, name, r),
    ensures
        r.same_as(state),
        after == written,
{
}

/// Reading a task's state twice gives the same state, whether or not it existed before.
pub proof fn law_state_read_is_stable(
    s0: Map<Seq<char>, TaskRuntimeState>,
    s1: Map<Seq<char>, TaskRuntimeState>,
    s2: Map<Seq<char>, TaskRuntimeState>,
    name: Seq<char>,
    r1: TaskRuntimeState,
    r2: TaskRuntimeState,
)
    requires
        got_state(s0, s1, name, r1),
        got_state(s1, s2, name, r2),
    ensures
        s2 == s1,
        s1.contains_key(name),
        r2.same_as(s1[name]),
{
    if !s0.contains_key(name) {
        assert(s1.dom().contains(name));
    }
}

/// The runtime states of all tasks, by task name.
pub struct StateManager {
    tasks: TextMap<TaskRuntimeState>,
}

impl StateManager {
    /// Task names are unique and every state is well formed.
    pub closed spec fn wf(&self) -> bool {
        &&& self.tasks.wf()
        &&& forall|k: Seq<char>| #[trigger] self.tasks@.contains_key(k) ==> self.tasks@[k].wf()
    }

    /// The states by task name.
    pub closed spec fn states(&self) -> Map<Seq<char>, TaskRuntimeState> {
        self.tasks@
    }

    /// No task has a state yet.
    pub fn new() -> (r: Self)
        ensures r.wf(), r.states() == Map::<Seq<char>, TaskRuntimeState>::empty(),
    {
        StateManager { tasks: TextMap::new() }
    }

    /// A copy of the state of `task_name`; a task without one first gets a fresh state.
    pub fn get_task_state(&mut self, task_name: &str) -> (r: TaskRuntimeState)
        requires old(self).wf(),
        ensures
            final(self).wf(),
            got_state(old(self).states(), final(self).states(), task_name@, r),
    {
        match self.tasks.get(task_name) {
            Some(s) => s.snapshot(),
            None => {
                let fresh = TaskRuntimeState::new();
                let stored = fresh.snapshot();
                let ghost before = self.tasks@;
                self.tasks.insert(task_name.to_string(), stored);
                proof {
                    assert(self.tasks@.dom() =~= before.dom().insert(task_name@));
                }
                fresh
            },
        }
    }

    /// Replaces the state of `task_name` by `state`.
    pub fn update_task_state(&mut self, task_name: &str, state: TaskRuntimeState)
        requires old(self).wf(), state.wf(),
        ensures
            final(self).wf(),
            final(self).states() == old(self).states().insert(task_name@, state),
    {
        self.tasks.insert(task_name.to_string(), state);
    }

    /// Drops the states of the tasks that are not named in `active_task_names`.
    pub fn retain_active_tasks(&mut self, active_task_names: &[String])
        requires old(self).wf(),
        ensures
            final(self).wf(),
            final(self).states() == old(self).states().restrict(key_set(active_task_names@)),
    {
        self.tasks.retain_keys(active_task_names);
    }

    /// Number of tasks with a state.
    pub fn task_count(&self) -> (r: usize)
        requires self.wf(),
        ensures r == self.states().dom().len(),
    {
        proof { self.tasks.lemma_size_is_len(); }
        self.tasks.len()
    }

    /// Whether `task_name` has a state.
    pub fn has_task(&self, task_name: &str) -> (r: bool)
        requires self.wf(),
        ensures r == self.states().contains_key(task_name@),
    {
        self.tasks.contains_key(task_name)
    }
}

} // verus!
