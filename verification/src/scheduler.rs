//! The scheduler: the owner of the job loops that run.
//!
//! A [`TaskScheduler`] holds one handle for each job loop it has asked for.
//! A reload replaces them all: it asks for every loop it holds to be
//! cancelled, and then for one new loop for each task of the new
//! configuration. The scheduler starts and stops nothing itself. It says
//! what is to be done, as a plan, and whoever drives it carries the plan out
//! in order.

use vstd::prelude::*;

use crate::config::{Config, Task};

verus! {

/// The scheduler's token for one job loop.
///
/// A handle names the reload from which the loop stems and the place of its
/// task in that reload's configuration.
#[derive(Clone, Copy, Debug, PartialEq, Eq, Hash, Structural)]
pub struct JobHandle {
    pub generation: u64,
    pub slot: usize,
}

/// One step of a plan.
#[derive(Debug)]
pub enum SchedulerAction {
    /// Cancel the job loop behind this handle. The loop stops at its next
    /// pause; a command that it has running is left to end by itself or at
    /// its deadline. A loop that has already ended may be cancelled too.
    Cancel(JobHandle),
    /// Start a job loop for `task` and know it by `handle`.
    Start { handle: JobHandle, task: Task },
}

/// The owner of the running job loops.
#[derive(Debug)]
pub struct TaskScheduler {
    job_handles: Vec<JobHandle>,
    generation: u64,
}

/// What a scheduler holds.
pub struct SchedulerState {
    /// The number of the last reload, counted round.
    pub generation: u64,
    /// The handles of the job loops asked for and not cancelled since.
    pub handles: Seq<JobHandle>,
}

/// The handle of the loop in place `slot` of reload `generation`.
pub open spec fn handle_at(generation: u64, slot: int) -> JobHandle {
    JobHandle { generation, slot: slot as usize }
}

/// The handles that a reload numbered `generation` gives to `count` tasks.
pub open spec fn fresh_handles(generation: u64, count: nat) -> Seq<JobHandle> {
    Seq::new(count, |slot: int| handle_at(generation, slot))
}

impl SchedulerState {
    /// Every handle held stems from the last reload and stands in its place.
    pub open spec fn wf(self) -> bool {
        &&& self.handles.len() <= usize::MAX
        &&& forall|slot: int|
            0 <= slot < self.handles.len() ==> #[trigger] self.handles[slot] == handle_at(
                self.generation,
                slot,
            )
    }
}

/// The number of the reload after `generation`.
pub open spec fn next_generation(generation: u64) -> u64 {
    if generation == u64::MAX {
        0
    } else {
        (generation + 1) as u64
    }
}

/// A plan that cancels `handles` in order.
pub open spec fn cancellations(handles: Seq<JobHandle>) -> Seq<SchedulerAction> {
    Seq::new(handles.len(), |i: int| SchedulerAction::Cancel(handles[i]))
}

/// A plan that starts `tasks` in order under the handles of `generation`.
pub open spec fn registrations(generation: u64, tasks: Seq<Task>) -> Seq<SchedulerAction> {
    Seq::new(
        tasks.len(),
        |slot: int| SchedulerAction::Start { handle: handle_at(generation, slot), task: tasks[slot] },
    )
}

/// The scheduler's rule for a reload: every handle held is cancelled, then
/// every task of the new configuration is started, and the handles held
/// afterwards are those of the tasks started.
pub open spec fn reload_model(s: SchedulerState, tasks: Seq<Task>) -> (
    SchedulerState,
    Seq<SchedulerAction>,
) {
    let generation = next_generation(s.generation);
    (
        SchedulerState { generation, handles: fresh_handles(generation, tasks.len()) },
        cancellations(s.handles) + registrations(generation, tasks),
    )
}

impl View for TaskScheduler {
    type V = SchedulerState;

    closed spec fn view(&self) -> SchedulerState {
        SchedulerState { generation: self.generation, handles: self.job_handles@ }
    }
}

impl TaskScheduler {
    #[verifier::type_invariant]
    spec fn held_in_order(&self) -> bool {
        self@.wf()
    }

    /// A scheduler with no job loop.
    pub fn new() -> (scheduler: TaskScheduler)
        ensures
            scheduler@.handles.len() == 0,
            scheduler@.generation == 0,
            scheduler@.wf(),
    {
        TaskScheduler { job_handles: Vec::new(), generation: 0 }
    }

    /// The number of job loops held.
    pub fn job_count(&self) -> (count: usize)
        ensures
            count == self@.handles.len(),
    {
        self.job_handles.len()
    }

    /// Replaces every job loop held by one for each task of `config`.
    ///
    /// The plan returned is to be carried out in order: it first cancels
    /// each loop held so far, then starts the new ones, one for each task
    /// and in the order of the configuration. A configuration without tasks
    /// leaves the scheduler idle, which is how the engine shuts down.
    pub fn reload_tasks(&mut self, config: Config) -> (plan: Vec<SchedulerAction>)
        ensures
            final(self)@ == reload_model(old(self)@, config.tasks@).0,
            plan@ == reload_model(old(self)@, config.tasks@).1,
            final(self)@.wf(),
    {
        proof {
            use_type_invariant(&*self);
        }
        let ghost before = self@;
        let ghost tasks = config.tasks@;
        let mut plan: Vec<SchedulerAction> = Vec::new();
        let mut held: Vec<JobHandle> = Vec::new();
        core::mem::swap(&mut held, &mut self.job_handles);
        let mut position: usize = 0;
        while position < held.len()
            invariant
                position <= held@.len(),
                plan@.len() == position,
                forall|i: int|
                    0 <= i < position ==> #[trigger] plan@[i] == SchedulerAction::Cancel(held@[i]),
            decreases held@.len() - position,
        {
            plan.push(SchedulerAction::Cancel(held[position]));
            position = position + 1;
        }
        let generation: u64 = if self.generation == u64::MAX {
            0
        } else {
            self.generation + 1
        };
        self.generation = generation;
        let count: usize = config.tasks.len();
        let mut slot: usize = 0;
        for task in it: config.tasks
            invariant
                it.seq() == tasks,
                tasks.len() == count,
                slot == it.index(),
                held@ == before.handles,
                self@.generation == generation,
                self@.handles.len() == slot,
                self@.wf(),
                plan@.len() == held@.len() + slot,
                forall|i: int|
                    0 <= i < held@.len() ==> #[trigger] plan@[i] == SchedulerAction::Cancel(
                        held@[i],
                    ),
                forall|i: int|
                    0 <= i < slot ==> #[trigger] plan@[held@.len() + i] == (SchedulerAction::Start {
                        handle: handle_at(generation, i),
                        task: tasks[i],
                    }),
        {
            let action = self.register_task(task);
            plan.push(action);
            slot = slot + 1;
        }
        proof {
            let model = reload_model(before, tasks);
            assert(self@.handles =~= model.0.handles);
            assert(plan@.len() == model.1.len());
            assert forall|k: int| 0 <= k < plan@.len() implies plan@[k] == model.1[k] by {
                if k >= held@.len() {
                    let i = k - held@.len();
                    assert(plan@[held@.len() + i] == (SchedulerAction::Start {
                        handle: handle_at(generation, i),
                        task: tasks[i],
                    }));
                } else {
                    assert(plan@[k] == SchedulerAction::Cancel(held@[k]));
                }
            }
            assert(plan@ =~= model.1);
        }
        plan
    }

    /// Adds a job loop for `task` to those held.
    fn register_task(&mut self, task: Task) -> (action: SchedulerAction)
        requires
            old(self)@.handles.len() < usize::MAX,
        ensures
            final(self)@.wf(),
            final(self)@.generation == old(self)@.generation,
            final(self)@.handles == old(self)@.handles.push(
                handle_at(old(self)@.generation, old(self)@.handles.len() as int),
            ),
            action == (SchedulerAction::Start {
                handle: handle_at(old(self)@.generation, old(self)@.handles.len() as int),
                task,
            }),
    {
        proof {
            use_type_invariant(&*self);
        }
        let handle = JobHandle { generation: self.generation, slot: self.job_handles.len() };
        let mut handles: Vec<JobHandle> = Vec::new();
        core::mem::swap(&mut handles, &mut self.job_handles);
        handles.push(handle);
        core::mem::swap(&mut handles, &mut self.job_handles);
        SchedulerAction::Start { handle, task }
    }
}

/// Whether `plan` asks for the loop behind `handle` to be started.
pub open spec fn starts(plan: Seq<SchedulerAction>, handle: JobHandle) -> bool {
    exists|i: int|
        0 <= i < plan.len() && (#[trigger] plan[i] matches SchedulerAction::Start {
            handle: started,
            ..
        } && started == handle)
}

/// A reload leaves exactly one job loop for each task of the new
/// configuration and none of those held before.
///
/// The plan cancels every handle held before, each once and in order, and
/// only then starts the tasks, each once and in the configuration's order.
/// The handles held afterwards are those of the tasks started, no two of them
/// the same, and none of them was held before.
pub proof fn lemma_reload_replaces_every_job(s: SchedulerState, tasks: Seq<Task>)
    requires
        s.wf(),
        tasks.len() <= usize::MAX,
    ensures
        ({
            let after = reload_model(s, tasks).0;
            let plan = reload_model(s, tasks).1;
            &&& after.wf()
            &&& after.handles.len() == tasks.len()
            &&& plan.len() == s.handles.len() + tasks.len()
            &&& forall|i: int|
                0 <= i < s.handles.len() ==> #[trigger] plan[i] == SchedulerAction::Cancel(
                    s.handles[i],
                )
            &&& forall|i: int|
                0 <= i < tasks.len() ==> #[trigger] plan[s.handles.len() + i]
                    == (SchedulerAction::Start { handle: after.handles[i], task: tasks[i] })
            &&& forall|i: int, j: int|
                0 <= i < j < tasks.len() ==> #[trigger] after.handles[i]
                    != #[trigger] after.handles[j]
            &&& forall|i: int|
                0 <= i < s.handles.len() ==> !after.handles.contains(#[trigger] s.handles[i])
        }),
{
    let after = reload_model(s, tasks).0;
    assert forall|i: int| 0 <= i < s.handles.len() implies !after.handles.contains(
        #[trigger] s.handles[i],
    ) by {
        assert(s.handles[i].generation == s.generation);
        assert forall|k: int| 0 <= k < after.handles.len() implies after.handles[k]
            != s.handles[i] by {
            assert(after.handles[k].generation == after.generation);
        }
    }
}

/// Of two reloads in a row, the second ends everything the first began.
///
/// The second plan cancels every job loop that the first one started, and
/// asks for none of its own before the last of them is cancelled. None of
/// the first reload's handles is held afterwards, and none is started again.
pub proof fn lemma_second_reload_ends_first(s: SchedulerState, first: Seq<Task>, second: Seq<Task>)
    requires
        s.wf(),
        first.len() <= usize::MAX,
        second.len() <= usize::MAX,
    ensures
        ({
            let between = reload_model(s, first).0;
            let after = reload_model(between, second).0;
            let plan = reload_model(between, second).1;
            &&& between.handles.len() == first.len()
            &&& after.handles.len() == second.len()
            &&& forall|i: int|
                0 <= i < first.len() ==> #[trigger] plan[i] == SchedulerAction::Cancel(
                    between.handles[i],
                )
            &&& forall|k: int| first.len() <= k < plan.len() ==> #[trigger] plan[k] is Start
            &&& forall|i: int|
                0 <= i < first.len() ==> !after.handles.contains(#[trigger] between.handles[i])
            &&& forall|i: int|
                0 <= i < first.len() ==> !starts(plan, #[trigger] between.handles[i])
        }),
{
    lemma_reload_replaces_every_job(s, first);
    let between = reload_model(s, first).0;
    lemma_reload_replaces_every_job(between, second);
    let after = reload_model(between, second).0;
    let plan = reload_model(between, second).1;
    assert forall|k: int| first.len() <= k < plan.len() implies #[trigger] plan[k] is Start by {
        let i = k - between.handles.len();
        assert(plan[between.handles.len() + i] is Start);
    }
    assert forall|i: int| 0 <= i < first.len() implies !starts(
        plan,
        #[trigger] between.handles[i],
    ) by {
        let old_handle = between.handles[i];
        assert(old_handle.generation == between.generation);
        assert forall|k: int| 0 <= k < plan.len() implies !(#[trigger] plan[k] matches SchedulerAction::Start {
            handle: started,
            ..
        } && started == old_handle) by {
            if k >= between.handles.len() {
                let slot = k - between.handles.len();
                assert(plan[between.handles.len() + slot] == (SchedulerAction::Start {
                    handle: after.handles[slot],
                    task: second[slot],
                }));
                assert(after.handles[slot].generation == after.generation);
            } else {
                assert(plan[k] == SchedulerAction::Cancel(between.handles[k]));
            }
        }
    }
}

/// A reload to no tasks cancels everything and leaves the scheduler idle.
pub proof fn lemma_empty_reload_idles(s: SchedulerState)
    ensures
        reload_model(s, Seq::<Task>::empty()).0.handles.len() == 0,
        reload_model(s, Seq::<Task>::empty()).1 == cancellations(s.handles),
{
    assert(registrations(next_generation(s.generation), Seq::<Task>::empty()) == Seq::<
        SchedulerAction,
    >::empty());
    assert(cancellations(s.handles) + Seq::<SchedulerAction>::empty() == cancellations(s.handles));
}

} // verus!
