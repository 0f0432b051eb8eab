//! The thread pool: its configuration, its tasks and the batches in which
//! tasks are handed to it.
use vstd::prelude::*;

use crate::status::{check_status, OsError};

verus! {

/// Configuration for a [`ThreadPool`].
#[derive(Debug, Clone, Copy)]
pub struct Config {
    /// Stack size for worker threads. `None` keeps libxev's default.
    pub stack_size: Option<u32>,
    /// Maximum number of worker threads. `None` keeps libxev's default.
    pub max_threads: Option<u32>,
}

impl Default for Config {
    /// The configuration that keeps every libxev default.
    fn default() -> (c: Config)
        ensures
            c.stack_size is None,
            c.max_threads is None,
    {
        Config { stack_size: None, max_threads: None }
    }
}

/// One call that configures the pool before it starts: which C setter of
/// `xev_threadpool_config` runs, with which value.
#[derive(Debug, Clone, Copy, PartialEq, Eq, Structural)]
pub enum ConfigStep {
    /// `xev_threadpool_config_set_stack_size` with this value.
    SetStackSize(u32),
    /// `xev_threadpool_config_set_max_threads` with this value.
    SetMaxThreads(u32),
}

/// The step for an optional setting: none when it is absent, the setter
/// with its value when it is present.
pub open spec fn opt_step(value: Option<u32>, make: spec_fn(u32) -> ConfigStep) -> Seq<ConfigStep> {
    match value {
        Some(v) => seq![make(v)],
        None => Seq::empty(),
    }
}

/// The setter calls that apply `config` on top of libxev's defaults, in
/// order: the stack size when it is set, then the maximum thread count when
/// it is set. A setting left at `None` keeps libxev's default, so no setter
/// runs for it.
pub fn config_steps(config: &Config) -> (steps: Vec<ConfigStep>)
    ensures
        steps@ == opt_step(config.stack_size, |v: u32| ConfigStep::SetStackSize(v)) + opt_step(
            config.max_threads,
            |v: u32| ConfigStep::SetMaxThreads(v),
        ),
        steps@.len() == (if config.stack_size is Some { 1int } else { 0int }) + (
        if config.max_threads is Some {
            1int
        } else {
            0int
        }),
        forall|v: u32| config.stack_size == Some(v) ==> steps@[0] == ConfigStep::SetStackSize(v),
        forall|v: u32|
            config.max_threads == Some(v) ==> steps@[steps@.len() - 1] == ConfigStep::SetMaxThreads(
                v,
            ),
{
    let mut steps: Vec<ConfigStep> = Vec::new();
    if let Some(v) = config.stack_size {
        steps.push(ConfigStep::SetStackSize(v));
    }
    if let Some(v) = config.max_threads {
        steps.push(ConfigStep::SetMaxThreads(v));
    }
    proof {
        let a = opt_step(config.stack_size, |v: u32| ConfigStep::SetStackSize(v));
        let b = opt_step(config.max_threads, |v: u32| ConfigStep::SetMaxThreads(v));
        assert(steps@ =~= a + b);
    }
    steps
}

/// Every setting that is present becomes its setter with exactly its value,
/// the stack size before the thread count, and nothing else is called: one
/// step per present setting.
pub proof fn lemma_config_steps_cover_settings(stack_size: Option<u32>, max_threads: Option<u32>)
    ensures
        ({
            let steps = opt_step(stack_size, |v: u32| ConfigStep::SetStackSize(v)) + opt_step(
                max_threads,
                |v: u32| ConfigStep::SetMaxThreads(v),
            );
            &&& steps.len() == (if stack_size is Some { 1int } else { 0int }) + (
            if max_threads is Some {
                1int
            } else {
                0int
            })
            &&& forall|v: u32| stack_size == Some(v) ==> steps[0] == ConfigStep::SetStackSize(v)
            &&& forall|v: u32|
                max_threads == Some(v) ==> steps[steps.len() - 1] == ConfigStep::SetMaxThreads(v)
        }),
{
}

/// A thread pool, held by the address of its initialised C storage.
pub struct ThreadPool {
    raw: usize,
}

impl ThreadPool {
    /// The handle always refers to real storage: its address is never zero.
    #[verifier::type_invariant]
    spec fn addr_non_zero(self) -> bool {
        self.raw != 0
    }
}

impl View for ThreadPool {
    type V = usize;

    closed spec fn view(&self) -> usize {
        self.raw
    }
}

impl ThreadPool {
    /// Take over the pool storage at `raw`, given the status that
    /// `xev_threadpool_init` returned for it.
    pub fn new(raw: usize, rc: i32) -> (r: Result<ThreadPool, OsError>)
        requires
            raw != 0,
        ensures
            match r {
                Ok(p) => rc == 0 && p@ == raw,
                Err(e) => rc != 0 && e == (OsError { code: rc }),
            },
    {
        match check_status(rc) {
            Ok(()) => Ok(ThreadPool { raw }),
            Err(e) => Err(e),
        }
    }

    /// Schedule a batch onto the pool: every task of the batch is handed
    /// over, in the order in which it was pushed, and the batch is left empty
    /// so that it can be reused.
    pub fn schedule(&self, batch: &mut Batch) -> (tasks: Vec<usize>)
        ensures
            tasks@ == old(batch)@,
            forall|i: int| 0 <= i < tasks@.len() ==> #[trigger] tasks@[i] != 0,
            final(batch)@ == Seq::<usize>::empty(),
    {
        proof {
            use_type_invariant(&*batch);
        }
        let mut tasks: Vec<usize> = Vec::new();
        std::mem::swap(&mut tasks, &mut batch.tasks);
        tasks
    }
}

/// A unit of work for a [`ThreadPool`], held by the address of its task
/// record (the C task header followed by the closure that it runs).
pub struct Task {
    inner: usize,
}

impl Task {
    /// The handle always refers to real storage: its address is never zero.
    #[verifier::type_invariant]
    spec fn addr_non_zero(self) -> bool {
        self.inner != 0
    }
}

impl View for Task {
    type V = usize;

    closed spec fn view(&self) -> usize {
        self.inner
    }
}

impl Task {
    /// The task whose record lives at `inner`.
    pub fn new(inner: usize) -> (t: Task)
        requires
            inner != 0,
        ensures
            t@ == inner,
    {
        Task { inner }
    }
}

/// A batch of tasks waiting to be scheduled, in the order of their pushes.
pub struct Batch {
    tasks: Vec<usize>,
}

impl Batch {
    /// Every task in the batch refers to a real task record: no task address
    /// is zero.
    #[verifier::type_invariant]
    spec fn addr_non_zero(self) -> bool {
        forall|i: int| 0 <= i < self.tasks@.len() ==> #[trigger] self.tasks@[i] != 0
    }
}

impl View for Batch {
    type V = Seq<usize>;

    closed spec fn view(&self) -> Seq<usize> {
        self.tasks@
    }
}

impl Batch {
    /// An empty batch.
    pub fn new() -> (b: Batch)
        ensures
            b@ == Seq::<usize>::empty(),
    {
        Batch { tasks: Vec::new() }
    }

    /// Append a task; the batch takes it over.
    pub fn push(&mut self, task: Task)
        ensures
            final(self)@ == old(self)@.push(task@),
            task@ != 0,
    {
        proof {
            use_type_invariant(&*self);
            use_type_invariant(&task);
        }
        let mut tasks: Vec<usize> = Vec::new();
        std::mem::swap(&mut tasks, &mut self.tasks);
        tasks.push(task.inner);
        self.tasks = tasks;
    }
}

impl Default for Batch {
    /// An empty batch.
    fn default() -> (b: Batch)
        ensures
            b@ == Seq::<usize>::empty(),
    {
        Batch::new()
    }
}

/// The batch contents after pushing each of `tasks`, in order, onto a batch
/// holding `start`.
pub open spec fn after_pushes(start: Seq<usize>, tasks: Seq<usize>) -> Seq<usize>
    decreases tasks.len(),
{
    if tasks.len() == 0 {
        start
    } else {
        after_pushes(start, tasks.drop_last()).push(tasks.last())
    }
}

/// Pushing tasks one by one onto a batch appends them in push order; so a
/// fresh batch that receives `tasks` and is then scheduled hands over exactly
/// `tasks`, in that order.
pub proof fn lemma_pushes_append(start: Seq<usize>, tasks: Seq<usize>)
    ensures
        after_pushes(start, tasks) == start + tasks,
    decreases tasks.len(),
{
    if tasks.len() > 0 {
        lemma_pushes_append(start, tasks.drop_last());
        assert(start + tasks.drop_last() + seq![tasks.last()] =~= start + tasks);
    } else {
        assert(start + tasks =~= start);
    }
}

} // verus!
