//! The kinds of runtimes, their configuration, and the pool of native threads.

use crate::machine::count_cores;
use crate::policy::{list_cores, CoreAllocation};
use crate::thread_name::thread_name;
use crate::worker::{bind_current_thread, WorkerError};
use vstd::prelude::*;

verus! {

/// The configuration of a tokio runtime.
#[derive(Debug, Clone, Copy)]
pub struct TokioConfig {
    /// The number of worker threads; zero stands for one per core.
    pub worker_threads: usize,
    pub max_blocking_threads: usize,
    /// The priority of the threads, of which the lowest eight bits count.
    pub priority: u32,
    pub stack_size_bytes: usize,
    pub event_interval: u32,
    pub core_allocation: CoreAllocation,
}

impl Default for TokioConfig {
    fn default() -> (config: TokioConfig)
        ensures
            config == (TokioConfig {
                worker_threads: 1,
                max_blocking_threads: 1,
                priority: 0,
                stack_size_bytes: 2097152,
                event_interval: 61,
                core_allocation: CoreAllocation::OsDefault,
            }),
    {
        TokioConfig {
            core_allocation: CoreAllocation::OsDefault,
            worker_threads: 1,
            max_blocking_threads: 1,
            priority: 0,
            stack_size_bytes: 2 * 1024 * 1024,
            event_interval: 61,
        }
    }
}

/// A tokio runtime and its configuration.
#[derive(Debug)]
pub struct TokioRuntime {
    pub tokio: tokio::runtime::Runtime,
    pub config: TokioConfig,
}

/// The configuration of a pool of native threads.
#[derive(Debug)]
pub struct NativeConfig {
    pub core_allocation: CoreAllocation,
    /// The number of threads that may be spawned and not yet joined.
    pub max_threads: usize,
    pub priority: usize,
    /// What the names of the threads begin with.
    pub name_base: String,
    pub stack_size_bytes: usize,
}

impl Clone for NativeConfig {
    fn clone(&self) -> (copy: NativeConfig)
        ensures
            copy == *self,
    {
        NativeConfig {
            core_allocation: self.core_allocation,
            max_threads: self.max_threads,
            priority: self.priority,
            name_base: self.name_base.clone(),
            stack_size_bytes: self.stack_size_bytes,
        }
    }
}

impl Default for NativeConfig {
    fn default() -> (config: NativeConfig)
        ensures
            config.core_allocation == CoreAllocation::OsDefault,
            config.max_threads == 10,
            config.priority == 0,
            config.stack_size_bytes == 2097152,
            config.name_base@ == "thread"@,
    {
        NativeConfig {
            core_allocation: CoreAllocation::OsDefault,
            max_threads: 10,
            priority: 0,
            stack_size_bytes: 2 * 1024 * 1024,
            name_base: "thread".to_owned(),
        }
    }
}

/// Why a pool of native threads refuses a thread.
#[derive(Debug, Clone, Copy, PartialEq, Eq, Structural)]
pub enum SpawnError {
    /// As many threads as the configuration allows are spawned and not joined.
    AllThreadsSpawned,
}

impl SpawnError {
    /// The refusal in words.
    pub fn message(&self) -> (text: &'static str)
        ensures
            text@ == "All allowed threads in this pool are already spawned"@,
    {
        "All allowed threads in this pool are already spawned"
    }
}

/// A thread that a pool admits: what it is called, how large its stack is and
/// which cores it runs on.
#[derive(Debug)]
pub struct SpawnOrder {
    pub name: String,
    pub stack_size_bytes: usize,
    pub cores: Vec<usize>,
}

impl SpawnOrder {
    /// Binds the current thread, which the order was made for, to its cores.
    pub fn bind(&self) -> (outcome: Result<(), WorkerError>)
        ensures
            crate::worker::is_binding_outcome(
                self.cores,
                crate::worker::machine_affinity(),
                outcome,
            ),
    {
        bind_current_thread(&self.cores)
    }
}

/// A pool of native threads: how many numbers it gave out, and how many of its
/// threads are spawned and not joined. Both counts wrap around.
#[derive(Debug)]
pub struct NativeThreadRuntime {
    pub id_count: usize,
    pub running_count: usize,
    pub config: NativeConfig,
}

impl NativeThreadRuntime {
    /// The pool admits no further thread.
    pub open spec fn is_full(self) -> bool {
        self.running_count >= self.config.max_threads
    }

    /// The cores of the pool's threads on a machine with `core_num` cores.
    pub open spec fn thread_cores(self, core_num: usize) -> Seq<usize> {
        match self.config.core_allocation {
            CoreAllocation::OsDefault => crate::policy::core_range(0, core_num),
            _ => self.config.core_allocation.core_seq(),
        }
    }

    /// `order` is what the pool admits next on a machine with `core_num` cores.
    pub open spec fn admits(self, core_num: usize, order: SpawnOrder) -> bool {
        &&& order.name@ == crate::thread_name::numbered(self.config.name_base@, self.id_count)
        &&& order.stack_size_bytes == self.config.stack_size_bytes
        &&& order.cores@ == self.thread_cores(core_num)
    }

    /// `order` is what the pool admits next on this machine. The cores of the
    /// machine are counted where the operating system places the threads.
    pub open spec fn admits_here(self, order: SpawnOrder) -> bool {
        exists|core_num: usize|
            core_num >= 1 && (self.config.core_allocation is OsDefault ==> crate::machine::counted(
                core_num,
            )) && #[trigger] self.admits(core_num, order)
    }

    /// The pool once it has admitted a thread.
    pub open spec fn after_admission(self) -> NativeThreadRuntime {
        NativeThreadRuntime { id_count: self.id_count.wrapping_add(1), ..self }
    }

    /// The pool once an admitted thread has started.
    pub open spec fn after_start(self) -> NativeThreadRuntime {
        NativeThreadRuntime { running_count: self.running_count.wrapping_add(1), ..self }
    }

    /// The pool once one of its threads was joined.
    pub open spec fn after_join(self) -> NativeThreadRuntime {
        NativeThreadRuntime { running_count: self.running_count.wrapping_sub(1), ..self }
    }

    /// A pool without threads.
    pub fn new(cfg: NativeConfig) -> (pool: NativeThreadRuntime)
        ensures
            pool == (NativeThreadRuntime { id_count: 0, running_count: 0, config: cfg }),
    {
        NativeThreadRuntime { id_count: 0, running_count: 0, config: cfg }
    }

    /// Asks the pool for one more thread.
    ///
    /// A pool that is not full cannot place pinned threads.
    pub fn spawn(&mut self) -> (order: Result<SpawnOrder, SpawnError>)
        requires
            !old(self).is_full() ==> !(old(self).config.core_allocation is PinnedCores),
        ensures
            match order {
                Ok(order) => !old(self).is_full() && *final(self) == old(self).after_admission()
                    && old(self).admits_here(order),
                Err(_) => old(self).is_full() && *final(self) == *old(self),
            },
    {
        if self.running_count >= self.config.max_threads {
            return Err(SpawnError::AllThreadsSpawned);
        }
        match self.config.core_allocation {
            CoreAllocation::OsDefault => {
                let core_num: usize = count_cores();
                let order = self.next_order(list_cores(0, core_num));
                assert(old(self).admits(core_num, order));
                Ok(order)
            },
            _ => {
                let order = self.next_order(self.config.core_allocation.cores());
                assert(old(self).admits(1, order));
                Ok(order)
            },
        }
    }

    /// Asks the pool for one more thread on a machine with `core_num` cores.
    ///
    /// The thread gets the next number. Without cores of its own it may run on
    /// all cores of the machine.
    pub fn spawn_on(&mut self, core_num: usize) -> (order: Result<SpawnOrder, SpawnError>)
        requires
            !old(self).is_full() ==> !(old(self).config.core_allocation is PinnedCores),
        ensures
            match order {
                Ok(order) => !old(self).is_full() && *final(self) == old(self).after_admission()
                    && old(self).admits(core_num, order),
                Err(_) => old(self).is_full() && *final(self) == *old(self),
            },
    {
        if self.running_count >= self.config.max_threads {
            return Err(SpawnError::AllThreadsSpawned);
        }
        let cores: Vec<usize> = match self.config.core_allocation {
            CoreAllocation::OsDefault => list_cores(0, core_num),
            _ => self.config.core_allocation.cores(),
        };
        Ok(self.next_order(cores))
    }

    /// Admits a thread on these cores, with the next number.
    fn next_order(&mut self, cores: Vec<usize>) -> (order: SpawnOrder)
        ensures
            *final(self) == old(self).after_admission(),
            order.name@ == crate::thread_name::numbered(
                old(self).config.name_base@,
                old(self).id_count,
            ),
            order.stack_size_bytes == old(self).config.stack_size_bytes,
            order.cores == cores,
    {
        let id: usize = self.id_count;
        self.id_count = id.wrapping_add(1);
        SpawnOrder {
            name: thread_name(self.config.name_base.as_str(), id),
            stack_size_bytes: self.config.stack_size_bytes,
            cores,
        }
    }

    /// Counts an admitted thread that has started, and keeps its handle.
    pub fn started<H>(&mut self, std_handle: H) -> (handle: JoinHandle<H>)
        ensures
            *final(self) == old(self).after_start(),
            handle.std_handle == Some(std_handle),
    {
        self.running_count = self.running_count.wrapping_add(1);
        JoinHandle { std_handle: Some(std_handle) }
    }

    /// Counts a thread that was joined.
    pub fn joined(&mut self)
        ensures
            *final(self) == old(self).after_join(),
    {
        self.running_count = self.running_count.wrapping_sub(1);
    }
}

/// The handle of a thread of a pool, until the thread is joined.
#[derive(Debug)]
pub struct JoinHandle<H> {
    pub std_handle: Option<H>,
}

impl<H> JoinHandle<H> {
    /// Gives up the handle of a thread that is to be joined now.
    pub fn join(self) -> (std_handle: H)
        requires
            self.std_handle is Some,
        ensures
            self.std_handle == Some(std_handle),
    {
        let mut handle = self;
        handle.join_inner()
    }

    /// Takes out the handle of a thread that is to be joined now.
    pub fn join_inner(&mut self) -> (std_handle: H)
        requires
            old(self).std_handle is Some,
        ensures
            old(self).std_handle == Some(std_handle),
            final(self).std_handle is None,
    {
        self.std_handle.take().unwrap()
    }

    /// Whether the thread has come to its end. A joined thread has; of another
    /// one the handle knows, which `ask` asks.
    pub fn is_finished<F: FnOnce(&H) -> bool>(&self, ask: F) -> (finished: bool)
        requires
            self.std_handle matches Some(std_handle) ==> ask.requires((&std_handle,)),
        ensures
            match self.std_handle {
                Some(std_handle) => ask.ensures((&std_handle,), finished),
                None => finished,
            },
    {
        match &self.std_handle {
            Some(std_handle) => ask(std_handle),
            None => true,
        }
    }

    /// Whether the thread has to be joined before the handle goes away.
    pub fn needs_join(&self) -> (needed: bool)
        ensures
            needed == (self.std_handle is Some),
    {
        self.std_handle.is_some()
    }
}

/// A pool within its limit stays there, whether it admits a thread, starts the
/// thread that it admitted or has a thread joined.
pub proof fn law_pool_stays_within_its_limit(pool: NativeThreadRuntime)
    requires
        pool.running_count <= pool.config.max_threads,
    ensures
        pool.after_admission().running_count <= pool.config.max_threads,
        !pool.is_full() ==> pool.after_admission().after_start().running_count
            <= pool.config.max_threads,
        pool.running_count > 0 ==> pool.after_join().running_count <= pool.config.max_threads,
{
}

/// To join a thread undoes what its start did to the pool.
pub proof fn law_join_undoes_start(pool: NativeThreadRuntime)
    ensures
        pool.after_start().after_join() == pool,
{
}

/// A pool that was full admits a thread again once one was joined.
pub proof fn law_join_makes_room(pool: NativeThreadRuntime)
    requires
        pool.config.max_threads > 0,
        pool.running_count == pool.config.max_threads,
    ensures
        pool.is_full(),
        !pool.after_join().is_full(),
{
}

/// What can happen to a pool.
pub enum PoolStep {
    Admission,
    Start,
    Join,
}

/// The pool after one step.
pub open spec fn after_step(pool: NativeThreadRuntime, step: PoolStep) -> NativeThreadRuntime {
    match step {
        PoolStep::Admission => pool.after_admission(),
        PoolStep::Start => pool.after_start(),
        PoolStep::Join => pool.after_join(),
    }
}

/// The pool after the steps, the first of them first.
pub open spec fn after_steps(
    pool: NativeThreadRuntime,
    steps: Seq<PoolStep>,
) -> NativeThreadRuntime
    decreases steps.len(),
{
    if steps.len() == 0 {
        pool
    } else {
        after_step(after_steps(pool, steps.drop_last()), steps.last())
    }
}

/// How often a step occurs.
pub open spec fn occurrences(steps: Seq<PoolStep>, step: PoolStep) -> nat
    decreases steps.len(),
{
    if steps.len() == 0 {
        0
    } else {
        occurrences(steps.drop_last(), step) + if steps.last() == step {
            1nat
        } else {
            0nat
        }
    }
}

/// Whatever happens to a pool, in whatever order, the number of its threads
/// is that of the started without the joined, its next number counts the
/// admissions, and its configuration stays. The numbers wrap around.
pub proof fn law_counts_follow_the_threads(pool: NativeThreadRuntime, steps: Seq<PoolStep>)
    ensures
        after_steps(pool, steps).running_count == (pool.running_count + occurrences(
            steps,
            PoolStep::Start,
        ) - occurrences(steps, PoolStep::Join)) % (usize::MAX + 1),
        after_steps(pool, steps).id_count == (pool.id_count + occurrences(
            steps,
            PoolStep::Admission,
        )) % (usize::MAX + 1),
        after_steps(pool, steps).config == pool.config,
    decreases steps.len(),
{
    let modulus = usize::MAX + 1;
    if steps.len() == 0 {
        vstd::arithmetic::div_mod::lemma_small_mod(pool.running_count as nat, modulus as nat);
        vstd::arithmetic::div_mod::lemma_small_mod(pool.id_count as nat, modulus as nat);
    } else {
        let before = steps.drop_last();
        law_counts_follow_the_threads(pool, before);
        let running = pool.running_count + occurrences(before, PoolStep::Start) - occurrences(
            before,
            PoolStep::Join,
        );
        let ids = pool.id_count + occurrences(before, PoolStep::Admission);
        lemma_next_remainder(running, modulus);
        lemma_next_remainder(running - 1, modulus);
        lemma_next_remainder(ids, modulus);
    }
}

/// The remainder of the next number.
proof fn lemma_next_remainder(x: int, modulus: int)
    requires
        modulus > 1,
    ensures
        (x + 1) % modulus == if x % modulus == modulus - 1 {
            0
        } else {
            x % modulus + 1
        },
{
    vstd::arithmetic::div_mod::lemma_add_mod_noop(x, 1, modulus);
    vstd::arithmetic::div_mod::lemma_small_mod(1, modulus as nat);
    if x % modulus == modulus - 1 {
        vstd::arithmetic::div_mod::lemma_mod_self_0(modulus);
    } else {
        vstd::arithmetic::div_mod::lemma_small_mod((x % modulus + 1) as nat, modulus as nat);
    }
}

/// A thread that a pool admits after some steps and one that it admits after
/// others, with another number of admissions among them, have different names,
/// as long as the numbers do not wrap around.
pub proof fn law_admitted_threads_have_different_names(
    pool: NativeThreadRuntime,
    first: Seq<PoolStep>,
    second: Seq<PoolStep>,
    first_order: SpawnOrder,
    second_order: SpawnOrder,
)
    requires
        occurrences(first, PoolStep::Admission) != occurrences(second, PoolStep::Admission),
        pool.id_count + occurrences(first, PoolStep::Admission) <= usize::MAX,
        pool.id_count + occurrences(second, PoolStep::Admission) <= usize::MAX,
        after_steps(pool, first).admits_here(first_order),
        after_steps(pool, second).admits_here(second_order),
    ensures
        first_order.name@ != second_order.name@,
{
    law_counts_follow_the_threads(pool, first);
    law_counts_follow_the_threads(pool, second);
    vstd::arithmetic::div_mod::lemma_small_mod(
        pool.id_count as nat + occurrences(first, PoolStep::Admission),
        (usize::MAX + 1) as nat,
    );
    vstd::arithmetic::div_mod::lemma_small_mod(
        pool.id_count as nat + occurrences(second, PoolStep::Admission),
        (usize::MAX + 1) as nat,
    );
    crate::thread_name::law_different_numbers_give_different_names(
        pool.config.name_base@,
        after_steps(pool, first).id_count,
        after_steps(pool, second).id_count,
    );
}

/// A pool refuses a thread exactly if as many threads as it allows are spawned
/// and not joined, and is then as before. A thread that it admits gets the name
/// of the pool and the next number, the configured stack, and the cores of the
/// configured set, or all cores that the machine has.
pub proof fn law_pool_admits_threads_up_to_its_limit(
    pool: &mut NativeThreadRuntime,
    order: Result<SpawnOrder, SpawnError>,
)
    requires
        call_ensures(NativeThreadRuntime::spawn, (pool,), order),
    ensures
        order is Err <==> old(pool).running_count >= old(pool).config.max_threads,
        order is Err ==> *final(pool) == *old(pool),
        final(pool).running_count == old(pool).running_count,
        final(pool).config == old(pool).config,
        order matches Ok(order) ==> {
            &&& order.name@ == crate::thread_name::numbered(
                old(pool).config.name_base@,
                old(pool).id_count,
            )
            &&& order.stack_size_bytes == old(pool).config.stack_size_bytes
            &&& old(pool).id_count < usize::MAX ==> final(pool).id_count == old(pool).id_count + 1
            &&& old(pool).id_count == usize::MAX ==> final(pool).id_count == 0
            &&& match old(pool).config.core_allocation {
                CoreAllocation::OsDefault => crate::machine::counted(order.cores@.len() as usize)
                    && order.cores@.len() <= usize::MAX && forall|i: int|
                    0 <= i < order.cores@.len() ==> #[trigger] order.cores@[i] == i,
                CoreAllocation::DedicatedCoreSet { min, max } => order.cores@.len() == (if min
                    < max {
                    max - min
                } else {
                    0
                }) && forall|i: int|
                    0 <= i < order.cores@.len() ==> #[trigger] order.cores@[i] == min + i,
                CoreAllocation::PinnedCores { .. } => true,
            }
        },
{
}

/// The same of a pool on a machine with `core_num` cores.
pub proof fn law_pool_admits_threads_on_a_machine(
    pool: &mut NativeThreadRuntime,
    core_num: usize,
    order: Result<SpawnOrder, SpawnError>,
)
    requires
        call_ensures(NativeThreadRuntime::spawn_on, (pool, core_num), order),
    ensures
        order is Err <==> old(pool).running_count >= old(pool).config.max_threads,
        order is Err ==> *final(pool) == *old(pool),
        final(pool).running_count == old(pool).running_count,
        final(pool).config == old(pool).config,
        order matches Ok(order) ==> {
            &&& order.name@ == crate::thread_name::numbered(
                old(pool).config.name_base@,
                old(pool).id_count,
            )
            &&& order.stack_size_bytes == old(pool).config.stack_size_bytes
            &&& old(pool).id_count < usize::MAX ==> final(pool).id_count == old(pool).id_count + 1
            &&& old(pool).id_count == usize::MAX ==> final(pool).id_count == 0
            &&& match old(pool).config.core_allocation {
                CoreAllocation::OsDefault => order.cores@.len() == core_num && forall|i: int|
                    0 <= i < order.cores@.len() ==> #[trigger] order.cores@[i] == i,
                CoreAllocation::DedicatedCoreSet { min, max } => order.cores@.len() == (if min
                    < max {
                    max - min
                } else {
                    0
                }) && forall|i: int|
                    0 <= i < order.cores@.len() ==> #[trigger] order.cores@[i] == min + i,
                CoreAllocation::PinnedCores { .. } => true,
            }
        },
{
}

/// A pool has room exactly as long as fewer threads than it allows are spawned
/// and not joined.
pub proof fn law_pool_is_full_at_its_limit(pool: NativeThreadRuntime)
    ensures
        pool.is_full() <==> pool.running_count >= pool.config.max_threads,
{
}

/// A thread that has started counts as one more, nothing else changes, and its
/// handle is kept.
pub proof fn law_start_counts_one_thread<H>(
    pool: &mut NativeThreadRuntime,
    std_handle: H,
    handle: JoinHandle<H>,
)
    requires
        call_ensures(NativeThreadRuntime::started::<H>, (pool, std_handle), handle),
    ensures
        handle.std_handle == Some(std_handle),
        old(pool).running_count < usize::MAX ==> final(pool).running_count == old(
            pool,
        ).running_count + 1,
        old(pool).running_count == usize::MAX ==> final(pool).running_count == 0,
        final(pool).id_count == old(pool).id_count,
        final(pool).config == old(pool).config,
{
}

/// A thread that was joined counts no longer, and nothing else changes.
pub proof fn law_join_discounts_one_thread(pool: &mut NativeThreadRuntime)
    requires
        call_ensures(NativeThreadRuntime::joined, (pool,), ()),
    ensures
        old(pool).running_count > 0 ==> final(pool).running_count == old(pool).running_count - 1,
        old(pool).running_count == 0 ==> final(pool).running_count == usize::MAX,
        final(pool).id_count == old(pool).id_count,
        final(pool).config == old(pool).config,
{
}

/// What happens to a pool changes only its counts: an admission moves the next
/// number on by one, a start adds one thread, a join takes one away.
pub proof fn law_steps_change_one_count(pool: NativeThreadRuntime)
    ensures
        pool.after_admission().id_count == (pool.id_count + 1) % (usize::MAX + 1),
        pool.after_admission().running_count == pool.running_count,
        pool.after_admission().config == pool.config,
        pool.after_start().running_count == (pool.running_count + 1) % (usize::MAX + 1),
        pool.after_start().id_count == pool.id_count,
        pool.after_start().config == pool.config,
        pool.after_join().running_count == (pool.running_count - 1) % (usize::MAX + 1),
        pool.after_join().id_count == pool.id_count,
        pool.after_join().config == pool.config,
{
    let modulus = usize::MAX + 1;
    lemma_next_remainder(pool.id_count as int, modulus);
    lemma_next_remainder(pool.running_count as int, modulus);
    lemma_next_remainder(pool.running_count - 1, modulus);
    vstd::arithmetic::div_mod::lemma_small_mod(pool.id_count as nat, modulus as nat);
    vstd::arithmetic::div_mod::lemma_small_mod(pool.running_count as nat, modulus as nat);
}

/// A new pool has no threads, gave out no number, and keeps its configuration.
pub proof fn law_new_pool_has_no_threads(cfg: NativeConfig, pool: NativeThreadRuntime)
    requires
        call_ensures(NativeThreadRuntime::new, (cfg,), pool),
    ensures
        pool.running_count == 0,
        pool.id_count == 0,
        pool.config == cfg,
{
}

/// The thread of an order is bound only if the machine was told exactly the
/// cores of the order, of whatever number, and did not refuse them; a refusal
/// is handed on with its message; cores that are not below the limit are turned
/// down, and no others.
pub proof fn law_order_binds_to_its_cores(order: SpawnOrder, outcome: Result<(), WorkerError>)
    requires
        call_ensures(SpawnOrder::bind, (&order,), outcome),
    ensures
        outcome is Ok ==> crate::worker::machine_affinity()(order.cores, Ok(())),
        outcome matches Err(WorkerError::AffinityRefused(message))
            ==> crate::worker::machine_affinity()(order.cores, Err(message)),
        outcome matches Err(error) ==> error is AffinityRefused || error is CoreOutOfRange,
        (outcome matches Err(error) && error is CoreOutOfRange) <==> (exists|i: int|
            0 <= i < order.cores@.len() && #[trigger] order.cores@[i]
                >= crate::machine::CORE_LIMIT),
{
    crate::worker::law_binding_asks_for_exactly_the_cores(
        order.cores,
        crate::worker::machine_affinity(),
        outcome,
    );
}

/// Joining gives up the handle that was kept.
pub proof fn law_join_gives_back_the_handle<H>(handle: JoinHandle<H>, std_handle: H)
    requires
        call_ensures(JoinHandle::<H>::join, (handle,), std_handle),
    ensures
        handle.std_handle == Some(std_handle),
{
}

/// Joining takes out the handle that was kept, so that it is joined once.
pub proof fn law_join_takes_out_the_handle<H>(handle: &mut JoinHandle<H>, std_handle: H)
    requires
        call_ensures(JoinHandle::<H>::join_inner, (handle,), std_handle),
    ensures
        old(handle).std_handle == Some(std_handle),
        final(handle).std_handle is None,
        forall|needed: bool| #[trigger]
            call_ensures(JoinHandle::<H>::needs_join, (final(handle),), needed) ==> !needed,
{
}

/// A thread has to be joined exactly as long as its handle is there. Without a
/// handle it has come to its end; with one, what `ask` answers of this very
/// handle is the answer.
pub proof fn law_handle_decides<H, F: FnOnce(&H) -> bool>(
    handle: JoinHandle<H>,
    ask: F,
    finished: bool,
    needed: bool,
)
    requires
        call_ensures(JoinHandle::<H>::is_finished::<F>, (&handle, ask), finished),
        call_ensures(JoinHandle::<H>::needs_join, (&handle,), needed),
    ensures
        needed <==> handle.std_handle is Some,
        handle.std_handle is None ==> finished,
        handle.std_handle matches Some(std_handle) ==> ask.ensures((&std_handle,), finished),
{
}

/// A pool that refuses a thread says so in these words.
pub proof fn law_refusal_in_words(refusal: SpawnError, text: &'static str)
    requires
        call_ensures(SpawnError::message, (&refusal,), text),
    ensures
        text@ == "All allowed threads in this pool are already spawned"@,
{
}

/// What a tokio runtime is configured with where nothing else is said.
pub proof fn law_default_tokio_configuration(config: TokioConfig)
    requires
        call_ensures(<TokioConfig as Default>::default, (), config),
    ensures
        config.worker_threads == 1,
        config.max_blocking_threads == 1,
        config.priority == 0,
        config.stack_size_bytes == 2 * 1024 * 1024,
        config.event_interval == 61,
        config.core_allocation is OsDefault,
{
}

/// What a pool is configured with where nothing else is said.
pub proof fn law_default_native_configuration(config: NativeConfig)
    requires
        call_ensures(<NativeConfig as Default>::default, (), config),
    ensures
        config.max_threads == 10,
        config.priority == 0,
        config.stack_size_bytes == 2 * 1024 * 1024,
        config.name_base@ == seq!['t', 'h', 'r', 'e', 'a', 'd'],
        config.core_allocation is OsDefault,
{
    reveal_strlit("thread");
    assert("thread"@ =~= seq!['t', 'h', 'r', 'e', 'a', 'd']);
}

/// A copy of a configuration is the same configuration.
pub proof fn law_copied_native_configuration(config: NativeConfig, copy: NativeConfig)
    requires
        call_ensures(<NativeConfig as Clone>::clone, (&config,), copy),
    ensures
        copy.core_allocation == config.core_allocation,
        copy.max_threads == config.max_threads,
        copy.priority == config.priority,
        copy.name_base@ == config.name_base@,
        copy.stack_size_bytes == config.stack_size_bytes,
{
}

} // verus!
