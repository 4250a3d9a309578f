//! What a thread of a runtime does before its first task: it takes on the
//! priority and the cores that the configuration gives it.

use crate::machine::{
    priority_value, set_thread_affinity, set_thread_priority, CORE_LIMIT, MAX_PRIORITY,
};
use crate::policy::CoreAllocation;
use vstd::prelude::*;

verus! {

/// Why a thread could not take on its priority or its cores.
#[derive(Debug)]
pub enum WorkerError {
    /// The configured priority, cut to eight bits, is above `MAX_PRIORITY`.
    PriorityOutOfRange { priority: u8 },
    /// The machine refused the priority.
    PriorityRefused(thread_priority::Error),
    /// More threads started than there are cores to pin them to.
    NoCoreLeft,
    /// A thread that started earlier could not be placed; since then no thread
    /// of the runtime can.
    CoresSpoiled,
    /// The number of a core is not below `CORE_LIMIT`.
    CoreOutOfRange { core: usize },
    /// The machine refused the cores, with this message.
    AffinityRefused(String),
}

/// What a thread has taken on.
#[derive(Debug)]
pub struct WorkerSetup {
    pub priority: u8,
    /// The cores that the thread is bound to, if it is bound to any.
    pub cores: Option<Vec<usize>>,
}

/// Where a thread runs.
pub enum Placement {
    /// Wherever the operating system puts it.
    Anywhere,
    /// On these cores.
    Cores(Seq<usize>),
    /// There is no core left for it.
    NoneLeft,
}

/// Where the next thread to start runs, when the cores `left` are left.
pub open spec fn placement(allocation: CoreAllocation, left: Seq<usize>) -> Placement {
    match allocation {
        CoreAllocation::OsDefault => Placement::Anywhere,
        CoreAllocation::PinnedCores { .. } => if left.len() == 0 {
            Placement::NoneLeft
        } else {
            Placement::Cores(seq![left.last()])
        },
        CoreAllocation::DedicatedCoreSet { .. } => Placement::Cores(left),
    }
}

/// The cores that are left when one more thread has started.
pub open spec fn left_after(allocation: CoreAllocation, left: Seq<usize>) -> Seq<usize> {
    if allocation is PinnedCores && left.len() > 0 {
        left.drop_last()
    } else {
        left
    }
}

/// The cores that are left when `starts` threads have started.
pub open spec fn left_after_starts(allocation: CoreAllocation, starts: nat) -> Seq<usize>
    decreases starts,
{
    if starts == 0 {
        allocation.core_seq()
    } else {
        left_after(allocation, left_after_starts(allocation, (starts - 1) as nat))
    }
}

/// What `next_cores` returns, as a placement.
pub open spec fn placement_view(cores: Result<Option<Vec<usize>>, WorkerError>) -> Placement {
    match cores {
        Ok(Some(cores)) => Placement::Cores(cores@),
        Ok(None) => Placement::Anywhere,
        Err(_) => Placement::NoneLeft,
    }
}

/// Chooses the cores for the next thread to start out of those that are left.
///
/// A pinned thread takes the last core that is left; where none is left, it
/// cannot start. Otherwise nothing is taken.
pub fn next_cores(allocation: &CoreAllocation, left: &mut Vec<usize>) -> (cores: Result<
    Option<Vec<usize>>,
    WorkerError,
>)
    ensures
        placement_view(cores) == placement(*allocation, old(left)@),
        cores matches Err(error) ==> error is NoCoreLeft,
        final(left)@ == left_after(*allocation, old(left)@),
{
    match *allocation {
        CoreAllocation::OsDefault => Ok(None),
        CoreAllocation::PinnedCores { .. } => {
            match left.pop() {
                Some(core) => {
                    let cores: Vec<usize> = vec![core];
                    assert(cores@ =~= seq![old(left)@.last()]);
                    Ok(Some(cores))
                },
                None => Err(WorkerError::NoCoreLeft),
            }
        },
        CoreAllocation::DedicatedCoreSet { .. } => {
            let cores: Vec<usize> = left.clone();
            assert(cores@ =~= left@);
            Ok(Some(cores))
        },
    }
}

/// The priority that a configured number stands for: its lowest eight bits.
pub open spec fn cut_priority(configured: u32) -> u8 {
    (configured % 256) as u8
}

/// Turns the configured number into a priority, if it is one.
pub fn worker_priority(configured: u32) -> (priority: Result<u8, WorkerError>)
    ensures
        priority == if cut_priority(configured) <= MAX_PRIORITY {
            Ok::<u8, WorkerError>(cut_priority(configured))
        } else {
            Err(WorkerError::PriorityOutOfRange { priority: cut_priority(configured) })
        },
{
    let number: u8 = (configured % 256) as u8;
    match priority_value(number) {
        Ok(priority) => Ok(priority),
        Err(_) => Err(WorkerError::PriorityOutOfRange { priority: number }),
    }
}

/// What the machine's answer to a set of cores means.
pub open spec fn affinity_outcome(answer: Result<(), String>) -> Result<(), WorkerError> {
    match answer {
        Ok(_) => Ok(()),
        Err(message) => Err(WorkerError::AffinityRefused(message)),
    }
}

/// The machine can be told all of the cores.
pub open spec fn all_in_range(cores: Seq<usize>) -> bool {
    forall|i: int| 0 <= i < cores.len() ==> #[trigger] cores[i] < CORE_LIMIT
}

/// `core` is the first of the cores whose number is not below `CORE_LIMIT`.
pub open spec fn first_out_of_range(cores: Seq<usize>, core: usize) -> bool {
    exists|i: int|
        0 <= i < cores.len() && #[trigger] cores[i] == core && core >= CORE_LIMIT && (forall|j: int|
            0 <= j < i ==> #[trigger] cores[j] < CORE_LIMIT)
}

/// Checks that the machine can be told all of the cores.
pub fn check_cores(cores: &Vec<usize>) -> (outcome: Result<(), WorkerError>)
    ensures
        match outcome {
            Ok(_) => all_in_range(cores@),
            Err(error) => error matches WorkerError::CoreOutOfRange { core } && first_out_of_range(
                cores@,
                core,
            ),
        },
{
    let mut i: usize = 0;
    while i < cores.len()
        invariant
            i <= cores@.len(),
            forall|j: int| 0 <= j < i ==> #[trigger] cores@[j] < CORE_LIMIT,
        decreases cores@.len() - i,
    {
        let core: usize = cores[i];
        if core >= CORE_LIMIT {
            assert(cores@[i as int] == core);
            return Err(WorkerError::CoreOutOfRange { core });
        }
        i = i + 1;
    }
    Ok(())
}

/// What `set_affinity` may answer when it is told the cores.
pub open spec fn affinity_answers<A: FnOnce(&Vec<usize>) -> Result<(), String>>(
    set_affinity: A,
) -> spec_fn(Vec<usize>, Result<(), String>) -> bool {
    |cores: Vec<usize>, answer: Result<(), String>| set_affinity.ensures((&cores,), answer)
}

/// What the machine may answer when it is told the cores of the current thread.
pub closed spec fn machine_affinity() -> spec_fn(Vec<usize>, Result<(), String>) -> bool {
    affinity_answers(set_thread_affinity)
}

/// `outcome` is what comes of binding a thread to the cores: cores that the
/// machine cannot be told are turned down before it is asked; for others it
/// is told exactly these cores, and its answer, which is among `answers`,
/// counts.
pub open spec fn is_binding_outcome(
    cores: Vec<usize>,
    answers: spec_fn(Vec<usize>, Result<(), String>) -> bool,
    outcome: Result<(), WorkerError>,
) -> bool {
    if all_in_range(cores@) {
        exists|answer: Result<(), String>| #[trigger]
            answers(cores, answer) && outcome == affinity_outcome(answer)
    } else {
        outcome matches Err(WorkerError::CoreOutOfRange { core }) && first_out_of_range(
            cores@,
            core,
        )
    }
}

/// Binds a thread to the cores by means of `set_affinity`.
pub fn bind_thread<A: FnOnce(&Vec<usize>) -> Result<(), String>>(
    cores: &Vec<usize>,
    set_affinity: A,
) -> (outcome: Result<(), WorkerError>)
    requires
        all_in_range(cores@) ==> set_affinity.requires((cores,)),
    ensures
        is_binding_outcome(*cores, affinity_answers(set_affinity), outcome),
{
    match check_cores(cores) {
        Ok(()) => {
            let answer = set_affinity(cores);
            assert(affinity_answers(set_affinity)(*cores, answer));
            match answer {
                Ok(()) => Ok(()),
                Err(message) => Err(WorkerError::AffinityRefused(message)),
            }
        },
        Err(error) => Err(error),
    }
}

/// Binds the current thread to the cores.
pub fn bind_current_thread(cores: &Vec<usize>) -> (outcome: Result<(), WorkerError>)
    ensures
        is_binding_outcome(*cores, machine_affinity(), outcome),
{
    bind_thread(cores, set_thread_affinity)
}

/// The cores that the threads of a runtime can still be placed on.
#[derive(Debug)]
pub struct CoreStock {
    pub left: Vec<usize>,
    /// Whether a thread could not be placed.
    pub spoiled: bool,
}

impl CoreStock {
    /// No thread was placed yet.
    pub open spec fn is_fresh(self, allocation: CoreAllocation) -> bool {
        self.left@ == allocation.core_seq() && !self.spoiled
    }

    /// What is left of the cores of the allocation: of pinned cores the first
    /// few, of others all.
    pub open spec fn fits(self, allocation: CoreAllocation) -> bool {
        if allocation is PinnedCores {
            self.left@.is_prefix_of(allocation.core_seq())
        } else {
            self.left@ == allocation.core_seq()
        }
    }
}

/// `outcome` is what comes of placing a thread on the cores: it is bound to
/// them or, where that fails, not placed.
pub open spec fn is_placed_on(
    cores: Seq<usize>,
    answers: spec_fn(Vec<usize>, Result<(), String>) -> bool,
    outcome: Result<Option<Vec<usize>>, WorkerError>,
) -> bool {
    exists|list: Vec<usize>, bound: Result<(), WorkerError>|
        list@ == cores && #[trigger] is_binding_outcome(list, answers, bound) && match bound {
            Ok(_) => outcome == Ok::<Option<Vec<usize>>, WorkerError>(Some(list)),
            Err(error) => outcome == Err::<Option<Vec<usize>>, WorkerError>(error),
        }
}

/// `outcome` is what comes of placing one more thread, and the stock `before`
/// it is `after` from then on. Whoever cannot be placed spoils the stock.
pub open spec fn is_placing(
    allocation: CoreAllocation,
    before: CoreStock,
    after: CoreStock,
    answers: spec_fn(Vec<usize>, Result<(), String>) -> bool,
    outcome: Result<Option<Vec<usize>>, WorkerError>,
) -> bool {
    &&& after.spoiled == (outcome is Err)
    &&& if before.spoiled {
        &&& after.left@ == before.left@
        &&& outcome matches Err(error)
        &&& error is CoresSpoiled
    } else {
        &&& after.left@ == left_after(allocation, before.left@)
        &&& match placement(allocation, before.left@) {
            Placement::Anywhere => outcome matches Ok(cores) && cores is None,
            Placement::Cores(cores) => is_placed_on(cores, answers, outcome),
            Placement::NoneLeft => outcome matches Err(error) && error is NoCoreLeft,
        }
    }
}

/// Places a thread: takes cores for it out of the stock, and binds it to
/// these by means of `set_affinity`.
pub fn place_thread<A: FnOnce(&Vec<usize>) -> Result<(), String>>(
    allocation: &CoreAllocation,
    stock: &mut CoreStock,
    set_affinity: A,
) -> (outcome: Result<Option<Vec<usize>>, WorkerError>)
    requires
        forall|cores: Vec<usize>|
            !old(stock).spoiled && placement(*allocation, old(stock).left@) == Placement::Cores(
                cores@,
            ) && all_in_range(cores@) ==> #[trigger] set_affinity.requires((&cores,)),
    ensures
        is_placing(
            *allocation,
            *old(stock),
            *final(stock),
            affinity_answers(set_affinity),
            outcome,
        ),
{
    if stock.spoiled {
        return Err(WorkerError::CoresSpoiled);
    }
    match next_cores(allocation, &mut stock.left) {
        Ok(None) => Ok(None),
        Ok(Some(list)) => {
            let bound = bind_thread(&list, set_affinity);
            assert(is_binding_outcome(list, affinity_answers(set_affinity), bound));
            match bound {
                Ok(()) => Ok(Some(list)),
                Err(error) => {
                    stock.spoiled = true;
                    Err(error)
                },
            }
        },
        Err(error) => {
            stock.spoiled = true;
            Err(error)
        },
    }
}

/// What `set_priority` may answer when it is told a priority.
pub open spec fn priority_answers<P: FnOnce(u8) -> Result<(), thread_priority::Error>>(
    set_priority: P,
) -> spec_fn(u8, Result<(), thread_priority::Error>) -> bool {
    |priority: u8, answer: Result<(), thread_priority::Error>|
        set_priority.ensures((priority,), answer)
}

/// What the machine may answer when it is told the priority of the current
/// thread.
pub closed spec fn machine_priority() -> spec_fn(u8, Result<(), thread_priority::Error>) -> bool {
    priority_answers(set_thread_priority)
}

/// `setup` is what comes of preparing a thread. A number that is no priority
/// is turned down before the machine is asked; a priority that the machine
/// refuses ends the matter; only then is the thread placed, which comes out as
/// `placings` say.
pub open spec fn is_setup(
    configured: u32,
    answers: spec_fn(u8, Result<(), thread_priority::Error>) -> bool,
    placings: spec_fn(Result<Option<Vec<usize>>, WorkerError>) -> bool,
    setup: Result<WorkerSetup, WorkerError>,
) -> bool {
    let priority = cut_priority(configured);
    if priority > MAX_PRIORITY {
        setup == Err::<WorkerSetup, WorkerError>(WorkerError::PriorityOutOfRange { priority })
    } else {
        exists|answer: Result<(), thread_priority::Error>| #[trigger]
            answers(priority, answer) && match answer {
                Err(error) => setup == Err::<WorkerSetup, WorkerError>(
                    WorkerError::PriorityRefused(error),
                ),
                Ok(_) => exists|placed: Result<Option<Vec<usize>>, WorkerError>| #[trigger]
                    placings(placed) && setup == match placed {
                        Ok(cores) => Ok::<WorkerSetup, WorkerError>(
                            WorkerSetup { priority, cores },
                        ),
                        Err(error) => Err(error),
                    },
            }
    }
}

/// The thread did not get its priority.
pub open spec fn lacks_priority(setup: Result<WorkerSetup, WorkerError>) -> bool {
    setup matches Err(error) && (error is PriorityOutOfRange || error is PriorityRefused)
}

/// What may come of placing one more thread, when the stock `before` it is
/// `after` from then on.
pub open spec fn placings(
    allocation: CoreAllocation,
    before: CoreStock,
    after: CoreStock,
    answers: spec_fn(Vec<usize>, Result<(), String>) -> bool,
) -> spec_fn(Result<Option<Vec<usize>>, WorkerError>) -> bool {
    |placed: Result<Option<Vec<usize>>, WorkerError>|
        is_placing(allocation, before, after, answers, placed)
}

/// `setup` is what comes of preparing a thread, and the stock `before` it is
/// `after` from then on. A thread that does not get its priority leaves the
/// stock as it is.
pub open spec fn is_preparation(
    configured: u32,
    allocation: CoreAllocation,
    before: CoreStock,
    after: CoreStock,
    priority: spec_fn(u8, Result<(), thread_priority::Error>) -> bool,
    affinity: spec_fn(Vec<usize>, Result<(), String>) -> bool,
    setup: Result<WorkerSetup, WorkerError>,
) -> bool {
    &&& is_setup(configured, priority, placings(allocation, before, after, affinity), setup)
    &&& lacks_priority(setup) ==> after == before
}

/// Prepares a thread: gives it its priority by means of `set_priority` and,
/// once it has this priority, places it by means of `set_affinity`.
pub fn prepare_thread<
    P: FnOnce(u8) -> Result<(), thread_priority::Error>,
    A: FnOnce(&Vec<usize>) -> Result<(), String>,
>(
    configured: u32,
    allocation: &CoreAllocation,
    stock: &mut CoreStock,
    set_priority: P,
    set_affinity: A,
) -> (setup: Result<WorkerSetup, WorkerError>)
    requires
        cut_priority(configured) <= MAX_PRIORITY ==> set_priority.requires(
            (cut_priority(configured),),
        ),
        forall|answer: Result<(), thread_priority::Error>, cores: Vec<usize>|
            #[trigger] set_priority.ensures((cut_priority(configured),), answer) && answer is Ok
                && !old(stock).spoiled && placement(*allocation, old(stock).left@)
                == Placement::Cores(cores@) && all_in_range(cores@)
                ==> #[trigger] set_affinity.requires((&cores,)),
    ensures
        is_preparation(
            configured,
            *allocation,
            *old(stock),
            *final(stock),
            priority_answers(set_priority),
            affinity_answers(set_affinity),
            setup,
        ),
{
    let priority: u8 = match worker_priority(configured) {
        Ok(priority) => priority,
        Err(error) => {
            return Err(error);
        },
    };
    let answer = set_priority(priority);
    assert(priority_answers(set_priority)(priority, answer));
    match answer {
        Ok(()) => {},
        Err(error) => {
            return Err(WorkerError::PriorityRefused(error));
        },
    }
    let placed = place_thread(allocation, stock, set_affinity);
    assert(placings(*allocation, *old(stock), *stock, affinity_answers(set_affinity))(placed));
    match placed {
        Ok(cores) => Ok(WorkerSetup { priority, cores }),
        Err(error) => Err(error),
    }
}

/// Prepares the threads of one runtime, each when it starts.
#[derive(Debug)]
pub struct WorkerStart {
    configured_priority: u32,
    allocation: CoreAllocation,
    stock: CoreStock,
}

impl WorkerStart {
    /// The priority as it is configured.
    pub closed spec fn configured(&self) -> u32 {
        self.configured_priority
    }

    /// Where the threads are placed.
    pub closed spec fn placing(&self) -> CoreAllocation {
        self.allocation
    }

    /// What is left for the threads that start from now on.
    pub closed spec fn stock(&self) -> CoreStock {
        self.stock
    }

    /// A thread was prepared with this outcome, and `after` prepares those that
    /// start from then on.
    pub open spec fn prepared(
        &self,
        after: WorkerStart,
        setup: Result<WorkerSetup, WorkerError>,
    ) -> bool {
        &&& after.configured() == self.configured()
        &&& after.placing() == self.placing()
        &&& is_preparation(
            self.configured(),
            self.placing(),
            self.stock(),
            after.stock(),
            machine_priority(),
            machine_affinity(),
            setup,
        )
    }

    /// Prepares threads with this priority and these cores. All cores are left.
    pub fn new(priority: u32, allocation: CoreAllocation) -> (start: WorkerStart)
        ensures
            start.configured() == priority,
            start.placing() == allocation,
            start.stock().is_fresh(allocation),
    {
        WorkerStart {
            configured_priority: priority,
            allocation,
            stock: CoreStock { left: allocation.cores(), spoiled: false },
        }
    }

    /// Prepares the current thread: first its priority, then its cores.
    pub fn prepare(&mut self) -> (setup: Result<WorkerSetup, WorkerError>)
        ensures
            old(self).prepared(*final(self), setup),
    {
        prepare_thread(
            self.configured_priority,
            &self.allocation,
            &mut self.stock,
            set_thread_priority,
            set_thread_affinity,
        )
    }
}

/// Of pinned threads the one that starts after `starts` others runs on the
/// core that lies `starts` below the last core of the range, as long as the
/// range goes that far; a thread that starts later finds no core left.
pub proof fn law_pinned_threads_go_down_the_range(min: usize, max: usize, starts: nat)
    ensures
        placement(
            CoreAllocation::PinnedCores { min, max },
            left_after_starts(CoreAllocation::PinnedCores { min, max }, starts),
        ) == if starts < max - min {
            Placement::Cores(seq![(max - 1 - starts) as usize])
        } else {
            Placement::NoneLeft
        },
{
    lemma_pinned_left(min, max, starts);
    if starts < max - min {
        let left = crate::policy::core_range(min, (max - starts) as usize);
        assert(left.last() == (max - 1 - starts) as usize);
    }
}

proof fn lemma_pinned_left(min: usize, max: usize, starts: nat)
    ensures
        left_after_starts(CoreAllocation::PinnedCores { min, max }, starts) == if starts < max
            - min {
            crate::policy::core_range(min, (max - starts) as usize)
        } else {
            Seq::<usize>::empty()
        },
    decreases starts,
{
    if starts > 0 {
        lemma_pinned_left(min, max, (starts - 1) as nat);
        if starts <= max - min {
            let before = crate::policy::core_range(min, (max - (starts - 1)) as usize);
            assert(before.drop_last() =~= crate::policy::core_range(min, (max - starts) as usize));
        }
    }
}

/// No two pinned threads of a runtime run on the same core.
pub proof fn law_pinned_threads_share_no_core(min: usize, max: usize, first: nat, second: nat)
    requires
        first != second,
        first < max - min,
        second < max - min,
    ensures
        placement(
            CoreAllocation::PinnedCores { min, max },
            left_after_starts(CoreAllocation::PinnedCores { min, max }, first),
        ) != placement(
            CoreAllocation::PinnedCores { min, max },
            left_after_starts(CoreAllocation::PinnedCores { min, max }, second),
        ),
{
    law_pinned_threads_go_down_the_range(min, max, first);
    law_pinned_threads_go_down_the_range(min, max, second);
    assert(seq![(max - 1 - first) as usize][0] != seq![(max - 1 - second) as usize][0]);
}

/// Threads with a dedicated set of cores all run on the whole set, however
/// many have started.
pub proof fn law_dedicated_threads_share_the_set(min: usize, max: usize, starts: nat)
    ensures
        placement(
            CoreAllocation::DedicatedCoreSet { min, max },
            left_after_starts(CoreAllocation::DedicatedCoreSet { min, max }, starts),
        ) == Placement::Cores(crate::policy::core_range(min, max)),
    decreases starts,
{
    if starts > 0 {
        law_dedicated_threads_share_the_set(min, max, (starts - 1) as nat);
    }
}

/// The cores `cores` are a right choice for some thread of the allocation.
pub open spec fn may_run_on(allocation: CoreAllocation, cores: Option<Vec<usize>>) -> bool {
    match allocation {
        CoreAllocation::OsDefault => cores is None,
        CoreAllocation::PinnedCores { min, max } => cores matches Some(cores) && cores@.len() == 1
            && min <= cores@[0] < max,
        CoreAllocation::DedicatedCoreSet { min, max } => cores matches Some(cores) && cores@
            == crate::policy::core_range(min, max),
    }
}

/// A prepared thread has the priority that is configured for its runtime and
/// runs on cores of the runtime's allocation.
pub proof fn law_prepared_thread_is_as_configured(
    start: WorkerStart,
    after: WorkerStart,
    setup: WorkerSetup,
)
    requires
        start.stock().fits(start.placing()),
        start.prepared(after, Ok(setup)),
    ensures
        setup.priority == start.configured() % 256,
        setup.priority <= MAX_PRIORITY,
        machine_priority()((start.configured() % 256) as u8, Ok(())),
        setup.cores matches Some(list) ==> machine_affinity()(list, Ok(())),
        setup.cores is None <==> start.placing() is OsDefault,
        may_run_on(start.placing(), setup.cores),
{
    law_preparation_follows_the_answers(
        start.configured(),
        start.placing(),
        start.stock(),
        after.stock(),
        machine_priority(),
        machine_affinity(),
        Ok(setup),
    );
    let placed: Result<Option<Vec<usize>>, WorkerError> = Ok(setup.cores);
    assert(placings(start.placing(), start.stock(), after.stock(), machine_affinity())(placed));
}

/// Whatever comes of preparing a thread, what is left are still cores of the
/// allocation.
pub proof fn law_stock_keeps_to_the_allocation(
    start: WorkerStart,
    after: WorkerStart,
    setup: Result<WorkerSetup, WorkerError>,
)
    requires
        start.stock().fits(start.placing()),
        start.prepared(after, setup),
    ensures
        after.stock().fits(after.placing()),
{
    if !lacks_priority(setup) {
        let placed = choose|placed: Result<Option<Vec<usize>>, WorkerError>| #[trigger]
            placings(start.placing(), start.stock(), after.stock(), machine_affinity())(placed);
        assert(is_placing(
            start.placing(),
            start.stock(),
            after.stock(),
            machine_affinity(),
            placed,
        ));
    }
}

/// Threads of a runtime are prepared one after the other, the first of them by
/// `starts[0]`, which no thread was prepared by before, and each other one by
/// what the one before has left.
pub open spec fn are_runs(
    starts: Seq<WorkerStart>,
    setups: Seq<Result<WorkerSetup, WorkerError>>,
) -> bool {
    &&& starts.len() == setups.len() + 1
    &&& starts[0].stock().is_fresh(starts[0].placing())
    &&& forall|i: int|
        0 <= i < setups.len() ==> #[trigger] starts[i].prepared(starts[i + 1], setups[i])
}

/// All threads of a runtime have the same priority and the same allocation.
proof fn lemma_runs_keep_the_configuration(
    starts: Seq<WorkerStart>,
    setups: Seq<Result<WorkerSetup, WorkerError>>,
    k: int,
)
    requires
        are_runs(starts, setups),
        0 <= k <= setups.len(),
    ensures
        starts[k].configured() == starts[0].configured(),
        starts[k].placing() == starts[0].placing(),
    decreases k,
{
    if k > 0 {
        lemma_runs_keep_the_configuration(starts, setups, k - 1);
        assert(starts[k - 1].prepared(starts[k - 1 + 1], setups[k - 1]));
    }
}

/// While all threads can be prepared, nothing spoils the stock, and each thread
/// takes its cores out of it.
proof fn lemma_stock_after_runs(
    starts: Seq<WorkerStart>,
    setups: Seq<Result<WorkerSetup, WorkerError>>,
    k: int,
)
    requires
        are_runs(starts, setups),
        0 <= k <= setups.len(),
        forall|i: int| 0 <= i < k ==> (#[trigger] setups[i]) is Ok,
    ensures
        !starts[k].stock().spoiled,
        starts[k].stock().left@ == left_after_starts(starts[0].placing(), k as nat),
    decreases k,
{
    if k > 0 {
        lemma_stock_after_runs(starts, setups, k - 1);
        lemma_runs_keep_the_configuration(starts, setups, k - 1);
        let before = starts[k - 1];
        assert(before.prepared(starts[k - 1 + 1], setups[k - 1]));
        assert(setups[k - 1] is Ok);
        let placed: Result<Option<Vec<usize>>, WorkerError> = Ok(setups[k - 1]->Ok_0.cores);
        assert(placings(
            before.placing(),
            before.stock(),
            starts[k].stock(),
            machine_affinity(),
        )(placed));
    }
}

/// What may come of placing a thread on the cores.
pub open spec fn placings_on(
    cores: Seq<usize>,
    answers: spec_fn(Vec<usize>, Result<(), String>) -> bool,
) -> spec_fn(Result<Option<Vec<usize>>, WorkerError>) -> bool {
    |placed: Result<Option<Vec<usize>>, WorkerError>| is_placed_on(cores, answers, placed)
}

/// What comes of placing a thread for which there is no core left.
pub open spec fn no_placing() -> spec_fn(Result<Option<Vec<usize>>, WorkerError>) -> bool {
    |placed: Result<Option<Vec<usize>>, WorkerError>|
        placed matches Err(error) && error is NoCoreLeft
}

/// What comes of setting up a thread is the same where placing it comes out
/// the same.
proof fn lemma_same_placings_same_setup(
    configured: u32,
    answers: spec_fn(u8, Result<(), thread_priority::Error>) -> bool,
    first: spec_fn(Result<Option<Vec<usize>>, WorkerError>) -> bool,
    second: spec_fn(Result<Option<Vec<usize>>, WorkerError>) -> bool,
    setup: Result<WorkerSetup, WorkerError>,
)
    requires
        is_setup(configured, answers, first, setup),
        forall|placed: Result<Option<Vec<usize>>, WorkerError>| #[trigger]
            first(placed) ==> second(placed),
    ensures
        is_setup(configured, answers, second, setup),
{
}

/// Of the pinned threads of a runtime the one that starts after `k` others,
/// each of which could be prepared, gets the configured priority and is then
/// bound to exactly the core that lies `k` below the last core of the range, as
/// long as the range goes that far. A thread that starts later finds no core
/// left and cannot be prepared.
pub proof fn law_runs_of_pinned_threads_go_down_the_range(
    starts: Seq<WorkerStart>,
    setups: Seq<Result<WorkerSetup, WorkerError>>,
    min: usize,
    max: usize,
    k: int,
)
    requires
        are_runs(starts, setups),
        starts[0].placing() == (CoreAllocation::PinnedCores { min, max }),
        0 <= k < setups.len(),
        forall|i: int| 0 <= i < k ==> (#[trigger] setups[i]) is Ok,
    ensures
        k < max - min ==> is_setup(
            starts[0].configured(),
            machine_priority(),
            placings_on(seq![(max - 1 - k) as usize], machine_affinity()),
            setups[k],
        ),
        k >= max - min ==> setups[k] is Err && is_setup(
            starts[0].configured(),
            machine_priority(),
            no_placing(),
            setups[k],
        ),
        setups[k] matches Ok(thread) ==> {
            &&& thread.priority == starts[0].configured() % 256
            &&& machine_priority()((starts[0].configured() % 256) as u8, Ok(()))
            &&& k < max - min
            &&& thread.cores matches Some(list)
            &&& list@.len() == 1
            &&& list@[0] == max - 1 - k
            &&& machine_affinity()(list, Ok(()))
        },
        k >= max - min ==> (setups[k] matches Err(error) && (error is NoCoreLeft
            || error is PriorityOutOfRange || error is PriorityRefused)),
{
    lemma_stock_after_runs(starts, setups, k);
    lemma_runs_keep_the_configuration(starts, setups, k);
    law_pinned_threads_go_down_the_range(min, max, k as nat);
    let start = starts[k];
    let after = starts[k + 1];
    assert(start.prepared(after, setups[k]));
    lemma_same_placings_same_setup(
        start.configured(),
        machine_priority(),
        placings(start.placing(), start.stock(), after.stock(), machine_affinity()),
        if k < max - min {
            placings_on(seq![(max - 1 - k) as usize], machine_affinity())
        } else {
            no_placing()
        },
        setups[k],
    );
    law_preparation_follows_the_answers(
        start.configured(),
        start.placing(),
        start.stock(),
        after.stock(),
        machine_priority(),
        machine_affinity(),
        setups[k],
    );
}

/// No two threads of a pinned runtime, all of whose threads up to these could
/// be prepared, run on the same core.
pub proof fn law_runs_of_pinned_threads_share_no_core(
    starts: Seq<WorkerStart>,
    setups: Seq<Result<WorkerSetup, WorkerError>>,
    first: int,
    second: int,
    core: usize,
)
    requires
        are_runs(starts, setups),
        starts[0].placing() is PinnedCores,
        0 <= first < second < setups.len(),
        forall|i: int| 0 <= i <= second ==> (#[trigger] setups[i]) is Ok,
        setups[first]->Ok_0.cores matches Some(cores) && cores@.contains(core),
    ensures
        setups[second]->Ok_0.cores matches Some(cores) && !cores@.contains(core),
{
    if let CoreAllocation::PinnedCores { min, max } = starts[0].placing() {
        assert(setups[first] is Ok && setups[second] is Ok);
        law_runs_of_pinned_threads_go_down_the_range(starts, setups, min, max, first);
        law_runs_of_pinned_threads_go_down_the_range(starts, setups, min, max, second);
        lemma_placed_cores(
            starts[0].configured(),
            seq![(max - 1 - first) as usize],
            setups[first]->Ok_0,
        );
        lemma_placed_cores(
            starts[0].configured(),
            seq![(max - 1 - second) as usize],
            setups[second]->Ok_0,
        );
    }
}

/// A thread that was prepared and placed on the cores has these cores.
proof fn lemma_placed_cores(configured: u32, cores: Seq<usize>, setup: WorkerSetup)
    requires
        is_setup(
            configured,
            machine_priority(),
            placings_on(cores, machine_affinity()),
            Ok(setup),
        ),
    ensures
        setup.cores matches Some(list) && list@ == cores,
{
    let placed: Result<Option<Vec<usize>>, WorkerError> = Ok(setup.cores);
    assert(placings_on(cores, machine_affinity())(placed));
}

/// Each thread of a runtime with a dedicated set of cores gets the configured
/// priority and is then bound to exactly the whole set, as long as all threads
/// before it could be prepared.
pub proof fn law_runs_of_dedicated_threads_share_the_set(
    starts: Seq<WorkerStart>,
    setups: Seq<Result<WorkerSetup, WorkerError>>,
    min: usize,
    max: usize,
    k: int,
)
    requires
        are_runs(starts, setups),
        starts[0].placing() == (CoreAllocation::DedicatedCoreSet { min, max }),
        0 <= k < setups.len(),
        forall|i: int| 0 <= i < k ==> (#[trigger] setups[i]) is Ok,
    ensures
        is_setup(
            starts[0].configured(),
            machine_priority(),
            placings_on(crate::policy::core_range(min, max), machine_affinity()),
            setups[k],
        ),
        setups[k] matches Ok(thread) ==> {
            &&& thread.priority == starts[0].configured() % 256
            &&& machine_priority()((starts[0].configured() % 256) as u8, Ok(()))
            &&& thread.cores matches Some(list)
            &&& list@.len() == (if min < max {
                max - min
            } else {
                0
            })
            &&& forall|i: int| 0 <= i < list@.len() ==> #[trigger] list@[i] == min + i
            &&& machine_affinity()(list, Ok(()))
        },
{
    lemma_stock_after_runs(starts, setups, k);
    lemma_runs_keep_the_configuration(starts, setups, k);
    law_dedicated_threads_share_the_set(min, max, k as nat);
    let start = starts[k];
    let after = starts[k + 1];
    assert(start.prepared(after, setups[k]));
    lemma_same_placings_same_setup(
        start.configured(),
        machine_priority(),
        placings(start.placing(), start.stock(), after.stock(), machine_affinity()),
        placings_on(crate::policy::core_range(min, max), machine_affinity()),
        setups[k],
    );
    law_preparation_follows_the_answers(
        start.configured(),
        start.placing(),
        start.stock(),
        after.stock(),
        machine_priority(),
        machine_affinity(),
        setups[k],
    );
}

/// Threads that the operating system places are bound to no cores, and only
/// its priority can stand in the way of one.
pub proof fn law_other_threads_are_not_bound(
    starts: Seq<WorkerStart>,
    setups: Seq<Result<WorkerSetup, WorkerError>>,
    k: int,
)
    requires
        are_runs(starts, setups),
        starts[0].placing() is OsDefault,
        0 <= k < setups.len(),
    ensures
        !starts[k].stock().spoiled,
        match setups[k] {
            Ok(setup) => setup.cores is None,
            Err(_) => lacks_priority(setups[k]),
        },
    decreases k,
{
    lemma_runs_keep_the_configuration(starts, setups, k);
    if k > 0 {
        law_other_threads_are_not_bound(starts, setups, k - 1);
        lemma_runs_keep_the_configuration(starts, setups, k - 1);
        assert(starts[k - 1].prepared(starts[k - 1 + 1], setups[k - 1]));
    }
    assert(starts[k].prepared(starts[k + 1], setups[k]));
}

/// Once a thread of a runtime has its priority and cannot be placed, no later
/// thread can be prepared.
pub proof fn law_failed_placing_spoils_the_stock(
    starts: Seq<WorkerStart>,
    setups: Seq<Result<WorkerSetup, WorkerError>>,
    failed: int,
    k: int,
)
    requires
        are_runs(starts, setups),
        0 <= failed < k < setups.len(),
        setups[failed] is Err,
        !lacks_priority(setups[failed]),
    ensures
        starts[k].stock().spoiled,
        setups[k] matches Err(error) && (error is CoresSpoiled || error is PriorityRefused),
    decreases k,
{
    assert(starts[failed].prepared(starts[failed + 1], setups[failed]));
    lemma_runs_keep_the_configuration(starts, setups, failed);
    lemma_runs_keep_the_configuration(starts, setups, k);
    if failed < k - 1 {
        law_failed_placing_spoils_the_stock(starts, setups, failed, k - 1);
        assert(starts[k - 1].prepared(starts[k - 1 + 1], setups[k - 1]));
    }
    assert(starts[k].prepared(starts[k + 1], setups[k]));
}

/// A priority is the configured number modulo 256, unchanged, and any greater
/// remainder than the largest priority is turned down.
pub proof fn law_priority_is_the_configured_number(
    configured: u32,
    priority: Result<u8, WorkerError>,
)
    requires
        call_ensures(worker_priority, (configured,), priority),
    ensures
        configured % 256 <= MAX_PRIORITY ==> priority == Ok::<u8, WorkerError>(
            (configured % 256) as u8,
        ),
        configured % 256 > MAX_PRIORITY ==> priority == Err::<u8, WorkerError>(
            WorkerError::PriorityOutOfRange { priority: (configured % 256) as u8 },
        ),
{
}

/// Of two configured numbers below 256 that are priorities the greater one
/// gives the greater priority.
pub proof fn law_greater_number_is_greater_priority(
    low: u32,
    high: u32,
    low_priority: u8,
    high_priority: u8,
)
    requires
        low < high < 256,
        call_ensures(worker_priority, (low,), Ok(low_priority)),
        call_ensures(worker_priority, (high,), Ok(high_priority)),
    ensures
        low_priority < high_priority,
{
}

/// All answers that do not refuse are the same.
proof fn lemma_unit_answers()
    ensures
        forall|answer: Result<(), thread_priority::Error>| (#[trigger] (answer is Ok)) ==> answer
            == Ok::<(), thread_priority::Error>(()),
        forall|answer: Result<(), String>| (#[trigger] (answer is Ok)) ==> answer == Ok::<
            (),
            String,
        >(()),
{
    assert forall|answer: Result<(), thread_priority::Error>| (#[trigger] (
    answer is Ok)) implies answer == Ok::<(), thread_priority::Error>(()) by {
        lemma_unit(answer->Ok_0);
    }
    assert forall|answer: Result<(), String>| (#[trigger] (answer is Ok)) implies answer == Ok::<
        (),
        String,
    >(()) by {
        lemma_unit(answer->Ok_0);
    }
}

proof fn lemma_unit(unit: ())
    ensures
        unit == (),
{
}

/// The cores that a thread takes out of what is left: a pinned thread takes the
/// last core and leaves the others, a thread with a dedicated set takes all and
/// leaves all, and another thread takes none.
pub proof fn law_next_cores_are_taken_from_the_end(
    allocation: CoreAllocation,
    left: &mut Vec<usize>,
    cores: Result<Option<Vec<usize>>, WorkerError>,
)
    requires
        call_ensures(next_cores, (&allocation, left), cores),
    ensures
        match allocation {
            CoreAllocation::OsDefault => cores matches Ok(none) && none is None && final(left)@
                == old(left)@,
            CoreAllocation::PinnedCores { .. } => if old(left)@.len() == 0 {
                cores matches Err(error) && error is NoCoreLeft && final(left)@ == old(left)@
            } else {
                &&& cores matches Ok(Some(list))
                &&& list@ == seq![old(left)@[old(left)@.len() - 1]]
                &&& old(left)@ == final(left)@.push(list@[0])
            },
            CoreAllocation::DedicatedCoreSet { .. } => cores matches Ok(Some(list)) && list@ == old(
                left,
            )@ && final(left)@ == old(left)@,
        },
{
    assert(allocation is PinnedCores && old(left)@.len() > 0 ==> old(left)@ =~= old(
        left,
    )@.drop_last().push(old(left)@.last()));
}

/// Cores are turned down exactly if one of them is not below the limit, and
/// then the first such core is named.
pub proof fn law_cores_are_checked_against_the_limit(
    cores: Vec<usize>,
    outcome: Result<(), WorkerError>,
)
    requires
        call_ensures(check_cores, (&cores,), outcome),
    ensures
        outcome is Ok <==> (forall|i: int|
            0 <= i < cores@.len() ==> #[trigger] cores@[i] < CORE_LIMIT),
        outcome matches Err(error) ==> error is CoreOutOfRange,
        outcome matches Err(WorkerError::CoreOutOfRange { core }) ==> exists|i: int|
            0 <= i < cores@.len() && #[trigger] cores@[i] == core && core >= CORE_LIMIT && (
            forall|j: int| 0 <= j < i ==> #[trigger] cores@[j] < CORE_LIMIT),
{
}

/// What comes of binding a thread to cores, of whatever number: it is bound
/// only if exactly these cores were asked for and not refused; a refusal is
/// handed on; cores that are not below the limit are turned down.
pub proof fn law_binding_asks_for_exactly_the_cores(
    cores: Vec<usize>,
    answers: spec_fn(Vec<usize>, Result<(), String>) -> bool,
    outcome: Result<(), WorkerError>,
)
    requires
        is_binding_outcome(cores, answers, outcome),
    ensures
        outcome is Ok ==> answers(cores, Ok(())),
        outcome matches Err(WorkerError::AffinityRefused(message)) ==> answers(
            cores,
            Err(message),
        ),
        outcome matches Err(error) ==> error is AffinityRefused || error is CoreOutOfRange,
        (outcome matches Err(error) && error is CoreOutOfRange) <==> (exists|i: int|
            0 <= i < cores@.len() && #[trigger] cores@[i] >= CORE_LIMIT),
        outcome matches Err(WorkerError::CoreOutOfRange { core }) ==> cores@.contains(core) && core
            >= CORE_LIMIT,
{
    lemma_unit_answers();
}

/// A thread is bound to cores, of whatever number, only if `set_affinity` was
/// told exactly these cores and did not refuse them; a refusal is handed on with
/// its message; cores that are not below the limit are turned down, and no
/// others.
pub proof fn law_bound_thread_was_told_its_cores<A: FnOnce(&Vec<usize>) -> Result<(), String>>(
    cores: Vec<usize>,
    set_affinity: A,
    outcome: Result<(), WorkerError>,
)
    requires
        call_ensures(bind_thread::<A>, (&cores, set_affinity), outcome),
    ensures
        outcome is Ok ==> set_affinity.ensures((&cores,), Ok(())),
        outcome matches Err(WorkerError::AffinityRefused(message)) ==> set_affinity.ensures(
            (&cores,),
            Err(message),
        ),
        outcome matches Err(error) ==> error is AffinityRefused || error is CoreOutOfRange,
        (outcome matches Err(error) && error is CoreOutOfRange) <==> (exists|i: int|
            0 <= i < cores@.len() && #[trigger] cores@[i] >= CORE_LIMIT),
        outcome matches Err(WorkerError::CoreOutOfRange { core }) ==> cores@.contains(core) && core
            >= CORE_LIMIT,
{
    law_binding_asks_for_exactly_the_cores(cores, affinity_answers(set_affinity), outcome);
}

/// The current thread is bound to cores, of whatever number, only if the
/// machine was told exactly these cores and did not refuse them; a refusal is
/// handed on with its message; cores that are not below the limit are turned
/// down, and no others.
pub proof fn law_bound_current_thread_was_told_its_cores(
    cores: Vec<usize>,
    outcome: Result<(), WorkerError>,
)
    requires
        call_ensures(bind_current_thread, (&cores,), outcome),
    ensures
        outcome is Ok ==> machine_affinity()(cores, Ok(())),
        outcome matches Err(WorkerError::AffinityRefused(message)) ==> machine_affinity()(
            cores,
            Err(message),
        ),
        outcome matches Err(error) ==> error is AffinityRefused || error is CoreOutOfRange,
        (outcome matches Err(error) && error is CoreOutOfRange) <==> (exists|i: int|
            0 <= i < cores@.len() && #[trigger] cores@[i] >= CORE_LIMIT),
        outcome matches Err(WorkerError::CoreOutOfRange { core }) ==> cores@.contains(core) && core
            >= CORE_LIMIT,
{
    law_binding_asks_for_exactly_the_cores(cores, machine_affinity(), outcome);
}

/// What counts as an answer of the machine is what the calls to it may answer.
pub(crate) proof fn law_machine_answers_are_those_of_the_calls(
    cores: Vec<usize>,
    affinity: Result<(), String>,
    number: u8,
    priority: Result<(), thread_priority::Error>,
)
    ensures
        machine_affinity()(cores, affinity) <==> call_ensures(
            set_thread_affinity,
            (&cores,),
            affinity,
        ),
        machine_priority()(number, priority) <==> call_ensures(
            set_thread_priority,
            (number,),
            priority,
        ),
{
}

/// What comes of placing a thread. It is placed only if nothing is spoiled and,
/// unless the operating system places it, only if the machine was told exactly
/// its cores, of whatever number, and did not refuse them: a pinned thread the
/// last core that is left, which is then no longer left, and a thread with a
/// dedicated set all cores, which stay. Whatever goes wrong spoils the stock.
pub proof fn law_placing_binds_to_the_cores(
    allocation: CoreAllocation,
    before: CoreStock,
    after: CoreStock,
    answers: spec_fn(Vec<usize>, Result<(), String>) -> bool,
    outcome: Result<Option<Vec<usize>>, WorkerError>,
)
    requires
        is_placing(allocation, before, after, answers, outcome),
    ensures
        after.spoiled == (outcome is Err),
        outcome matches Ok(cores) ==> !before.spoiled && match allocation {
            CoreAllocation::OsDefault => cores is None && after.left@ == before.left@,
            CoreAllocation::PinnedCores { .. } => {
                &&& before.left@.len() > 0
                &&& cores matches Some(list)
                &&& list@ == seq![before.left@.last()]
                &&& answers(list, Ok(()))
                &&& after.left@ == before.left@.drop_last()
            },
            CoreAllocation::DedicatedCoreSet { .. } => {
                &&& cores matches Some(list)
                &&& list@ == before.left@
                &&& answers(list, Ok(()))
                &&& after.left@ == before.left@
            },
        },
        outcome matches Err(error) ==> error is AffinityRefused || error is CoreOutOfRange
            || error is NoCoreLeft || error is CoresSpoiled,
        outcome matches Err(WorkerError::AffinityRefused(message)) ==> !before.spoiled && !(
        allocation is OsDefault) && exists|list: Vec<usize>| #[trigger]
            answers(list, Err(message)) && if allocation is PinnedCores {
                before.left@.len() > 0 && list@ == seq![before.left@.last()]
            } else {
                list@ == before.left@
            },
        outcome matches Err(WorkerError::CoreOutOfRange { core }) ==> core >= CORE_LIMIT
            && before.left@.contains(core) && !(allocation is OsDefault) && (
        allocation is PinnedCores ==> core == before.left@.last()),
        outcome matches Err(error) && error is NoCoreLeft <==> allocation is PinnedCores
            && before.left@.len() == 0 && !before.spoiled,
        outcome matches Err(error) && error is CoresSpoiled <==> before.spoiled,
        outcome is Err && allocation is OsDefault ==> before.spoiled,
{
    if !before.spoiled {
        if let Placement::Cores(cores) = placement(allocation, before.left@) {
            let (list, bound) = choose|list: Vec<usize>, bound: Result<(), WorkerError>|
                list@ == cores && #[trigger] is_binding_outcome(list, answers, bound)
                    && match bound {
                    Ok(_) => outcome == Ok::<Option<Vec<usize>>, WorkerError>(Some(list)),
                    Err(error) => outcome == Err::<Option<Vec<usize>>, WorkerError>(error),
                };
            law_binding_asks_for_exactly_the_cores(list, answers, bound);
            if let Err(WorkerError::CoreOutOfRange { core }) = bound {
                assert(list@.contains(core));
            }
        }
    }
}

/// A thread that nobody refuses anything is prepared: where the configured
/// number is a priority, nothing is spoiled, a pinned thread finds a core left
/// and all cores are below the limit, only a refusal stands in its way.
pub proof fn law_thread_is_prepared_unless_refused(
    configured: u32,
    allocation: CoreAllocation,
    before: CoreStock,
    after: CoreStock,
    priority: spec_fn(u8, Result<(), thread_priority::Error>) -> bool,
    affinity: spec_fn(Vec<usize>, Result<(), String>) -> bool,
    setup: Result<WorkerSetup, WorkerError>,
)
    requires
        is_preparation(configured, allocation, before, after, priority, affinity, setup),
        configured % 256 <= MAX_PRIORITY,
        !before.spoiled,
        allocation is PinnedCores ==> before.left@.len() > 0,
        forall|i: int| 0 <= i < before.left@.len() ==> #[trigger] before.left@[i] < CORE_LIMIT,
        forall|answer: Result<(), thread_priority::Error>| #[trigger]
            priority((configured % 256) as u8, answer) ==> answer is Ok,
        forall|list: Vec<usize>, answer: Result<(), String>| #[trigger]
            affinity(list, answer) ==> answer is Ok,
    ensures
        setup is Ok,
{
    law_preparation_follows_the_answers(
        configured,
        allocation,
        before,
        after,
        priority,
        affinity,
        setup,
    );
}

/// The same of a thread that `place_thread` places: what `set_affinity` was told
/// and answered decides.
pub proof fn law_placed_thread_was_told_its_cores<A: FnOnce(&Vec<usize>) -> Result<(), String>>(
    allocation: CoreAllocation,
    stock: &mut CoreStock,
    set_affinity: A,
    outcome: Result<Option<Vec<usize>>, WorkerError>,
)
    requires
        call_ensures(place_thread::<A>, (&allocation, stock, set_affinity), outcome),
    ensures
        final(stock).spoiled == (outcome is Err),
        outcome matches Ok(cores) ==> !old(stock).spoiled && match allocation {
            CoreAllocation::OsDefault => cores is None && final(stock).left@ == old(stock).left@,
            CoreAllocation::PinnedCores { .. } => {
                &&& old(stock).left@.len() > 0
                &&& cores matches Some(list)
                &&& list@ == seq![old(stock).left@.last()]
                &&& set_affinity.ensures((&list,), Ok(()))
                &&& final(stock).left@ == old(stock).left@.drop_last()
            },
            CoreAllocation::DedicatedCoreSet { .. } => {
                &&& cores matches Some(list)
                &&& list@ == old(stock).left@
                &&& set_affinity.ensures((&list,), Ok(()))
                &&& final(stock).left@ == old(stock).left@
            },
        },
        outcome matches Err(error) ==> error is AffinityRefused || error is CoreOutOfRange
            || error is NoCoreLeft || error is CoresSpoiled,
        outcome matches Err(WorkerError::AffinityRefused(message)) ==> !(allocation is OsDefault)
            && exists|list: Vec<usize>| #[trigger]
            set_affinity.ensures((&list,), Err(message)) && if allocation is PinnedCores {
                old(stock).left@.len() > 0 && list@ == seq![old(stock).left@.last()]
            } else {
                list@ == old(stock).left@
            },
        outcome matches Err(error) && error is NoCoreLeft <==> allocation is PinnedCores && old(
            stock,
        ).left@.len() == 0 && !old(stock).spoiled,
        outcome matches Err(error) && error is CoresSpoiled <==> old(stock).spoiled,
{
    law_placing_binds_to_the_cores(
        allocation,
        *old(stock),
        *final(stock),
        affinity_answers(set_affinity),
        outcome,
    );
    if let Err(WorkerError::AffinityRefused(message)) = outcome {
        let list = choose|list: Vec<usize>| #[trigger]
            affinity_answers(set_affinity)(list, Err(message)) && if allocation is PinnedCores {
                old(stock).left@.len() > 0 && list@ == seq![old(stock).left@.last()]
            } else {
                list@ == old(stock).left@
            };
        assert(set_affinity.ensures((&list,), Err(message)));
    }
}

/// What comes of preparing a thread. It is prepared only if the machine was told
/// the configured number modulo 256 as its priority and did not refuse it, and
/// was then told exactly its cores, of whatever number, and did not refuse them.
/// A thread without its priority leaves the stock as it is; one that has its
/// priority and cannot be placed spoils it.
pub proof fn law_preparation_follows_the_answers(
    configured: u32,
    allocation: CoreAllocation,
    before: CoreStock,
    after: CoreStock,
    priority: spec_fn(u8, Result<(), thread_priority::Error>) -> bool,
    affinity: spec_fn(Vec<usize>, Result<(), String>) -> bool,
    setup: Result<WorkerSetup, WorkerError>,
)
    requires
        is_preparation(configured, allocation, before, after, priority, affinity, setup),
    ensures
        configured % 256 > MAX_PRIORITY <==> (setup matches Err(error)
            && error is PriorityOutOfRange),
        setup matches Err(WorkerError::PriorityOutOfRange { priority }) ==> priority
            == configured % 256,
        setup matches Err(WorkerError::PriorityRefused(error))
            ==> priority((configured % 256) as u8, Err(error)),
        configured % 256 <= MAX_PRIORITY && !(setup matches Err(error) && error is PriorityRefused)
            ==> priority((configured % 256) as u8, Ok(())),
        setup matches Err(error) && (error is PriorityOutOfRange || error is PriorityRefused)
            ==> after == before,
        !(setup matches Err(error) && (error is PriorityOutOfRange || error is PriorityRefused))
            ==> after.spoiled == (setup is Err),
        setup matches Ok(thread) ==> thread.priority == configured % 256 && !before.spoiled
            && match allocation {
            CoreAllocation::OsDefault => thread.cores is None && after.left@
                == before.left@,
            CoreAllocation::PinnedCores { .. } => {
                &&& before.left@.len() > 0
                &&& thread.cores matches Some(list)
                &&& list@ == seq![before.left@.last()]
                &&& affinity(list, Ok(()))
                &&& after.left@ == before.left@.drop_last()
            },
            CoreAllocation::DedicatedCoreSet { .. } => {
                &&& thread.cores matches Some(list)
                &&& list@ == before.left@
                &&& affinity(list, Ok(()))
                &&& after.left@ == before.left@
            },
        },
        setup matches Err(WorkerError::AffinityRefused(message)) ==> !before.spoiled && !(
        allocation is OsDefault) && exists|list: Vec<usize>| #[trigger]
            affinity(list, Err(message)) && if allocation is PinnedCores {
                before.left@.len() > 0 && list@ == seq![before.left@.last()]
            } else {
                list@ == before.left@
            },
        setup matches Err(WorkerError::CoreOutOfRange { core }) ==> core >= CORE_LIMIT
            && before.left@.contains(core) && !(allocation is OsDefault)
                && (allocation is PinnedCores
            ==> core == before.left@.last()),
        setup matches Err(error) && error is NoCoreLeft ==> allocation is PinnedCores
            && before.left@.len() == 0 && !before.spoiled,
        setup matches Err(error) && error is CoresSpoiled ==> before.spoiled,
        setup is Err && before.spoiled ==> (setup matches Err(error) && (error is CoresSpoiled
            || error is PriorityOutOfRange || error is PriorityRefused)),
        setup is Err && allocation is OsDefault && !before.spoiled
            ==> (setup matches Err(error) && (
        error is PriorityOutOfRange || error is PriorityRefused)),
{
    lemma_unit_answers();
    if cut_priority(configured) <= MAX_PRIORITY {
        let answer = choose|answer: Result<(), thread_priority::Error>| #[trigger]
            priority(cut_priority(configured), answer) && match answer {
                Err(error) => setup == Err::<WorkerSetup, WorkerError>(
                    WorkerError::PriorityRefused(error),
                ),
                Ok(_) => exists|placed: Result<Option<Vec<usize>>, WorkerError>| #[trigger]
                    placings(allocation, before, after, affinity)(placed) && setup
                        == match placed {
                        Ok(cores) => Ok::<WorkerSetup, WorkerError>(
                            WorkerSetup { priority: cut_priority(configured), cores },
                        ),
                        Err(error) => Err(error),
                    },
            };
        if answer is Ok {
            let placed = choose|placed: Result<Option<Vec<usize>>, WorkerError>| #[trigger]
                placings(allocation, before, after, affinity)(placed) && setup == match placed {
                    Ok(cores) => Ok::<WorkerSetup, WorkerError>(
                        WorkerSetup { priority: cut_priority(configured), cores },
                    ),
                    Err(error) => Err(error),
                };
            law_placing_binds_to_the_cores(allocation, before, after, affinity, placed);
            if let Err(WorkerError::AffinityRefused(message)) = placed {
                let list = choose|list: Vec<usize>| #[trigger]
                    affinity(list, Err(message)) && if allocation is PinnedCores {
                        before.left@.len() > 0 && list@ == seq![before.left@.last()]
                    } else {
                        list@ == before.left@
                    };
                assert(affinity(list, Err(message)));
            }
        }
    }
}

/// The same of a thread that `prepare_thread` prepares: what `set_priority` and
/// `set_affinity` were told and answered decides.
pub proof fn law_prepared_thread_was_told_priority_and_cores<
    P: FnOnce(u8) -> Result<(), thread_priority::Error>,
    A: FnOnce(&Vec<usize>) -> Result<(), String>,
>(
    configured: u32,
    allocation: CoreAllocation,
    stock: &mut CoreStock,
    set_priority: P,
    set_affinity: A,
    setup: Result<WorkerSetup, WorkerError>,
)
    requires
        call_ensures(
            prepare_thread::<P, A>,
            (configured, &allocation, stock, set_priority, set_affinity),
            setup,
        ),
    ensures
        configured % 256 > MAX_PRIORITY <==> (setup matches Err(error)
            && error is PriorityOutOfRange),
        setup matches Err(WorkerError::PriorityOutOfRange { priority }) ==> priority
            == configured % 256,
        setup matches Err(WorkerError::PriorityRefused(error))
            ==> set_priority.ensures(((configured % 256) as u8,), Err(error)),
        configured % 256 <= MAX_PRIORITY && !(setup matches Err(error) && error is PriorityRefused)
            ==> set_priority.ensures(((configured % 256) as u8,), Ok(())),
        setup matches Err(error) && (error is PriorityOutOfRange || error is PriorityRefused)
            ==> *final(stock) == *old(stock),
        !(setup matches Err(error) && (error is PriorityOutOfRange || error is PriorityRefused))
            ==> final(stock).spoiled == (setup is Err),
        setup matches Ok(thread) ==> thread.priority == configured % 256 && !old(stock).spoiled
            && match allocation {
            CoreAllocation::OsDefault => thread.cores is None && final(stock).left@
                == old(stock).left@,
            CoreAllocation::PinnedCores { .. } => {
                &&& old(stock).left@.len() > 0
                &&& thread.cores matches Some(list)
                &&& list@ == seq![old(stock).left@.last()]
                &&& set_affinity.ensures((&list,), Ok(()))
                &&& final(stock).left@ == old(stock).left@.drop_last()
            },
            CoreAllocation::DedicatedCoreSet { .. } => {
                &&& thread.cores matches Some(list)
                &&& list@ == old(stock).left@
                &&& set_affinity.ensures((&list,), Ok(()))
                &&& final(stock).left@ == old(stock).left@
            },
        },
        setup matches Err(WorkerError::AffinityRefused(message)) ==> !old(stock).spoiled && !(
        allocation is OsDefault) && exists|list: Vec<usize>| #[trigger]
            set_affinity.ensures((&list,), Err(message)) && if allocation is PinnedCores {
                old(stock).left@.len() > 0 && list@ == seq![old(stock).left@.last()]
            } else {
                list@ == old(stock).left@
            },
        setup matches Err(WorkerError::CoreOutOfRange { core }) ==> core >= CORE_LIMIT
            && old(stock).left@.contains(core) && !(allocation is OsDefault)
                && (allocation is PinnedCores
            ==> core == old(stock).left@.last()),
        setup matches Err(error) && error is NoCoreLeft ==> allocation is PinnedCores
            && old(stock).left@.len() == 0 && !old(stock).spoiled,
        setup matches Err(error) && error is CoresSpoiled ==> old(stock).spoiled,
        setup is Err && old(stock).spoiled ==> (setup matches Err(error) && (error is CoresSpoiled
            || error is PriorityOutOfRange || error is PriorityRefused)),
        setup is Err && allocation is OsDefault && !old(stock).spoiled
            ==> (setup matches Err(error) && (
        error is PriorityOutOfRange || error is PriorityRefused)),
{
    law_preparation_follows_the_answers(
        configured,
        allocation,
        *old(stock),
        *final(stock),
        priority_answers(set_priority),
        affinity_answers(set_affinity),
        setup,
    );
    if let Err(WorkerError::AffinityRefused(message)) = setup {
        let list = choose|list: Vec<usize>| #[trigger]
            affinity_answers(set_affinity)(list, Err(message)) && if allocation is PinnedCores {
                old(stock).left@.len() > 0 && list@ == seq![old(stock).left@.last()]
            } else {
                list@ == old(stock).left@
            };
        assert(set_affinity.ensures((&list,), Err(message)));
    }
}

/// The same of a thread of a runtime: what the machine was told and answered
/// decides, and the priority and the allocation of the runtime stay.
pub proof fn law_runtime_thread_was_told_priority_and_cores(
    start: &mut WorkerStart,
    setup: Result<WorkerSetup, WorkerError>,
)
    requires
        call_ensures(WorkerStart::prepare, (start,), setup),
    ensures
        final(start).configured() == old(start).configured(),
        final(start).placing() == old(start).placing(),
        old(start).configured() % 256 > MAX_PRIORITY <==> (setup matches Err(error)
            && error is PriorityOutOfRange),
        setup matches Err(WorkerError::PriorityOutOfRange { priority }) ==> priority
            == old(start).configured() % 256,
        setup matches Err(WorkerError::PriorityRefused(error))
            ==> machine_priority()((old(start).configured() % 256) as u8, Err(error)),
        old(start).configured() % 256 <= MAX_PRIORITY && !(setup matches Err(error)
            && error is PriorityRefused)
            ==> machine_priority()((old(start).configured() % 256) as u8, Ok(())),
        setup matches Err(error) && (error is PriorityOutOfRange || error is PriorityRefused)
            ==> final(start).stock() == old(start).stock(),
        !(setup matches Err(error) && (error is PriorityOutOfRange || error is PriorityRefused))
            ==> final(start).stock().spoiled == (setup is Err),
        setup matches Ok(thread) ==> thread.priority == old(start).configured() % 256
            && !old(start).stock().spoiled
            && match old(start).placing() {
            CoreAllocation::OsDefault => thread.cores is None && final(start).stock().left@
                == old(start).stock().left@,
            CoreAllocation::PinnedCores { .. } => {
                &&& old(start).stock().left@.len() > 0
                &&& thread.cores matches Some(list)
                &&& list@ == seq![old(start).stock().left@.last()]
                &&& machine_affinity()(list, Ok(()))
                &&& final(start).stock().left@ == old(start).stock().left@.drop_last()
            },
            CoreAllocation::DedicatedCoreSet { .. } => {
                &&& thread.cores matches Some(list)
                &&& list@ == old(start).stock().left@
                &&& machine_affinity()(list, Ok(()))
                &&& final(start).stock().left@ == old(start).stock().left@
            },
        },
        setup matches Err(WorkerError::AffinityRefused(message))
            ==> !old(start).stock().spoiled && !(
        old(start).placing() is OsDefault) && exists|list: Vec<usize>| #[trigger]
            machine_affinity()(list, Err(message)) && if old(start).placing() is PinnedCores {
                old(start).stock().left@.len() > 0 && list@ == seq![old(start).stock().left@.last()]
            } else {
                list@ == old(start).stock().left@
            },
        setup matches Err(WorkerError::CoreOutOfRange { core }) ==> core >= CORE_LIMIT
            && old(start).stock().left@.contains(core)
                && !(old(start).placing() is OsDefault) && (old(start).placing() is PinnedCores
            ==> core == old(start).stock().left@.last()),
        setup matches Err(error) && error is NoCoreLeft ==> old(start).placing() is PinnedCores
            && old(start).stock().left@.len() == 0 && !old(start).stock().spoiled,
        setup matches Err(error) && error is CoresSpoiled ==> old(start).stock().spoiled,
        setup is Err && old(start).stock().spoiled ==> (setup matches Err(error)
            && (error is CoresSpoiled
            || error is PriorityOutOfRange || error is PriorityRefused)),
        setup is Err && old(start).placing() is OsDefault && !old(start).stock().spoiled
            ==> (setup matches Err(error) && (
        error is PriorityOutOfRange || error is PriorityRefused)),
{
    law_preparation_follows_the_answers(
        old(start).configured(),
        old(start).placing(),
        old(start).stock(),
        final(start).stock(),
        machine_priority(),
        machine_affinity(),
        setup,
    );
}

/// Whoever prepares the threads of a runtime begins with all cores of its range
/// and nothing spoiled.
pub proof fn law_new_start_has_all_cores(
    priority: u32,
    allocation: CoreAllocation,
    start: WorkerStart,
)
    requires
        call_ensures(WorkerStart::new, (priority, allocation), start),
    ensures
        start.configured() == priority,
        start.placing() == allocation,
        !start.stock().spoiled,
        match allocation {
            CoreAllocation::OsDefault => start.stock().left@.len() == 0,
            CoreAllocation::PinnedCores { min, max } => start.stock().left@.len() == (if min
                < max {
                max - min
            } else {
                0
            }) && forall|i: int|
                0 <= i < start.stock().left@.len() ==> #[trigger] start.stock().left@[i] == min + i,
            CoreAllocation::DedicatedCoreSet { min, max } => start.stock().left@.len() == (if min
                < max {
                max - min
            } else {
                0
            }) && forall|i: int|
                0 <= i < start.stock().left@.len() ==> #[trigger] start.stock().left@[i] == min + i,
        },
{
}

} // verus!
