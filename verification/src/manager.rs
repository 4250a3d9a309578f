//! The manager of the runtimes of a program.

use crate::machine::count_cores;
use crate::names::NameMap;
use crate::supported_runtimes::{NativeConfig, NativeThreadRuntime, TokioConfig, TokioRuntime};
use crate::tokio_builder::{
    build_runtime, enable_all, new_current_thread, new_multi_thread, set_event_interval,
    set_max_blocking_threads, set_stack_size, set_thread_names, set_thread_start,
    set_worker_threads, Knob, Setting, WORKER_LIMIT,
};
use crate::thread_name::WorkerNames;
use crate::policy::CoreAllocation;
use crate::worker::{WorkerError, WorkerSetup, WorkerStart};
use vstd::prelude::*;
use vstd::string::StrSliceExecFns;

verus! {

/// The configuration of all runtimes of a program.
#[derive(Debug)]
pub struct RuntimeManagerConfig {
    /// The tokio runtimes by name.
    pub tokio_configs: NameMap<TokioConfig>,
    /// The names by which a program asks for tokio runtimes, each with the name
    /// of the runtime that it stands for.
    pub tokio_runtime_mapping: NameMap<String>,
    /// The pools of native threads by name.
    pub native_configs: NameMap<NativeConfig>,
}

impl Clone for RuntimeManagerConfig {
    fn clone(&self) -> (copy: RuntimeManagerConfig)
        ensures
            copy.tokio_configs@ == self.tokio_configs@,
            copy.tokio_runtime_mapping@ == self.tokio_runtime_mapping@,
            copy.native_configs@ == self.native_configs@,
    {
        let copy = RuntimeManagerConfig {
            tokio_configs: self.tokio_configs.clone(),
            tokio_runtime_mapping: self.tokio_runtime_mapping.clone(),
            native_configs: self.native_configs.clone(),
        };
        assert(copy.tokio_configs@ =~= self.tokio_configs@);
        assert(copy.tokio_runtime_mapping@ =~= self.tokio_runtime_mapping@);
        assert(copy.native_configs@ =~= self.native_configs@);
        copy
    }
}

impl Default for RuntimeManagerConfig {
    /// No runtimes.
    fn default() -> (config: RuntimeManagerConfig)
        ensures
            config.tokio_configs@ == Map::<Seq<char>, TokioConfig>::empty(),
            config.tokio_runtime_mapping@ == Map::<Seq<char>, String>::empty(),
            config.native_configs@ == Map::<Seq<char>, NativeConfig>::empty(),
    {
        RuntimeManagerConfig {
            tokio_configs: NameMap::new(),
            tokio_runtime_mapping: NameMap::new(),
            native_configs: NameMap::new(),
        }
    }
}

/// The number of workers of a runtime on a machine with `core_num` cores: the
/// configured number or, where that is zero, one per core.
pub open spec fn workers_on(config: TokioConfig, core_num: usize) -> usize {
    if config.worker_threads != 0 {
        config.worker_threads
    } else {
        core_num
    }
}

/// A runtime of this name can be started on a machine with `core_num` cores.
///
/// There are workers, and neither the interval nor the number of further
/// threads is zero. Where the workers are threads of their own, there are not
/// too many, they can be named, and their stacks are not too large.
pub open spec fn can_start_runtime(name: Seq<char>, config: TokioConfig, core_num: usize) -> bool {
    let workers = workers_on(config, core_num);
    &&& workers > 0
    &&& config.event_interval > 0
    &&& config.max_blocking_threads > 0
    &&& workers != 1 ==> {
        &&& crate::tokio_builder::can_name_threads(name)
        &&& workers <= WORKER_LIMIT
        &&& workers + config.max_blocking_threads <= usize::MAX
        &&& config.stack_size_bytes <= isize::MAX
    }
}

/// The number of workers of a runtime on a machine with `core_num` cores.
pub fn num_workers(config: &TokioConfig, core_num: usize) -> (workers: usize)
    ensures
        workers == workers_on(*config, core_num),
{
    if config.worker_threads != 0 {
        config.worker_threads
    } else {
        core_num
    }
}

/// Whether a runtime of this name can be started on a machine with `core_num`
/// cores.
pub fn is_startable_runtime(name: &str, config: &TokioConfig, core_num: usize) -> (startable: bool)
    ensures
        startable == can_start_runtime(name@, *config, core_num),
{
    let workers: usize = num_workers(config, core_num);
    if workers == 0 || config.event_interval == 0 || config.max_blocking_threads == 0 {
        return false;
    }
    workers == 1 || (workers <= WORKER_LIMIT && config.max_blocking_threads <= usize::MAX - workers
        && config.stack_size_bytes <= isize::MAX as usize && !holds_nul(name))
}

impl RuntimeManagerConfig {
    /// Every tokio runtime can be started on a machine with `core_num` cores.
    pub open spec fn can_start_on(self, core_num: usize) -> bool {
        forall|name: Seq<char>| #[trigger]
            self.tokio_configs@.contains_key(name) ==> can_start_runtime(
                name,
                self.tokio_configs@[name],
                core_num,
            )
    }

    /// The name of a tokio runtime that cannot be started on a machine with
    /// `core_num` cores, if there is one.
    pub fn find_unstartable(&self, core_num: usize) -> (found: Option<String>)
        ensures
            match found {
                Some(name) => self.tokio_configs@.contains_key(name@) && !can_start_runtime(
                    name@,
                    self.tokio_configs@[name@],
                    core_num,
                ),
                None => self.can_start_on(core_num),
            },
    {
        let len: usize = self.tokio_configs.len();
        let mut i: usize = 0;
        while i < len
            invariant
                i <= len,
                len == self.tokio_configs.order().len(),
                forall|j: int|
                    0 <= j < i ==> can_start_runtime(
                        #[trigger] self.tokio_configs.order()[j],
                        self.tokio_configs@[self.tokio_configs.order()[j]],
                        core_num,
                    ),
            decreases len - i,
        {
            let (name, config) = self.tokio_configs.entry(i);
            if !is_startable_runtime(name.as_str(), config, core_num) {
                return Some(name.clone());
            }
            i = i + 1;
        }
        assert forall|name: Seq<char>| #[trigger]
            self.tokio_configs@.contains_key(name) implies can_start_runtime(
            name,
            self.tokio_configs@[name],
            core_num,
        ) by {
            assert(self.tokio_configs.order().contains(name));
        }
        None
    }
}

/// Whether the text holds the character NUL.
fn holds_nul(text: &str) -> (holds: bool)
    ensures
        holds == text@.contains('\0'),
{
    let len: usize = text.unicode_len();
    let mut i: usize = 0;
    while i < len
        invariant
            i <= len,
            len == text@.len(),
            forall|j: int| 0 <= j < i ==> #[trigger] text@[j] != '\0',
        decreases len - i,
    {
        let c: char = text.get_char(i);
        if c == '\0' {
            assert(text@[i as int] == '\0');
            return true;
        }
        i = i + 1;
    }
    false
}

/// Why a manager could not be made.
#[derive(Debug)]
pub enum ManagerError {
    /// The runtime of this name could not be built.
    Build { runtime: String, error: std::io::Error },
    /// The runtime of this name cannot be started as it is configured.
    NotStartable { runtime: String },
}

/// The runtimes of a program.
#[derive(Debug)]
pub struct RuntimeManager {
    /// The tokio runtimes by name.
    pub tokio_runtimes: NameMap<TokioRuntime>,
    /// The names by which the program asks for tokio runtimes, each with the
    /// name of the runtime that it stands for.
    pub tokio_runtime_mapping: NameMap<String>,
    /// The pools of native threads by name.
    pub native_thread_runtimes: NameMap<NativeThreadRuntime>,
}

impl Default for RuntimeManager {
    /// No runtimes.
    fn default() -> (manager: RuntimeManager)
        ensures
            manager.tokio_runtimes@ == Map::<Seq<char>, TokioRuntime>::empty(),
            manager.tokio_runtime_mapping@ == Map::<Seq<char>, String>::empty(),
            manager.native_thread_runtimes@ == Map::<Seq<char>, NativeThreadRuntime>::empty(),
    {
        RuntimeManager {
            tokio_runtimes: NameMap::new(),
            tokio_runtime_mapping: NameMap::new(),
            native_thread_runtimes: NameMap::new(),
        }
    }
}

/// What a runtime of this name, with this configuration and this number of
/// workers, is built with. A single worker is the thread that waits. The
/// numbers of the threads begin with zero, and all cores are left.
pub open spec fn settings_for(name: Seq<char>, config: TokioConfig, workers: usize) -> Map<
    Knob,
    Setting,
> {
    let flavor = if workers == 1 {
        map![Knob::Flavor => Setting::CurrentThread]
    } else {
        map![
            Knob::Flavor => Setting::MultiThread,
            Knob::WorkerThreads => Setting::Count(workers as nat),
        ]
    };
    flavor.union_prefer_right(
        map![
            Knob::EventInterval => Setting::Count(config.event_interval as nat),
            Knob::ThreadNames => Setting::NumberedNames { base: name, from: 0 },
            Knob::StackSize => Setting::Count(config.stack_size_bytes as nat),
            Knob::Drivers => Setting::AllDrivers,
            Knob::MaxBlockingThreads => Setting::Count(config.max_blocking_threads as nat),
            Knob::ThreadStart => Setting::Prepared {
                priority: config.priority,
                allocation: config.core_allocation,
                left: config.core_allocation.core_seq(),
                spoiled: false,
            },
        ],
    )
}

/// The runtime is the one of this name and this configuration on a machine
/// with `core_num` cores.
pub open spec fn is_runtime_for(
    runtime: TokioRuntime,
    name: Seq<char>,
    config: TokioConfig,
    core_num: usize,
) -> bool {
    &&& runtime.config == config
    &&& crate::tokio_builder::runtime_settings(runtime.tokio) == settings_for(
        name,
        config,
        workers_on(config, core_num),
    )
}

/// `error` may have stood in the way of the runtime of this name and this
/// configuration on a machine with `core_num` cores.
pub open spec fn may_fail_to_build(
    name: Seq<char>,
    config: TokioConfig,
    core_num: usize,
    error: std::io::Error,
) -> bool {
    exists|builder: tokio::runtime::Builder| #[trigger]
        crate::tokio_builder::built(builder, Err(error))
            && crate::tokio_builder::builder_settings(builder) == settings_for(
            name,
            config,
            workers_on(config, core_num),
        )
}

/// Sets on a builder what the configuration says.
pub fn runtime_builder(name: &str, config: &TokioConfig, workers: usize) -> (builder:
    tokio::runtime::Builder)
    requires
        workers > 0,
        config.event_interval > 0,
        config.max_blocking_threads > 0,
    ensures
        crate::tokio_builder::builder_settings(builder) == settings_for(name@, *config, workers),
{
    let mut builder = if workers == 1 {
        new_current_thread()
    } else {
        let mut builder = new_multi_thread();
        set_worker_threads(&mut builder, workers);
        builder
    };
    set_event_interval(&mut builder, config.event_interval);
    set_thread_names(&mut builder, WorkerNames::new(name));
    set_stack_size(&mut builder, config.stack_size_bytes);
    enable_all(&mut builder);
    set_max_blocking_threads(&mut builder, config.max_blocking_threads);
    set_thread_start(&mut builder, WorkerStart::new(config.priority, config.core_allocation));
    assert(crate::tokio_builder::builder_settings(builder) =~= settings_for(
        name@,
        *config,
        workers,
    ));
    builder
}

impl RuntimeManager {
    /// The runtime that `name` stands for.
    pub open spec fn lookup(self, name: Seq<char>) -> Option<TokioRuntime> {
        if self.tokio_runtime_mapping@.contains_key(name) && self.tokio_runtimes@.contains_key(
            self.tokio_runtime_mapping@[name]@,
        ) {
            Some(self.tokio_runtimes@[self.tokio_runtime_mapping@[name]@])
        } else {
            None
        }
    }

    /// The manager has the runtimes that the configuration asks for on a machine
    /// with `core_num` cores, and the names for them.
    pub open spec fn is_made_from(self, config: RuntimeManagerConfig, core_num: usize) -> bool {
        &&& self.tokio_runtime_mapping@ == config.tokio_runtime_mapping@
        &&& self.native_thread_runtimes@ == Map::<Seq<char>, NativeThreadRuntime>::empty()
        &&& self.tokio_runtimes@.dom() == config.tokio_configs@.dom()
        &&& forall|name: Seq<char>| #[trigger]
            config.tokio_configs@.contains_key(name) ==> is_runtime_for(
                self.tokio_runtimes@[name],
                name,
                config.tokio_configs@[name],
                core_num,
            )
    }

    /// The tokio runtime that `name` stands for.
    pub fn get_tokio(&self, name: &str) -> (runtime: Option<&TokioRuntime>)
        ensures
            match runtime {
                Some(runtime) => self.lookup(name@) == Some(*runtime),
                None => self.lookup(name@) is None,
            },
    {
        match self.tokio_runtime_mapping.get(name) {
            Some(target) => self.tokio_runtimes.get(target.as_str()),
            None => None,
        }
    }

    /// Keeps the runtime that was built under this name, or says that it was
    /// not built.
    pub fn keep(
        &mut self,
        name: &String,
        config: &TokioConfig,
        built: Result<tokio::runtime::Runtime, std::io::Error>,
    ) -> (outcome: Result<(), ManagerError>)
        ensures
            final(self).tokio_runtime_mapping == old(self).tokio_runtime_mapping,
            final(self).native_thread_runtimes == old(self).native_thread_runtimes,
            match built {
                Ok(tokio) => outcome is Ok && final(self).tokio_runtimes@ == old(
                    self,
                ).tokio_runtimes@.insert(name@, TokioRuntime { tokio, config: *config }),
                Err(error) => *final(self) == *old(self) && outcome == Err::<(), ManagerError>(
                    ManagerError::Build { runtime: *name, error },
                ),
            },
    {
        match built {
            Ok(tokio) => {
                self.tokio_runtimes.insert(
                    name.clone(),
                    TokioRuntime { tokio, config: *config },
                );
                Ok(())
            },
            Err(error) => Err(ManagerError::Build { runtime: name.clone(), error }),
        }
    }

    /// `manager` may be what comes of this configuration on a machine with
    /// `core_num` cores.
    pub open spec fn is_outcome(
        config: RuntimeManagerConfig,
        core_num: usize,
        manager: Result<RuntimeManager, ManagerError>,
    ) -> bool {
        match manager {
            Ok(manager) => config.can_start_on(core_num) && manager.is_made_from(config, core_num),
            Err(ManagerError::NotStartable { runtime }) => {
                &&& config.tokio_configs@.contains_key(runtime@)
                &&& !can_start_runtime(runtime@, config.tokio_configs@[runtime@], core_num)
            },
            Err(ManagerError::Build { runtime, error }) => {
                &&& config.can_start_on(core_num)
                &&& config.tokio_configs@.contains_key(runtime@)
                &&& may_fail_to_build(runtime@, config.tokio_configs@[runtime@], core_num, error)
            },
        }
    }

    /// Makes the runtimes that the configuration asks for.
    ///
    /// A configuration that cannot be started on this machine is turned down
    /// before any runtime is built.
    pub fn new(config: RuntimeManagerConfig) -> (manager: Result<RuntimeManager, ManagerError>)
        ensures
            exists|core_num: usize|
                core_num >= 1 && crate::machine::counted(core_num)
                    && #[trigger] RuntimeManager::is_outcome(config, core_num, manager),
    {
        let core_num: usize = count_cores();
        let manager = match config.find_unstartable(core_num) {
            Some(runtime) => Err(ManagerError::NotStartable { runtime }),
            None => RuntimeManager::new_on(config, core_num),
        };
        assert(RuntimeManager::is_outcome(config, core_num, manager));
        manager
    }

    /// Makes the runtimes that the configuration asks for on a machine with
    /// `core_num` cores.
    pub fn new_on(config: RuntimeManagerConfig, core_num: usize) -> (manager: Result<
        RuntimeManager,
        ManagerError,
    >)
        requires
            config.can_start_on(core_num),
        ensures
            match manager {
                Ok(manager) => manager.is_made_from(config, core_num),
                Err(ManagerError::Build { runtime, error }) => {
                    &&& config.tokio_configs@.contains_key(runtime@)
                    &&& may_fail_to_build(
                        runtime@,
                        config.tokio_configs@[runtime@],
                        core_num,
                        error,
                    )
                },
                Err(ManagerError::NotStartable { .. }) => false,
            },
    {
        let mut manager = RuntimeManager {
            tokio_runtimes: NameMap::new(),
            tokio_runtime_mapping: config.tokio_runtime_mapping,
            native_thread_runtimes: NameMap::new(),
        };
        let configs = config.tokio_configs;
        let len: usize = configs.len();
        let mut i: usize = 0;
        while i < len
            invariant
                i <= len,
                len == configs.order().len(),
                configs.order().no_duplicates(),
                configs == config.tokio_configs,
                config.can_start_on(core_num),
                manager.tokio_runtime_mapping@ == config.tokio_runtime_mapping@,
                manager.native_thread_runtimes@ == Map::<Seq<char>, NativeThreadRuntime>::empty(),
                forall|name: Seq<char>| #[trigger]
                    manager.tokio_runtimes@.contains_key(name) <==> configs.order().take(
                        i as int,
                    ).contains(name),
                forall|j: int|
                    0 <= j < i ==> is_runtime_for(
                        manager.tokio_runtimes@[#[trigger] configs.order()[j]],
                        configs.order()[j],
                        configs@[configs.order()[j]],
                        core_num,
                    ),
            decreases len - i,
        {
            let (name, cfg) = configs.entry(i);
            let workers: usize = num_workers(cfg, core_num);
            let builder = runtime_builder(name.as_str(), cfg, workers);
            let built = build_runtime(builder);
            let ghost before = manager.tokio_runtimes@;
            match manager.keep(name, cfg, built) {
                Ok(()) => {},
                Err(error) => {
                    return Err(error);
                },
            }
            proof {
                let order = configs.order();
                assert(is_runtime_for(manager.tokio_runtimes@[name@], name@, *cfg, core_num));
                assert(order.take(i + 1) =~= order.take(i as int).push(name@));
                assert forall|other: Seq<char>| #[trigger]
                    manager.tokio_runtimes@.contains_key(other) <==> order.take(i + 1).contains(
                        other,
                    ) by {
                    if order.take(i as int).contains(other) {
                        let j = choose|j: int|
                            0 <= j < i && order.take(i as int)[j] == other;
                        assert(order.take(i + 1)[j] == other);
                    }
                    if other == name@ {
                        assert(order.take(i + 1)[i as int] == other);
                    }
                }
                assert forall|j: int| 0 <= j < i + 1 implies is_runtime_for(
                    manager.tokio_runtimes@[#[trigger] order[j]],
                    order[j],
                    configs@[order[j]],
                    core_num,
                ) by {
                    if j < i {
                        assert(order[j] != order[i as int]);
                        assert(manager.tokio_runtimes@[order[j]] == before[order[j]]);
                    }
                }
            }
            i = i + 1;
        }
        proof {
            let order = configs.order();
            assert(order.take(len as int) =~= order);
            assert(manager.tokio_runtimes@.dom() =~= configs@.dom());
            assert forall|name: Seq<char>| #[trigger]
                configs@.contains_key(name) implies is_runtime_for(
                manager.tokio_runtimes@[name],
                name,
                configs@[name],
                core_num,
            ) by {
                assert(order.contains(name));
                let j = choose|j: int| 0 <= j < order.len() && order[j] == name;
                assert(order[j] == name);
            }
        }
        Ok(manager)
    }
}

/// Without a runtime to build nothing stands in the way of a manager.
pub proof fn law_nothing_to_build_succeeds(
    config: RuntimeManagerConfig,
    core_num: usize,
    manager: Result<RuntimeManager, ManagerError>,
)
    requires
        config.tokio_configs@ == Map::<Seq<char>, TokioConfig>::empty(),
        RuntimeManager::is_outcome(config, core_num, manager),
    ensures
        manager is Ok,
{
}

/// A name that the configuration maps to a configured runtime finds this
/// runtime in a manager that was made from the configuration.
pub proof fn law_mapped_name_finds_its_runtime(
    manager: RuntimeManager,
    config: RuntimeManagerConfig,
    core_num: usize,
    name: Seq<char>,
)
    requires
        manager.is_made_from(config, core_num),
        config.tokio_runtime_mapping@.contains_key(name),
        config.tokio_configs@.contains_key(config.tokio_runtime_mapping@[name]@),
    ensures
        manager.lookup(name) matches Some(runtime) && is_runtime_for(
            runtime,
            config.tokio_runtime_mapping@[name]@,
            config.tokio_configs@[config.tokio_runtime_mapping@[name]@],
            core_num,
        ),
{
    let target = config.tokio_runtime_mapping@[name]@;
    assert(config.tokio_configs@.dom().contains(target));
    assert(manager.tokio_runtimes@.contains_key(target));
}

/// A name that the configuration does not map, or maps to a runtime that it
/// does not have, finds nothing, also where a runtime has that very name.
pub proof fn law_other_names_find_nothing(
    manager: RuntimeManager,
    config: RuntimeManagerConfig,
    core_num: usize,
    name: Seq<char>,
)
    requires
        manager.is_made_from(config, core_num),
        !config.tokio_runtime_mapping@.contains_key(name) || !config.tokio_configs@.contains_key(
            config.tokio_runtime_mapping@[name]@,
        ),
    ensures
        manager.lookup(name) is None,
{
    if config.tokio_runtime_mapping@.contains_key(name) {
        let target = config.tokio_runtime_mapping@[name]@;
        assert(!config.tokio_configs@.dom().contains(target));
        assert(!manager.tokio_runtimes@.dom().contains(target));
    }
}

/// Names that are mapped to the same runtime find the same runtime.
pub proof fn law_names_of_one_runtime_find_the_same(
    manager: RuntimeManager,
    first: Seq<char>,
    second: Seq<char>,
)
    requires
        manager.tokio_runtime_mapping@.contains_key(first),
        manager.tokio_runtime_mapping@.contains_key(second),
        manager.tokio_runtime_mapping@[first]@ == manager.tokio_runtime_mapping@[second]@,
    ensures
        manager.lookup(first) == manager.lookup(second),
{
}

/// A runtime has worker threads of its own, as many as it has workers, unless
/// it has a single worker; then its tasks run on the thread that waits.
pub proof fn law_single_worker_is_the_waiting_thread(
    name: Seq<char>,
    config: TokioConfig,
    workers: usize,
)
    ensures
        workers == 1 ==> settings_for(name, config, workers)[Knob::Flavor]
            == Setting::CurrentThread && !settings_for(name, config, workers).contains_key(
            Knob::WorkerThreads,
        ),
        workers != 1 ==> settings_for(name, config, workers)[Knob::Flavor] == Setting::MultiThread
            && settings_for(name, config, workers).contains_key(Knob::WorkerThreads)
            && settings_for(name, config, workers)[Knob::WorkerThreads] == Setting::Count(
            workers as nat,
        ),
{
}

/// The thread of a runtime that is named after `k` others is called by the name
/// of the runtime, a hyphen and the number `k`, as long as the numbers do not
/// wrap around. `states[0]` is what the runtime was built with.
pub proof fn law_threads_are_numbered_by_runtime(
    runtime: TokioRuntime,
    name: Seq<char>,
    config: TokioConfig,
    core_num: usize,
    states: Seq<WorkerNames>,
    names: Seq<Seq<char>>,
    k: int,
)
    requires
        is_runtime_for(runtime, name, config, core_num),
        crate::tokio_builder::runtime_settings(runtime.tokio)[Knob::ThreadNames]
            == (Setting::NumberedNames { base: states[0].base_name(), from: states[0].count() }),
        states.len() == names.len() + 1,
        forall|i: int|
            0 <= i < names.len() ==> #[trigger] states[i].hands_out(states[i + 1], names[i]),
        0 <= k < names.len(),
        k <= usize::MAX,
    ensures
        names[k] == crate::thread_name::numbered(name, k as usize),
{
    crate::thread_name::law_names_are_numbered_in_order(states, names, k);
}

/// The threads of a runtime are prepared with the priority of its
/// configuration and placed by its allocation, and the first finds all cores
/// left. `start` is what the runtime was built with.
pub proof fn law_threads_are_prepared_by_configuration(
    runtime: TokioRuntime,
    name: Seq<char>,
    config: TokioConfig,
    core_num: usize,
    start: WorkerStart,
)
    requires
        is_runtime_for(runtime, name, config, core_num),
        crate::tokio_builder::runtime_settings(runtime.tokio)[Knob::ThreadStart]
            == crate::tokio_builder::prepared_by(start),
    ensures
        start.configured() == config.priority,
        start.placing() == config.core_allocation,
        start.stock().is_fresh(config.core_allocation),
{
}

/// Of the threads of a runtime that is configured with pinned cores, the one
/// that starts after `k` others, each of which could be prepared, gets the
/// configured priority and is then bound to exactly the core that lies `k` below
/// the last core of the range, as long as the range goes that far. A thread that
/// starts later cannot be prepared. `starts[0]` is what the runtime was built
/// with.
pub proof fn law_pinned_runtime_hands_out_its_cores(
    runtime: TokioRuntime,
    name: Seq<char>,
    config: TokioConfig,
    core_num: usize,
    min: usize,
    max: usize,
    starts: Seq<WorkerStart>,
    setups: Seq<Result<WorkerSetup, WorkerError>>,
    k: int,
)
    requires
        config.core_allocation == (CoreAllocation::PinnedCores { min, max }),
        is_runtime_for(runtime, name, config, core_num),
        crate::tokio_builder::runtime_settings(runtime.tokio)[Knob::ThreadStart]
            == crate::tokio_builder::prepared_by(starts[0]),
        starts.len() == setups.len() + 1,
        forall|i: int|
            0 <= i < setups.len() ==> #[trigger] starts[i].prepared(starts[i + 1], setups[i]),
        0 <= k < setups.len(),
        forall|i: int| 0 <= i < k ==> (#[trigger] setups[i]) is Ok,
    ensures
        k < max - min ==> crate::worker::is_setup(
            config.priority,
            crate::worker::machine_priority(),
            crate::worker::placings_on(
                seq![(max - 1 - k) as usize],
                crate::worker::machine_affinity(),
            ),
            setups[k],
        ),
        k >= max - min ==> setups[k] is Err && crate::worker::is_setup(
            config.priority,
            crate::worker::machine_priority(),
            crate::worker::no_placing(),
            setups[k],
        ),
        setups[k] matches Ok(thread) ==> {
            &&& thread.priority == config.priority % 256
            &&& crate::worker::machine_priority()((config.priority % 256) as u8, Ok(()))
            &&& k < max - min
            &&& thread.cores matches Some(list)
            &&& list@.len() == 1
            &&& list@[0] == max - 1 - k
            &&& crate::worker::machine_affinity()(list, Ok(()))
        },
{
    law_threads_are_prepared_by_configuration(runtime, name, config, core_num, starts[0]);
    crate::worker::law_runs_of_pinned_threads_go_down_the_range(starts, setups, min, max, k);
}

/// A runtime that is made from a configuration is built with its numbers: each
/// of them is set to what the configuration says, all drivers run, the threads
/// are numbered from zero with the name of the runtime, they are prepared with
/// the configured priority and allocation, and the first finds all cores left.
/// With a configured number of workers above one the runtime has exactly so many
/// worker threads; with one it has none of its own; with zero it has as many as
/// the machine has cores.
pub proof fn law_runtime_is_built_with_its_configuration(
    runtime: TokioRuntime,
    name: Seq<char>,
    config: TokioConfig,
    core_num: usize,
)
    requires
        is_runtime_for(runtime, name, config, core_num),
    ensures
        runtime.config == config,
        ({
            let settings = crate::tokio_builder::runtime_settings(runtime.tokio);
            &&& settings.contains_key(Knob::EventInterval)
            &&& settings[Knob::EventInterval] == Setting::Count(config.event_interval as nat)
            &&& settings.contains_key(Knob::StackSize)
            &&& settings[Knob::StackSize] == Setting::Count(config.stack_size_bytes as nat)
            &&& settings.contains_key(Knob::MaxBlockingThreads)
            &&& settings[Knob::MaxBlockingThreads] == Setting::Count(
                config.max_blocking_threads as nat,
            )
            &&& settings.contains_key(Knob::Drivers)
            &&& settings[Knob::Drivers] == Setting::AllDrivers
            &&& settings.contains_key(Knob::ThreadNames)
            &&& settings[Knob::ThreadNames] == (Setting::NumberedNames { base: name, from: 0 })
            &&& settings.contains_key(Knob::ThreadStart)
            &&& settings[Knob::ThreadStart] matches Setting::Prepared {
                priority,
                allocation,
                left,
                spoiled,
            }
            &&& priority == config.priority
            &&& allocation == config.core_allocation
            &&& !spoiled
            &&& match config.core_allocation {
                CoreAllocation::OsDefault => left.len() == 0,
                CoreAllocation::PinnedCores { min, max } => left.len() == (if min < max {
                    max - min
                } else {
                    0
                }) && forall|i: int| 0 <= i < left.len() ==> #[trigger] left[i] == min + i,
                CoreAllocation::DedicatedCoreSet { min, max } => left.len() == (if min < max {
                    max - min
                } else {
                    0
                }) && forall|i: int| 0 <= i < left.len() ==> #[trigger] left[i] == min + i,
            }
            &&& settings.contains_key(Knob::Flavor)
            &&& config.worker_threads > 1 ==> {
                &&& settings[Knob::Flavor] == Setting::MultiThread
                &&& settings.contains_key(Knob::WorkerThreads)
                &&& settings[Knob::WorkerThreads] == Setting::Count(config.worker_threads as nat)
            }
            &&& config.worker_threads == 1 ==> {
                &&& settings[Knob::Flavor] == Setting::CurrentThread
                &&& !settings.contains_key(Knob::WorkerThreads)
            }
            &&& config.worker_threads == 0 && core_num == 1 ==> {
                &&& settings[Knob::Flavor] == Setting::CurrentThread
                &&& !settings.contains_key(Knob::WorkerThreads)
            }
            &&& config.worker_threads == 0 && core_num != 1 ==> {
                &&& settings[Knob::Flavor] == Setting::MultiThread
                &&& settings.contains_key(Knob::WorkerThreads)
                &&& settings[Knob::WorkerThreads] == Setting::Count(core_num as nat)
            }
        }),
{
}

/// A builder is given the numbers of the configuration, each unchanged, the name
/// and the number of workers.
pub proof fn law_builder_is_given_the_configuration(
    name: &str,
    config: TokioConfig,
    workers: usize,
    builder: tokio::runtime::Builder,
)
    requires
        call_ensures(runtime_builder, (name, &config, workers), builder),
    ensures
        ({
            let settings = crate::tokio_builder::builder_settings(builder);
            &&& settings.contains_key(Knob::EventInterval)
            &&& settings[Knob::EventInterval] == Setting::Count(config.event_interval as nat)
            &&& settings.contains_key(Knob::StackSize)
            &&& settings[Knob::StackSize] == Setting::Count(config.stack_size_bytes as nat)
            &&& settings.contains_key(Knob::MaxBlockingThreads)
            &&& settings[Knob::MaxBlockingThreads] == Setting::Count(
                config.max_blocking_threads as nat,
            )
            &&& settings.contains_key(Knob::Drivers)
            &&& settings[Knob::Drivers] == Setting::AllDrivers
            &&& settings.contains_key(Knob::ThreadNames)
            &&& settings[Knob::ThreadNames] == (Setting::NumberedNames { base: name@, from: 0 })
            &&& settings.contains_key(Knob::ThreadStart)
            &&& settings[Knob::ThreadStart] matches Setting::Prepared {
                priority,
                allocation,
                left,
                spoiled,
            }
            &&& priority == config.priority
            &&& allocation == config.core_allocation
            &&& !spoiled
            &&& match config.core_allocation {
                CoreAllocation::OsDefault => left.len() == 0,
                CoreAllocation::PinnedCores { min, max } => left.len() == (if min < max {
                    max - min
                } else {
                    0
                }) && forall|i: int| 0 <= i < left.len() ==> #[trigger] left[i] == min + i,
                CoreAllocation::DedicatedCoreSet { min, max } => left.len() == (if min < max {
                    max - min
                } else {
                    0
                }) && forall|i: int| 0 <= i < left.len() ==> #[trigger] left[i] == min + i,
            }
            &&& settings.contains_key(Knob::Flavor)
            &&& workers == 1 ==> {
                &&& settings[Knob::Flavor] == Setting::CurrentThread
                &&& !settings.contains_key(Knob::WorkerThreads)
            }
            &&& workers != 1 ==> {
                &&& settings[Knob::Flavor] == Setting::MultiThread
                &&& settings.contains_key(Knob::WorkerThreads)
                &&& settings[Knob::WorkerThreads] == Setting::Count(workers as nat)
            }
        }),
{
}

/// A configured number of workers is the number of workers, whatever the
/// machine; zero stands for one per core.
pub proof fn law_workers_are_as_configured(config: TokioConfig, core_num: usize, workers: usize)
    requires
        call_ensures(num_workers, (&config, core_num), workers),
    ensures
        config.worker_threads != 0 ==> workers == config.worker_threads,
        config.worker_threads == 0 ==> workers == core_num,
        workers == workers_on(config, core_num),
{
}

/// When a runtime can be started: there are workers, and neither the interval
/// nor the number of further threads is zero; and unless there is a single
/// worker, the name holds no NUL, there are not too many workers, their number
/// and that of the further threads have a sum, and the stacks are not too large.
pub proof fn law_startable_is_what_the_builder_takes(
    name: &str,
    config: TokioConfig,
    core_num: usize,
    startable: bool,
)
    requires
        call_ensures(is_startable_runtime, (name, &config, core_num), startable),
    ensures
        startable <==> {
            let workers = if config.worker_threads != 0 {
                config.worker_threads
            } else {
                core_num
            };
            &&& workers > 0
            &&& config.event_interval > 0
            &&& config.max_blocking_threads > 0
            &&& workers == 1 || ((forall|i: int| 0 <= i < name@.len() ==> #[trigger] name@[i]
                != '\0') && workers <= WORKER_LIMIT && workers + config.max_blocking_threads
                <= usize::MAX && config.stack_size_bytes <= isize::MAX)
        },
        startable == can_start_runtime(name@, config, core_num),
{
    if !crate::tokio_builder::can_name_threads(name@) {
        let i = choose|i: int| 0 <= i < name@.len() && name@[i] == '\0';
        assert(name@[i] == '\0');
    }
}

/// A configuration can be started exactly if each of its runtimes can, and
/// whoever looks for one that cannot finds one exactly if there is one.
pub proof fn law_unstartable_runtime_is_found(
    config: RuntimeManagerConfig,
    core_num: usize,
    found: Option<String>,
)
    requires
        call_ensures(RuntimeManagerConfig::find_unstartable, (&config, core_num), found),
    ensures
        found is None <==> (forall|name: Seq<char>| #[trigger]
            config.tokio_configs@.contains_key(name) ==> can_start_runtime(
                name,
                config.tokio_configs@[name],
                core_num,
            )),
        found is None <==> config.can_start_on(core_num),
        found matches Some(name) ==> config.tokio_configs@.contains_key(name@)
            && !can_start_runtime(name@, config.tokio_configs@[name@], core_num),
{
}

/// A name finds the runtime under the name that it is mapped to, and finds
/// nothing if it is not mapped or there is no such runtime.
pub proof fn law_name_finds_what_it_is_mapped_to(
    manager: RuntimeManager,
    name: &str,
    runtime: Option<&TokioRuntime>,
)
    requires
        call_ensures(RuntimeManager::get_tokio, (&manager, name), runtime),
    ensures
        runtime is Some <==> manager.tokio_runtime_mapping@.contains_key(name@)
            && manager.tokio_runtimes@.contains_key(manager.tokio_runtime_mapping@[name@]@),
        runtime matches Some(found) ==> *found
            == manager.tokio_runtimes@[manager.tokio_runtime_mapping@[name@]@],
{
}

/// A runtime that was built is kept under its name, with its configuration, and
/// nothing else changes; one that was not built is reported with its name and
/// the error, and nothing changes.
pub proof fn law_built_runtime_is_kept(
    manager: &mut RuntimeManager,
    name: String,
    config: TokioConfig,
    built: Result<tokio::runtime::Runtime, std::io::Error>,
    outcome: Result<(), ManagerError>,
)
    requires
        call_ensures(RuntimeManager::keep, (manager, &name, &config, built), outcome),
    ensures
        outcome is Ok <==> built is Ok,
        final(manager).tokio_runtime_mapping == old(manager).tokio_runtime_mapping,
        final(manager).native_thread_runtimes == old(manager).native_thread_runtimes,
        built matches Ok(tokio) ==> {
            &&& final(manager).tokio_runtimes@.contains_key(name@)
            &&& final(manager).tokio_runtimes@[name@].tokio == tokio
            &&& final(manager).tokio_runtimes@[name@].config == config
            &&& forall|other: Seq<char>| #[trigger]
                final(manager).tokio_runtimes@.contains_key(other) && other != name@ ==> old(
                    manager,
                ).tokio_runtimes@.contains_key(other) && final(manager).tokio_runtimes@[other]
                    == old(manager).tokio_runtimes@[other]
            &&& forall|other: Seq<char>| #[trigger]
                old(manager).tokio_runtimes@.contains_key(other)
                    ==> final(manager).tokio_runtimes@.contains_key(other)
        },
        built matches Err(error) ==> final(manager).tokio_runtimes == old(manager).tokio_runtimes
            && (outcome matches Err(ManagerError::Build { runtime, error: reported }) && runtime@
            == name@ && reported == error),
{
}

/// A manager that is made from a configuration has exactly the configured
/// runtimes, each built as configured, the configured names for them, and no
/// pools. Where it is not made, a configured runtime could not be built, and the
/// error is that of building this very runtime.
pub proof fn law_manager_has_the_configured_runtimes(
    config: RuntimeManagerConfig,
    core_num: usize,
    manager: Result<RuntimeManager, ManagerError>,
)
    requires
        call_ensures(RuntimeManager::new_on, (config, core_num), manager),
    ensures
        manager matches Ok(made) ==> {
            &&& made.tokio_runtime_mapping@ == config.tokio_runtime_mapping@
            &&& forall|name: Seq<char>|
                !(#[trigger] made.native_thread_runtimes@.contains_key(name))
            &&& forall|name: Seq<char>|
                #![trigger made.tokio_runtimes@.contains_key(name)]
                #![trigger config.tokio_configs@.contains_key(name)]
                made.tokio_runtimes@.contains_key(name) <==> config.tokio_configs@.contains_key(
                    name,
                )
            &&& forall|name: Seq<char>| #[trigger]
                config.tokio_configs@.contains_key(name) ==> made.tokio_runtimes@[name].config
                    == config.tokio_configs@[name] && is_runtime_for(
                    made.tokio_runtimes@[name],
                    name,
                    config.tokio_configs@[name],
                    core_num,
                )
        },
        manager matches Err(error) ==> error is Build,
        manager matches Err(ManagerError::Build { runtime, error })
            ==> config.tokio_configs@.contains_key(runtime@) && exists|
            builder: tokio::runtime::Builder,
        | #[trigger]
            crate::tokio_builder::built(builder, Err(error))
                && crate::tokio_builder::builder_settings(builder) == settings_for(
                runtime@,
                config.tokio_configs@[runtime@],
                workers_on(config.tokio_configs@[runtime@], core_num),
            ),
{
    if let Ok(made) = manager {
        assert forall|name: Seq<char>|
            #![trigger made.tokio_runtimes@.contains_key(name)]
            #![trigger config.tokio_configs@.contains_key(name)]
            made.tokio_runtimes@.contains_key(name) <==> config.tokio_configs@.contains_key(
                name,
            ) by {
            assert(made.tokio_runtimes@.dom().contains(name)
                <==> config.tokio_configs@.dom().contains(
                name,
            ));
        }
    }
}

/// The manager of a program is made on this machine, with the number of cores
/// that the machine answers. It has exactly the configured runtimes, each built
/// as configured, and the configured names for them; a configuration is turned
/// down exactly if one of its runtimes cannot be started, and that one is named.
pub proof fn law_new_manager_has_the_configured_runtimes(
    config: RuntimeManagerConfig,
    manager: Result<RuntimeManager, ManagerError>,
)
    requires
        call_ensures(RuntimeManager::new, (config,), manager),
    ensures
        exists|core_num: usize|
            #![trigger crate::machine::counted(core_num)]
            {
                &&& crate::machine::counted(core_num)
                &&& core_num >= 1
                &&& (manager matches Err(error) && error is NotStartable) <==> !(forall|
                    name: Seq<char>,
                | #[trigger]
                    config.tokio_configs@.contains_key(name) ==> can_start_runtime(
                        name,
                        config.tokio_configs@[name],
                        core_num,
                    ))
                &&& manager matches Err(ManagerError::NotStartable { runtime })
                    ==> config.tokio_configs@.contains_key(runtime@) && !can_start_runtime(
                    runtime@,
                    config.tokio_configs@[runtime@],
                    core_num,
                )
                &&& manager matches Err(ManagerError::Build { runtime, error })
                    ==> config.tokio_configs@.contains_key(runtime@) && may_fail_to_build(
                    runtime@,
                    config.tokio_configs@[runtime@],
                    core_num,
                    error,
                )
                &&& manager matches Ok(made) ==> {
                    &&& made.tokio_runtime_mapping@ == config.tokio_runtime_mapping@
                    &&& made.tokio_runtimes@.dom() == config.tokio_configs@.dom()
                    &&& forall|name: Seq<char>|
                        !(#[trigger] made.native_thread_runtimes@.contains_key(name))
                    &&& forall|name: Seq<char>| #[trigger]
                        config.tokio_configs@.contains_key(name) ==> is_runtime_for(
                            made.tokio_runtimes@[name],
                            name,
                            config.tokio_configs@[name],
                            core_num,
                        )
                }
            },
{
    let core_num = choose|core_num: usize|
        core_num >= 1 && crate::machine::counted(core_num)
            && #[trigger] RuntimeManager::is_outcome(config, core_num, manager);
    assert(crate::machine::counted(core_num));
}

/// The error of a runtime that was not built is what may come of a builder that
/// was given the settings of this very runtime.
pub proof fn law_build_error_is_of_the_runtime(
    name: Seq<char>,
    config: TokioConfig,
    core_num: usize,
    error: std::io::Error,
)
    requires
        may_fail_to_build(name, config, core_num, error),
    ensures
        exists|builder: tokio::runtime::Builder| #[trigger]
            crate::tokio_builder::built(builder, Err(error))
                && crate::tokio_builder::builder_settings(builder) == settings_for(
                name,
                config,
                workers_on(config, core_num),
            ),
{
}

/// Without a configuration there are no runtimes, no names for them and no
/// pools.
pub proof fn law_default_configuration_is_empty(
    config: RuntimeManagerConfig,
    manager: RuntimeManager,
)
    requires
        call_ensures(<RuntimeManagerConfig as Default>::default, (), config),
        call_ensures(<RuntimeManager as Default>::default, (), manager),
    ensures
        forall|name: Seq<char>| !(#[trigger] config.tokio_configs@.contains_key(name)),
        forall|name: Seq<char>| !(#[trigger] config.tokio_runtime_mapping@.contains_key(name)),
        forall|name: Seq<char>| !(#[trigger] config.native_configs@.contains_key(name)),
        forall|name: Seq<char>| !(#[trigger] manager.tokio_runtimes@.contains_key(name)),
        forall|name: Seq<char>| !(#[trigger] manager.tokio_runtime_mapping@.contains_key(name)),
        forall|name: Seq<char>| !(#[trigger] manager.native_thread_runtimes@.contains_key(name)),
{
}

/// A copy of a configuration has the same entries.
pub proof fn law_copied_configuration_has_the_same_entries(
    config: RuntimeManagerConfig,
    copy: RuntimeManagerConfig,
)
    requires
        call_ensures(<RuntimeManagerConfig as Clone>::clone, (&config,), copy),
    ensures
        copy.tokio_configs@ == config.tokio_configs@,
        copy.tokio_runtime_mapping@ == config.tokio_runtime_mapping@,
        copy.native_configs@ == config.native_configs@,
{
}

} // verus!
