//! The builder of tokio runtimes: which settings a runtime is built with.

use crate::thread_name::WorkerNames;
use crate::worker::WorkerStart;
use crate::CoreAllocation;
use vstd::prelude::*;

verus! {

/// A builder of runtimes.
#[verifier::external_type_specification]
#[verifier::external_body]
pub struct ExBuilder(tokio::runtime::Builder);

/// A runtime.
#[verifier::external_type_specification]
#[verifier::external_body]
pub struct ExRuntime(tokio::runtime::Runtime);

/// Why a runtime could not be built.
#[verifier::external_type_specification]
#[verifier::external_body]
pub struct ExIoError(std::io::Error);

/// What can be set on a builder.
pub enum Knob {
    /// Whether tasks run on the current thread or on worker threads.
    Flavor,
    WorkerThreads,
    EventInterval,
    ThreadNames,
    StackSize,
    /// Which resource drivers run.
    Drivers,
    MaxBlockingThreads,
    ThreadStart,
}

/// What a knob is set to.
pub enum Setting {
    CurrentThread,
    MultiThread,
    Count(nat),
    /// Threads are named with this base name, and numbered from this number on.
    NumberedNames { base: Seq<char>, from: usize },
    /// All drivers run.
    AllDrivers,
    /// Threads are prepared with this priority and placed by this allocation. The
    /// first of them finds these cores left; none can be placed if they are
    /// spoiled.
    Prepared { priority: u32, allocation: CoreAllocation, left: Seq<usize>, spoiled: bool },
}

/// What was set on the builder so far.
pub uninterp spec fn builder_settings(builder: tokio::runtime::Builder) -> Map<Knob, Setting>;

/// What the runtime was built with.
pub uninterp spec fn runtime_settings(runtime: tokio::runtime::Runtime) -> Map<Knob, Setting>;

/// Calls `tokio::runtime::Builder::new_current_thread`: only the flavor is
/// set, tasks run on the thread that waits for them.
#[verifier::external_body]
pub(crate) fn new_current_thread() -> (builder: tokio::runtime::Builder)
    ensures
        builder_settings(builder) == map![Knob::Flavor => Setting::CurrentThread],
{
    tokio::runtime::Builder::new_current_thread()
}

/// Calls `tokio::runtime::Builder::new_multi_thread`: only the flavor is set,
/// tasks run on worker threads.
#[verifier::external_body]
pub(crate) fn new_multi_thread() -> (builder: tokio::runtime::Builder)
    ensures
        builder_settings(builder) == map![Knob::Flavor => Setting::MultiThread],
{
    tokio::runtime::Builder::new_multi_thread()
}

/// Calls `tokio::runtime::Builder::worker_threads`, which sets the number of
/// worker threads and panics on zero.
#[verifier::external_body]
pub(crate) fn set_worker_threads(builder: &mut tokio::runtime::Builder, count: usize)
    requires
        count > 0,
    ensures
        builder_settings(*final(builder)) == builder_settings(*old(builder)).insert(
            Knob::WorkerThreads,
            Setting::Count(count as nat),
        ),
{
    builder.worker_threads(count);
}

/// Calls `tokio::runtime::Builder::event_interval`, which sets after how many
/// steps of the scheduler it looks for events, and panics on zero.
#[verifier::external_body]
pub(crate) fn set_event_interval(builder: &mut tokio::runtime::Builder, interval: u32)
    requires
        interval > 0,
    ensures
        builder_settings(*final(builder)) == builder_settings(*old(builder)).insert(
            Knob::EventInterval,
            Setting::Count(interval as nat),
        ),
{
    builder.event_interval(interval);
}

/// The setting for threads that are named by `names`.
pub open spec fn named_by(names: WorkerNames) -> Setting {
    Setting::NumberedNames { base: names.base_name(), from: names.count() }
}

/// The setting for threads that are prepared by `start`.
pub open spec fn prepared_by(start: WorkerStart) -> Setting {
    Setting::Prepared {
        priority: start.configured(),
        allocation: start.placing(),
        left: start.stock().left@,
        spoiled: start.stock().spoiled,
    }
}

/// Calls `tokio::runtime::Builder::thread_name_fn`, which sets who names the
/// threads: each gets the next of the names. Several threads may ask for a name
/// at a time; a mutex lets one after the other have it.
#[verifier::external_body]
pub(crate) fn set_thread_names(builder: &mut tokio::runtime::Builder, names: WorkerNames)
    ensures
        builder_settings(*final(builder)) == builder_settings(*old(builder)).insert(
            Knob::ThreadNames,
            named_by(names),
        ),
{
    let names = std::sync::Mutex::new(names);
    builder.thread_name_fn(move || names.lock().unwrap().next_name());
}

/// Calls `tokio::runtime::Builder::thread_stack_size`, which sets how many
/// bytes the stack of a thread has.
#[verifier::external_body]
pub(crate) fn set_stack_size(builder: &mut tokio::runtime::Builder, bytes: usize)
    ensures
        builder_settings(*final(builder)) == builder_settings(*old(builder)).insert(
            Knob::StackSize,
            Setting::Count(bytes as nat),
        ),
{
    builder.thread_stack_size(bytes);
}

/// Calls `tokio::runtime::Builder::enable_all`, which lets all resource
/// drivers run.
#[verifier::external_body]
pub(crate) fn enable_all(builder: &mut tokio::runtime::Builder)
    ensures
        builder_settings(*final(builder)) == builder_settings(*old(builder)).insert(
            Knob::Drivers,
            Setting::AllDrivers,
        ),
{
    builder.enable_all();
}

/// Calls `tokio::runtime::Builder::max_blocking_threads`, which sets how many
/// threads there may be beside the workers, and panics on zero.
#[verifier::external_body]
pub(crate) fn set_max_blocking_threads(builder: &mut tokio::runtime::Builder, count: usize)
    requires
        count > 0,
    ensures
        builder_settings(*final(builder)) == builder_settings(*old(builder)).insert(
            Knob::MaxBlockingThreads,
            Setting::Count(count as nat),
        ),
{
    builder.max_blocking_threads(count);
}

/// Calls `tokio::runtime::Builder::on_thread_start`, which sets what each
/// thread does first: it is prepared. Several threads may start at a time; a
/// mutex lets one after the other be prepared. A thread that cannot be prepared
/// panics, once it has given back the mutex, and runs no task.
#[verifier::external_body]
pub(crate) fn set_thread_start(builder: &mut tokio::runtime::Builder, start: WorkerStart)
    ensures
        builder_settings(*final(builder)) == builder_settings(*old(builder)).insert(
            Knob::ThreadStart,
            prepared_by(start),
        ),
{
    let start = std::sync::Mutex::new(start);
    builder.on_thread_start(
        move ||
            {
                let setup = start.lock().unwrap().prepare();
                setup.expect("Can not prepare runtime worker");
            },
    );
}

/// No more worker threads than this can be asked for: Linux has no numbers for
/// more threads.
pub const WORKER_LIMIT: usize = 4194304;

/// The threads can be given names that begin with `base`: a name cannot hold
/// the character NUL.
pub open spec fn can_name_threads(base: Seq<char>) -> bool {
    !base.contains('\0')
}

/// Worker threads can be started with these settings: it is set how many and
/// how many others there may be, the sum of the two is a number of the
/// machine, the threads can be given their names, and there is room for the
/// stack of each in half of what the machine can address.
pub open spec fn can_start_workers(settings: Map<Knob, Setting>) -> bool {
    &&& settings.contains_key(Knob::WorkerThreads)
    &&& settings.contains_key(Knob::MaxBlockingThreads)
    &&& settings.contains_key(Knob::ThreadNames)
    &&& settings.contains_key(Knob::StackSize)
    &&& settings[Knob::WorkerThreads] matches Setting::Count(workers)
    &&& settings[Knob::MaxBlockingThreads] matches Setting::Count(blocking)
    &&& settings[Knob::ThreadNames] matches Setting::NumberedNames { base, .. }
    &&& settings[Knob::StackSize] matches Setting::Count(stack)
    &&& workers <= WORKER_LIMIT
    &&& workers + blocking <= usize::MAX
    &&& can_name_threads(base)
    &&& stack <= isize::MAX
}

/// Calls `tokio::runtime::Builder::build`: a runtime with what was set on the
/// builder, or the error of the operating system that stood in the way. The
/// machine decides which.
///
/// With worker threads the call starts them. It adds the two numbers of
/// threads, makes room for the workers and names each thread, and panics where
/// one of these cannot be done; so the settings must allow it. It also panics
/// where the operating system starts no further thread, or has no room left for
/// its stack. That depends on the state of the machine, as an allocation
/// does, and the contract does not speak of it.
#[verifier::external_body]
fn build(builder: tokio::runtime::Builder) -> (runtime: Result<
    tokio::runtime::Runtime,
    std::io::Error,
>)
    requires
        builder_settings(builder)[Knob::Flavor] is MultiThread ==> can_start_workers(
            builder_settings(builder),
        ),
    ensures
        runtime matches Ok(runtime) ==> runtime_settings(runtime) == builder_settings(builder),
{
    let mut builder = builder;
    builder.build()
}

/// `runtime` is what may come of building with this builder.
pub closed spec fn built(
    builder: tokio::runtime::Builder,
    runtime: Result<tokio::runtime::Runtime, std::io::Error>,
) -> bool {
    call_ensures(build, (builder,), runtime)
}

/// Builds a runtime with what was set on the builder.
pub(crate) fn build_runtime(builder: tokio::runtime::Builder) -> (runtime: Result<
    tokio::runtime::Runtime,
    std::io::Error,
>)
    requires
        builder_settings(builder)[Knob::Flavor] is MultiThread ==> can_start_workers(
            builder_settings(builder),
        ),
    ensures
        built(builder, runtime),
        runtime matches Ok(runtime) ==> runtime_settings(runtime) == builder_settings(builder),
{
    build(builder)
}

/// What counts as the outcome of building is what `build` may answer.
proof fn law_built_is_what_the_builder_answers(
    builder: tokio::runtime::Builder,
    runtime: Result<tokio::runtime::Runtime, std::io::Error>,
)
    ensures
        built(builder, runtime) <==> call_ensures(build, (builder,), runtime),
{
}

/// The settings for names and for the start of threads tell all that decides
/// what the threads are called and how they are prepared.
pub proof fn law_settings_tell_names_and_starts(names: WorkerNames, start: WorkerStart)
    ensures
        named_by(names) == (Setting::NumberedNames {
            base: names.base_name(),
            from: names.count(),
        }),
        prepared_by(start) == (Setting::Prepared {
            priority: start.configured(),
            allocation: start.placing(),
            left: start.stock().left@,
            spoiled: start.stock().spoiled,
        }),
{
}

/// No more worker threads can be asked for than Linux has numbers for.
pub proof fn law_worker_limit_is_that_of_linux()
    ensures
        WORKER_LIMIT == 4 * 1024 * 1024,
{
}

} // verus!
