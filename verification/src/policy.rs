//! Which processor cores the threads of a runtime may use.

use vstd::prelude::*;

verus! {

/// How the threads of a runtime are placed on the cores of the machine.
///
/// A range of cores holds `min` and stops before `max`.
#[derive(Debug, Clone, Copy)]
pub enum CoreAllocation {
    /// The operating system places the threads.
    OsDefault,
    /// Each thread gets one core of the range for itself.
    PinnedCores { min: usize, max: usize },
    /// All threads share the cores of the range.
    DedicatedCoreSet { min: usize, max: usize },
}

/// The cores from `min` up to, but without, `max`, in ascending order.
pub open spec fn core_range(min: usize, max: usize) -> Seq<usize> {
    if min < max {
        Seq::new((max - min) as nat, |i: int| (min + i) as usize)
    } else {
        Seq::empty()
    }
}

impl CoreAllocation {
    /// The cores that the allocation names.
    pub open spec fn core_seq(self) -> Seq<usize> {
        match self {
            CoreAllocation::OsDefault => Seq::empty(),
            CoreAllocation::PinnedCores { min, max } => core_range(min, max),
            CoreAllocation::DedicatedCoreSet { min, max } => core_range(min, max),
        }
    }

    /// Lists the cores that the allocation names; none, where the operating
    /// system places the threads.
    pub fn cores(&self) -> (cores: Vec<usize>)
        ensures
            cores@ == self.core_seq(),
    {
        match *self {
            CoreAllocation::OsDefault => Vec::new(),
            CoreAllocation::PinnedCores { min, max } => list_cores(min, max),
            CoreAllocation::DedicatedCoreSet { min, max } => list_cores(min, max),
        }
    }
}

impl Default for CoreAllocation {
    /// The operating system places the threads.
    fn default() -> (allocation: CoreAllocation)
        ensures
            allocation == CoreAllocation::OsDefault,
    {
        CoreAllocation::OsDefault
    }
}

/// Lists the cores from `min` up to, but without, `max`.
pub fn list_cores(min: usize, max: usize) -> (cores: Vec<usize>)
    ensures
        cores@ == core_range(min, max),
{
    let mut cores: Vec<usize> = Vec::new();
    let mut next: usize = min;
    while next < max
        invariant
            min <= next,
            min < max ==> next <= max,
            min >= max ==> next == min,
            cores@ == core_range(min, next),
        decreases max - next,
    {
        cores.push(next);
        next = next + 1;
    }
    cores
}

/// Two ranges of which one ends where the other begins, or before it, share
/// no core.
pub proof fn law_separate_ranges_share_no_core(
    first_min: usize,
    first_max: usize,
    second_min: usize,
    second_max: usize,
)
    requires
        first_max <= second_min,
    ensures
        forall|core: usize|
            !(core_range(first_min, first_max).contains(core) && core_range(
                second_min,
                second_max,
            ).contains(core)),
{
    assert forall|core: usize|
        !(core_range(first_min, first_max).contains(core) && core_range(
            second_min,
            second_max,
        ).contains(core)) by {
        law_range_holds_cores_between_bounds(first_min, first_max, core);
        law_range_holds_cores_between_bounds(second_min, second_max, core);
    }
}

/// A range holds exactly the cores that are at least `min` and below `max`.
pub proof fn law_range_holds_cores_between_bounds(min: usize, max: usize, core: usize)
    ensures
        core_range(min, max).contains(core) <==> min <= core < max,
{
    if min <= core < max {
        assert(core_range(min, max)[core - min] == core);
    }
}

/// No core occurs twice in a range.
pub proof fn law_range_repeats_no_core(min: usize, max: usize)
    ensures
        core_range(min, max).no_duplicates(),
{
}

/// A range counts up: it begins with `min`, each core is one above the core
/// before it, and the last is the one below `max`.
pub proof fn law_range_counts_up(min: usize, max: usize)
    ensures
        min < max ==> core_range(min, max).len() == max - min,
        min >= max ==> core_range(min, max).len() == 0,
        forall|i: int| 0 <= i < core_range(min, max).len() ==> #[trigger] core_range(min, max)[i]
            == min + i,
{
}

/// Whoever lists a range gets its cores from `min` on, one after the other, and
/// stops before `max`.
pub proof fn law_listed_cores_count_up(min: usize, max: usize, cores: Vec<usize>)
    requires
        call_ensures(list_cores, (min, max), cores),
    ensures
        min < max ==> cores@.len() == max - min,
        min >= max ==> cores@.len() == 0,
        forall|i: int| 0 <= i < cores@.len() ==> #[trigger] cores@[i] == min + i,
{
}

/// The cores of an allocation are those of its range, and none where the
/// operating system places the threads.
pub proof fn law_allocation_names_its_range(allocation: CoreAllocation)
    ensures
        allocation is OsDefault ==> allocation.core_seq().len() == 0,
        forall|min: usize, max: usize|
            #![trigger core_range(min, max)]
            allocation == (CoreAllocation::PinnedCores { min, max }) || allocation == (
            CoreAllocation::DedicatedCoreSet { min, max }) ==> {
                &&& min < max ==> allocation.core_seq().len() == max - min
                &&& min >= max ==> allocation.core_seq().len() == 0
                &&& forall|i: int|
                    0 <= i < allocation.core_seq().len() ==> #[trigger] allocation.core_seq()[i]
                        == min + i
            },
{
}

/// Whoever lists the cores of an allocation gets the cores of its range, from
/// `min` on and before `max`, and none where the operating system places the
/// threads.
pub proof fn law_listed_allocation_counts_up(allocation: CoreAllocation, cores: Vec<usize>)
    requires
        call_ensures(CoreAllocation::cores, (&allocation,), cores),
    ensures
        match allocation {
            CoreAllocation::OsDefault => cores@.len() == 0,
            CoreAllocation::PinnedCores { min, max } => cores@.len() == (if min < max {
                max - min
            } else {
                0
            }) && forall|i: int| 0 <= i < cores@.len() ==> #[trigger] cores@[i] == min + i,
            CoreAllocation::DedicatedCoreSet { min, max } => cores@.len() == (if min < max {
                max - min
            } else {
                0
            }) && forall|i: int| 0 <= i < cores@.len() ==> #[trigger] cores@[i] == min + i,
        },
{
}

/// Where nothing else is said, the operating system places the threads.
pub proof fn law_default_allocation_is_the_systems(allocation: CoreAllocation)
    requires
        call_ensures(<CoreAllocation as Default>::default, (), allocation),
    ensures
        allocation is OsDefault,
{
}

} // verus!
