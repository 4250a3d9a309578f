//! What is asked of the machine: its number of cores, and the priority and
//! the cores of the thread that asks.

use vstd::prelude::*;

verus! {

/// The largest priority that a thread can be given. This is the figure on Linux.
pub const MAX_PRIORITY: u8 = 99;

/// Cores with this number and above cannot be named to the machine. This is the
/// figure on Linux, whose set of cores has so many bits.
pub const CORE_LIMIT: usize = 1024;

/// Why the machine refused a priority.
#[verifier::external_type_specification]
#[verifier::external_body]
pub struct ExPriorityError(thread_priority::Error);

/// Calls `affinity::get_core_num`: the number of cores that this process can
/// use, which is never zero. Nothing more holds of it on every machine.
#[verifier::external_body]
fn core_count() -> (count: usize)
    ensures
        count >= 1,
{
    affinity::get_core_num()
}

/// The machine may answer that this is the number of its cores.
pub closed spec fn counted(count: usize) -> bool {
    call_ensures(core_count, (), count)
}

/// Asks the machine for the number of its cores.
pub(crate) fn count_cores() -> (count: usize)
    ensures
        counted(count),
        count >= 1,
{
    core_count()
}

/// Calls `affinity::set_thread_affinity`: from now on the current thread runs
/// on the given cores only, or the answer says why the machine refused. The
/// machine decides which; so the contract says nothing of the answer. The
/// call writes each core into a set of `CORE_LIMIT` bits and panics on a core
/// that has no bit there.
#[verifier::external_body]
pub(crate) fn set_thread_affinity(cores: &Vec<usize>) -> (answer: Result<(), String>)
    requires
        forall|i: int| 0 <= i < cores@.len() ==> #[trigger] cores@[i] < CORE_LIMIT,
{
    match affinity::set_thread_affinity(cores) {
        Ok(()) => Ok(()),
        Err(error) => Err(error.to_string()),
    }
}

/// Calls `thread_priority::ThreadPriorityValue::try_from`: a number up to
/// `MAX_PRIORITY` is a priority and keeps its value; any other number is
/// refused, with a message of which nothing is claimed.
#[verifier::external_body]
pub(crate) fn priority_value(number: u8) -> (value: Result<u8, String>)
    ensures
        value is Ok <==> number <= MAX_PRIORITY,
        value matches Ok(priority) ==> priority == number,
{
    match thread_priority::ThreadPriorityValue::try_from(number) {
        Ok(value) => Ok(value.into()),
        Err(message) => Err(message),
    }
}

/// Calls `thread_priority::set_current_thread_priority` with a priority that
/// means the same on every platform: the current thread gets it, or the answer
/// says why not. The machine decides which; so the contract says nothing of
/// the answer.
#[verifier::external_body]
pub(crate) fn set_thread_priority(number: u8) -> (answer: Result<(), thread_priority::Error>)
    requires
        number <= MAX_PRIORITY,
{
    let value = thread_priority::ThreadPriorityValue::try_from(number).unwrap();
    thread_priority::set_current_thread_priority(
        thread_priority::ThreadPriority::Crossplatform(value),
    )
}

/// A number of cores counts only as what `core_count` may answer.
proof fn law_counted_is_what_the_machine_answers(count: usize)
    requires
        counted(count),
    ensures
        call_ensures(core_count, (), count),
        count >= 1,
{
}

/// The limits are those of Linux.
pub proof fn law_limits_are_those_of_linux()
    ensures
        MAX_PRIORITY == 99,
        CORE_LIMIT == 1024,
{
}

} // verus!
