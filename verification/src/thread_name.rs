//! Names of numbered threads.

use vstd::prelude::*;
use vstd::string::StringExecFns;

verus! {

/// The character that stands for a number below ten.
pub open spec fn digit(d: nat) -> char {
    seq!['0', '1', '2', '3', '4', '5', '6', '7', '8', '9'][d as int]
}

/// A number in decimal notation, without leading zeros.
pub open spec fn decimal(n: nat) -> Seq<char>
    decreases n,
{
    if n < 10 {
        seq![digit(n)]
    } else {
        decimal(n / 10).push(digit(n % 10))
    }
}

/// The name of thread number `id` among those that share the name `base`:
/// the base, a hyphen and the number.
pub open spec fn numbered(base: Seq<char>, id: usize) -> Seq<char> {
    base.push('-') + decimal(id as nat)
}

/// Names thread number `id` of those that share the name `base`.
pub fn thread_name(base: &str, id: usize) -> (name: String)
    ensures
        name@ == numbered(base@, id),
{
    let mut name = base.to_owned();
    proof {
        reveal_strlit("-");
    }
    name.append("-");
    assert(name@ =~= base@.push('-'));
    append_decimal(&mut name, id);
    name
}

/// Appends a number in decimal notation.
fn append_decimal(text: &mut String, n: usize)
    ensures
        final(text)@ == old(text)@ + decimal(n as nat),
    decreases n,
{
    if n >= 10 {
        append_decimal(text, n / 10);
    }
    let ghost head = text@;
    let last = digit_text(n % 10);
    text.append(last);
    assert(text@ =~= head.push(digit((n % 10) as nat)));
    assert(text@ =~= old(text)@ + decimal(n as nat));
}

/// A number below ten as text.
fn digit_text(d: usize) -> (text: &'static str)
    requires
        d < 10,
    ensures
        text@ == seq![digit(d as nat)],
{
    proof {
        reveal_strlit("0");
        reveal_strlit("1");
        reveal_strlit("2");
        reveal_strlit("3");
        reveal_strlit("4");
        reveal_strlit("5");
        reveal_strlit("6");
        reveal_strlit("7");
        reveal_strlit("8");
        reveal_strlit("9");
    }
    let text = match d {
        0 => "0",
        1 => "1",
        2 => "2",
        3 => "3",
        4 => "4",
        5 => "5",
        6 => "6",
        7 => "7",
        8 => "8",
        _ => "9",
    };
    assert(text@ =~= seq![digit(d as nat)]);
    text
}

/// Hands out names for the threads of one runtime, each with the next number.
#[derive(Debug)]
pub struct WorkerNames {
    base: String,
    count: usize,
}

impl WorkerNames {
    /// What the names begin with.
    pub closed spec fn base_name(&self) -> Seq<char> {
        self.base@
    }

    /// How many names were handed out. The count wraps around.
    pub closed spec fn count(&self) -> usize {
        self.count
    }

    /// `name` is the next name, and `after` hands out those that follow.
    pub open spec fn hands_out(&self, after: WorkerNames, name: Seq<char>) -> bool {
        &&& name == numbered(self.base_name(), self.count())
        &&& after.base_name() == self.base_name()
        &&& after.count() == self.count().wrapping_add(1)
    }

    /// Names that begin with `base`, of which none was handed out yet.
    pub fn new(base: &str) -> (names: WorkerNames)
        ensures
            names.base_name() == base@,
            names.count() == 0,
    {
        WorkerNames { base: base.to_owned(), count: 0 }
    }

    /// The name for one more thread: its number is how many names were handed
    /// out before.
    pub fn next_name(&mut self) -> (name: String)
        ensures
            old(self).hands_out(*final(self), name@),
    {
        let id: usize = self.count;
        self.count = id.wrapping_add(1);
        thread_name(self.base.as_str(), id)
    }
}

proof fn lemma_digit_injective(a: nat, b: nat)
    requires
        a < 10,
        b < 10,
        digit(a) == digit(b),
    ensures
        a == b,
{
}

/// Different numbers are written differently.
proof fn lemma_decimal_injective(a: nat, b: nat)
    requires
        decimal(a) == decimal(b),
    ensures
        a == b,
    decreases a,
{
    assert(decimal(a).last() == digit(a % 10));
    assert(decimal(b).last() == digit(b % 10));
    lemma_digit_injective(a % 10, b % 10);
    lemma_decimal_not_empty(a / 10);
    lemma_decimal_not_empty(b / 10);
    if a >= 10 && b >= 10 {
        assert(decimal(a).drop_last() =~= decimal(a / 10));
        assert(decimal(b).drop_last() =~= decimal(b / 10));
        lemma_decimal_injective(a / 10, b / 10);
    } else if a >= 10 {
        assert(decimal(b).len() == 1);
    } else if b >= 10 {
        assert(decimal(a).len() == 1);
    }
}

proof fn lemma_decimal_not_empty(n: nat)
    ensures
        decimal(n).len() >= 1,
    decreases n,
{
    if n >= 10 {
        lemma_decimal_not_empty(n / 10);
    }
}

/// Two threads that share a base name and have different numbers have
/// different names.
pub proof fn law_different_numbers_give_different_names(base: Seq<char>, a: usize, b: usize)
    requires
        a != b,
    ensures
        numbered(base, a) != numbered(base, b),
{
    if numbered(base, a) == numbered(base, b) {
        let start = (base.len() + 1) as int;
        let first = numbered(base, a);
        let second = numbered(base, b);
        assert(first.subrange(start, first.len() as int) =~= decimal(a as nat));
        assert(second.subrange(start, second.len() as int) =~= decimal(b as nat));
        lemma_decimal_injective(a as nat, b as nat);
    }
}

/// Names are handed out one after the other, the first of them by `states[0]`,
/// which has handed out none before, and each other one by what the one before
/// has left.
pub open spec fn are_handed_out(states: Seq<WorkerNames>, names: Seq<Seq<char>>) -> bool {
    &&& states.len() == names.len() + 1
    &&& states[0].count() == 0
    &&& forall|i: int|
        0 <= i < names.len() ==> #[trigger] states[i].hands_out(states[i + 1], names[i])
}

/// The name that is handed out after `k` others has the number `k`, as long as
/// the numbers do not wrap around.
pub proof fn law_names_are_numbered_in_order(
    states: Seq<WorkerNames>,
    names: Seq<Seq<char>>,
    k: int,
)
    requires
        are_handed_out(states, names),
        0 <= k < names.len(),
        k <= usize::MAX,
    ensures
        states[k].base_name() == states[0].base_name(),
        states[k].count() == k,
        names[k] == numbered(states[0].base_name(), k as usize),
    decreases k,
{
    if k > 0 {
        law_names_are_numbered_in_order(states, names, k - 1);
        assert(states[k - 1].hands_out(states[k - 1 + 1], names[k - 1]));
    }
    assert(states[k].hands_out(states[k + 1], names[k]));
}

/// No name is handed out twice, as long as the numbers do not wrap around.
pub proof fn law_no_name_is_handed_out_twice(
    states: Seq<WorkerNames>,
    names: Seq<Seq<char>>,
    first: int,
    second: int,
)
    requires
        are_handed_out(states, names),
        0 <= first < names.len(),
        0 <= second < names.len(),
        first <= usize::MAX,
        second <= usize::MAX,
        first != second,
    ensures
        names[first] != names[second],
{
    law_names_are_numbered_in_order(states, names, first);
    law_names_are_numbered_in_order(states, names, second);
    law_different_numbers_give_different_names(
        states[0].base_name(),
        first as usize,
        second as usize,
    );
}

/// The last character of a number in decimal notation is its last digit, and
/// what stands before it is the rest of the number; a number below ten has one
/// character.
pub proof fn law_decimal_ends_with_the_last_digit(n: nat)
    ensures
        decimal(n).len() >= 1,
        decimal(n).last() as u32 == '0' as u32 + n % 10,
        n < 10 ==> decimal(n).len() == 1,
        n >= 10 ==> decimal(n).drop_last() == decimal(n / 10),
{
    lemma_decimal_not_empty(n);
    if n >= 10 {
        assert(decimal(n).drop_last() =~= decimal(n / 10));
    }
}

/// The number that a text of digits stands for, read from left to right.
pub open spec fn number_read(text: Seq<char>) -> int
    decreases text.len(),
{
    if text.len() == 0 {
        0
    } else {
        10 * number_read(text.drop_last()) + (text.last() as u32 - '0' as u32)
    }
}

/// Whoever reads a number in decimal notation gets the number; it is written
/// with digits only, and begins with zero only if it is zero.
pub proof fn law_decimal_reads_as_the_number(n: nat)
    ensures
        number_read(decimal(n)) == n,
        forall|i: int|
            0 <= i < decimal(n).len() ==> '0' as u32 <= #[trigger] decimal(n)[i] as u32
                <= '9' as u32,
        n > 0 ==> decimal(n)[0] != '0',
    decreases n,
{
    law_decimal_ends_with_the_last_digit(n);
    if n >= 10 {
        law_decimal_reads_as_the_number(n / 10);
        law_decimal_ends_with_the_last_digit(n / 10);
        assert(forall|i: int|
            0 <= i < decimal(n).len() - 1 ==> #[trigger] decimal(n)[i]
                == decimal(n).drop_last()[i]);
    } else {
        assert(decimal(n).drop_last() =~= Seq::<char>::empty());
        assert(number_read(decimal(n).drop_last()) == 0);
    }
}

/// The name of a thread is the base, then a hyphen, then its number in decimal
/// notation.
pub proof fn law_name_is_base_hyphen_number(base: &str, id: usize, name: String)
    requires
        call_ensures(thread_name, (base, id), name),
    ensures
        name@.len() > base@.len() + 1,
        forall|i: int| 0 <= i < base@.len() ==> #[trigger] name@[i] == base@[i],
        name@[base@.len() as int] == '-',
        number_read(name@.skip(base@.len() as int + 1)) == id,
        forall|i: int|
            base@.len() < i < name@.len() ==> '0' as u32 <= #[trigger] name@[i] as u32
                <= '9' as u32,
        id > 0 ==> name@[base@.len() as int + 1] != '0',
        id == 0 ==> name@.len() == base@.len() + 2,
{
    law_numbered_is_base_hyphen_number(base@, id);
}

/// A numbered name is the base, then a hyphen, then the number in decimal
/// notation.
pub proof fn law_numbered_is_base_hyphen_number(base: Seq<char>, id: usize)
    ensures
        numbered(base, id).len() > base.len() + 1,
        forall|i: int| 0 <= i < base.len() ==> #[trigger] numbered(base, id)[i] == base[i],
        numbered(base, id)[base.len() as int] == '-',
        number_read(numbered(base, id).skip(base.len() as int + 1)) == id,
        forall|i: int|
            base.len() < i < numbered(base, id).len() ==> '0' as u32 <= #[trigger] numbered(
                base,
                id,
            )[i] as u32 <= '9' as u32,
        id > 0 ==> numbered(base, id)[base.len() as int + 1] != '0',
        id == 0 ==> numbered(base, id).len() == base.len() + 2,
{
    let number = decimal(id as nat);
    law_decimal_ends_with_the_last_digit(id as nat);
    law_decimal_reads_as_the_number(id as nat);
    assert(numbered(base, id).skip(base.len() as int + 1) =~= number);
    assert(forall|i: int|
        base.len() < i < numbered(base, id).len() ==> #[trigger] numbered(base, id)[i] == number[i
            - base.len() - 1]);
}

/// Each name that is handed out has the base of the one who hands it out and
/// the number of the names before it; from then on there is one more.
pub proof fn law_next_name_counts_on(names: &mut WorkerNames, name: String)
    requires
        call_ensures(WorkerNames::next_name, (names,), name),
    ensures
        name@ == numbered(old(names).base_name(), old(names).count()),
        final(names).base_name() == old(names).base_name(),
        old(names).count() < usize::MAX ==> final(names).count() == old(names).count() + 1,
        old(names).count() == usize::MAX ==> final(names).count() == 0,
{
}

/// New names have handed out none yet.
pub proof fn law_new_names_begin_with_zero(base: &str, names: WorkerNames)
    requires
        call_ensures(WorkerNames::new, (base,), names),
    ensures
        names.base_name() == base@,
        names.count() == 0,
{
}

} // verus!
