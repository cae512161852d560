//! The multiplexer: one unit of work for each configured package manager,
//! and the sum of what the units counted.

use crate::failure::Failure;
use crate::parser::{count_of, lemma_count_bounds, parse, RawOutput};
use crate::registry::{command_for, is_entry, kind_of, lookup, CommandSpec, Intent};
use crate::text::text_views;
use vstd::prelude::*;
use vstd::seq_lib::*;
use vstd::string::*;

verus! {

/// The count that stands for "no package manager is configured".
pub const DISABLED: i32 = -1;

/// The package managers that the configuration names: none, one, or a list.
#[derive(Clone, Debug)]
pub enum PackageManagers {
    Absent,
    Single(String),
    List(Vec<String>),
}

impl PackageManagers {
    /// The configured identifiers, in order.
    pub open spec fn ids(&self) -> Seq<Seq<char>> {
        match self {
            PackageManagers::Absent => Seq::empty(),
            PackageManagers::Single(id) => seq![id@],
            PackageManagers::List(list) => text_views(list@),
        }
    }

    /// The number of configured identifiers.
    pub fn len(&self) -> (n: usize)
        ensures
            n == self.ids().len(),
    {
        match self {
            PackageManagers::Absent => 0,
            PackageManagers::Single(_) => 1,
            PackageManagers::List(list) => list.len(),
        }
    }

    /// The configured identifiers, in order.
    pub fn identifiers(&self) -> (list: Vec<String>)
        ensures
            text_views(list@) == self.ids(),
    {
        let n: usize = self.len();
        let mut list: Vec<String> = Vec::new();
        let mut i: usize = 0;
        while i < n
            invariant
                i <= n,
                n == self.ids().len(),
                text_views(list@) == self.ids().take(i as int),
            decreases n - i,
        {
            let ghost before = text_views(list@);
            let id = String::from_str(self.get(i));
            list.push(id);
            assert(text_views(list@) =~= before.push(self.ids()[i as int]));
            i = i + 1;
            assert(text_views(list@) =~= self.ids().take(i as int));
        }
        assert(self.ids().take(n as int) =~= self.ids());
        list
    }

    fn get(&self, i: usize) -> (id: &str)
        requires
            i < self.ids().len(),
        ensures
            id@ == self.ids()[i as int],
    {
        match self {
            PackageManagers::Absent => "",
            PackageManagers::Single(id) => id.as_str(),
            PackageManagers::List(list) => list[i].as_str(),
        }
    }
}

/// How a unit of work ended: the command ran to its end and left its
/// output, or it could not be run.
#[derive(Clone, Debug)]
pub enum UnitOutcome {
    Completed(RawOutput),
    Failed,
}

/// Whether some identifier names no known package manager.
pub open spec fn has_unknown(ids: Seq<Seq<char>>) -> bool {
    exists|i: int| 0 <= i < ids.len() && kind_of(#[trigger] ids[i]) is None
}

/// The count of one unit: `UnsupportedManager` for an unknown identifier,
/// `ManagerUnitFailure` for a command that could not be run, else what the
/// parser makes of the command's output.
pub open spec fn unit_count(id: Seq<char>, intent: Intent, outcome: UnitOutcome) -> Result<
    int,
    Failure,
> {
    match kind_of(id) {
        None => Err(Failure::UnsupportedManager),
        Some(kind) => match outcome {
            UnitOutcome::Failed => Err(Failure::ManagerUnitFailure),
            UnitOutcome::Completed(raw) => count_of(kind, intent, raw.stdout@),
        },
    }
}

/// What a unit adds to the total: its count, or 0 if it failed.
pub open spec fn contribution(id: Seq<char>, intent: Intent, outcome: UnitOutcome) -> int {
    match unit_count(id, intent, outcome) {
        Ok(count) => count,
        Err(_) => 0,
    }
}

/// The outcome of the unit at position `i`. A unit without a recorded
/// outcome counts as failed.
pub open spec fn outcome_at(outcomes: Seq<UnitOutcome>, i: int) -> UnitOutcome {
    if 0 <= i < outcomes.len() {
        outcomes[i]
    } else {
        UnitOutcome::Failed
    }
}

/// What each unit adds to the total, in the order of the identifiers.
pub open spec fn contributions(
    ids: Seq<Seq<char>>,
    intent: Intent,
    outcomes: Seq<UnitOutcome>,
) -> Seq<int> {
    Seq::new(ids.len(), |i: int| contribution(ids[i], intent, outcome_at(outcomes, i)))
}

/// The sum of a list of counts.
pub open spec fn sum(counts: Seq<int>) -> int
    decreases counts.len(),
{
    if counts.len() == 0 {
        0
    } else {
        sum(counts.drop_last()) + counts.last()
    }
}

/// The total over all units. Without any identifier it is `DISABLED`. An
/// unknown identifier makes the whole run fail with `UnsupportedManager`.
/// Otherwise the total is the sum of the contributions, or `CountOverflow`
/// if that sum does not fit the count type.
pub open spec fn total_of(ids: Seq<Seq<char>>, intent: Intent, outcomes: Seq<UnitOutcome>) -> Result<
    int,
    Failure,
> {
    if ids.len() == 0 {
        Ok(DISABLED as int)
    } else if has_unknown(ids) {
        Err(Failure::UnsupportedManager)
    } else if sum(contributions(ids, intent, outcomes)) > i32::MAX {
        Err(Failure::CountOverflow)
    } else {
        Ok(sum(contributions(ids, intent, outcomes)))
    }
}

/// Taking one count out of a list takes it out of the sum.
pub proof fn lemma_sum_remove(counts: Seq<int>, i: int)
    requires
        0 <= i < counts.len(),
    ensures
        sum(counts) == sum(counts.remove(i)) + counts[i],
    decreases counts.len(),
{
    if i == counts.len() - 1 {
        assert(counts.remove(i) =~= counts.drop_last());
    } else {
        lemma_sum_remove(counts.drop_last(), i);
        assert(counts.remove(i).drop_last() =~= counts.drop_last().remove(i));
        assert(counts.remove(i).last() == counts.last());
    }
}

/// The sum does not depend on the order: two lists that hold the same
/// counts, each as often as the other, have the same sum.
pub proof fn lemma_sum_reordered(a: Seq<int>, b: Seq<int>)
    requires
        a.to_multiset() == b.to_multiset(),
    ensures
        sum(a) == sum(b),
    decreases a.len(),
{
    broadcast use group_to_multiset_ensures;

    a.to_multiset_ensures();
    b.to_multiset_ensures();
    if a.len() == 0 {
        assert(b.len() == 0);
    } else {
        let x = a.last();
        assert(a.contains(x));
        assert(b.to_multiset().count(x) > 0);
        assert(b.contains(x));
        let j = choose|j: int| 0 <= j < b.len() && b[j] == x;
        assert(a.drop_last() =~= a.remove(a.len() - 1));
        assert(a.drop_last().to_multiset() =~= b.remove(j).to_multiset());
        lemma_sum_reordered(a.drop_last(), b.remove(j));
        lemma_sum_remove(b, j);
    }
}

/// Counts that are not negative never make a sum smaller.
pub proof fn lemma_sum_grows(counts: Seq<int>, n: int)
    requires
        0 <= n <= counts.len(),
        forall|i: int| 0 <= i < counts.len() ==> counts[i] >= 0,
    ensures
        0 <= sum(counts.take(n)) <= sum(counts),
    decreases counts.len() - n,
{
    if n == counts.len() {
        assert(counts.take(n) =~= counts);
        lemma_sum_nonnegative(counts);
    } else {
        lemma_sum_grows(counts, n + 1);
        assert(counts.take(n + 1).drop_last() =~= counts.take(n));
        lemma_sum_nonnegative(counts.take(n));
    }
}

/// Counts that are not negative have a sum that is not negative.
pub proof fn lemma_sum_nonnegative(counts: Seq<int>)
    requires
        forall|i: int| 0 <= i < counts.len() ==> counts[i] >= 0,
    ensures
        sum(counts) >= 0,
    decreases counts.len(),
{
    if counts.len() > 0 {
        lemma_sum_nonnegative(counts.drop_last());
    }
}

/// Without a configured package manager the total is `DISABLED`, whatever
/// the outcomes.
pub proof fn lemma_total_disabled(intent: Intent, outcomes: Seq<UnitOutcome>)
    ensures
        total_of(Seq::empty(), intent, outcomes) == Ok::<int, Failure>(-1),
{
}

/// With one configured package manager whose unit gave a count, the total
/// is that count.
pub proof fn lemma_total_single(id: Seq<char>, intent: Intent, outcome: UnitOutcome)
    requires
        unit_count(id, intent, outcome) is Ok,
        unit_count(id, intent, outcome)->Ok_0 <= i32::MAX,
    ensures
        total_of(seq![id], intent, seq![outcome]) == unit_count(id, intent, outcome),
{
    let ids = seq![id];
    let counts = contributions(ids, intent, seq![outcome]);
    assert(counts.drop_last() =~= Seq::<int>::empty());
    assert(sum(counts.drop_last()) == 0);
    assert(counts.last() == contribution(id, intent, outcome));
    assert(!has_unknown(ids));
}

/// With known package managers, the total is the sum of the units'
/// contributions, in whatever order the units are listed: two runs whose
/// units contribute the same counts, each as often, give the same total.
pub proof fn lemma_total_reordered(
    ids_a: Seq<Seq<char>>,
    outcomes_a: Seq<UnitOutcome>,
    ids_b: Seq<Seq<char>>,
    outcomes_b: Seq<UnitOutcome>,
    intent: Intent,
)
    requires
        !has_unknown(ids_a),
        !has_unknown(ids_b),
        contributions(ids_a, intent, outcomes_a).to_multiset() == contributions(
            ids_b,
            intent,
            outcomes_b,
        ).to_multiset(),
    ensures
        total_of(ids_a, intent, outcomes_a) == total_of(ids_b, intent, outcomes_b),
{
    let a = contributions(ids_a, intent, outcomes_a);
    let b = contributions(ids_b, intent, outcomes_b);
    a.to_multiset_ensures();
    b.to_multiset_ensures();
    lemma_sum_reordered(a, b);
}

/// Whether two outcomes are alike: both failed, or both completed with the
/// same bytes on standard output.
pub open spec fn same_outcome(a: UnitOutcome, b: UnitOutcome) -> bool {
    match (a, b) {
        (UnitOutcome::Failed, UnitOutcome::Failed) => true,
        (UnitOutcome::Completed(x), UnitOutcome::Completed(y)) => x.stdout@ == y.stdout@,
        _ => false,
    }
}

/// A run can be repeated: the same identifiers with outcomes that are alike
/// give the same total.
pub proof fn lemma_total_repeatable(
    ids: Seq<Seq<char>>,
    intent: Intent,
    first: Seq<UnitOutcome>,
    second: Seq<UnitOutcome>,
)
    requires
        first.len() == second.len(),
        forall|i: int| 0 <= i < first.len() ==> same_outcome(first[i], second[i]),
    ensures
        total_of(ids, intent, first) == total_of(ids, intent, second),
{
    assert forall|i: int| 0 <= i < ids.len() implies contribution(
        ids[i],
        intent,
        outcome_at(first, i),
    ) == contribution(ids[i], intent, outcome_at(second, i)) by {
        if i < first.len() {
            assert(same_outcome(first[i], second[i]));
        }
    }
    assert(contributions(ids, intent, first) =~= contributions(ids, intent, second));
}

/// The count of one unit of the given intent.
pub fn unit_result(arg: &str, intent: Intent, outcome: &UnitOutcome) -> (r: Result<i32, Failure>)
    ensures
        match r {
            Ok(count) => unit_count(arg@, intent, *outcome) == Ok::<int, Failure>(count as int)
                && count >= 0,
            Err(e) => unit_count(arg@, intent, *outcome) == Err::<int, Failure>(e),
        },
{
    match lookup(arg) {
        None => Err(Failure::UnsupportedManager),
        Some(kind) => match outcome {
            UnitOutcome::Failed => Err(Failure::ManagerUnitFailure),
            UnitOutcome::Completed(raw) => parse(kind, intent, raw),
        },
    }
}

/// Counts the pending updates of the package manager that `arg` names from
/// the outcome of its update command.
pub fn do_update_counting(arg: &str, outcome: &UnitOutcome) -> (r: Result<i32, Failure>)
    ensures
        match r {
            Ok(count) => unit_count(arg@, Intent::CountUpdates, *outcome) == Ok::<int, Failure>(
                count as int,
            ) && count >= 0,
            Err(e) => unit_count(arg@, Intent::CountUpdates, *outcome) == Err::<int, Failure>(e),
        },
{
    unit_result(arg, Intent::CountUpdates, outcome)
}

/// Counts the installed packages of the package manager that `arg` names
/// from the outcome of its listing command.
pub fn do_installed_counting(arg: &str, outcome: &UnitOutcome) -> (r: Result<i32, Failure>)
    ensures
        match r {
            Ok(count) => unit_count(arg@, Intent::CountInstalled, *outcome) == Ok::<int, Failure>(
                count as int,
            ) && count >= 0,
            Err(e) => unit_count(arg@, Intent::CountInstalled, *outcome) == Err::<int, Failure>(
                e,
            ),
        },
{
    unit_result(arg, Intent::CountInstalled, outcome)
}

/// The commands to run, one for each configured package manager and in
/// their order: none is left out and none comes twice. An unknown
/// identifier makes the plan fail with `UnsupportedManager` before any
/// command is given out.
pub fn plan(managers: &PackageManagers, intent: Intent) -> (r: Result<Vec<CommandSpec>, Failure>)
    ensures
        match r {
            Ok(commands) => !has_unknown(managers.ids()) && commands@.len() == managers.ids().len()
                && forall|i: int|
                0 <= i < commands@.len() ==> is_entry(
                    #[trigger] commands@[i],
                    kind_of(managers.ids()[i])->0,
                    intent,
                ),
            Err(e) => has_unknown(managers.ids()) && e == Failure::UnsupportedManager,
        },
{
    let n: usize = managers.len();
    let mut commands: Vec<CommandSpec> = Vec::new();
    let mut i: usize = 0;
    while i < n
        invariant
            i <= n,
            n == managers.ids().len(),
            commands@.len() == i,
            forall|k: int| 0 <= k < i ==> kind_of(#[trigger] managers.ids()[k]) is Some,
            forall|k: int|
                0 <= k < i ==> is_entry(
                    #[trigger] commands@[k],
                    kind_of(managers.ids()[k])->0,
                    intent,
                ),
        decreases n - i,
    {
        match lookup(managers.get(i)) {
            Some(kind) => {
                commands.push(command_for(kind, intent));
            },
            None => {
                assert(kind_of(managers.ids()[i as int]) is None);
                return Err(Failure::UnsupportedManager);
            },
        }
        i = i + 1;
    }
    Ok(commands)
}

/// Adds up what the units of a run counted. `outcomes` holds the outcome of
/// each package manager's command, in the order of `managers`; a manager
/// without an outcome counts as failed. Without a configured manager the
/// result is `DISABLED` (-1). A unit that failed, or whose output gives no
/// count, adds 0 and does not stop the others. An unknown identifier fails
/// the run with `UnsupportedManager`, a sum beyond the count type with
/// `CountOverflow`.
pub fn run(managers: &PackageManagers, intent: Intent, outcomes: &Vec<UnitOutcome>) -> (r: Result<
    i32,
    Failure,
>)
    ensures
        match r {
            Ok(total) => total_of(managers.ids(), intent, outcomes@) == Ok::<int, Failure>(
                total as int,
            ),
            Err(e) => total_of(managers.ids(), intent, outcomes@) == Err::<int, Failure>(e),
        },
{
    let n: usize = managers.len();
    if n == 0 {
        return Ok(DISABLED);
    }
    let mut i: usize = 0;
    while i < n
        invariant
            i <= n,
            n == managers.ids().len(),
            forall|k: int| 0 <= k < i ==> kind_of(#[trigger] managers.ids()[k]) is Some,
        decreases n - i,
    {
        if lookup(managers.get(i)).is_none() {
            assert(kind_of(managers.ids()[i as int]) is None);
            return Err(Failure::UnsupportedManager);
        }
        i = i + 1;
    }
    assert(!has_unknown(managers.ids()));
    let ghost counts = contributions(managers.ids(), intent, outcomes@);
    proof {
        assert forall|k: int| 0 <= k < counts.len() implies 0 <= #[trigger] counts[k]
            <= i32::MAX by {
            let kind = kind_of(managers.ids()[k])->0;
            match outcome_at(outcomes@, k) {
                UnitOutcome::Completed(raw) => lemma_count_bounds(kind, intent, raw.stdout@),
                UnitOutcome::Failed => {},
            }
        }
    }
    let failed = UnitOutcome::Failed;
    let mut total: i64 = 0;
    let mut j: usize = 0;
    assert(counts.take(0) =~= Seq::<int>::empty());
    while j < n
        invariant
            j <= n,
            n == managers.ids().len(),
            counts == contributions(managers.ids(), intent, outcomes@),
            !has_unknown(managers.ids()),
            failed == UnitOutcome::Failed,
            forall|k: int| 0 <= k < counts.len() ==> 0 <= #[trigger] counts[k] <= i32::MAX,
            total == sum(counts.take(j as int)),
            0 <= total <= i32::MAX,
        decreases n - j,
    {
        let outcome: &UnitOutcome = if j < outcomes.len() {
            &outcomes[j]
        } else {
            &failed
        };
        let added: i64 = match unit_result(managers.get(j), intent, outcome) {
            Ok(count) => count as i64,
            Err(_) => 0,
        };
        proof {
            assert(added == counts[j as int]);
            assert(counts.take(j + 1).drop_last() =~= counts.take(j as int));
            assert(counts.take(j + 1).last() == counts[j as int]);
        }
        if total + added > 2147483647 {
            proof {
                lemma_sum_grows(counts, j + 1);
            }
            return Err(Failure::CountOverflow);
        }
        total = total + added;
        j = j + 1;
    }
    assert(counts.take(n as int) =~= counts);
    Ok(total as i32)
}

/// The number of pending updates over all configured package managers,
/// from the outcomes of their update commands. See `run`.
pub fn check_updates(managers: &PackageManagers, outcomes: &Vec<UnitOutcome>) -> (r: Result<
    i32,
    Failure,
>)
    ensures
        match r {
            Ok(total) => total_of(managers.ids(), Intent::CountUpdates, outcomes@) == Ok::<
                int,
                Failure,
            >(total as int),
            Err(e) => total_of(managers.ids(), Intent::CountUpdates, outcomes@) == Err::<
                int,
                Failure,
            >(e),
        },
{
    run(managers, Intent::CountUpdates, outcomes)
}

/// The number of installed packages over all configured package managers,
/// from the outcomes of their listing commands. See `run`.
pub fn get_package_count(managers: &PackageManagers, outcomes: &Vec<UnitOutcome>) -> (r: Result<
    i32,
    Failure,
>)
    ensures
        match r {
            Ok(total) => total_of(managers.ids(), Intent::CountInstalled, outcomes@) == Ok::<
                int,
                Failure,
            >(total as int),
            Err(e) => total_of(managers.ids(), Intent::CountInstalled, outcomes@) == Err::<
                int,
                Failure,
            >(e),
        },
{
    run(managers, Intent::CountInstalled, outcomes)
}

} // verus!
