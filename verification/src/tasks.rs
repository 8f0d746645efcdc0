//! Bookkeeping for bounded task groups and async control: concurrency
//! bounds, scheduling decisions, and the ordering of collected results.
//!
//! The runtime side (spawning, joining, timers, cancellation) is driven by
//! the caller; this module decides how many tasks may start, keeps results
//! in input order, and reports them.
use vstd::prelude::*;
use crate::text_support::{decimal_chars, owned, push_decimal, push_str};

verus! {

/// Default concurrency bound for callers that do not need a custom limit.
pub const DEFAULT_MAX_CONCURRENCY: usize = 16;

/// Maximum accepted concurrency bound.
pub const MAX_CONCURRENCY: usize = 10_000;

/// Error returned by timeout, deadline, cancellation, and shutdown helpers.
#[derive(Debug, Clone, Copy, PartialEq, Eq, Structural)]
#[non_exhaustive]
pub enum AsyncControlError {
    /// The wrapped operation did not complete before its timeout or deadline.
    TimedOut,
    /// The caller-owned cancellation or shutdown signal completed first.
    Cancelled,
}

impl AsyncControlError {
    /// Human-readable description of the error.
    pub fn message(&self) -> (m: String)
        ensures
            m@ == match *self {
                AsyncControlError::TimedOut => "operation timed out"@,
                AsyncControlError::Cancelled => "operation was cancelled"@,
            },
    {
        match self {
            AsyncControlError::TimedOut => owned("operation timed out"),
            AsyncControlError::Cancelled => owned("operation was cancelled"),
        }
    }
}

/// Outcome of a race between an operation, a timer and a cancellation
/// signal, as observed by the runtime.
#[derive(Debug, Clone, Copy, PartialEq, Eq, Structural)]
pub enum RaceEvent {
    /// The operation completed first.
    Completed,
    /// The timeout or deadline elapsed first.
    Elapsed,
    /// The cancellation or shutdown signal completed first.
    Cancelled,
}

/// What a timeout or cancellation helper returns for the winner of its race:
/// the operation's value, or the error that names what won instead.
pub fn race_outcome<T>(event: RaceEvent, value: Option<T>) -> (r: Result<T, AsyncControlError>)
    requires
        event == RaceEvent::Completed ==> value is Some,
    ensures
        match event {
            RaceEvent::Completed => r == Ok::<T, AsyncControlError>(value->0),
            RaceEvent::Elapsed => r == Err::<T, AsyncControlError>(AsyncControlError::TimedOut),
            RaceEvent::Cancelled => r == Err::<T, AsyncControlError>(AsyncControlError::Cancelled),
        },
{
    match event {
        RaceEvent::Completed => match value {
            Some(v) => Ok(v),
            None => Err(AsyncControlError::TimedOut),
        },
        RaceEvent::Elapsed => Err(AsyncControlError::TimedOut),
        RaceEvent::Cancelled => Err(AsyncControlError::Cancelled),
    }
}

/// Rejection of a concurrency bound.
#[derive(Debug, Clone, Copy, PartialEq, Eq, Structural)]
pub enum ConcurrencyError {
    /// `max_concurrency` must be greater than zero.
    ZeroConcurrency,
    /// `max_concurrency` exceeded `MAX_CONCURRENCY`.
    ExcessiveConcurrency {
        /// Rejected concurrency bound.
        max_concurrency: usize,
        /// Largest accepted concurrency bound.
        upper_bound: usize,
    },
}

impl ConcurrencyError {
    /// Human-readable description of the rejection.
    pub fn message(&self) -> (m: String)
        ensures
            m@ == match *self {
                ConcurrencyError::ZeroConcurrency => "max_concurrency must be greater than zero"@,
                ConcurrencyError::ExcessiveConcurrency { max_concurrency, upper_bound } =>
                    "max_concurrency must be less than or equal to "@ + decimal_chars(
                    upper_bound as nat,
                ) + ", got "@ + decimal_chars(max_concurrency as nat),
            },
    {
        match *self {
            ConcurrencyError::ZeroConcurrency => owned("max_concurrency must be greater than zero"),
            ConcurrencyError::ExcessiveConcurrency { max_concurrency, upper_bound } => {
                let mut m = owned("max_concurrency must be less than or equal to ");
                push_decimal(&mut m, upper_bound as u128);
                push_str(&mut m, ", got ");
                push_decimal(&mut m, max_concurrency as u128);
                m
            },
        }
    }
}

/// Checks a concurrency bound: positive and at most `MAX_CONCURRENCY`.
pub fn validate_max_concurrency(max_concurrency: usize) -> (r: Result<(), ConcurrencyError>)
    ensures
        max_concurrency == 0 ==> r == Err::<(), ConcurrencyError>(ConcurrencyError::ZeroConcurrency),
        max_concurrency > MAX_CONCURRENCY ==> r == Err::<(), ConcurrencyError>(
            ConcurrencyError::ExcessiveConcurrency { max_concurrency, upper_bound: MAX_CONCURRENCY },
        ),
        0 < max_concurrency <= MAX_CONCURRENCY ==> r is Ok,
{
    if max_concurrency == 0 {
        return Err(ConcurrencyError::ZeroConcurrency);
    }
    if max_concurrency > MAX_CONCURRENCY {
        return Err(
            ConcurrencyError::ExcessiveConcurrency { max_concurrency, upper_bound: MAX_CONCURRENCY },
        );
    }
    Ok(())
}

/// How many more operations may start when `running` are in flight and
/// `remaining` wait: as many as fit under the bound, and no more than wait.
pub open spec fn start_count(running: usize, max_concurrency: usize, remaining: usize) -> usize {
    if running >= max_concurrency {
        0
    } else if remaining < max_concurrency - running {
        remaining
    } else {
        (max_concurrency - running) as usize
    }
}

/// How many more operations may start when `running` are in flight and
/// `remaining` wait: as many as fit under the bound, and no more than wait.
pub fn tasks_to_start(running: usize, max_concurrency: usize, remaining: usize) -> (n: usize)
    ensures
        n == start_count(running, max_concurrency, remaining),
        n <= remaining,
        n > 0 ==> running + n <= max_concurrency,
{
    if running >= max_concurrency {
        0
    } else {
        let room = max_concurrency - running;
        if remaining < room {
            remaining
        } else {
            room
        }
    }
}

/// Starting the tasks that `tasks_to_start` allows never takes the number in
/// flight over the bound, and starts something whenever there is room and
/// work.
pub proof fn lemma_start_respects_bound(running: usize, max_concurrency: usize, remaining: usize, n: usize)
    requires
        running <= max_concurrency,
        n == (if remaining < max_concurrency - running {
            remaining
        } else {
            (max_concurrency - running) as usize
        }),
    ensures
        running + n <= max_concurrency,
        running < max_concurrency && remaining > 0 ==> n > 0,
        n == remaining || running + n == max_concurrency,
{
}

/// A successful operation result collected by a bounded task group.
#[derive(Debug, Clone, PartialEq, Eq)]
pub struct TaskSuccess<T> {
    /// Zero-based input index.
    pub index: usize,
    /// Operation output.
    pub value: T,
}

/// A failed operation result collected by a bounded task group.
#[derive(Debug, Clone, PartialEq, Eq)]
pub struct TaskFailure<E> {
    /// Zero-based input index.
    pub index: usize,
    /// Caller-provided failure cause.
    pub error: E,
}

/// Operation results collected by a bounded task group.
#[derive(Debug, Clone, PartialEq, Eq)]
pub struct TaskGroupReport<T, E> {
    /// Successful operation outputs sorted by input index.
    pub successes: Vec<TaskSuccess<T>>,
    /// Operation failures sorted by input index.
    pub failures: Vec<TaskFailure<E>>,
}

impl<T, E> TaskGroupReport<T, E> {
    /// Returns `true` when no operation failed.
    pub fn is_success(&self) -> (r: bool)
        ensures
            r == (self.failures@.len() == 0),
    {
        self.failures.len() == 0
    }

    /// Returns the total number of completed operations.
    pub fn len(&self) -> (r: usize)
        requires
            self.successes@.len() + self.failures@.len() <= usize::MAX,
        ensures
            r == self.successes@.len() + self.failures@.len(),
    {
        self.successes.len() + self.failures.len()
    }

    /// Returns `true` when the report contains no operation result.
    pub fn is_empty(&self) -> (r: bool)
        ensures
            r == (self.successes@.len() == 0 && self.failures@.len() == 0),
    {
        self.successes.len() == 0 && self.failures.len() == 0
    }
}

/// A task result that belongs to an input index.
pub trait Indexed {
    /// The input index.
    spec fn index_spec(&self) -> usize;

    /// The input index.
    fn input_index(&self) -> (r: usize)
        ensures
            r == self.index_spec(),
    ;
}

impl<T> Indexed for TaskSuccess<T> {
    open spec fn index_spec(&self) -> usize {
        self.index
    }

    fn input_index(&self) -> (r: usize) {
        self.index
    }
}

impl<E> Indexed for TaskFailure<E> {
    open spec fn index_spec(&self) -> usize {
        self.index
    }

    fn input_index(&self) -> (r: usize) {
        self.index
    }
}

/// Whether the items are ordered by input index.
pub open spec fn sorted_by_index<X: Indexed>(s: Seq<X>) -> bool {
    forall|i: int, j: int| 0 <= i < j < s.len() ==> #[trigger] s[i].index_spec() <= #[trigger] s[j].index_spec()
}

/// Whether an item belongs to input `k`.
pub open spec fn has_index<X: Indexed>(k: usize) -> spec_fn(X) -> bool {
    |x: X| x.index_spec() == k
}

/// The items that belong to input `k`, in their order in `s`.
pub open spec fn with_index<X: Indexed>(s: Seq<X>, k: usize) -> Seq<X> {
    s.filter(has_index::<X>(k))
}

proof fn lemma_filter_single<X>(x: X, p: spec_fn(X) -> bool)
    ensures
        seq![x].filter(p) == (if p(x) { seq![x] } else { Seq::<X>::empty() }),
{
    reveal_with_fuel(Seq::filter, 2);
    assert(seq![x].drop_last() =~= Seq::<X>::empty());
    assert(Seq::<X>::empty().push(x) =~= seq![x]);
}

proof fn lemma_filter_push<X>(s: Seq<X>, x: X, p: spec_fn(X) -> bool)
    ensures
        s.push(x).filter(p) == (if p(x) { s.filter(p).push(x) } else { s.filter(p) }),
{
    reveal(Seq::filter);
    assert(s.push(x).drop_last() =~= s);
}

/// Inserting `g` at `pos`, before items of larger index only, changes each
/// input's items as appending `g` would.
proof fn lemma_insert_keeps_index_order<X: Indexed>(before: Seq<X>, pos: int, g: X, k: usize)
    requires
        0 <= pos <= before.len(),
        forall|j: int| pos <= j < before.len() ==> #[trigger] before[j].index_spec() > g.index_spec(),
    ensures
        with_index(before.insert(pos, g), k) == with_index(before.push(g), k),
{
    broadcast use Seq::filter_distributes_over_add;

    let p = has_index::<X>(k);
    let a = before.take(pos);
    let b = before.skip(pos);
    assert(before.insert(pos, g) =~= a + seq![g] + b);
    assert(before.push(g) =~= a + b + seq![g]);
    lemma_filter_single(g, p);
    if p(g) {
        assert forall|j: int| 0 <= j < b.len() implies !p(#[trigger] b[j]) by {
            assert(b[j] == before[pos + j]);
        }
        assert(b.all(|x: X| !p(x)));
        b.lemma_all_neg_filter_empty(p);
        assert(b.filter(p) =~= Seq::<X>::empty());
        assert((a + seq![g] + b).filter(p) == a.filter(p) + seq![g].filter(p) + b.filter(p));
        assert((a + b + seq![g]).filter(p) == a.filter(p) + b.filter(p) + seq![g].filter(p));
        assert(a.filter(p) + seq![g] + Seq::<X>::empty() =~= a.filter(p) + Seq::<X>::empty() + seq![g]);
    } else {
        assert((a + seq![g] + b).filter(p) == a.filter(p) + seq![g].filter(p) + b.filter(p));
        assert((a + b + seq![g]).filter(p) == a.filter(p) + b.filter(p) + seq![g].filter(p));
        assert(a.filter(p) + Seq::<X>::empty() + b.filter(p) =~= a.filter(p) + b.filter(p)
            + Seq::<X>::empty());
    }
}

/// Orders items by input index, stably: the items of each input keep their
/// order, and nothing is added or lost.
pub fn sort_by_index<X: Indexed>(items: Vec<X>) -> (r: Vec<X>)
    ensures
        sorted_by_index(r@),
        r@.to_multiset() == items@.to_multiset(),
        forall|k: usize| #[trigger] with_index(r@, k) == with_index(items@, k),
{
    broadcast use vstd::seq_lib::to_multiset_insert;
    broadcast use vstd::seq_lib::group_to_multiset_ensures;

    let ghost all = items@;
    let mut sorted: Vec<X> = Vec::new();
    for item in it: items.into_iter()
        invariant
            it.seq() == all,
            sorted_by_index(sorted@),
            sorted@.to_multiset() == all.take(it.index() as int).to_multiset(),
            forall|k: usize| #[trigger] with_index(sorted@, k) == with_index(all.take(it.index() as int), k),
    {
        let ghost i = it.index();
        let key = item.input_index();
        let mut pos = sorted.len();
        while pos > 0 && sorted[pos - 1].input_index() > key
            invariant
                pos <= sorted@.len(),
                key == item.index_spec(),
                sorted_by_index(sorted@),
                forall|j: int| pos <= j < sorted@.len() ==> #[trigger] sorted@[j].index_spec() > key,
            decreases pos,
        {
            pos = pos - 1;
        }
        let ghost before = sorted@;
        let ghost g = item;
        sorted.insert(pos, item);
        proof {
            assert(all.take(i + 1) =~= all.take(i as int).push(g));
            vstd::seq_lib::to_multiset_insert(before, pos as int, g);
            all.take(i as int).to_multiset_ensures();
            assert(all.take(i as int).push(g).to_multiset() == all.take(i as int).to_multiset().insert(g));
            assert forall|k: usize| #[trigger] with_index(sorted@, k) == with_index(all.take(i + 1), k) by {
                lemma_insert_keeps_index_order(before, pos as int, g, k);
                assert(with_index(before, k) == with_index(all.take(i as int), k));
                lemma_filter_push(before, g, has_index::<X>(k));
                lemma_filter_push(all.take(i as int), g, has_index::<X>(k));
            }
            assert forall|a: int, b: int| 0 <= a < b < sorted@.len() implies #[trigger] sorted@[a].index_spec()
                <= #[trigger] sorted@[b].index_spec() by {
                if b < pos {
                } else if a < pos && b == pos {
                    assert(before[a].index_spec() <= before[pos - 1].index_spec() || a == pos - 1);
                } else if a < pos {
                    assert(sorted@[b] == before[b - 1]);
                } else if a == pos {
                    assert(sorted@[b] == before[b - 1]);
                } else {
                    assert(sorted@[a] == before[a - 1]);
                    assert(sorted@[b] == before[b - 1]);
                }
            }
        }
    }
    proof {
        assert(all.take(all.len() as int) =~= all);
    }
    sorted
}

/// The report of a bounded task group: successes and failures, each ordered
/// by input index, stably.
pub fn build_report<T, E>(successes: Vec<TaskSuccess<T>>, failures: Vec<TaskFailure<E>>) -> (r:
    TaskGroupReport<T, E>)
    ensures
        sorted_by_index(r.successes@),
        sorted_by_index(r.failures@),
        r.successes@.to_multiset() == successes@.to_multiset(),
        r.failures@.to_multiset() == failures@.to_multiset(),
        forall|k: usize| #[trigger] with_index(r.successes@, k) == with_index(successes@, k),
        forall|k: usize| #[trigger] with_index(r.failures@, k) == with_index(failures@, k),
{
    TaskGroupReport { successes: sort_by_index(successes), failures: sort_by_index(failures) }
}

/// The values of the filled slots, in slot order.
pub open spec fn filled<T>(slots: Seq<Option<T>>) -> Seq<T>
    decreases slots.len(),
{
    if slots.len() == 0 {
        Seq::empty()
    } else {
        match slots.last() {
            Some(v) => filled(slots.drop_last()).push(v),
            None => filled(slots.drop_last()),
        }
    }
}

/// The results held in per-input slots, in input order.
pub fn results_in_input_order<T>(slots: Vec<Option<T>>) -> (r: Vec<T>)
    ensures
        r@ == filled(slots@),
{
    let ghost all = slots@;
    let mut out: Vec<T> = Vec::new();
    for slot in it: slots.into_iter()
        invariant
            it.seq() == all,
            out@ == filled(all.take(it.index() as int)),
    {
        proof {
            let i = it.index();
            assert(all.take(i + 1).drop_last() =~= all.take(i as int));
        }
        match slot {
            Some(v) => out.push(v),
            None => {},
        }
    }
    proof {
        assert(all.take(all.len() as int) =~= all);
    }
    out
}

/// What the runtime reports when a task of a bounded group finishes.
pub enum TaskEvent<T, E> {
    /// The operation for input `index` returned `value`.
    Succeeded {
        /// Zero-based input index.
        index: usize,
        /// Operation output.
        value: T,
    },
    /// The operation for input `index` failed with `error`.
    Failed {
        /// Zero-based input index.
        index: usize,
        /// Caller-provided failure cause.
        error: E,
    },
    /// A task could not be joined (it panicked or the runtime cancelled it).
    JoinFailed,
}

/// What a first-error task group does next.
#[derive(Debug, PartialEq, Eq)]
pub enum TryMapAction<E> {
    /// Start this many more waiting operations.
    Start(usize),
    /// Abort and drain the remaining tasks, then report this failure.
    Fail {
        /// Zero-based input index.
        index: usize,
        /// Caller-provided failure cause.
        error: E,
    },
    /// Abort and drain the remaining tasks, then report the join failure.
    FailJoin,
}

/// What a collect-all task group does next.
#[derive(Debug, Clone, Copy, PartialEq, Eq, Structural)]
pub enum CollectAction {
    /// Start this many more waiting operations.
    Start(usize),
    /// Abort and drain the remaining tasks, then report the join failure.
    Stop,
}

/// The decision of a first-error task group on a finished task, with
/// `running` tasks still in flight and `waiting` inputs not started.
///
/// A success is stored in its input's slot, which is what keeps results in
/// input order, and more operations start as the bound allows; the first
/// failure, or a join failure, stops the group with nothing stored.
pub fn try_map_on_event<T, E>(
    slots: &mut Vec<Option<T>>,
    event: TaskEvent<T, E>,
    running: usize,
    max_concurrency: usize,
    waiting: usize,
) -> (a: TryMapAction<E>)
    requires
        event matches TaskEvent::Succeeded { index, .. } ==> index < old(slots)@.len(),
    ensures
        match event {
            TaskEvent::Succeeded { index, value } => final(slots)@ == old(slots)@.update(
                index as int,
                Some(value),
            ) && a == TryMapAction::<E>::Start(start_count(running, max_concurrency, waiting)),
            TaskEvent::Failed { index, error } => final(slots)@ == old(slots)@ && a
                == TryMapAction::Fail { index, error },
            TaskEvent::JoinFailed => final(slots)@ == old(slots)@ && a == TryMapAction::<E>::FailJoin,
        },
{
    match event {
        TaskEvent::Succeeded { index, value } => {
            slots.set(index, Some(value));
            TryMapAction::Start(tasks_to_start(running, max_concurrency, waiting))
        },
        TaskEvent::Failed { index, error } => TryMapAction::Fail { index, error },
        TaskEvent::JoinFailed => TryMapAction::FailJoin,
    }
}

/// The decision of a collect-all task group on a finished task, with
/// `running` tasks still in flight and `waiting` inputs not started.
///
/// Successes and failures alike are recorded and more operations start as
/// the bound allows: a failure cancels nothing. Only a join failure stops
/// the group.
pub fn collect_on_event<T, E>(
    successes: &mut Vec<TaskSuccess<T>>,
    failures: &mut Vec<TaskFailure<E>>,
    event: TaskEvent<T, E>,
    running: usize,
    max_concurrency: usize,
    waiting: usize,
) -> (a: CollectAction)
    ensures
        match event {
            TaskEvent::Succeeded { index, value } => final(successes)@ == old(successes)@.push(
                TaskSuccess { index, value },
            ) && final(failures)@ == old(failures)@ && a == CollectAction::Start(
                start_count(running, max_concurrency, waiting),
            ),
            TaskEvent::Failed { index, error } => final(failures)@ == old(failures)@.push(
                TaskFailure { index, error },
            ) && final(successes)@ == old(successes)@ && a == CollectAction::Start(
                start_count(running, max_concurrency, waiting),
            ),
            TaskEvent::JoinFailed => final(successes)@ == old(successes)@ && final(failures)@
                == old(failures)@ && a == CollectAction::Stop,
        },
{
    match event {
        TaskEvent::Succeeded { index, value } => {
            successes.push(TaskSuccess { index, value });
        },
        TaskEvent::Failed { index, error } => {
            failures.push(TaskFailure { index, error });
        },
        TaskEvent::JoinFailed => {
            return CollectAction::Stop;
        },
    }
    CollectAction::Start(tasks_to_start(running, max_concurrency, waiting))
}

/// Once every input's slot holds its result, the results come out whole
/// and in input order: the `i`-th result is the one stored for input `i`.
pub proof fn lemma_filled_slots_in_input_order<T>(slots: Seq<Option<T>>)
    requires
        forall|i: int| 0 <= i < slots.len() ==> #[trigger] slots[i] is Some,
    ensures
        filled(slots).len() == slots.len(),
        forall|i: int| 0 <= i < slots.len() ==> Some(#[trigger] filled(slots)[i]) == slots[i],
    decreases slots.len(),
{
    if slots.len() > 0 {
        let init = slots.drop_last();
        assert forall|i: int| 0 <= i < init.len() implies #[trigger] init[i] is Some by {
            assert(init[i] == slots[i]);
        }
        lemma_filled_slots_in_input_order(init);
        assert(slots.last() == slots[slots.len() - 1]);
        assert forall|i: int| 0 <= i < slots.len() implies Some(#[trigger] filled(slots)[i]) == slots[i] by {
            if i < slots.len() - 1 {
                assert(init[i] == slots[i]);
                assert(Some(filled(init)[i]) == init[i]);
            }
        }
    }
}

/// The slots after each `(index, value)` of `stored` was put in turn into
/// its index's slot, as `try_map_on_event` does with each success.
pub open spec fn store_all<T>(slots: Seq<Option<T>>, stored: Seq<(usize, T)>) -> Seq<Option<T>>
    decreases stored.len(),
{
    if stored.len() == 0 {
        slots
    } else {
        store_all(slots, stored.drop_last()).update(stored.last().0 as int, Some(stored.last().1))
    }
}

proof fn lemma_store_all<T>(slots: Seq<Option<T>>, stored: Seq<(usize, T)>)
    requires
        forall|j: int| 0 <= j < stored.len() ==> #[trigger] stored[j].0 < slots.len(),
        forall|j: int, l: int|
            0 <= j < l < stored.len() ==> #[trigger] stored[j].0 != #[trigger] stored[l].0,
    ensures
        store_all(slots, stored).len() == slots.len(),
        forall|j: int|
            0 <= j < stored.len() ==> store_all(slots, stored)[#[trigger] stored[j].0 as int] == Some(
                stored[j].1,
            ),
        forall|i: int|
            0 <= i < slots.len() && (forall|j: int| 0 <= j < stored.len() ==> #[trigger] stored[j].0 != i)
                ==> store_all(slots, stored)[i] == slots[i],
    decreases stored.len(),
{
    if stored.len() > 0 {
        let init = stored.drop_last();
        assert forall|j: int| 0 <= j < init.len() implies #[trigger] init[j].0 < slots.len() by {
            assert(init[j] == stored[j]);
        }
        assert forall|j: int, l: int| 0 <= j < l < init.len() implies #[trigger] init[j].0
            != #[trigger] init[l].0 by {
            assert(init[j] == stored[j] && init[l] == stored[l]);
        }
        lemma_store_all(slots, init);
        let last = stored.len() - 1;
        assert forall|j: int| 0 <= j < stored.len() implies store_all(slots, stored)[
            #[trigger] stored[j].0 as int] == Some(stored[j].1) by {
            if j < last {
                assert(init[j] == stored[j]);
                assert(stored[j].0 != stored[last].0);
            }
        }
        assert forall|i: int|
            0 <= i < slots.len() && (forall|j: int| 0 <= j < stored.len() ==> #[trigger] stored[j].0 != i)
            implies store_all(slots, stored)[i] == slots[i] by {
            assert(stored[last].0 != i);
            assert forall|j: int| 0 <= j < init.len() implies #[trigger] init[j].0 != i by {
                assert(init[j] == stored[j]);
            }
        }
    }
}

/// Whether some entry of `stored` is for input `i`.
pub open spec fn stores_index<T>(stored: Seq<(usize, T)>, i: int) -> bool {
    exists|j: int| 0 <= j < stored.len() && #[trigger] stored[j].0 == i
}

/// A whole first-error run that succeeds: when each of `n` inputs finishes
/// exactly once, in any completion order, storing every success in its slot
/// (as `try_map_on_event` does) and reading the slots with
/// `results_in_input_order` gives all `n` results, each at its input's
/// position.
pub proof fn lemma_try_map_run_in_input_order<T>(n: nat, stored: Seq<(usize, T)>)
    requires
        stored.len() == n,
        forall|j: int| 0 <= j < n ==> #[trigger] stored[j].0 < n,
        forall|j: int, l: int| 0 <= j < l < n ==> #[trigger] stored[j].0 != #[trigger] stored[l].0,
        forall|i: int| 0 <= i < n ==> #[trigger] stores_index(stored, i),
    ensures
        filled(store_all(Seq::new(n, |i: int| None::<T>), stored)).len() == n,
        forall|j: int|
            0 <= j < n ==> filled(store_all(Seq::new(n, |i: int| None::<T>), stored))[
                #[trigger] stored[j].0 as int] == stored[j].1,
{
    let empty = Seq::new(n, |i: int| None::<T>);
    lemma_store_all(empty, stored);
    let slots = store_all(empty, stored);
    assert forall|i: int| 0 <= i < slots.len() implies #[trigger] slots[i] is Some by {
        assert(stores_index(stored, i));
        let j = choose|j: int| 0 <= j < stored.len() && #[trigger] stored[j].0 == i;
        assert(slots[stored[j].0 as int] == Some(stored[j].1));
    }
    lemma_filled_slots_in_input_order(slots);
    assert forall|j: int| 0 <= j < n implies filled(slots)[#[trigger] stored[j].0 as int]
        == stored[j].1 by {
        assert(Some(filled(slots)[stored[j].0 as int]) == slots[stored[j].0 as int]);
    }
}

/// The successes and failures that `collect_on_event` records for a run
/// of finished tasks, in completion order.
pub open spec fn collect_all<T, E>(events: Seq<TaskEvent<T, E>>) -> (Seq<TaskSuccess<T>>, Seq<TaskFailure<E>>)
    decreases events.len(),
{
    if events.len() == 0 {
        (Seq::empty(), Seq::empty())
    } else {
        let (s, f) = collect_all(events.drop_last());
        match events.last() {
            TaskEvent::Succeeded { index, value } => (s.push(TaskSuccess { index, value }), f),
            TaskEvent::Failed { index, error } => (s, f.push(TaskFailure { index, error })),
            TaskEvent::JoinFailed => (s, f),
        }
    }
}

/// A whole collect-all run without join failures records every finished
/// task: each success among the successes, each failure among the
/// failures, and nothing else (`build_report` then orders each list by
/// input index, keeping every entry).
pub proof fn lemma_collect_run_records_everything<T, E>(events: Seq<TaskEvent<T, E>>)
    requires
        forall|j: int| 0 <= j < events.len() ==> !(#[trigger] events[j] is JoinFailed),
    ensures
        collect_all(events).0.len() + collect_all(events).1.len() == events.len(),
        forall|j: int|
            0 <= j < events.len() ==> (#[trigger] events[j] matches TaskEvent::Succeeded { index, value }
                ==> collect_all(events).0.contains(TaskSuccess { index, value })),
        forall|j: int|
            0 <= j < events.len() ==> (#[trigger] events[j] matches TaskEvent::Failed { index, error }
                ==> collect_all(events).1.contains(TaskFailure { index, error })),
    decreases events.len(),
{
    if events.len() > 0 {
        let init = events.drop_last();
        assert forall|j: int| 0 <= j < init.len() implies !(#[trigger] init[j] is JoinFailed) by {
            assert(init[j] == events[j]);
        }
        lemma_collect_run_records_everything(init);
        let (s, f) = collect_all(init);
        let last = events.len() - 1;
        assert(events.last() == events[last]);
        assert forall|j: int| 0 <= j < events.len() implies (#[trigger] events[j] matches TaskEvent::Succeeded {
            index,
            value,
        } ==> collect_all(events).0.contains(TaskSuccess { index, value })) by {
            if j < last {
                assert(init[j] == events[j]);
                if let TaskEvent::Succeeded { index, value } = events[j] {
                    let k = choose|k: int| 0 <= k < s.len() && s[k] == TaskSuccess { index, value };
                    if let TaskEvent::Succeeded { index: i2, value: v2 } = events.last() {
                        assert(s.push(TaskSuccess { index: i2, value: v2 })[k] == s[k]);
                    }
                }
            } else if let TaskEvent::Succeeded { index, value } = events[j] {
                assert(s.push(TaskSuccess { index, value })[s.len() as int] == TaskSuccess { index, value });
            }
        }
        assert forall|j: int| 0 <= j < events.len() implies (#[trigger] events[j] matches TaskEvent::Failed {
            index,
            error,
        } ==> collect_all(events).1.contains(TaskFailure { index, error })) by {
            if j < last {
                assert(init[j] == events[j]);
                if let TaskEvent::Failed { index, error } = events[j] {
                    let k = choose|k: int| 0 <= k < f.len() && f[k] == TaskFailure { index, error };
                    if let TaskEvent::Failed { index: i2, error: e2 } = events.last() {
                        assert(f.push(TaskFailure { index: i2, error: e2 })[k] == f[k]);
                    }
                }
            } else if let TaskEvent::Failed { index, error } = events[j] {
                assert(f.push(TaskFailure { index, error })[f.len() as int] == TaskFailure { index, error });
            }
        }
    }
}

} // verus!
