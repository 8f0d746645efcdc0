//! Chunking, windows, splitting, counting, grouping and partitioning of
//! owned item sequences.
use vstd::prelude::*;
use std::collections::{HashMap, VecDeque};
use std::hash::Hash;
use vstd::std_specs::hash::obeys_key_model;
use crate::collections::error::CollectionError;

verus! {

broadcast use vstd::std_specs::vec::group_vec_axioms;

/// The views of a vector of vectors.
pub open spec fn nested_view<T>(v: Seq<Vec<T>>) -> Seq<Seq<T>> {
    v.map_values(|c: Vec<T>| c@)
}

/// `a` or `b`, whichever is smaller.
pub open spec fn min_nat(a: nat, b: nat) -> nat {
    if a < b { a } else { b }
}

/// `s` cut into consecutive non-overlapping chunks of `size` items; the last
/// chunk holds the remainder.
pub open spec fn chunk_seq<T>(s: Seq<T>, size: nat) -> Seq<Seq<T>>
    decreases s.len(),
{
    if s.len() == 0 || size == 0 {
        Seq::empty()
    } else if s.len() <= size {
        seq![s]
    } else {
        seq![s.take(size as int)] + chunk_seq(s.skip(size as int), size)
    }
}

/// Chunking partitions the input: the chunks, joined in order, give back
/// exactly the items; every chunk holds between one and `size` items, and
/// every chunk but the last holds exactly `size`.
pub proof fn lemma_chunks_partition<T>(s: Seq<T>, size: nat)
    requires
        size > 0,
    ensures
        chunk_seq(s, size).flatten() == s,
        forall|i: int|
            0 <= i < chunk_seq(s, size).len() ==> 0 < (#[trigger] chunk_seq(s, size)[i]).len()
                <= size,
        forall|i: int|
            0 <= i < chunk_seq(s, size).len() - 1 ==> (#[trigger] chunk_seq(s, size)[i]).len()
                == size,
    decreases s.len(),
{
    if s.len() == 0 {
    } else if s.len() <= size {
        seq![s].lemma_flatten_one_element();
    } else {
        let rest = chunk_seq(s.skip(size as int), size);
        lemma_chunks_partition(s.skip(size as int), size);
        let all = seq![s.take(size as int)] + rest;
        assert(all.first() == s.take(size as int));
        assert(all.drop_first() =~= rest);
        assert(s.take(size as int) + s.skip(size as int) =~= s);
        assert forall|i: int| 0 <= i < all.len() implies 0 < (#[trigger] all[i]).len() <= size by {
            if i > 0 {
                assert(all[i] == rest[i - 1]);
            }
        }
        assert forall|i: int| 0 <= i < all.len() - 1 implies (#[trigger] all[i]).len() == size by {
            if i > 0 {
                assert(all[i] == rest[i - 1]);
            }
        }
    }
}

/// Lazy sequence of non-overlapping chunks returned by `chunks`.
#[derive(Debug)]
pub struct Chunks<T> {
    rest: VecDeque<T>,
    size: usize,
}

impl<T> View for Chunks<T> {
    /// The items not yet handed out, and the chunk size.
    type V = (Seq<T>, nat);

    closed spec fn view(&self) -> (Seq<T>, nat) {
        (self.rest@, self.size as nat)
    }
}

impl<T> Chunks<T> {
    /// The next chunk: up to `size` of the remaining items, in order; `None`
    /// once every item was handed out.
    pub fn next(&mut self) -> (r: Option<Vec<T>>)
        ensures
            ({
                let k = min_nat(old(self)@.1, old(self)@.0.len());
                &&& final(self)@.1 == old(self)@.1
                &&& k == 0 ==> r is None && final(self)@.0 == old(self)@.0
                &&& k > 0 ==> (r matches Some(c) && c@ == old(self)@.0.take(k as int)
                    && final(self)@.0 == old(self)@.0.skip(k as int))
            }),
    {
        let ghost start = self.rest@;
        let ghost size0 = self.size;
        let mut chunk: Vec<T> = Vec::new();
        let mut taken: usize = 0;
        while taken < self.size
            invariant
                self.size == size0,
                taken <= self.size,
                taken <= start.len(),
                chunk@ == start.take(taken as int),
                self.rest@ == start.skip(taken as int),
            ensures
                self.size == size0,
                taken == self.size || taken == start.len(),
                taken <= self.size,
                taken <= start.len(),
                chunk@ == start.take(taken as int),
                self.rest@ == start.skip(taken as int),
            decreases self.size - taken,
        {
            match self.rest.pop_front() {
                Some(item) => {
                    chunk.push(item);
                    taken = taken + 1;
                },
                None => {
                    break;
                },
            }
        }
        if chunk.len() == 0 {
            proof {
                assert(start.skip(0) =~= start);
            }
            None
        } else {
            Some(chunk)
        }
    }

    /// All remaining chunks, in order.
    pub fn collect(self) -> (r: Vec<Vec<T>>)
        ensures
            nested_view(r@) == chunk_seq(self@.0, self@.1),
    {
        let ghost all = chunk_seq(self@.0, self@.1);
        let mut this = self;
        let mut out: Vec<Vec<T>> = Vec::new();
        loop
            invariant
                all == chunk_seq(self@.0, self@.1),
                nested_view(out@) + chunk_seq(this@.0, this@.1) == all,
            decreases this@.0.len(),
        {
            let ghost before = this@;
            match this.next() {
                Some(c) => {
                    proof {
                        let k = min_nat(before.1, before.0.len());
                        if before.0.len() <= before.1 {
                            assert(before.0.take(k as int) =~= before.0);
                            assert(before.0.skip(k as int) =~= Seq::<T>::empty());
                        }
                        assert(chunk_seq(before.0, before.1) =~= seq![c@] + chunk_seq(this@.0, this@.1));
                        assert(nested_view(out@.push(c)) =~= nested_view(out@).push(c@));
                    }
                    out.push(c);
                },
                None => {
                    proof {
                        assert(chunk_seq(before.0, before.1) =~= Seq::<Seq<T>>::empty());
                        assert(nested_view(out@) + Seq::<Seq<T>>::empty() =~= nested_view(out@));
                    }
                    return out;
                },
            }
        }
    }
}

/// Creates a lazy sequence of non-overlapping chunks of `size` items.
///
/// Fails with `InvalidSize` for the parameter `size` when `size` is zero.
pub fn chunks<T>(items: Vec<T>, size: usize) -> (r: Result<Chunks<T>, CollectionError>)
    ensures
        size == 0 ==> r == Err::<Chunks<T>, CollectionError>(
            CollectionError::InvalidSize { parameter: "size", value: 0 },
        ),
        size > 0 ==> (r matches Ok(c) && c@ == (items@, size as nat)),
{
    if size == 0 {
        return Err(CollectionError::InvalidSize { parameter: "size", value: size });
    }
    let mut rest: VecDeque<T> = VecDeque::new();
    for item in it: items.into_iter()
        invariant
            it.seq() == items@,
            rest@ == it.seq().take(it.index() as int),
    {
        rest.push_back(item);
    }
    Ok(Chunks { rest, size })
}

/// Length of the window that starts at `start` in `n` items: `size` items,
/// or fewer at the tail when `partial`; zero when there is no such window.
pub open spec fn window_len(n: nat, start: nat, size: nat, partial: bool) -> nat {
    if start < n && (n - start >= size || partial) {
        min_nat(size, (n - start) as nat)
    } else {
        0
    }
}

/// Number of windows from `start` on in `n` items.
pub open spec fn window_count(n: nat, start: nat, size: nat, partial: bool) -> nat {
    if start >= n {
        0
    } else if partial {
        (n - start) as nat
    } else if n - start >= size {
        (n - start - size + 1) as nat
    } else {
        0
    }
}

/// Whether `w` holds clones of the `len` items of `items` from `start` on.
pub open spec fn clones_of<T: Clone>(w: Seq<T>, items: Seq<T>, start: int, len: nat) -> bool {
    &&& w.len() == len
    &&& forall|j: int| 0 <= j < len ==> cloned::<T>(items[start + j], #[trigger] w[j])
}

/// Lazy sequence of overlapping windows returned by `sliding_windows` and
/// `windows`.
#[derive(Debug)]
pub struct SlidingWindows<T> {
    items: Vec<T>,
    start: usize,
    size: usize,
    partial_windows: bool,
}

impl<T> View for SlidingWindows<T> {
    /// The items, the start of the next window, the window size, and whether
    /// shrinking tail windows are included.
    type V = (Seq<T>, nat, nat, bool);

    closed spec fn view(&self) -> (Seq<T>, nat, nat, bool) {
        (self.items@, self.start as nat, self.size as nat, self.partial_windows)
    }
}

proof fn lemma_window_progress(n: nat, start: nat, size: nat, partial: bool, i: nat)
    requires
        size > 0,
        start <= n,
    ensures
        i < window_count(n, start, size, partial) ==> window_len(n, start + i, size, partial) > 0,
        window_count(n, start, size, partial) <= n - start,
        window_len(n, start + window_count(n, start, size, partial), size, partial) == 0,
{
}

impl<T> SlidingWindows<T> {
    #[verifier::type_invariant]
    spec fn well_formed(self) -> bool {
        self.size > 0 && self.start <= self.items.len()
    }
}

impl<T: Clone> SlidingWindows<T> {
    /// The next window: clones of the items from the current start, `size` of
    /// them or, when partial windows are on, fewer at the tail; `None` when no
    /// window is left.
    pub fn next(&mut self) -> (r: Option<Vec<T>>)
        ensures
            ({
                let (items, start, size, partial) = old(self)@;
                let k = window_len(items.len(), start, size, partial);
                &&& k == 0 ==> r is None && final(self)@ == old(self)@
                &&& k > 0 ==> (r matches Some(w) && clones_of(w@, items, start as int, k)
                    && final(self)@ == (items, start + 1, size, partial))
            }),
    {
        proof {
            use_type_invariant(&*self);
        }
        let n = self.items.len();
        let start = self.start;
        if !(start < n && (n - start >= self.size || self.partial_windows)) {
            return None;
        }
        let len = if self.size < n - start { self.size } else { n - start };
        let mut w: Vec<T> = Vec::with_capacity(len);
        let mut j: usize = 0;
        while j < len
            invariant
                j <= len,
                start + len <= n,
                n == self.items.len(),
                w@.len() == j,
                forall|m: int| 0 <= m < j ==> cloned::<T>(self.items@[start + m], #[trigger] w@[m]),
            decreases len - j,
        {
            w.push(self.items[start + j].clone());
            j = j + 1;
        }
        self.start = start + 1;
        Some(w)
    }

    /// All remaining windows, in order.
    pub fn collect(self) -> (r: Vec<Vec<T>>)
        ensures
            ({
                let (items, start, size, partial) = self@;
                &&& r@.len() == window_count(items.len(), start, size, partial)
                &&& forall|i: int|
                    0 <= i < r@.len() ==> clones_of(
                        #[trigger] r@[i]@,
                        items,
                        start + i,
                        window_len(items.len(), (start + i) as nat, size, partial),
                    )
            }),
    {
        proof {
            use_type_invariant(&self);
        }
        let ghost (items, start0, size, partial) = self@;
        let ghost count = window_count(items.len(), start0, size, partial);
        proof {
            lemma_window_progress(items.len(), start0, size, partial, 0);
        }
        let mut this = self;
        let mut out: Vec<Vec<T>> = Vec::new();
        loop
            invariant
                (items, start0, size, partial) == self@,
                count == window_count(items.len(), start0, size, partial),
                size > 0,
                start0 <= items.len(),
                this@ == (items, (start0 + out@.len()) as nat, size, partial),
                out@.len() <= count,
                forall|i: int|
                    0 <= i < out@.len() ==> clones_of(
                        #[trigger] out@[i]@,
                        items,
                        start0 + i,
                        window_len(items.len(), (start0 + i) as nat, size, partial),
                    ),
            decreases count - out@.len(),
        {
            proof {
                lemma_window_progress(items.len(), start0, size, partial, out@.len());
            }
            match this.next() {
                Some(w) => {
                    out.push(w);
                },
                None => {
                    return out;
                },
            }
        }
    }
}

/// Creates overlapping windows of `size` items, optionally followed by
/// shrinking tail windows.
///
/// Items are cloned into each window. Fails with `InvalidSize` for the
/// parameter `size` when `size` is zero.
pub fn sliding_windows<T: Clone>(items: Vec<T>, size: usize, partial_windows: bool) -> (r: Result<
    SlidingWindows<T>,
    CollectionError,
>)
    ensures
        size == 0 ==> r == Err::<SlidingWindows<T>, CollectionError>(
            CollectionError::InvalidSize { parameter: "size", value: 0 },
        ),
        size > 0 ==> (r matches Ok(w) && w@ == (items@, 0nat, size as nat, partial_windows)),
{
    if size == 0 {
        return Err(CollectionError::InvalidSize { parameter: "size", value: size });
    }
    Ok(SlidingWindows { items, start: 0, size, partial_windows })
}

/// Creates exact overlapping windows of `size` items: `sliding_windows`
/// without partial tail windows.
pub fn windows<T: Clone>(items: Vec<T>, size: usize) -> (r: Result<SlidingWindows<T>, CollectionError>)
    ensures
        size == 0 ==> r == Err::<SlidingWindows<T>, CollectionError>(
            CollectionError::InvalidSize { parameter: "size", value: 0 },
        ),
        size > 0 ==> (r matches Ok(w) && w@ == (items@, 0nat, size as nat, false)),
{
    sliding_windows(items, size, false)
}

/// `items` split into chunks, a new chunk starting at every item after the
/// first whose flag is set; no chunk is empty.
pub open spec fn split_at_flags<T>(items: Seq<T>, flags: Seq<bool>) -> Seq<Seq<T>>
    decreases items.len(),
{
    if items.len() == 0 {
        Seq::empty()
    } else if items.len() == 1 {
        seq![items]
    } else {
        let prev = split_at_flags(items.drop_last(), flags.drop_last());
        if flags[items.len() - 1] {
            prev.push(seq![items.last()])
        } else {
            prev.update(prev.len() - 1, prev.last().push(items.last()))
        }
    }
}

proof fn lemma_split_at_flags_nonempty<T>(items: Seq<T>, flags: Seq<bool>)
    requires
        items.len() > 0,
    ensures
        split_at_flags(items, flags).len() > 0,
    decreases items.len(),
{
    if items.len() > 1 {
        lemma_split_at_flags_nonempty(items.drop_last(), flags.drop_last());
    }
}

/// Splitting partitions the input: the chunks, joined in order, give back
/// exactly the items, and no chunk is empty.
pub proof fn lemma_split_partition<T>(items: Seq<T>, flags: Seq<bool>)
    requires
        flags.len() == items.len(),
    ensures
        split_at_flags(items, flags).flatten() == items,
        forall|i: int|
            0 <= i < split_at_flags(items, flags).len() ==> (#[trigger] split_at_flags(
                items,
                flags,
            )[i]).len() > 0,
    decreases items.len(),
{
    broadcast use Seq::lemma_flatten_push;

    if items.len() == 0 {
    } else if items.len() == 1 {
        seq![items].lemma_flatten_one_element();
    } else {
        let prev = split_at_flags(items.drop_last(), flags.drop_last());
        lemma_split_partition(items.drop_last(), flags.drop_last());
        lemma_split_at_flags_nonempty(items.drop_last(), flags.drop_last());
        assert(items.drop_last().push(items.last()) =~= items);
        if flags[items.len() - 1] {
            assert(prev.push(seq![items.last()]).flatten() =~= prev.flatten() + seq![items.last()]);
        } else {
            let n = prev.len() - 1;
            let init = prev.drop_last();
            assert(prev =~= init.push(prev.last()));
            let next = prev.update(n, prev.last().push(items.last()));
            assert(next =~= init.push(prev.last().push(items.last())));
            assert(next.flatten() =~= init.flatten() + prev.last().push(items.last()));
            assert(prev.flatten() =~= init.flatten() + prev.last());
            assert forall|i: int| 0 <= i < next.len() implies (#[trigger] next[i]).len() > 0 by {
                if i < n {
                    assert(next[i] == prev[i]);
                }
            }
        }
    }
}

/// Splits items whenever `predicate` marks the first item of the next chunk.
///
/// The matching item starts the new chunk. Empty input gives no chunks, and
/// no empty leading chunk is emitted when the first item matches. The
/// predicate is asked about every item, in order.
pub fn chunked_by<T, F: Fn(&T) -> bool>(items: Vec<T>, predicate: F) -> (r: Vec<Vec<T>>)
    requires
        forall|i: int| 0 <= i < items@.len() ==> call_requires(predicate, (&#[trigger] items@[i],)),
    ensures
        exists|flags: Seq<bool>|
            {
                &&& flags.len() == items@.len()
                &&& forall|i: int|
                    0 <= i < items@.len() ==> call_ensures(predicate, (&items@[i],), #[trigger] flags[i])
                &&& nested_view(r@) == split_at_flags(items@, flags)
            },
{
    let ghost all = items@;
    let ghost mut flags: Seq<bool> = Seq::empty();
    let mut result: Vec<Vec<T>> = Vec::new();
    let mut current: Vec<T> = Vec::new();
    for item in it: items.into_iter()
        invariant
            it.seq() == all,
            forall|i: int| 0 <= i < all.len() ==> call_requires(predicate, (&#[trigger] all[i],)),
            flags.len() == it.index(),
            forall|i: int| 0 <= i < it.index() ==> call_ensures(predicate, (&all[i],), #[trigger] flags[i]),
            it.index() == 0 <==> current@.len() == 0,
            it.index() > 0 ==> nested_view(result@).push(current@) == split_at_flags(
                all.take(it.index() as int),
                flags,
            ),
            it.index() == 0 ==> result@.len() == 0,
    {
        let ghost i = it.index();
        let ghost old_flags = flags;
        let ghost result0 = nested_view(result@);
        let ghost current0 = current@;
        assert(all[i as int] == item);
        let starts = predicate(&item);
        proof {
            flags = flags.push(starts);
        }
        if starts && current.len() > 0 {
            let ghost prev = result@;
            result.push(current);
            proof {
                assert(nested_view(result@) =~= nested_view(prev).push(result@.last()@));
            }
            current = Vec::new();
        }
        current.push(item);
        proof {
            let p = all.take(i + 1);
            assert(p.drop_last() =~= all.take(i as int));
            assert(flags.drop_last() =~= old_flags);
            assert(p.last() == item);
            if i == 0 {
                assert(p =~= seq![item]);
                assert(current@ =~= seq![item]);
                assert(nested_view(result@) =~= Seq::<Seq<T>>::empty());
                assert(nested_view(result@).push(current@) =~= seq![p]);
            } else {
                let prev = split_at_flags(p.drop_last(), flags.drop_last());
                assert(prev == result0.push(current0));
                if starts {
                    assert(nested_view(result@).push(current@) =~= prev.push(seq![item]));
                } else {
                    assert(nested_view(result@).push(current@) =~= prev.update(
                        prev.len() - 1,
                        prev.last().push(item),
                    ));
                }
            }
        }
    }
    let ghost before = result@;
    if current.len() > 0 {
        result.push(current);
    }
    proof {
        assert(all.take(all.len() as int) =~= all);
        if all.len() > 0 {
            assert(nested_view(result@) =~= nested_view(before).push(result@.last()@));
        } else {
            assert(nested_view(result@) =~= Seq::<Seq<T>>::empty());
        }
    }
    result
}

/// The successful values of `items`, in order.
pub open spec fn ok_values<T, E>(items: Seq<Result<T, E>>) -> Seq<T>
    decreases items.len(),
{
    if items.len() == 0 {
        Seq::empty()
    } else {
        match items.last() {
            Ok(v) => ok_values(items.drop_last()).push(v),
            Err(_) => ok_values(items.drop_last()),
        }
    }
}

/// The errors of `items`, in order.
pub open spec fn err_values<T, E>(items: Seq<Result<T, E>>) -> Seq<E>
    decreases items.len(),
{
    if items.len() == 0 {
        Seq::empty()
    } else {
        match items.last() {
            Ok(_) => err_values(items.drop_last()),
            Err(e) => err_values(items.drop_last()).push(e),
        }
    }
}

/// Partitions results into the successful values and the errors, each in
/// input order.
pub fn partition_results<T, E>(items: Vec<Result<T, E>>) -> (r: (Vec<T>, Vec<E>))
    ensures
        r.0@ == ok_values(items@),
        r.1@ == err_values(items@),
{
    let ghost all = items@;
    let mut values: Vec<T> = Vec::new();
    let mut errors: Vec<E> = Vec::new();
    for item in it: items.into_iter()
        invariant
            it.seq() == all,
            values@ == ok_values(all.take(it.index() as int)),
            errors@ == err_values(all.take(it.index() as int)),
    {
        proof {
            let i = it.index();
            assert(all.take(i + 1).drop_last() =~= all.take(i as int));
            assert(all.take(i + 1).last() == item);
        }
        match item {
            Ok(value) => values.push(value),
            Err(error) => errors.push(error),
        }
    }
    proof {
        assert(all.take(all.len() as int) =~= all);
    }
    (values, errors)
}

/// Counts occurrences of each item.
///
/// Every distinct item becomes a key whose value is its number of
/// occurrences; the map's iteration order is unspecified. What the contract
/// states holds for item types whose `Eq` and `Hash` agree with equality of
/// values (`obeys_key_model`), such as the integer types.
pub fn frequencies<T: Eq + Hash>(items: Vec<T>) -> (r: HashMap<T, usize>)
    ensures
        obeys_key_model::<T>() ==> {
            &&& forall|x: T| #[trigger] r@.contains_key(x) <==> items@.contains(x)
            &&& forall|x: T| r@.contains_key(x) ==> r@[x] == #[trigger] items@.to_multiset().count(x)
        },
{
    broadcast use vstd::std_specs::hash::group_hash_axioms;
    broadcast use vstd::seq_lib::group_to_multiset_ensures;

    let ghost all = items@;
    let mut counts: HashMap<T, usize> = HashMap::new();
    let n = items.len();
    assert(all.len() == n);
    for item in it: items.into_iter()
        invariant
            it.seq() == all,
            all.len() <= usize::MAX,
            obeys_key_model::<T>() ==> {
                let prefix = all.take(it.index() as int);
                &&& forall|x: T| #[trigger] counts@.contains_key(x) <==> prefix.contains(x)
                &&& forall|x: T|
                    counts@.contains_key(x) ==> counts@[x] == #[trigger] prefix.to_multiset().count(x)
            },
    {
        let ghost i = it.index();
        let ghost prefix = all.take(i as int);
        let ghost next = all.take(i + 1);
        proof {
            assert(next =~= prefix.push(item));
            vstd::multiset::axiom_count_le_len(prefix.to_multiset(), item);
            prefix.to_multiset_ensures();
            assert(prefix.push(item).to_multiset() =~= prefix.to_multiset().insert(item));
            assert(next.to_multiset() =~= prefix.to_multiset().insert(item));
            assert(prefix.len() == i);
            assert(!prefix.contains(item) ==> prefix.to_multiset().count(item) == 0);
        }
        let c: usize = match counts.get(&item) {
            Some(c) => *c,
            None => 0,
        };
        let bumped = if c < usize::MAX {
            c + 1
        } else {
            c
        };
        counts.insert(item, bumped);
        proof {
            if obeys_key_model::<T>() {
                assert forall|x: T| counts@.contains_key(x) implies counts@[x] == #[trigger] next.to_multiset().count(x) by {
                    if x != item {
                        assert(next.to_multiset().count(x) == prefix.to_multiset().count(x));
                    }
                }
                assert forall|x: T| #[trigger] counts@.contains_key(x) <==> next.contains(x) by {
                    if prefix.contains(x) {
                        let j = choose|j: int| 0 <= j < prefix.len() && prefix[j] == x;
                        assert(next[j] == x);
                    }
                    if next.contains(x) && x != item {
                        let j = choose|j: int| 0 <= j < next.len() && next[j] == x;
                        assert(j < prefix.len());
                        assert(prefix[j] == x);
                    }
                    assert(next[i as int] == item);
                }
            }
        }
    }
    proof {
        assert(all.take(all.len() as int) =~= all);
    }
    counts
}

/// Items grouped by key: each key of `keys` maps to the items whose key it
/// is, in input order.
pub open spec fn group_map<T, K>(items: Seq<T>, keys: Seq<K>) -> Map<K, Seq<T>>
    decreases items.len(),
{
    if items.len() == 0 {
        Map::empty()
    } else {
        let prev = group_map(items.drop_last(), keys.drop_last());
        let k = keys[items.len() - 1];
        let before = if prev.contains_key(k) { prev[k] } else { Seq::empty() };
        prev.insert(k, before.push(items.last()))
    }
}

/// Groups items by a key derived from each item.
///
/// Items within a group keep input order; the map's key order is
/// unspecified. The key selector is asked once per item, in order. What the
/// contract states of the groups holds for key types whose `Eq` and `Hash`
/// agree with equality of values (`obeys_key_model`).
pub fn group_by<T, K: Eq + Hash, F: Fn(&T) -> K>(items: Vec<T>, key_selector: F) -> (r: HashMap<
    K,
    Vec<T>,
>)
    requires
        forall|i: int| 0 <= i < items@.len() ==> call_requires(key_selector, (&#[trigger] items@[i],)),
    ensures
        exists|keys: Seq<K>|
            {
                &&& keys.len() == items@.len()
                &&& forall|i: int|
                    0 <= i < items@.len() ==> call_ensures(key_selector, (&items@[i],), #[trigger] keys[i])
                &&& obeys_key_model::<K>() ==> {
                    let g = group_map(items@, keys);
                    &&& forall|k: K| #[trigger] r@.contains_key(k) <==> g.contains_key(k)
                    &&& forall|k: K| r@.contains_key(k) ==> (#[trigger] r@[k])@ == g[k]
                }
            },
{
    broadcast use vstd::std_specs::hash::group_hash_axioms;

    let ghost all = items@;
    let ghost mut keys: Seq<K> = Seq::empty();
    let mut groups: HashMap<K, Vec<T>> = HashMap::new();
    for item in it: items.into_iter()
        invariant
            it.seq() == all,
            forall|i: int| 0 <= i < all.len() ==> call_requires(key_selector, (&#[trigger] all[i],)),
            keys.len() == it.index(),
            forall|i: int| 0 <= i < it.index() ==> call_ensures(key_selector, (&all[i],), #[trigger] keys[i]),
            obeys_key_model::<K>() ==> {
                let g = group_map(all.take(it.index() as int), keys);
                &&& forall|k: K| #[trigger] groups@.contains_key(k) <==> g.contains_key(k)
                &&& forall|k: K| groups@.contains_key(k) ==> (#[trigger] groups@[k])@ == g[k]
            },
    {
        let ghost i = it.index();
        let ghost old_keys = keys;
        let ghost old_groups = groups@;
        assert(all[i as int] == item);
        let key = key_selector(&item);
        proof {
            keys = keys.push(key);
        }
        let mut group = match groups.remove(&key) {
            Some(g) => g,
            None => Vec::new(),
        };
        let ghost group0 = group@;
        group.push(item);
        groups.insert(key, group);
        proof {
            let next = all.take(i + 1);
            assert(next.drop_last() =~= all.take(i as int));
            assert(keys.drop_last() =~= old_keys);
            assert(next.last() == item);
            if obeys_key_model::<K>() {
                let g0 = group_map(all.take(i as int), old_keys);
                let g = group_map(next, keys);
                assert(g == g0.insert(key, (if g0.contains_key(key) { g0[key] } else { Seq::empty() }).push(item)));
                assert(group0 == (if g0.contains_key(key) { g0[key] } else { Seq::empty() }));
                assert forall|k: K| #[trigger] groups@.contains_key(k) <==> g.contains_key(k) by {}
                assert forall|k: K| groups@.contains_key(k) implies (#[trigger] groups@[k])@ == g[k] by {
                    if k != key {
                        assert(groups@[k] == old_groups[k]);
                    }
                }
            }
        }
    }
    proof {
        assert(all.take(all.len() as int) =~= all);
    }
    groups
}

/// Partitioning keeps every value and every error, in input order: the
/// values are the payloads of the `Ok` items and the errors the payloads of
/// the `Err` items, each filtered out of the input in order.
pub proof fn lemma_partition_keeps_input_order<T, E>(items: Seq<Result<T, E>>)
    ensures
        ok_values(items) == items.filter(|r: Result<T, E>| r is Ok).map_values(
            |r: Result<T, E>| r->Ok_0,
        ),
        err_values(items) == items.filter(|r: Result<T, E>| r is Err).map_values(
            |r: Result<T, E>| r->Err_0,
        ),
    decreases items.len(),
{
    reveal(Seq::filter);
    if items.len() > 0 {
        let init = items.drop_last();
        lemma_partition_keeps_input_order(init);
        let fo = init.filter(|r: Result<T, E>| r is Ok);
        let fe = init.filter(|r: Result<T, E>| r is Err);
        match items.last() {
            Ok(v) => {
                assert(fo.push(items.last()).map_values(|r: Result<T, E>| r->Ok_0) =~= fo.map_values(
                    |r: Result<T, E>| r->Ok_0,
                ).push(v));
            },
            Err(e) => {
                assert(fe.push(items.last()).map_values(|r: Result<T, E>| r->Err_0) =~= fe.map_values(
                    |r: Result<T, E>| r->Err_0,
                ).push(e));
            },
        }
    }
}

} // verus!
