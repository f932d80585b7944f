//! A local copy of a remote ordered sequence, kept current by applying
//! incremental diff operations in arrival order.
use vstd::prelude::*;

verus! {

/// One incremental edit of an ordered sequence.
pub enum Diff<T> {
    Append(Vec<T>),
    Clear,
    PushFront(T),
    PushBack(T),
    PopFront,
    PopBack,
    Insert(usize, T),
    Update(usize, T),
    Remove(usize),
    Truncate(usize),
    Reset(Vec<T>),
}

/// A diff named an index outside the mirror: the mirror can no longer be
/// trusted to match the remote sequence.
#[derive(Debug, Clone, Copy, PartialEq, Eq, Structural)]
pub struct CorruptionError {
    /// The index that the diff named.
    pub index: usize,
    /// The length of the mirror when the diff arrived.
    pub len: usize,
}

/// Whether `d` can be applied to a sequence of length `len`: an insert may
/// name any position up to the end, an update or a remove only an existing item.
pub open spec fn fits<T>(len: nat, d: Diff<T>) -> bool {
    match d {
        Diff::Insert(i, _) => i <= len,
        Diff::Update(i, _) => i < len,
        Diff::Remove(i) => i < len,
        _ => true,
    }
}

/// The sequence after applying `d` to `s` (for a `d` that fits). Popping an
/// empty sequence and truncating to a larger length change nothing.
pub open spec fn applied<T>(s: Seq<T>, d: Diff<T>) -> Seq<T> {
    match d {
        Diff::Append(v) => s + v@,
        Diff::Clear => Seq::empty(),
        Diff::PushFront(x) => seq![x] + s,
        Diff::PushBack(x) => s.push(x),
        Diff::PopFront => if s.len() == 0 { s } else { s.drop_first() },
        Diff::PopBack => if s.len() == 0 { s } else { s.drop_last() },
        Diff::Insert(i, x) => s.insert(i as int, x),
        Diff::Update(i, x) => s.update(i as int, x),
        Diff::Remove(i) => s.remove(i as int),
        Diff::Truncate(n) => if n < s.len() { s.subrange(0, n as int) } else { s },
        Diff::Reset(v) => v@,
    }
}

/// Applies `ds` to `s` one by one. `Ok` holds the final sequence when every
/// diff fits; `Err` holds the sequence as it stood when the first diff that
/// did not fit arrived.
pub open spec fn replay<T>(s: Seq<T>, ds: Seq<Diff<T>>) -> Result<Seq<T>, Seq<T>>
    decreases ds.len(),
{
    if ds.len() == 0 {
        Ok(s)
    } else if !fits(s.len(), ds[0]) {
        Err(s)
    } else {
        replay(applied(s, ds[0]), ds.drop_first())
    }
}

/// The sequence that `replay` ends with, whether or not it stopped early.
pub open spec fn replay_state<T>(s: Seq<T>, ds: Seq<Diff<T>>) -> Seq<T> {
    match replay(s, ds) {
        Ok(r) => r,
        Err(r) => r,
    }
}

/// Applying a batch then another is applying the two as one batch.
pub proof fn lemma_replay_concat<T>(s: Seq<T>, ds1: Seq<Diff<T>>, ds2: Seq<Diff<T>>)
    ensures
        replay(s, ds1 + ds2) == match replay(s, ds1) {
            Ok(r) => replay(r, ds2),
            Err(r) => Err(r),
        },
    decreases ds1.len(),
{
    if ds1.len() > 0 {
        assert((ds1 + ds2).drop_first() =~= ds1.drop_first() + ds2);
        lemma_replay_concat(applied(s, ds1[0]), ds1.drop_first(), ds2);
    } else {
        assert(ds1 + ds2 =~= ds2);
    }
}

/// A reset repeated with the same values leaves what one reset leaves.
pub proof fn lemma_reset_idempotent<T>(s: Seq<T>, values: Vec<T>)
    ensures
        applied(applied(s, Diff::Reset(values)), Diff::Reset(values)) == applied(
            s,
            Diff::Reset(values),
        ),
        replay(s, seq![Diff::Reset(values), Diff::Reset(values)]) == replay(
            s,
            seq![Diff::Reset(values)],
        ),
{
    let two = seq![Diff::Reset(values), Diff::Reset(values)];
    let one = seq![Diff::Reset(values)];
    let r = values@;
    assert(two.drop_first() =~= one);
    assert(one.drop_first() =~= Seq::<Diff<T>>::empty());
    assert(replay(r, Seq::<Diff<T>>::empty()) == Ok::<Seq<T>, Seq<T>>(r));
    assert(replay(r, one) == replay(r, one.drop_first()));
    assert(replay(s, one) == replay(r, one.drop_first()));
    assert(replay(s, two) == replay(r, two.drop_first()));
}

/// A local copy of a remote ordered sequence.
pub struct OrderedMirror<T> {
    items: Vec<T>,
}

impl<T> View for OrderedMirror<T> {
    type V = Seq<T>;

    closed spec fn view(&self) -> Seq<T> {
        self.items@
    }
}

impl<T> OrderedMirror<T> {
    /// An empty mirror.
    pub fn new() -> (m: Self)
        ensures
            m@ == Seq::<T>::empty(),
    {
        OrderedMirror { items: Vec::new() }
    }

    /// The number of items.
    pub fn len(&self) -> (n: usize)
        ensures
            n == self@.len(),
    {
        self.items.len()
    }

    /// The item at `i`.
    pub fn get(&self, i: usize) -> (x: &T)
        requires
            i < self@.len(),
        ensures
            *x == self@[i as int],
    {
        &self.items[i]
    }

    /// The items, in order.
    pub fn items(&self) -> (v: &Vec<T>)
        ensures
            v@ == self@,
    {
        &self.items
    }

    /// Applies one diff. A diff that names an index outside the mirror is
    /// refused with a `CorruptionError` and changes nothing.
    pub fn apply(&mut self, diff: Diff<T>) -> (r: Result<(), CorruptionError>)
        ensures
            r is Ok <==> fits(old(self)@.len(), diff),
            r is Ok ==> final(self)@ == applied(old(self)@, diff),
            r is Err ==> final(self)@ == old(self)@,
            r matches Err(e) ==> e.len == old(self)@.len() && match diff {
                Diff::Insert(i, _) => e.index == i,
                Diff::Update(i, _) => e.index == i,
                Diff::Remove(i) => e.index == i,
                _ => false,
            },
    {
        let len = self.items.len();
        match diff {
            Diff::Append(values) => {
                let mut values = values;
                self.items.append(&mut values);
            },
            Diff::Clear => {
                self.items.clear();
            },
            Diff::PushFront(x) => {
                self.items.insert(0, x);
                assert(self.items@ =~= seq![x] + old(self)@);
            },
            Diff::PushBack(x) => {
                self.items.push(x);
            },
            Diff::PopFront => {
                if len > 0 {
                    self.items.remove(0);
                    assert(self.items@ =~= old(self)@.drop_first());
                }
            },
            Diff::PopBack => {
                if len > 0 {
                    self.items.pop();
                }
            },
            Diff::Insert(i, x) => {
                if i > len {
                    return Err(CorruptionError { index: i, len });
                }
                self.items.insert(i, x);
            },
            Diff::Update(i, x) => {
                if i >= len {
                    return Err(CorruptionError { index: i, len });
                }
                self.items.set(i, x);
            },
            Diff::Remove(i) => {
                if i >= len {
                    return Err(CorruptionError { index: i, len });
                }
                self.items.remove(i);
            },
            Diff::Truncate(n) => {
                self.items.truncate(n);
            },
            Diff::Reset(values) => {
                self.items = values;
            },
        }
        Ok(())
    }

    /// Applies a batch of diffs one at a time, in order, and stops at the
    /// first one that names an index outside the mirror. The diffs before it
    /// stay applied; it and those after it are not.
    pub fn apply_batch(&mut self, diffs: Vec<Diff<T>>) -> (r: Result<(), CorruptionError>)
        ensures
            r is Ok <==> replay(old(self)@, diffs@) is Ok,
            final(self)@ == replay_state(old(self)@, diffs@),
    {
        let ghost ds = diffs@;
        assert(ds.subrange(0, ds.len() as int) =~= ds);
        for d in it: diffs.into_iter()
            invariant
                it.seq() == ds,
                replay(old(self)@, ds) == replay(self@, ds.subrange(it.index() as int, ds.len() as int)),
        {
            let ghost rest = ds.subrange(it.index() as int, ds.len() as int);
            assert(rest[0] == d);
            assert(rest.drop_first() =~= ds.subrange(it.index() + 1, ds.len() as int));
            let r = self.apply(d);
            if r.is_err() {
                return r;
            }
        }
        assert(ds.subrange(ds.len() as int, ds.len() as int) =~= Seq::<Diff<T>>::empty());
        Ok(())
    }
}

} // verus!
