//! The queue of the events that one host still has to run.
//!
//! Events come out in the order in which they are due: by time, then by
//! sequence number, and events that agree in both in the order in which they
//! were pushed. What comes out is therefore a function of what went in, and
//! of nothing else.
//!
//! The queue is a binary heap. Each event is stored with a stamp, the number
//! of its push, so that no two stored events compare equal; the view of the
//! queue is the one order in which the heap can give its events out.

use vstd::prelude::*;
use crate::event::event_model;
use crate::event::Event;
use crate::event::EventModel;
use crate::time::instant_nanos;
use crate::time::EmulatedTime;

verus! {

/// Whether the events of `s` stand in the order in which they are due.
pub open spec fn sorted<T>(s: Seq<EventModel<T>>) -> bool {
    forall|i: int, j: int| 0 <= i < j < s.len() ==> (#[trigger] s[i]).precedes(#[trigger] s[j])
}

/// Where `e` goes in `s`: just behind the last event that is due no later
/// than `e`.
pub open spec fn insertion_point<T>(s: Seq<EventModel<T>>, e: EventModel<T>) -> nat
    decreases s.len(),
{
    if s.len() == 0 {
        0
    } else if s.last().precedes(e) {
        s.len()
    } else {
        insertion_point(s.drop_last(), e)
    }
}

/// The queue `s` with `e` in its place.
pub open spec fn inserted<T>(s: Seq<EventModel<T>>, e: EventModel<T>) -> Seq<EventModel<T>> {
    s.insert(insertion_point(s, e) as int, e)
}

/// The time of the event at the front of `s`, if there is one.
pub open spec fn next_time<T>(s: Seq<EventModel<T>>) -> Option<nat> {
    if s.len() == 0 {
        None
    } else {
        Some(s[0].time)
    }
}

/// What taking the next event out of `s` gives: the event at the front, if
/// there is one, and the queue that is left.
pub open spec fn popped<T>(s: Seq<EventModel<T>>) -> (Option<EventModel<T>>, Seq<EventModel<T>>) {
    if s.len() == 0 {
        (None, s)
    } else {
        (Some(s[0]), s.skip(1))
    }
}

/// The queue that holds `events`, pushed one after the other onto an empty
/// queue.
pub open spec fn pushed_all<T>(events: Seq<EventModel<T>>) -> Seq<EventModel<T>>
    decreases events.len(),
{
    if events.len() == 0 {
        Seq::empty()
    } else {
        inserted(pushed_all(events.drop_last()), events.last())
    }
}

/// The insertion point lies within the queue or at its end.
pub proof fn lemma_insertion_point_bounded<T>(s: Seq<EventModel<T>>, e: EventModel<T>)
    ensures
        insertion_point(s, e) <= s.len(),
    decreases s.len(),
{
    if s.len() > 0 && !s.last().precedes(e) {
        lemma_insertion_point_bounded(s.drop_last(), e);
    }
}

/// In a sorted queue the insertion point parts the events that are due no
/// later than `e` from those that are due after it.
pub proof fn lemma_insertion_point_parts<T>(s: Seq<EventModel<T>>, e: EventModel<T>)
    requires
        sorted(s),
    ensures
        insertion_point(s, e) <= s.len(),
        forall|i: int| 0 <= i < insertion_point(s, e) ==> (#[trigger] s[i]).precedes(e),
        forall|i: int| insertion_point(s, e) <= i < s.len() ==> !(#[trigger] s[i]).precedes(e),
    decreases s.len(),
{
    if s.len() == 0 {
    } else if s.last().precedes(e) {
        assert forall|i: int| 0 <= i < s.len() implies (#[trigger] s[i]).precedes(e) by {
            if i < s.len() - 1 {
                s[i].lemma_precedes_transitive(s.last(), e);
            }
        }
    } else {
        let front = s.drop_last();
        assert(sorted(front)) by {
            assert forall|i: int, j: int| 0 <= i < j < front.len() implies (#[trigger] front[i]).precedes(
                #[trigger] front[j],
            ) by {
                assert(s[i].precedes(s[j]));
            }
        }
        lemma_insertion_point_parts(front, e);
        assert forall|i: int| 0 <= i < insertion_point(s, e) implies (#[trigger] s[i]).precedes(
            e,
        ) by {
            assert(s[i] == front[i]);
        }
        assert forall|i: int| insertion_point(s, e) <= i < s.len() implies !(#[trigger] s[i]).precedes(
            e,
        ) by {
            if i < front.len() {
                assert(s[i] == front[i]);
            }
        }
    }
}

/// A place that parts a sorted queue as the insertion point does is the
/// insertion point.
pub proof fn lemma_insertion_point_unique<T>(s: Seq<EventModel<T>>, e: EventModel<T>, k: int)
    requires
        sorted(s),
        0 <= k <= s.len(),
        forall|i: int| 0 <= i < k ==> (#[trigger] s[i]).precedes(e),
        forall|i: int| k <= i < s.len() ==> !(#[trigger] s[i]).precedes(e),
    ensures
        k == insertion_point(s, e),
{
    lemma_insertion_point_parts(s, e);
    let p = insertion_point(s, e) as int;
    if k < p {
        assert(s[k].precedes(e));
    } else if p < k {
        assert(s[p].precedes(e));
    }
}

/// Putting an event in its place keeps a sorted queue sorted, and adds the
/// event and nothing else.
pub proof fn lemma_inserted_sorted<T>(s: Seq<EventModel<T>>, e: EventModel<T>)
    requires
        sorted(s),
    ensures
        sorted(inserted(s, e)),
        inserted(s, e).len() == s.len() + 1,
        inserted(s, e).to_multiset() == s.to_multiset().insert(e),
{
    lemma_insertion_point_parts(s, e);
    let p = insertion_point(s, e) as int;
    let t = inserted(s, e);
    assert forall|i: int, j: int| 0 <= i < j < t.len() implies (#[trigger] t[i]).precedes(
        #[trigger] t[j],
    ) by {
        if j < p {
            assert(t[i] == s[i] && t[j] == s[j]);
        } else if j == p {
            assert(t[i] == s[i]);
        } else if i < p {
            assert(t[i] == s[i] && t[j] == s[j - 1]);
            e.lemma_precedes_total(s[j - 1]);
            s[i].lemma_precedes_transitive(e, s[j - 1]);
        } else if i == p {
            assert(t[j] == s[j - 1]);
            e.lemma_precedes_total(s[j - 1]);
        } else {
            assert(t[i] == s[i - 1] && t[j] == s[j - 1]);
        }
    }
    assert(t.remove(p) =~= s);
    assert(t[p] == e);
    vstd::seq_lib::to_multiset_remove(t, p);
    t.to_multiset_ensures();
    assert(t.contains(e));
    assert(t.to_multiset() =~= s.to_multiset().insert(e));
}

/// Whatever is pushed, and in whatever order, the queue holds exactly what
/// was pushed, in the order in which it is due.
pub proof fn lemma_pushed_all_sorted<T>(events: Seq<EventModel<T>>)
    ensures
        sorted(pushed_all(events)),
        pushed_all(events).len() == events.len(),
        pushed_all(events).to_multiset() == events.to_multiset(),
    decreases events.len(),
{
    if events.len() == 0 {
        assert(events =~= Seq::empty());
    } else {
        let front = events.drop_last();
        lemma_pushed_all_sorted(front);
        lemma_inserted_sorted(pushed_all(front), events.last());
        assert(front.push(events.last()) =~= events);
        vstd::seq_lib::to_multiset_build(front, events.last());
    }
}

/// The events of a sorted queue come out in the order in which they are
/// due: none that is still queued is due before the one at the front.
pub proof fn lemma_front_is_earliest<T>(s: Seq<EventModel<T>>, i: int)
    requires
        sorted(s),
        0 <= i < s.len(),
    ensures
        s[0].precedes(s[i]),
        s[0].time <= s[i].time,
        sorted(s.skip(1)),
{
    assert forall|a: int, b: int| 0 <= a < b < s.skip(1).len() implies (#[trigger] s.skip(1)[a]).precedes(
        #[trigger] s.skip(1)[b],
    ) by {
        assert(s[a + 1].precedes(s[b + 1]));
    }
}

/// The time that is announced for the next event is the time of the event
/// that comes out next.
pub proof fn lemma_next_time_is_time_of_popped<T>(s: Seq<EventModel<T>>)
    ensures
        next_time(s) == match popped(s).0 {
            Some(event) => Some(event.time),
            None => None,
        },
{
}

/// Events come out of a sorted queue in the order in which they are due:
/// none comes out before one that is due earlier, and what is left is
/// sorted again.
pub proof fn lemma_popped_in_order<T>(s: Seq<EventModel<T>>)
    requires
        sorted(s),
    ensures
        sorted(popped(s).1),
        popped(s).0 matches Some(first) ==> forall|i: int|
            0 <= i < popped(s).1.len() ==> first.precedes(#[trigger] popped(s).1[i]),
        popped(s).0 matches Some(first) ==> (popped(popped(s).1).0 matches Some(second)
            ==> first.precedes(second)),
{
    if s.len() > 0 {
        lemma_front_is_earliest(s, 0);
        assert forall|i: int| 0 <= i < popped(s).1.len() implies s[0].precedes(
            #[trigger] popped(s).1[i],
        ) by {
            assert(popped(s).1[i] == s[i + 1]);
        }
        if popped(s).1.len() > 0 {
            assert(popped(popped(s).1).0 == Some(popped(s).1[0]));
        }
    }
}

/// Taking the next event out of a queue takes the event at its front, and
/// nothing else.
pub proof fn lemma_popped_takes_one<T>(s: Seq<EventModel<T>>)
    requires
        s.len() > 0,
    ensures
        popped(s).0 == Some(s[0]),
        popped(s).1.len() == s.len() - 1,
        popped(s).1.to_multiset() == s.to_multiset().remove(s[0]),
{
    assert(s.remove(0) =~= s.skip(1));
    vstd::seq_lib::to_multiset_remove(s, 0);
}

/// An event in the heap, with the number of its push.
struct Entry<T> {
    event: Event<T>,
    stamp: u128,
}

impl<T> Entry<T> {
    /// Whether this entry leaves the heap before `other`: its event is due
    /// earlier, or is due no later and was pushed earlier.
    spec fn before(self, other: Entry<T>) -> bool {
        let mine = self.event@;
        let theirs = other.event@;
        mine.time < theirs.time || (mine.time == theirs.time && (mine.sequence < theirs.sequence
            || (mine.sequence == theirs.sequence && self.stamp < other.stamp)))
    }

    fn is_before(&self, other: &Entry<T>) -> (b: bool)
        ensures
            b == self.before(*other),
    {
        let mine: u64 = self.event.time().as_nanos_since_epoch();
        let theirs: u64 = other.event.time().as_nanos_since_epoch();
        mine < theirs || (mine == theirs && (self.event.sequence() < other.event.sequence() || (
        self.event.sequence() == other.event.sequence() && self.stamp < other.stamp)))
    }
}

/// The place above `child` in the heap.
spec fn parent(child: int) -> int {
    (child - 1) / 2
}

/// Whether no entry of `s` leaves the heap before the entry above it.
spec fn heap_ordered<T>(s: Seq<Entry<T>>) -> bool {
    forall|k: int| 0 < k < s.len() ==> !(#[trigger] s[k]).before(s[parent(k)])
}

/// Whether `s` is a heap but for the entry at `hole`, which may leave before
/// the entry above it.
spec fn heap_but_above<T>(s: Seq<Entry<T>>, hole: int) -> bool {
    &&& forall|k: int| 0 < k < s.len() && k != hole ==> !(#[trigger] s[k]).before(s[parent(k)])
    &&& forall|k: int|
        0 < k < s.len() && parent(k) == hole && hole > 0 ==> !(#[trigger] s[k]).before(
            s[parent(hole)],
        )
}

/// Whether `s` is a heap but for the entry at `hole`, which may leave after
/// the entries below it.
spec fn heap_but_below<T>(s: Seq<Entry<T>>, hole: int) -> bool {
    &&& forall|k: int|
        0 < k < s.len() && parent(k) != hole ==> !(#[trigger] s[k]).before(s[parent(k)])
    &&& forall|k: int|
        0 < k < s.len() && parent(k) == hole && hole > 0 ==> !(#[trigger] s[k]).before(
            s[parent(hole)],
        )
}

/// Whether the entries of `s` stand in the order in which they leave the
/// heap.
spec fn in_leaving_order<T>(s: Seq<Entry<T>>) -> bool {
    forall|i: int, j: int| 0 <= i < j < s.len() ==> (#[trigger] s[i]).before(#[trigger] s[j])
}

/// What the events of `s` stand for, one by one.
spec fn models<T>(s: Seq<Entry<T>>) -> Seq<EventModel<T>> {
    s.map_values(|e: Entry<T>| e.event@)
}

/// Two sequences that hold the same entries are equally long, and what
/// occurs in one occurs in the other.
proof fn lemma_same_entries<T>(a: Seq<Entry<T>>, b: Seq<Entry<T>>)
    requires
        a.to_multiset() == b.to_multiset(),
    ensures
        a.len() == b.len(),
        forall|x: Entry<T>| a.contains(x) ==> b.contains(x),
        forall|k: int| 0 <= k < a.len() ==> b.contains(#[trigger] a[k]),
{
    a.to_multiset_ensures();
    b.to_multiset_ensures();
    assert forall|x: Entry<T>| a.contains(x) implies b.contains(x) by {
        assert(a.to_multiset().count(x) > 0);
        assert(b.to_multiset().count(x) > 0);
    }
    assert forall|k: int| 0 <= k < a.len() implies b.contains(#[trigger] a[k]) by {
        assert(a.contains(a[k]));
    }
}

/// No entry leaves the heap before the one at its top.
proof fn lemma_top_leaves_first<T>(s: Seq<Entry<T>>, k: int)
    requires
        heap_ordered(s),
        0 <= k < s.len(),
    ensures
        !s[k].before(s[0]),
    decreases k,
{
    if k > 0 {
        lemma_top_leaves_first(s, parent(k));
    }
}

/// The entry at the top of the heap is the first in the leaving order.
proof fn lemma_top_is_first<T>(heap: Seq<Entry<T>>, order: Seq<Entry<T>>)
    requires
        heap_ordered(heap),
        in_leaving_order(order),
        order.to_multiset() == heap.to_multiset(),
        heap.len() > 0,
    ensures
        order.len() == heap.len(),
        heap[0] == order[0],
{
    lemma_same_entries(heap, order);
    lemma_same_entries(order, heap);
    assert(order.contains(heap[0]));
    let j = choose|j: int| 0 <= j < order.len() && order[j] == heap[0];
    assert(heap.contains(order[0]));
    let k = choose|k: int| 0 <= k < heap.len() && heap[k] == order[0];
    lemma_top_leaves_first(heap, k);
    if j > 0 {
        assert(order[0].before(order[j]));
    }
}

/// A sequence in leaving order is a heap.
proof fn lemma_leaving_order_is_heap<T>(s: Seq<Entry<T>>)
    requires
        in_leaving_order(s),
    ensures
        heap_ordered(s),
{
    assert forall|k: int| 0 < k < s.len() implies !(#[trigger] s[k]).before(s[parent(k)]) by {
        assert(s[parent(k)].before(s[k]));
    }
}

/// The events of entries in leaving order are sorted.
proof fn lemma_leaving_order_sorted<T>(s: Seq<Entry<T>>)
    requires
        in_leaving_order(s),
    ensures
        sorted(models(s)),
{
    assert forall|i: int, j: int| 0 <= i < j < models(s).len() implies (#[trigger] models(
        s,
    )[i]).precedes(#[trigger] models(s)[j]) by {
        assert(s[i].before(s[j]));
    }
}

/// Exchanging two entries of a sequence leaves it with the same entries.
proof fn lemma_exchange_same_entries<T>(s: Seq<Entry<T>>, i: int, j: int)
    requires
        0 <= i < j < s.len(),
    ensures
        s.update(i, s[j]).update(j, s[i]).to_multiset() == s.to_multiset(),
{
    broadcast use vstd::multiset::group_multiset_axioms;

    let t = s.update(i, s[j]);
    let u = t.update(j, s[i]);
    vstd::seq_lib::to_multiset_update(s, i, s[j]);
    vstd::seq_lib::to_multiset_update(t, j, s[i]);
    s.to_multiset_ensures();
    assert(s.contains(s[i]));
    assert(s.contains(s[j]));
    assert(t[j] == s[j]);
    assert(u.to_multiset() =~= s.to_multiset());
}

/// Exchanges two entries of `v`.
fn exchange<T>(v: &mut Vec<Entry<T>>, i: usize, j: usize)
    requires
        i < j < old(v)@.len(),
    ensures
        final(v)@ == old(v)@.update(i as int, old(v)@[j as int]).update(j as int, old(v)@[i as int]),
        final(v)@.to_multiset() == old(v)@.to_multiset(),
{
    let slice = v.as_mut_slice();
    let (left, right) = slice.split_at_mut(j);
    let (_, tail) = left.split_at_mut(i);
    let a = tail.first_mut().unwrap();
    let b = right.first_mut().unwrap();
    core::mem::swap(a, b);
    proof {
        let exchanged = old(v)@.update(i as int, old(v)@[j as int]).update(
            j as int,
            old(v)@[i as int],
        );
        assert(v@ =~= exchanged);
        lemma_exchange_same_entries(old(v)@, i as int, j as int);
    }
}

/// Lets the entry at `start` rise to its place.
fn sift_up<T>(v: &mut Vec<Entry<T>>, start: usize)
    requires
        start < old(v)@.len(),
        heap_but_above(old(v)@, start as int),
    ensures
        heap_ordered(final(v)@),
        final(v)@.to_multiset() == old(v)@.to_multiset(),
        final(v)@.len() == old(v)@.len(),
{
    let mut hole: usize = start;
    while hole > 0
        invariant
            hole < v@.len(),
            v@.len() == old(v)@.len(),
            v@.to_multiset() == old(v)@.to_multiset(),
            heap_but_above(v@, hole as int),
        ensures
            heap_ordered(v@),
            v@.to_multiset() == old(v)@.to_multiset(),
            v@.len() == old(v)@.len(),
        decreases hole,
    {
        let above: usize = (hole - 1) / 2;
        if !v[hole].is_before(&v[above]) {
            break;
        }
        let ghost before = v@;
        exchange(v, above, hole);
        proof {
            let after = v@;
            assert forall|k: int| 0 < k < after.len() && k != above implies !(#[trigger] after[k]).before(
                after[parent(k)],
            ) by {
                if k == hole {
                } else if parent(k) == above {
                    assert(!before[k].before(before[above as int]));
                } else if parent(k) == hole {
                    assert(!before[k].before(before[parent(hole as int)]));
                } else {
                    assert(!before[k].before(before[parent(k)]));
                }
            }
            assert forall|k: int|
                0 < k < after.len() && parent(k) == above && above > 0 implies !(#[trigger] after[k]).before(
                after[parent(above as int)],
            ) by {
                assert(!before[above as int].before(before[parent(above as int)]));
                if k != hole {
                    assert(!before[k].before(before[above as int]));
                }
            }
        }
        hole = above;
    }
}

/// Lets the entry at the top sink to its place.
fn sift_down<T>(v: &mut Vec<Entry<T>>)
    requires
        old(v)@.len() > 0,
        heap_but_below(old(v)@, 0),
    ensures
        heap_ordered(final(v)@),
        final(v)@.to_multiset() == old(v)@.to_multiset(),
        final(v)@.len() == old(v)@.len(),
{
    let len: usize = v.len();
    let mut hole: usize = 0;
    while hole < len / 2
        invariant
            hole < v@.len(),
            len == v@.len(),
            v@.len() == old(v)@.len(),
            v@.to_multiset() == old(v)@.to_multiset(),
            heap_but_below(v@, hole as int),
        ensures
            heap_ordered(v@),
            v@.to_multiset() == old(v)@.to_multiset(),
            v@.len() == old(v)@.len(),
        decreases len - hole,
    {
        let left: usize = 2 * hole + 1;
        let right: usize = left + 1;
        let below: usize = if right < len && v[right].is_before(&v[left]) {
            right
        } else {
            left
        };
        if !v[below].is_before(&v[hole]) {
            proof {
                assert forall|k: int| 0 < k < v@.len() implies !(#[trigger] v@[k]).before(
                    v@[parent(k)],
                ) by {
                    if parent(k) == hole {
                        assert(k == left || k == right);
                    }
                }
            }
            break;
        }
        let ghost before = v@;
        exchange(v, hole, below);
        proof {
            let after = v@;
            assert forall|k: int|
                0 < k < after.len() && parent(k) != below implies !(#[trigger] after[k]).before(
                after[parent(k)],
            ) by {
                if k == below {
                } else if parent(k) == hole {
                    assert(k == left || k == right);
                } else if k == hole {
                    assert(!before[below as int].before(before[parent(hole as int)]));
                } else {
                    assert(!before[k].before(before[parent(k)]));
                }
            }
            assert forall|k: int|
                0 < k < after.len() && parent(k) == below && below > 0 implies !(#[trigger] after[k]).before(
                after[parent(below as int)],
            ) by {
                assert(!before[k].before(before[below as int]));
            }
        }
        hole = below;
    }
}

/// The events that a host still has to run. The view is the order in which
/// they are due, the next event first.
pub struct EventQueue<T> {
    /// The heap.
    entries: Vec<Entry<T>>,
    /// The entries in the order in which they leave the heap.
    order: Ghost<Seq<Entry<T>>>,
    /// The stamp of the next push.
    next_stamp: u128,
}

impl<T> View for EventQueue<T> {
    type V = Seq<EventModel<T>>;

    closed spec fn view(&self) -> Seq<EventModel<T>> {
        models(self.order@)
    }
}

impl<T> EventQueue<T> {
    /// What holds of every queue: the entries form a heap, each was stamped
    /// before the next stamp, and the order is the order in which they leave
    /// the heap.
    #[verifier::type_invariant]
    spec fn well_formed(&self) -> bool {
        &&& heap_ordered(self.entries@)
        &&& forall|k: int|
            0 <= k < self.entries@.len() ==> (#[trigger] self.entries@[k]).stamp < self.next_stamp
        &&& in_leaving_order(self.order@)
        &&& self.order@.to_multiset() == self.entries@.to_multiset()
    }

    /// A queue with nothing in it.
    pub fn new() -> (queue: EventQueue<T>)
        ensures
            queue@ == Seq::<EventModel<T>>::empty(),
    {
        EventQueue::with_first_stamp(0)
    }

    /// A queue with nothing in it that counts its pushes from `first_stamp`.
    /// The count only keeps events that are due together in the order in
    /// which they were pushed: where it starts makes no difference to what
    /// the queue gives out.
    pub fn with_first_stamp(first_stamp: u128) -> (queue: EventQueue<T>)
        ensures
            queue@ == Seq::<EventModel<T>>::empty(),
    {
        let entries: Vec<Entry<T>> = Vec::new();
        assert(models(entries@) =~= Seq::<EventModel<T>>::empty());
        EventQueue { entries, order: Ghost(Seq::empty()), next_stamp: first_stamp }
    }

    /// The number of events in the queue.
    pub fn len(&self) -> (n: usize)
        ensures
            n == self@.len(),
            sorted(self@),
    {
        proof {
            use_type_invariant(self);
            self.entries@.to_multiset_ensures();
            self.order@.to_multiset_ensures();
            lemma_leaving_order_sorted(self.order@);
        }
        self.entries.len()
    }

    /// Whether the queue holds no event.
    pub fn is_empty(&self) -> (b: bool)
        ensures
            b == (self@.len() == 0),
    {
        self.len() == 0
    }

    /// Puts `event` in its place: behind every queued event that is due no
    /// later, and before all that are due after it.
    pub fn push(&mut self, event: Event<T>)
        ensures
            final(self)@ == inserted(old(self)@, event@),
            final(self)@.len() == old(self)@.len() + 1,
            sorted(final(self)@),
    {
        if self.next_stamp == u128::MAX {
            self.restamp();
        }
        let mut taken: EventQueue<T> = EventQueue::new();
        core::mem::swap(self, &mut taken);
        proof {
            use_type_invariant(&taken);
        }
        let EventQueue { mut entries, order, next_stamp } = taken;
        let entry = Entry { event, stamp: next_stamp };
        let ghost pushed = entry;
        let ghost place = insertion_point(models(order@), event@) as int;
        proof {
            lemma_insertion_point_bounded(models(order@), event@);
        }
        let ghost longer = order@.insert(place, pushed);
        proof {
            lemma_same_entries(order@, entries@);
            lemma_leaving_order_sorted(order@);
            lemma_insertion_point_parts(models(order@), event@);
            lemma_inserted_sorted(models(order@), event@);
            assert forall|i: int, j: int| 0 <= i < j < longer.len() implies (#[trigger] longer[i]).before(
                #[trigger] longer[j],
            ) by {
                if j < place {
                    assert(longer[i] == order@[i] && longer[j] == order@[j]);
                } else if j == place {
                    assert(longer[i] == order@[i]);
                    assert(models(order@)[i].precedes(event@));
                    assert(entries@.contains(order@[i]));
                } else if i < place {
                    assert(longer[i] == order@[i] && longer[j] == order@[j - 1]);
                } else if i == place {
                    assert(longer[j] == order@[j - 1]);
                    assert(!models(order@)[j - 1].precedes(event@));
                } else {
                    assert(longer[i] == order@[i - 1] && longer[j] == order@[j - 1]);
                }
            }
            vstd::seq_lib::to_multiset_insert(order@, place, pushed);
            vstd::seq_lib::to_multiset_build(entries@, pushed);
            assert(models(longer) =~= inserted(models(order@), event@));
        }
        let ghost before = entries@;
        entries.push(entry);
        proof {
            assert forall|k: int| 0 < k < entries@.len() && k != before.len() implies !(
            #[trigger] entries@[k]).before(entries@[parent(k)]) by {
                assert(!before[k].before(before[parent(k)]));
            }
        }
        let last: usize = entries.len() - 1;
        sift_up(&mut entries, last);
        proof {
            lemma_same_entries(entries@, before.push(pushed));
            assert forall|k: int| 0 <= k < entries@.len() implies (#[trigger] entries@[k]).stamp
                < next_stamp + 1 by {
                assert(before.push(pushed).contains(entries@[k]));
                let at = choose|at: int|
                    0 <= at < before.push(pushed).len() && before.push(pushed)[at] == entries@[k];
                if at < before.len() {
                    assert(before.push(pushed)[at] == before[at]);
                }
            }
            lemma_leaving_order_sorted(longer);
        }
        *self = EventQueue { entries, order: Ghost(longer), next_stamp: next_stamp + 1 };
    }

    /// Takes the next event out of the queue: the one that is due first.
    /// Returns `None`, and changes nothing, where the queue is empty.
    pub fn pop(&mut self) -> (next: Option<Event<T>>)
        ensures
            (event_model(next), final(self)@) == popped(old(self)@),
            sorted(final(self)@),
    {
        match self.pop_entry() {
            Some(entry) => Some(entry.event),
            None => None,
        }
    }

    /// The time of the next event, or `None` where the queue is empty. The
    /// queue is left alone.
    pub fn next_event_time(&self) -> (time: Option<EmulatedTime>)
        ensures
            instant_nanos(time) == next_time(self@),
    {
        proof {
            use_type_invariant(self);
            self.entries@.to_multiset_ensures();
            self.order@.to_multiset_ensures();
            if self.entries@.len() > 0 {
                lemma_top_is_first(self.entries@, self.order@);
            }
        }
        if self.entries.len() == 0 {
            None
        } else {
            Some(self.entries[0].event.time())
        }
    }

    /// Takes the entry that leaves first out of the heap.
    fn pop_entry(&mut self) -> (next: Option<Entry<T>>)
        ensures
            match next {
                Some(entry) => popped(old(self)@) == (Some(entry.event@), final(self)@),
                None => popped(old(self)@) == (None::<EventModel<T>>, final(self)@),
            },
            sorted(old(self)@),
            sorted(final(self)@),
            final(self).next_stamp == old(self).next_stamp,
    {
        proof {
            use_type_invariant(&*self);
            lemma_same_entries(self.entries@, self.order@);
            lemma_leaving_order_sorted(self.order@);
        }
        if self.entries.len() == 0 {
            return None;
        }
        let mut taken: EventQueue<T> = EventQueue::new();
        core::mem::swap(self, &mut taken);
        let EventQueue { mut entries, order, next_stamp } = taken;
        let ghost before = entries@;
        let ghost shorter = order@.skip(1);
        let entry = entries.swap_remove(0);
        proof {
            lemma_top_is_first(before, order@);
            // What is left in the heap is what is left in the order.
            let last = before.len() - 1;
            if last == 0 {
                assert(before.remove(0) =~= entries@);
                vstd::seq_lib::to_multiset_remove(before, 0);
            } else {
                let turned = before.update(0, before[last]).update(last, before[0]);
                lemma_exchange_same_entries(before, 0, last);
                assert(turned.remove(last) =~= entries@);
                vstd::seq_lib::to_multiset_remove(turned, last);
            }
            assert(order@.remove(0) =~= shorter);
            vstd::seq_lib::to_multiset_remove(order@, 0);
            assert(shorter.to_multiset() == entries@.to_multiset());
            assert forall|i: int, j: int| 0 <= i < j < shorter.len() implies (#[trigger] shorter[i]).before(
                #[trigger] shorter[j],
            ) by {
                assert(order@[i + 1].before(order@[j + 1]));
            }
            assert(models(shorter) =~= models(order@).skip(1));
            lemma_leaving_order_sorted(shorter);
            assert forall|k: int|
                0 < k < entries@.len() && parent(k) != 0 implies !(#[trigger] entries@[k]).before(
                entries@[parent(k)],
            ) by {
                assert(!before[k].before(before[parent(k)]));
            }
        }
        if entries.len() > 0 {
            sift_down(&mut entries);
        }
        proof {
            lemma_same_entries(entries@, shorter);
            lemma_same_entries(order@, before);
            assert forall|k: int| 0 <= k < entries@.len() implies (#[trigger] entries@[k]).stamp
                < next_stamp by {
                assert(shorter.contains(entries@[k]));
                let at = choose|at: int| 0 <= at < shorter.len() && shorter[at] == entries@[k];
                assert(order@[at + 1] == entries@[k]);
                assert(before.contains(order@[at + 1]));
            }
        }
        *self = EventQueue { entries, order: Ghost(shorter), next_stamp };
        Some(entry)
    }

    /// Stamps the entries anew, from nought, in the order in which they
    /// leave the heap. The queue holds what it held.
    fn restamp(&mut self)
        ensures
            final(self)@ == old(self)@,
            final(self).next_stamp < u128::MAX,
    {
        let mut fresh: Vec<Entry<T>> = Vec::new();
        let mut count: u128 = 0;
        proof {
            use_type_invariant(&*self);
            lemma_leaving_order_sorted(self.order@);
            assert(models(fresh@) + self@ =~= old(self)@);
        }
        loop
            invariant
                models(fresh@) + self@ == old(self)@,
                count == fresh@.len(),
                fresh@.len() <= usize::MAX,
                forall|k: int| 0 <= k < fresh@.len() ==> (#[trigger] fresh@[k]).stamp == k,
                sorted(old(self)@),
            ensures
                models(fresh@) == old(self)@,
                count == fresh@.len(),
                fresh@.len() <= usize::MAX,
                forall|k: int| 0 <= k < fresh@.len() ==> (#[trigger] fresh@[k]).stamp == k,
                sorted(old(self)@),
            decreases self@.len(),
        {
            let ghost queued = self@;
            let ghost stamped = fresh@;
            match self.pop_entry() {
                Some(entry) => {
                    let Entry { event, stamp: _ } = entry;
                    fresh.push(Entry { event, stamp: count });
                    count = count + 1;
                    proof {
                        assert(fresh@.len() == fresh.len());
                        assert(models(fresh@) =~= models(stamped).push(queued[0]));
                        assert(models(fresh@) + self@ =~= models(stamped) + queued);
                    }
                },
                None => {
                    proof {
                        assert(models(fresh@) + self@ =~= models(fresh@));
                        use_type_invariant(&*self);
                        lemma_same_entries(self.entries@, self.order@);
                    }
                    break;
                },
            }
        }
        proof {
            assert forall|i: int, j: int| 0 <= i < j < fresh@.len() implies (#[trigger] fresh@[i]).before(
                #[trigger] fresh@[j],
            ) by {
                assert(models(fresh@)[i].precedes(models(fresh@)[j]));
            }
            lemma_leaving_order_is_heap(fresh@);
        }
        *self = EventQueue { entries: fresh, order: Ghost(fresh@), next_stamp: count };
    }
}

} // verus!
