//! Counters that hand out numbers in increasing order.
//!
//! A host numbers its events, packets and processes with them, and hands out
//! sequence numbers by which things that are stored without order can be put
//! in the order in which they were made. A counter is touched by its host
//! alone, and what it hands out depends on nothing but the calls made to it.

use vstd::prelude::*;

verus! {

/// What a [`Counter`] stands for.
pub struct CounterModel {
    /// The number that is handed out next.
    pub next: nat,
    /// The bound that every number handed out stays below.
    pub ceiling: nat,
}

impl CounterModel {
    /// Whether the counter has no number left to hand out.
    pub open spec fn exhausted(self) -> bool {
        self.next >= self.ceiling
    }

    /// The counter after it has handed out `n` numbers.
    pub open spec fn advanced(self, n: nat) -> CounterModel {
        CounterModel { next: self.next + n, ..self }
    }

    /// The `n` numbers that the counter hands out next, in the order in which
    /// it hands them out.
    pub open spec fn upcoming(self, n: nat) -> Seq<nat> {
        Seq::new(n, |i: int| (self.next + i) as nat)
    }

    /// The numbers that a counter hands out grow strictly, so none is handed
    /// out twice.
    pub proof fn lemma_strictly_increasing(self, n: nat)
        ensures
            self.upcoming(n).len() == n,
            forall|i: int, j: int|
                0 <= i < j < n ==> (#[trigger] self.upcoming(n)[i]) < (#[trigger] self.upcoming(
                    n,
                )[j]),
            self.upcoming(n).no_duplicates(),
    {
    }

    /// Handing out one number after another is handing out the numbers that
    /// were coming: the first is the next number, and the rest are what the
    /// advanced counter has coming.
    pub proof fn lemma_upcoming_unfolds(self, n: nat)
        requires
            n > 0,
        ensures
            self.upcoming(n)[0] == self.next,
            self.upcoming(n).skip(1) == self.advanced(1).upcoming((n - 1) as nat),
    {
        assert(self.upcoming(n).skip(1) =~= self.advanced(1).upcoming((n - 1) as nat));
    }
}

/// A source of numbers that grow by one with every call.
#[derive(Clone, Copy, Debug)]
pub struct Counter {
    next: u64,
    ceiling: u64,
}

impl View for Counter {
    type V = CounterModel;

    closed spec fn view(&self) -> CounterModel {
        CounterModel { next: self.next as nat, ceiling: self.ceiling as nat }
    }
}

impl Counter {
    /// A counter that starts at `first` and hands out numbers below
    /// `ceiling`.
    pub fn new(first: u64, ceiling: u64) -> (counter: Counter)
        ensures
            counter@ == (CounterModel { next: first as nat, ceiling: ceiling as nat }),
    {
        Counter { next: first, ceiling }
    }

    /// The number that the next call of [`Counter::next`] hands out.
    pub fn peek(&self) -> (next: u64)
        ensures
            next == self@.next,
    {
        self.next
    }

    /// Whether the counter has no number left to hand out.
    pub fn is_exhausted(&self) -> (exhausted: bool)
        ensures
            exhausted == self@.exhausted(),
    {
        self.next >= self.ceiling
    }

    /// Hands out the next number.
    pub fn next(&mut self) -> (number: u64)
        requires
            !old(self)@.exhausted(),
        ensures
            number == old(self)@.next,
            final(self)@ == old(self)@.advanced(1),
    {
        let number = self.next;
        self.next = number + 1;
        number
    }

    /// Hands out the next number, or `None` where the counter is exhausted;
    /// the counter then stays as it is.
    pub fn checked_next(&mut self) -> (number: Option<u64>)
        ensures
            match number {
                Some(n) => !old(self)@.exhausted() && n == old(self)@.next && final(self)@ == old(
                    self,
                )@.advanced(1),
                None => old(self)@.exhausted() && final(self)@ == old(self)@,
            },
    {
        if self.next >= self.ceiling {
            None
        } else {
            Some(self.next())
        }
    }
}

} // verus!
