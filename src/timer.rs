//! Timer tokens, deadlines, and the earliest-deadline-first timer queue.
use vstd::prelude::*;

verus! {

/// A point on a monotonic clock, in nanoseconds since an origin that the event
/// loop fixes when it starts.
#[derive(Clone, Copy, Debug, PartialEq, Eq, Hash, Structural)]
pub struct Instant {
    pub nanos: u64,
}

/// Nanoseconds in one millisecond.
pub const NANOS_PER_MILLI: u64 = 1_000_000;

impl Instant {
    pub fn from_nanos(nanos: u64) -> (r: Instant)
        ensures
            r.nanos == nanos,
    {
        Instant { nanos }
    }

    pub fn from_millis(millis: u64) -> (r: Instant)
        requires
            millis * NANOS_PER_MILLI <= u64::MAX,
        ensures
            r.nanos == millis * NANOS_PER_MILLI,
    {
        Instant { nanos: millis * NANOS_PER_MILLI }
    }

    pub fn nanos(&self) -> (r: u64)
        ensures
            r == self.nanos,
    {
        self.nanos
    }

    /// This instant lies at or before `other`.
    pub fn is_at_or_before(&self, other: Instant) -> (r: bool)
        ensures
            r == (self.nanos <= other.nanos),
    {
        self.nanos <= other.nanos
    }

    /// The instant `millis` milliseconds later, held at the end of the clock.
    pub fn plus_millis(&self, millis: u64) -> (r: Instant)
        ensures
            r.nanos == (if self.nanos + millis * NANOS_PER_MILLI <= u64::MAX {
                self.nanos + millis * NANOS_PER_MILLI
            } else {
                u64::MAX as int
            }),
    {
        if millis > (u64::MAX - self.nanos) / NANOS_PER_MILLI {
            proof {
                let m = (u64::MAX - self.nanos) as int;
                assert(millis as int * NANOS_PER_MILLI > m) by (nonlinear_arith)
                    requires millis as int > m / (NANOS_PER_MILLI as int), m >= 0;
            }
            Instant { nanos: u64::MAX }
        } else {
            proof {
                let m = (u64::MAX - self.nanos) as int;
                assert(millis as int * NANOS_PER_MILLI <= m) by (nonlinear_arith)
                    requires millis as int <= m / (NANOS_PER_MILLI as int), m >= 0;
            }
            Instant { nanos: self.nanos + millis * NANOS_PER_MILLI }
        }
    }
}

/// An opaque identifier of a requested timer. The token `0` stands for no timer.
#[derive(Clone, Copy, Debug, PartialEq, Eq, Hash, Structural)]
pub struct TimerToken {
    id: u64,
}

impl TimerToken {
    /// The token of no timer, handed back where no timer could be set.
    pub fn invalid() -> (r: TimerToken)
        ensures
            r.id_spec() == 0,
    {
        TimerToken { id: 0 }
    }

    pub closed spec fn id_spec(self) -> u64 {
        self.id
    }

    pub open spec fn is_valid_spec(self) -> bool {
        self.id_spec() != 0
    }

    /// A token with the given raw value.
    pub fn from_raw(id: u64) -> (r: TimerToken)
        ensures
            r.id_spec() == id,
    {
        TimerToken { id }
    }

    /// The raw value of the token.
    pub fn into_raw(self) -> (r: u64)
        ensures
            r == self.id_spec(),
    {
        self.id
    }

    /// The token names a timer.
    pub fn is_valid(&self) -> (r: bool)
        ensures
            r == self.is_valid_spec(),
    {
        self.id != 0
    }
}

/// A deadline and the token that is delivered when it passes.
#[derive(Clone, Copy, Debug, PartialEq, Eq, Structural)]
pub struct Timer {
    deadline: Instant,
    token: TimerToken,
}

/// `a` fires no later than `b`: earlier deadline first, then earlier token.
pub open spec fn fires_before(a: Timer, b: Timer) -> bool {
    a.deadline_spec().nanos < b.deadline_spec().nanos || (a.deadline_spec().nanos
        == b.deadline_spec().nanos && a.token_spec().id_spec() <= b.token_spec().id_spec())
}

/// Every timer of `s` has a valid token below `next`.
pub open spec fn tokens_below(s: Seq<Timer>, next: u64) -> bool {
    forall|i: int|
        0 <= i < s.len() ==> 0 < (#[trigger] s[i]).token_spec().id_spec() < next
}

/// The timers of `s` are in firing order.
pub open spec fn in_firing_order(s: Seq<Timer>) -> bool {
    forall|i: int, j: int| 0 <= i < j < s.len() ==> fires_before(#[trigger] s[i], #[trigger] s[j])
}

impl Timer {
    pub closed spec fn deadline_spec(self) -> Instant {
        self.deadline
    }

    pub closed spec fn token_spec(self) -> TimerToken {
        self.token
    }

    /// The timer that delivers `token` once `deadline` has passed.
    pub closed spec fn spec_new(deadline: Instant, token: TimerToken) -> Timer {
        Timer { deadline, token }
    }

    /// The timer made by `spec_new` has that deadline and token.
    pub proof fn lemma_spec_new(deadline: Instant, token: TimerToken)
        ensures
            Timer::spec_new(deadline, token).deadline_spec() == deadline,
            Timer::spec_new(deadline, token).token_spec() == token,
    {
    }

    /// A timer that delivers `token` once `deadline` has passed.
    pub fn new(deadline: Instant, token: TimerToken) -> (r: Timer)
        ensures
            r == Timer::spec_new(deadline, token),
            r.deadline_spec() == deadline,
            r.token_spec() == token,
    {
        Timer { deadline, token }
    }

    pub fn deadline(&self) -> (r: Instant)
        ensures
            r == self.deadline_spec(),
    {
        self.deadline
    }

    pub fn token(&self) -> (r: TimerToken)
        ensures
            r == self.token_spec(),
    {
        self.token
    }

    /// This timer fires before `other`.
    pub fn fires_no_later_than(&self, other: &Timer) -> (r: bool)
        ensures
            r == fires_before(*self, *other),
    {
        self.deadline.nanos < other.deadline.nanos || (self.deadline.nanos
            == other.deadline.nanos && self.token.id <= other.token.id)
    }
}

/// Pending timers, kept in firing order: the head is the earliest deadline, and
/// of equal deadlines the earlier-issued token. The queue issues the tokens
/// itself, each larger than every token issued before, so a pending token is
/// never issued again.
#[derive(Debug)]
pub struct TimerQueue {
    timers: Vec<Timer>,
    next: u64,
}

impl View for TimerQueue {
    type V = Seq<Timer>;

    closed spec fn view(&self) -> Seq<Timer> {
        self.timers@
    }
}

impl TimerQueue {
    #[verifier::type_invariant]
    spec fn inv(&self) -> bool {
        &&& in_firing_order(self.timers@)
        &&& self.next >= 1
        &&& tokens_below(self.timers@, self.next)
    }

    /// The value of the next token to be issued.
    pub closed spec fn next_token_spec(&self) -> u64 {
        self.next
    }

    /// Brings into a proof that the pending timers are in firing order and that
    /// their tokens are valid and below the next token.
    pub fn ensure_valid(&self)
        ensures
            in_firing_order(self@),
            self.next_token_spec() >= 1,
            tokens_below(self@, self.next_token_spec()),
    {
        proof {
            use_type_invariant(self);
        }
    }

    /// An empty queue whose first token is 1.
    pub fn new() -> (r: TimerQueue)
        ensures
            r@ == Seq::<Timer>::empty(),
            r.next_token_spec() == 1,
    {
        TimerQueue { timers: Vec::new(), next: 1 }
    }

    /// An empty queue whose first token is `first`.
    pub fn starting_at(first: u64) -> (r: TimerQueue)
        requires
            first >= 1,
        ensures
            r@ == Seq::<Timer>::empty(),
            r.next_token_spec() == first,
    {
        TimerQueue { timers: Vec::new(), next: first }
    }

    /// The value of the next token to be issued.
    pub fn next_token(&self) -> (r: u64)
        ensures
            r == self.next_token_spec(),
    {
        self.next
    }

    /// Sets a timer that fires once `deadline` has passed, with a fresh token,
    /// and returns the token. Once every token value has been issued it sets
    /// nothing and returns the invalid token.
    pub fn schedule(&mut self, deadline: Instant) -> (r: TimerToken)
        ensures
            old(self).next_token_spec() >= 1,
            old(self).next_token_spec() == u64::MAX ==> r.id_spec() == 0 && *final(self) == *old(self),
            old(self).next_token_spec() < u64::MAX ==> {
                &&& r.id_spec() == old(self).next_token_spec()
                &&& final(self).next_token_spec() == old(self).next_token_spec() + 1
                &&& exists|i: int|
                    0 <= i <= old(self)@.len() && final(self)@ == old(self)@.insert(
                        i,
                        Timer::spec_new(deadline, r),
                    )
                &&& forall|k: int|
                    0 <= k < old(self)@.len() ==> (#[trigger] old(self)@[k]).token_spec().id_spec()
                        < r.id_spec()
            },
    {
        proof {
            use_type_invariant(&*self);
        }
        if self.next == u64::MAX {
            return TimerToken::invalid();
        }
        let token = TimerToken { id: self.next };
        let timer = Timer::new(deadline, token);
        let i = self.insert(timer);
        proof {
            assert(0 <= i as int <= old(self)@.len());
        }
        token
    }

    pub fn len(&self) -> (r: usize)
        ensures
            r == self@.len(),
    {
        self.timers.len()
    }

    /// Adds a timer whose token is the next one after every pending timer that
    /// fires before it, and returns the position it took.
    fn insert(&mut self, timer: Timer) -> (r: usize)
        requires
            timer.token_spec().id_spec() == old(self).next_token_spec(),
            old(self).next_token_spec() < u64::MAX,
        ensures
            r <= old(self)@.len(),
            final(self)@ == old(self)@.insert(r as int, timer),
            final(self).next_token_spec() == old(self).next_token_spec() + 1,
    {
        proof {
            use_type_invariant(&*self);
        }
        let mut i: usize = 0;
        while i < self.timers.len() && self.timers[i].fires_no_later_than(&timer)
            invariant
                in_firing_order(self@),
                self@ == old(self)@,
                i <= self@.len(),
                forall|k: int| 0 <= k < i ==> fires_before(#[trigger] self@[k], timer),
            decreases self@.len() - i,
        {
            i = i + 1;
        }
        let ghost before = self@;
        let next = self.next;
        proof {
            let after = before.insert(i as int, timer);
            assert forall|k: int| 0 <= k < after.len() implies 0 < (
            #[trigger] after[k]).token_spec().id_spec() < next + 1 by {
                if k < i {
                    assert(after[k] == before[k]);
                } else if k > i {
                    assert(after[k] == before[k - 1]);
                }
            }
            assert forall|a: int, b: int| 0 <= a < b < after.len() implies fires_before(
                #[trigger] after[a],
                #[trigger] after[b],
            ) by {
                if b < i {
                    assert(after[a] == before[a] && after[b] == before[b]);
                } else if b == i {
                    assert(after[a] == before[a]);
                } else if a == i {
                    assert(after[b] == before[b - 1]);
                    assert(!fires_before(before[i as int], timer));
                    assert(fires_before(before[i as int], before[b - 1]) || i == b - 1);
                } else if a < i {
                    assert(after[a] == before[a] && after[b] == before[b - 1]);
                } else {
                    assert(after[a] == before[a - 1] && after[b] == before[b - 1]);
                }
            }
        }
        let mut held = TimerQueue::new();
        std::mem::swap(self, &mut held);
        let mut timers = held.timers;
        timers.insert(i, timer);
        *self = TimerQueue { timers, next: next + 1 };
        i
    }

    /// The timer that fires first, if any.
    pub fn peek(&self) -> (r: Option<Timer>)
        ensures
            self@.len() == 0 ==> r.is_none(),
            self@.len() > 0 ==> r == Some(self@[0]),
    {
        if self.timers.len() == 0 {
            None
        } else {
            Some(self.timers[0])
        }
    }

    /// The deadline of the timer that fires first, if any.
    pub fn next_deadline(&self) -> (r: Option<Instant>)
        ensures
            self@.len() == 0 ==> r.is_none(),
            self@.len() > 0 ==> r == Some(self@[0].deadline_spec()),
    {
        match self.peek() {
            Some(t) => Some(t.deadline()),
            None => None,
        }
    }

    /// Removes and returns, in firing order, every timer whose deadline is at or
    /// before `now`.
    pub fn take_due(&mut self, now: Instant) -> (r: Vec<Timer>)
        ensures
            in_firing_order(final(self)@),
            final(self).next_token_spec() == old(self).next_token_spec(),
            r@ + final(self)@ == old(self)@,
            forall|k: int| 0 <= k < r@.len() ==> (#[trigger] r@[k]).deadline_spec().nanos <= now.nanos,
            forall|k: int|
                0 <= k < final(self)@.len() ==> (#[trigger] final(self)@[k]).deadline_spec().nanos
                    > now.nanos,
            in_firing_order(r@),
    {
        proof {
            use_type_invariant(&*self);
        }
        let mut k: usize = 0;
        while k < self.timers.len() && self.timers[k].deadline.nanos <= now.nanos
            invariant
                in_firing_order(self@),
                self@ == old(self)@,
                k <= self@.len(),
                forall|j: int| 0 <= j < k ==> (#[trigger] self@[j]).deadline_spec().nanos <= now.nanos,
            decreases self@.len() - k,
        {
            k = k + 1;
        }
        proof {
            if k < self@.len() {
                assert forall|j: int| k <= j < self@.len() implies (
                #[trigger] self@[j]).deadline_spec().nanos > now.nanos by {
                    if j > k {
                        assert(fires_before(self@[k as int], self@[j]));
                    }
                }
            }
        }
        let ghost all = self@;
        proof {
            assert forall|a: int, b: int| 0 <= a < b < all.len() - k implies fires_before(
                #[trigger] all.subrange(k as int, all.len() as int)[a],
                #[trigger] all.subrange(k as int, all.len() as int)[b],
            ) by {
                assert(fires_before(all[a + k], all[b + k]));
            }
            assert forall|a: int| 0 <= a < all.len() - k implies 0 < (
            #[trigger] all.subrange(k as int, all.len() as int)[a]).token_spec().id_spec()
                < self.next by {
                assert(all.subrange(k as int, all.len() as int)[a] == all[a + k]);
            }
            assert forall|a: int, b: int| 0 <= a < b < k implies fires_before(
                #[trigger] all.subrange(0, k as int)[a],
                #[trigger] all.subrange(0, k as int)[b],
            ) by {
                assert(fires_before(all[a], all[b]));
            }
        }
        let mut rest = TimerQueue::new();
        std::mem::swap(self, &mut rest);
        let next = rest.next;
        let mut due = rest.timers;
        let later = due.split_off(k);
        *self = TimerQueue { timers: later, next };
        proof {
            assert(due@ + self@ =~= old(self)@);
        }
        due
    }
}

/// Of two pending timers, the one with the earlier deadline, or of equal
/// deadlines the one whose token was issued first, stands first in firing order.
pub proof fn lemma_fires_in_deadline_then_token_order(q: Seq<Timer>, i: int, j: int)
    requires
        in_firing_order(q),
        0 <= i < q.len(),
        0 <= j < q.len(),
        q[i].deadline_spec().nanos < q[j].deadline_spec().nanos || (q[i].deadline_spec().nanos
            == q[j].deadline_spec().nanos && q[i].token_spec().id_spec()
            < q[j].token_spec().id_spec()),
    ensures
        i < j,
{
    if j <= i {
        if j < i {
            assert(fires_before(q[j], q[i]));
        }
    }
}

/// A pending timer whose deadline is at or before `now` is among those taken at
/// `now`.
pub proof fn lemma_passed_deadline_is_due(
    q: Seq<Timer>,
    due: Seq<Timer>,
    rest: Seq<Timer>,
    now: Instant,
    k: int,
)
    requires
        q == due + rest,
        forall|j: int| 0 <= j < rest.len() ==> (#[trigger] rest[j]).deadline_spec().nanos > now.nanos,
        0 <= k < q.len(),
        q[k].deadline_spec().nanos <= now.nanos,
    ensures
        k < due.len(),
        due[k] == q[k],
{
    if k >= due.len() {
        assert(q[k] == rest[k - due.len()]);
    }
}

/// Tokens issued one after the other by a queue strictly increase: `schedule`
/// takes the queue from `n0` to `n1` issuing `t1`, then from `n1` to `n2`
/// issuing `t2`.
pub proof fn lemma_tokens_increase(n0: u64, n1: u64, n2: u64, t1: TimerToken, t2: TimerToken)
    requires
        n0 >= 1,
        n0 < u64::MAX ==> t1.id_spec() == n0 && n1 == n0 + 1,
        n0 == u64::MAX ==> t1.id_spec() == 0 && n1 == n0,
        n1 < u64::MAX ==> t2.id_spec() == n1 && n2 == n1 + 1,
        n1 == u64::MAX ==> t2.id_spec() == 0 && n2 == n1,
        t1.is_valid_spec(),
        t2.is_valid_spec(),
    ensures
        t1.id_spec() < t2.id_spec(),
{
}

} // verus!
