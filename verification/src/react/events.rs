use vstd::prelude::*;

verus! {

/// Counts the react events sent so far; each event gets the next count as its id.
pub struct ReactEventCounter {
    pub count: u64,
}

impl ReactEventCounter {
    /// A counter at zero.
    pub fn new() -> (res: Self)
        ensures
            res.count == 0,
    {
        ReactEventCounter { count: 0 }
    }

    /// Advance the counter and return the new count, the id of the next event.
    pub fn increment(&mut self) -> (id: u64)
        requires
            old(self).count < u64::MAX,
        ensures
            final(self).count == old(self).count + 1,
            id == final(self).count,
    {
        self.count = self.count + 1;
        self.count
    }
}

/// A react event together with its id.
pub struct ReactEventInner<E> {
    /// This event's id.
    pub event_id: u64,
    /// The event.
    pub event: E,
}

/// The events of `s` whose id is above `floor`, in order.
pub open spec fn fresh_events<E>(s: Seq<ReactEventInner<E>>, floor: u64) -> Seq<E>
    decreases s.len(),
{
    if s.len() == 0 {
        Seq::empty()
    } else {
        let rest = fresh_events(s.drop_last(), floor);
        if s.last().event_id > floor {
            rest.push(s.last().event)
        } else {
            rest
        }
    }
}

/// Index of the first event of `s` from index `i` on whose id is above `floor` (`s.len()` if none).
pub open spec fn next_fresh<E>(s: Seq<ReactEventInner<E>>, floor: u64, i: int) -> int
    decreases s.len() - i,
{
    if i >= s.len() {
        s.len() as int
    } else if s[i].event_id > floor {
        i
    } else {
        next_fresh(s, floor, i + 1)
    }
}

/// Access to the react events of one type, as seen by a reactor: events sent before the reactor was set up (with
/// an id at or below `sync`) are not exposed, and reading consumes events, like an event reader.
pub struct ReactEvents<E> {
    /// The counter's value when the reactor was set up.
    pub sync: u64,
    /// The events received, in the order they were sent.
    pub pending: Vec<ReactEventInner<E>>,
    /// How many of the events received have been read.
    pub read: usize,
}

impl<E> ReactEvents<E> {
    /// The events not read yet, in order.
    pub open spec fn unread(&self) -> Seq<ReactEventInner<E>> {
        if self.read >= self.pending@.len() {
            Seq::empty()
        } else {
            self.pending@.skip(self.read as int)
        }
    }

    /// Events of a reactor set up when the counter stood at `counter.count`; none of them read yet.
    pub fn new(counter: &ReactEventCounter, pending: Vec<ReactEventInner<E>>) -> (res: Self)
        ensures
            res.sync == counter.count,
            res.pending@ == pending@,
            res.unread() == pending@,
    {
        let res = ReactEvents { sync: counter.count, pending, read: 0 };
        assert(res.pending@.skip(0) =~= res.pending@);
        res
    }

    /// Read all unread events: those sent after the reactor was set up, in order. Afterwards no event is unread.
    pub fn iter(&mut self) -> (res: Vec<&E>)
        ensures
            final(self).sync == old(self).sync,
            final(self).pending@ == old(self).pending@,
            final(self).unread().len() == 0,
            res@.len() == fresh_events(old(self).unread(), old(self).sync).len(),
            forall|i: int|
                0 <= i < res@.len() ==> *res@[i] == fresh_events(old(self).unread(), old(self).sync)[i],
    {
        let n = self.pending.len();
        let start = if self.read < n { self.read } else { n };
        let ghost u = old(self).unread();
        assert(u =~= self.pending@.subrange(start as int, n as int));
        self.read = n;
        let events = &self.pending;
        let sync = self.sync;
        let mut out: Vec<&E> = Vec::new();
        let mut i: usize = start;
        while i < n
            invariant
                start <= i <= n,
                n == events@.len(),
                u == events@.subrange(start as int, n as int),
                out@.len() == fresh_events(u.take(i - start), sync).len(),
                forall|k: int| 0 <= k < out@.len() ==> *out@[k] == fresh_events(u.take(i - start), sync)[k],
            decreases n - i,
        {
            assert(u.take(i + 1 - start).drop_last() =~= u.take(i - start));
            assert(u.take(i + 1 - start).last() == events@[i as int]);
            let e = &events[i];
            if e.event_id > sync {
                out.push(&e.event);
            }
            i = i + 1;
        }
        assert(u.take(n - start) =~= u);
        out
    }

    /// Read up to and including the next unread event sent after the reactor was set up, and return it.
    pub fn next(&mut self) -> (res: Option<&E>)
        ensures
            final(self).sync == old(self).sync,
            final(self).pending@ == old(self).pending@,
            ({
                let u = old(self).unread();
                let j = next_fresh(u, old(self).sync, 0);
                if j < u.len() {
                    res == Some(&u[j].event) && final(self).unread() == u.skip(j + 1)
                } else {
                    res is None && final(self).unread().len() == 0
                }
            }),
    {
        let n = self.pending.len();
        let start = if self.read < n { self.read } else { n };
        let ghost u = old(self).unread();
        assert(u =~= self.pending@.subrange(start as int, n as int));
        let mut i: usize = start;
        while i < n && self.pending[i].event_id <= self.sync
            invariant
                start <= i <= n,
                n == self.pending@.len(),
                self.sync == old(self).sync,
                self.pending@ == old(self).pending@,
                u == self.pending@.subrange(start as int, n as int),
                next_fresh(u, self.sync, 0) == next_fresh(u, self.sync, i - start),
            decreases n - i,
        {
            i = i + 1;
        }
        if i < n {
            self.read = i + 1;
            assert(self.unread() =~= u.skip(i - start + 1));
            Some(&self.pending[i].event)
        } else {
            self.read = n;
            None
        }
    }

    /// Whether no event is left to read (events the reactor does not expose included).
    pub fn is_empty(&self) -> (res: bool)
        ensures
            res == (self.unread().len() == 0),
    {
        self.read >= self.pending.len()
    }

    /// Mark all events as read.
    pub fn clear(&mut self)
        ensures
            final(self).sync == old(self).sync,
            final(self).pending@ == old(self).pending@,
            final(self).unread().len() == 0,
    {
        self.read = self.pending.len();
    }
}

/// A reactor never sees events sent before it was set up: when every pending event is older than the reactor,
/// none is exposed; when every pending event is newer, all are exposed, in order.
pub proof fn lemma_fresh_events_floor<E>(s: Seq<ReactEventInner<E>>, floor: u64)
    ensures
        (forall|i: int| 0 <= i < s.len() ==> (#[trigger] s[i]).event_id <= floor) ==> fresh_events(s, floor).len()
            == 0,
        (forall|i: int| 0 <= i < s.len() ==> (#[trigger] s[i]).event_id > floor) ==> fresh_events(s, floor)
            == s.map_values(|e: ReactEventInner<E>| e.event),
    decreases s.len(),
{
    if s.len() > 0 {
        lemma_fresh_events_floor(s.drop_last(), floor);
        if forall|i: int| 0 <= i < s.len() ==> (#[trigger] s[i]).event_id <= floor {
            assert forall|i: int| 0 <= i < s.drop_last().len() implies (#[trigger] s.drop_last()[i]).event_id
                <= floor by {
                assert(s.drop_last()[i] == s[i]);
            }
            assert(s[s.len() - 1].event_id <= floor);
        }
        if forall|i: int| 0 <= i < s.len() ==> (#[trigger] s[i]).event_id > floor {
            assert forall|i: int| 0 <= i < s.drop_last().len() implies (#[trigger] s.drop_last()[i]).event_id
                > floor by {
                assert(s.drop_last()[i] == s[i]);
            }
            assert(s[s.len() - 1].event_id > floor);
            assert(s.map_values(|e: ReactEventInner<E>| e.event) =~= s.drop_last().map_values(
                |e: ReactEventInner<E>| e.event,
            ).push(s.last().event));
        }
    }
}

} // verus!
