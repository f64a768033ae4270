//! A bounded broadcast bus: one shared log of published events, a window of
//! the most recent ones, and an independent read cursor per subscriber.
//!
//! Every published event goes to every subscriber. A publisher is refused
//! (backpressure) rather than allowed to overwrite an event that some
//! subscriber still has to read; a forced publish may overwrite instead, and
//! the overtaken subscriber then learns how many events it missed through a
//! `Lagged` answer instead of silent loss. Capacity and the subscriber limit
//! are fixed at construction.
use vstd::prelude::*;

use crate::reactor_event::ReactorEvent;

verus! {

/// The answer a subscriber gets when it asks for its next event.
#[derive(Clone, Copy, PartialEq, Eq, Debug)]
pub enum BusPoll {
    /// The oldest event this subscriber had not seen yet.
    Message(ReactorEvent),
    /// The bus wrapped past this subscriber's cursor: this many events are
    /// gone for it. Its cursor now stands at the oldest retained event.
    Lagged(u64),
    /// The subscriber has seen everything published so far.
    Empty,
}

/// The broadcast bus. `window` holds the most recent events of the full
/// (ghost) `log`; each subscriber cursor counts how many log entries that
/// subscriber has consumed.
pub struct Bus {
    window: Vec<ReactorEvent>,
    published: u64,
    capacity: usize,
    cursors: Vec<u64>,
    max_subscribers: usize,
    log: Ghost<Seq<ReactorEvent>>,
}

impl Bus {
    /// Everything ever published on this bus, in publish order.
    pub closed spec fn log(self) -> Seq<ReactorEvent> {
        self.log@
    }

    /// How many events were published so far.
    pub closed spec fn published(self) -> u64 {
        self.published
    }

    /// Index of the oldest event still retained in the window: the window
    /// keeps the last `capacity` events, or all of them while fewer were
    /// published.
    pub open spec fn start(self) -> int {
        if self.published() >= self.capacity() {
            self.published() - self.capacity()
        } else {
            0
        }
    }

    /// The retained window, oldest first.
    pub closed spec fn window(self) -> Seq<ReactorEvent> {
        self.window@
    }

    /// How many events the window can retain.
    pub closed spec fn capacity(self) -> usize {
        self.capacity
    }

    /// The read cursors, one per subscriber, in subscription order.
    pub closed spec fn cursors(self) -> Seq<u64> {
        self.cursors@
    }

    /// How many subscribers there may be at most.
    pub closed spec fn max_subscribers(self) -> usize {
        self.max_subscribers
    }

    /// Internal consistency: the window is exactly the tail of the log, it
    /// fits the capacity, and every cursor points into the log or just past
    /// its end.
    pub closed spec fn wf(self) -> bool {
        &&& self.capacity >= 1
        &&& self.published == self.log@.len()
        &&& self.window@ == self.log@.subrange(self.start(), self.published as int)
        &&& self.cursors@.len() <= self.max_subscribers
        &&& forall|i: int| 0 <= i < self.cursors@.len() ==> self.cursors@[i] <= self.published
    }

    /// A publish is admitted when a window slot is free or the oldest
    /// retained event is not still owed to any subscriber.
    pub open spec fn can_publish(self) -> bool {
        self.published() < self.capacity() || (forall|i: int|
            0 <= i < self.cursors().len() ==> self.cursors()[i] != self.start())
    }

    /// An empty bus that retains up to `capacity` events and admits up to
    /// `max_subscribers` subscribers.
    pub fn new(capacity: usize, max_subscribers: usize) -> (r: Bus)
        requires
            capacity >= 1,
        ensures
            r.wf(),
            r.log() == Seq::<ReactorEvent>::empty(),
            r.published() == 0,
            r.cursors() == Seq::<u64>::empty(),
            r.capacity() == capacity,
            r.max_subscribers() == max_subscribers,
    {
        let r = Bus {
            window: Vec::new(),
            published: 0,
            capacity,
            cursors: Vec::new(),
            max_subscribers: max_subscribers,
            log: Ghost(Seq::empty()),
        };
        proof {
            assert(r.window@ =~= r.log@.subrange(r.start(), r.published as int));
        }
        r
    }

    /// Registers a new subscriber. Its cursor starts at the present end of
    /// the log, so it observes exactly the events published after this call.
    /// Refused once the subscriber limit is reached.
    pub fn subscribe(&mut self) -> (r: Option<usize>)
        requires
            old(self).wf(),
        ensures
            final(self).wf(),
            final(self).log() == old(self).log(),
            final(self).window() == old(self).window(),
            final(self).published() == old(self).published(),
            final(self).capacity() == old(self).capacity(),
            final(self).max_subscribers() == old(self).max_subscribers(),
            old(self).cursors().len() < old(self).max_subscribers() ==> r == Some(
                old(self).cursors().len() as usize,
            ) && final(self).cursors() == old(self).cursors().push(old(self).published()),
            old(self).cursors().len() >= old(self).max_subscribers() ==> r == None::<usize>
                && final(self).cursors() == old(self).cursors(),
    {
        if self.cursors.len() < self.max_subscribers {
            let id = self.cursors.len();
            self.cursors.push(self.published);
            Some(id)
        } else {
            None
        }
    }

    /// Publishes `event` unless that would overwrite an event some
    /// subscriber still has to read; in that case nothing changes and the
    /// caller may retry once a cursor has moved on (backpressure).
    pub fn try_publish(&mut self, event: ReactorEvent) -> (ok: bool)
        requires
            old(self).wf(),
            old(self).published() < u64::MAX,
        ensures
            final(self).wf(),
            ok == old(self).can_publish(),
            final(self).capacity() == old(self).capacity(),
            final(self).max_subscribers() == old(self).max_subscribers(),
            final(self).cursors() == old(self).cursors(),
            ok ==> final(self).log() == old(self).log().push(event) && final(self).published()
                == old(self).published() + 1,
            !ok ==> *final(self) == *old(self),
    {
        if self.window.len() >= self.capacity {
            let start: u64 = self.published - self.window.len() as u64;
            let n = self.cursors.len();
            let mut j: usize = 0;
            while j < n
                invariant
                    self.wf(),
                    self.window@.len() >= self.capacity,
                    n == self.cursors@.len(),
                    j <= n,
                    forall|k: int| 0 <= k < j ==> self.cursors@[k] != start,
                    start == self.start(),
                    self == old(self),
                decreases n - j,
            {
                if self.cursors[j] == start {
                    proof {
                        assert(self.window@.len() == self.published - self.start());
                        assert(self.published() >= self.capacity());
                        assert(self.cursors()[j as int] == self.start());
                        assert(!self.can_publish());
                    }
                    return false;
                }
                j += 1;
            }
            self.window.remove(0);
        }
        self.window.push(event);
        self.published = self.published + 1;
        proof {
            self.log@ = self.log@.push(event);
            assert(self.window@ =~= self.log@.subrange(self.start(), self.published as int));
        }
        true
    }

    /// Publishes `event` unconditionally. When the window is full the oldest
    /// retained event is dropped, and subscribers that still needed it will
    /// be told so through `Lagged`.
    pub fn publish_forced(&mut self, event: ReactorEvent)
        requires
            old(self).wf(),
            old(self).published() < u64::MAX,
        ensures
            final(self).wf(),
            final(self).log() == old(self).log().push(event),
            final(self).published() == old(self).published() + 1,
            final(self).capacity() == old(self).capacity(),
            final(self).max_subscribers() == old(self).max_subscribers(),
            final(self).cursors() == old(self).cursors(),
    {
        if self.window.len() >= self.capacity {
            self.window.remove(0);
        }
        self.window.push(event);
        self.published = self.published + 1;
        proof {
            self.log@ = self.log@.push(event);
            assert(self.window@ =~= self.log@.subrange(self.start(), self.published as int));
        }
    }

    /// Hands subscriber `i` its next event: the log entry at its cursor, in
    /// publish order. If the bus has wrapped past the cursor, the subscriber
    /// instead learns how many events it missed, and its cursor jumps to the
    /// oldest retained event; nothing is ever reordered or duplicated.
    pub fn try_next(&mut self, i: usize) -> (r: BusPoll)
        requires
            old(self).wf(),
            i < old(self).cursors().len(),
        ensures
            final(self).wf(),
            final(self).log() == old(self).log(),
            final(self).window() == old(self).window(),
            final(self).published() == old(self).published(),
            final(self).capacity() == old(self).capacity(),
            final(self).max_subscribers() == old(self).max_subscribers(),
            final(self).cursors().len() == old(self).cursors().len(),
            forall|k: int|
                0 <= k < old(self).cursors().len() && k != i
                    ==> final(self).cursors()[k] == old(self).cursors()[k],
            old(self).cursors()[i as int] < old(self).start()
                ==> r == BusPoll::Lagged((old(self).start() - old(self).cursors()[i as int]) as u64)
                    && final(self).cursors()[i as int] == old(self).start(),
            old(self).cursors()[i as int] == old(self).published()
                ==> r == BusPoll::Empty
                    && final(self).cursors()[i as int] == old(self).cursors()[i as int],
            old(self).start() <= old(self).cursors()[i as int] < old(self).published()
                ==> r == BusPoll::Message(old(self).log()[old(self).cursors()[i as int] as int])
                    && final(self).cursors()[i as int] == old(self).cursors()[i as int] + 1,
    {
        let start: u64 = self.published - self.window.len() as u64;
        let c = self.cursors[i];
        if c < start {
            let missed = start - c;
            self.cursors[i] = start;
            BusPoll::Lagged(missed)
        } else if c == self.published {
            BusPoll::Empty
        } else {
            let idx = (c - start) as usize;
            let m = self.window[idx];
            self.cursors[i] = c + 1;
            BusPoll::Message(m)
        }
    }

    /// Drains everything subscriber `i` can still observe, by repeated
    /// `try_next`. This is the bus's fan-out guarantee in one statement: the
    /// subscriber gets every retained event from its cursor on, in exact
    /// publish order with nothing reordered or duplicated, and if the bus
    /// wrapped past it, the returned count accounts exactly for the events
    /// that are gone.
    pub fn collect_pending(&mut self, i: usize) -> (r: (u64, Vec<ReactorEvent>))
        requires
            old(self).wf(),
            i < old(self).cursors().len(),
        ensures
            final(self).wf(),
            final(self).log() == old(self).log(),
            final(self).window() == old(self).window(),
            final(self).published() == old(self).published(),
            final(self).capacity() == old(self).capacity(),
            final(self).max_subscribers() == old(self).max_subscribers(),
            final(self).cursors().len() == old(self).cursors().len(),
            forall|k: int|
                0 <= k < old(self).cursors().len() && k != i
                    ==> final(self).cursors()[k] == old(self).cursors()[k],
            final(self).cursors()[i as int] == old(self).published(),
            old(self).cursors()[i as int] >= old(self).start()
                ==> r.0 == 0 && r.1@ == old(self).log().subrange(
                    old(self).cursors()[i as int] as int,
                    old(self).published() as int,
                ),
            old(self).cursors()[i as int] < old(self).start()
                ==> r.0 == old(self).start() - old(self).cursors()[i as int]
                    && r.1@ == old(self).log().subrange(
                    old(self).start(),
                    old(self).published() as int,
                ),
    {
        let ghost from = if old(self).cursors()[i as int] >= old(self).start() {
            old(self).cursors()[i as int] as int
        } else {
            old(self).start()
        };
        let mut lag: u64 = 0;
        let mut out: Vec<ReactorEvent> = Vec::new();
        match self.try_next(i) {
            BusPoll::Lagged(n) => {
                lag = n;
                proof {
                    assert(out@ =~= old(self).log().subrange(
                        from,
                        self.cursors()[i as int] as int,
                    ));
                }
            },
            BusPoll::Message(m) => {
                out.push(m);
                proof {
                    assert(out@ =~= old(self).log().subrange(
                        from,
                        self.cursors()[i as int] as int,
                    ));
                }
            },
            BusPoll::Empty => {
                proof {
                    assert(out@ =~= old(self).log().subrange(from, old(self).published() as int));
                }
                return (0, out);
            },
        }
        loop
            invariant
                old(self).wf(),
                i < old(self).cursors().len(),
                0 <= from,
                from == (if old(self).cursors()[i as int] >= old(self).start() {
                    old(self).cursors()[i as int] as int
                } else {
                    old(self).start()
                }),
                self.wf(),
                self.log() == old(self).log(),
                self.window() == old(self).window(),
                self.published() == old(self).published(),
                self.capacity() == old(self).capacity(),
                self.max_subscribers() == old(self).max_subscribers(),
                self.cursors().len() == old(self).cursors().len(),
                i < self.cursors().len(),
                forall|k: int|
                    0 <= k < old(self).cursors().len() && k != i
                        ==> self.cursors()[k] == old(self).cursors()[k],
                self.start() <= self.cursors()[i as int] <= self.published(),
                from <= self.cursors()[i as int],
                out@ == old(self).log().subrange(from, self.cursors()[i as int] as int),
                lag == (if old(self).cursors()[i as int] >= old(self).start() {
                    0u64
                } else {
                    (old(self).start() - old(self).cursors()[i as int]) as u64
                }),
            decreases self.published() - self.cursors()[i as int],
        {
            let ghost c_before = self.cursors()[i as int] as int;
            match self.try_next(i) {
                BusPoll::Message(m) => {
                    out.push(m);
                    proof {
                        assert(out@ =~= old(self).log().subrange(from, c_before + 1));
                    }
                },
                BusPoll::Empty => {
                    return (lag, out);
                },
                BusPoll::Lagged(_) => {
                    proof {
                        assert(false);
                    }
                },
            }
        }
    }
}

} // verus!
