//! The dispatch rules of the output side: which transport sink accepts
//! which bus event, and which sinks a polled message goes to, in array
//! order. The loop that actually awaits each transport runs at the edge;
//! every decision it takes comes from here.
use vstd::prelude::*;

use crate::bus::BusPoll;
use crate::reactor_event::ReactorEvent;

verus! {

/// The closed set of output transports. Each declares, as a capability
/// predicate, which events it can forward: composite reports for both, and
/// space-mouse events additionally over the wired transport. Raw matrix and
/// logical key events belong to the middleware stages and are accepted by
/// neither.
#[derive(Clone, Copy, PartialEq, Eq, Structural, Debug)]
pub enum SinkKind {
    UsbHid,
    BleHid,
}

impl SinkKind {
    /// The capability predicate of this sink.
    pub open spec fn accepts_spec(self, event: ReactorEvent) -> bool {
        match self {
            SinkKind::UsbHid => event matches ReactorEvent::KeyboardReport { .. } || event matches
                ReactorEvent::Joystick6DoF { .. },
            SinkKind::BleHid => event matches ReactorEvent::KeyboardReport { .. },
        }
    }

    /// Whether this sink accepts `event`.
    pub fn is_supported(self, event: &ReactorEvent) -> (r: bool)
        ensures
            r == self.accepts_spec(*event),
    {
        match self {
            SinkKind::UsbHid => match event {
                ReactorEvent::KeyboardReport { .. } => true,
                ReactorEvent::Joystick6DoF { .. } => true,
                _ => false,
            },
            SinkKind::BleHid => match event {
                ReactorEvent::KeyboardReport { .. } => true,
                _ => false,
            },
        }
    }
}

/// The indices among the first `n` sinks that accept `event`, in array
/// order. Delivery order among sinks is this array order.
pub open spec fn route_spec(event: ReactorEvent, sinks: Seq<SinkKind>, n: int) -> Seq<usize>
    decreases n,
{
    if n <= 0 {
        Seq::empty()
    } else {
        route_spec(event, sinks, n - 1) + (if sinks[n - 1].accepts_spec(event) {
            seq![(n - 1) as usize]
        } else {
            Seq::empty()
        })
    }
}

/// The sinks that `event` goes to, in array order.
pub fn route(event: &ReactorEvent, sinks: &Vec<SinkKind>) -> (r: Vec<usize>)
    ensures
        r@ == route_spec(*event, sinks@, sinks@.len() as int),
{
    let mut r: Vec<usize> = Vec::new();
    let n = sinks.len();
    let mut i: usize = 0;
    while i < n
        invariant
            n == sinks@.len(),
            i <= n,
            r@ == route_spec(*event, sinks@, i as int),
        decreases n - i,
    {
        if sinks[i].is_supported(event) {
            r.push(i);
        }
        proof {
            assert(r@ =~= route_spec(*event, sinks@, i as int + 1));
        }
        i += 1;
    }
    r
}

/// The dispatch loop's decision for one bus poll: a message goes to every
/// sink that accepts it; a lag marker and an empty poll deliver to nobody
/// (lag is skip-and-continue, never a stall).
pub fn sinks_for(poll: &BusPoll, sinks: &Vec<SinkKind>) -> (r: Vec<usize>)
    ensures
        poll matches BusPoll::Message(m) ==> r@ == route_spec(*m, sinks@, sinks@.len() as int),
        !(poll matches BusPoll::Message(_)) ==> r@ == Seq::<usize>::empty(),
{
    match poll {
        BusPoll::Message(m) => route(m, sinks),
        _ => Vec::new(),
    }
}

} // verus!
