//! The analog producer's decision logic: given a fresh block of channel
//! samples from the converter, decide whether anything changed and which
//! axis event describes it. The sampling itself happens at the hardware
//! edge; this state machine only compares and classifies.
use vstd::prelude::*;

use crate::reactor_event::ReactorEvent;

verus! {

/// The axis event a block of channel samples maps to, by channel count:
/// one channel is a potentiometer, two a joystick, three a full joystick,
/// six a two-joystick six-axis pointer. Other counts map to nothing.
pub open spec fn axis_event_spec(s: Seq<i16>) -> Option<ReactorEvent> {
    if s.len() == 1 {
        Some(ReactorEvent::Potentiometer { v: s[0] })
    } else if s.len() == 2 {
        Some(ReactorEvent::Joystick { x: s[0], y: s[1] })
    } else if s.len() == 3 {
        Some(ReactorEvent::FullJoystick { x: s[0], y: s[1], z: s[2] })
    } else if s.len() == 6 {
        Some(
            ReactorEvent::Joystick6DoF {
                x: s[0],
                y: s[1],
                z: s[2],
                rx: s[3],
                ry: s[4],
                rz: s[5],
            },
        )
    } else {
        None
    }
}

/// Change detection over a fixed set of analog channels.
pub struct Analog {
    /// The most recent block of samples, one per channel.
    pub last_state: Vec<i16>,
}

impl Analog {
    /// A producer for `channels` channels, with every reading at zero.
    pub fn new(channels: usize) -> (r: Analog)
        ensures
            r.last_state@.len() == channels,
            forall|i: int| 0 <= i < channels ==> r.last_state@[i] == 0,
    {
        let mut last_state: Vec<i16> = Vec::new();
        let mut i: usize = 0;
        while i < channels
            invariant
                i <= channels,
                last_state@.len() == i,
                forall|j: int| 0 <= j < i ==> last_state@[j] == 0,
            decreases channels - i,
        {
            last_state.push(0);
            i += 1;
        }
        Analog { last_state }
    }

    /// Takes one fresh block of samples: an unchanged block produces
    /// nothing; a changed block is remembered and classified into its axis
    /// event.
    pub fn process_sample(&mut self, buf: &Vec<i16>) -> (out: Option<ReactorEvent>)
        requires
            buf@.len() == old(self).last_state@.len(),
        ensures
            buf@ == old(self).last_state@ ==> *final(self) == *old(self) && out == None::<
                ReactorEvent,
            >,
            buf@ != old(self).last_state@ ==> final(self).last_state@ == buf@ && out
                == axis_event_spec(buf@),
    {
        let n = buf.len();
        let same = samples_equal(buf, &self.last_state);
        if same {
            return None;
        }
        self.last_state = buf.clone();
        let out = if n == 1 {
            Some(ReactorEvent::Potentiometer { v: buf[0] })
        } else if n == 2 {
            Some(ReactorEvent::Joystick { x: buf[0], y: buf[1] })
        } else if n == 3 {
            Some(ReactorEvent::FullJoystick { x: buf[0], y: buf[1], z: buf[2] })
        } else if n == 6 {
            Some(
                ReactorEvent::Joystick6DoF {
                    x: buf[0],
                    y: buf[1],
                    z: buf[2],
                    rx: buf[3],
                    ry: buf[4],
                    rz: buf[5],
                },
            )
        } else {
            None
        };
        out
    }
}

/// Whether two equally long blocks of samples are identical.
fn samples_equal(a: &Vec<i16>, b: &Vec<i16>) -> (r: bool)
    requires
        a@.len() == b@.len(),
    ensures
        r == (a@ == b@),
{
    let n = a.len();
    let mut i: usize = 0;
    while i < n
        invariant
            n == a@.len(),
            n == b@.len(),
            i <= n,
            forall|j: int| 0 <= j < i ==> a@[j] == b@[j],
        decreases n - i,
    {
        if a[i] != b[i] {
            proof {
                assert(a@[i as int] != b@[i as int]);
            }
            return false;
        }
        i += 1;
    }
    proof {
        assert(a@ =~= b@);
    }
    true
}

} // verus!
