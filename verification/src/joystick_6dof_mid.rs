//! Middleware that folds three 2-axis joystick readings, mounted in a
//! triangle, into one 6-degree-of-freedom pointer event.
use vstd::prelude::*;

use crate::reactor_event::ReactorEvent;

verus! {

/// Rust's truncating integer division (toward zero) for a positive divisor,
/// as a spec-level function.
pub open spec fn div_trunc(a: int, b: int) -> int {
    if a >= 0 {
        a / b
    } else {
        -((-a) / b)
    }
}

/// Whether six raw axis readings stay within the intermediate arithmetic of
/// the triangular mixdown; readings outside are refused rather than allowed
/// to wrap.
pub open spec fn mixdown_in_range(
    j1x: i16,
    j1y: i16,
    j2x: i16,
    j2y: i16,
    j3x: i16,
    j3y: i16,
) -> bool {
    &&& i16::MIN <= j1x + j2x <= i16::MAX
    &&& i16::MIN <= j1x + j2x + j3x <= i16::MAX
    &&& i16::MIN <= j1y + j2y <= i16::MAX
    &&& i16::MIN <= j1y + j2y + j3y <= i16::MAX
    &&& i16::MIN <= j1x - j2x <= i16::MAX
    &&& i16::MIN <= j1y - j2y <= i16::MAX
    &&& i16::MIN <= 2 * j3x <= i16::MAX
    &&& i16::MIN <= j1x + j2x - 2 * j3x <= i16::MAX
    &&& i16::MIN <= 2 * j3y <= i16::MAX
    &&& i16::MIN <= j1y + j2y - 2 * j3y <= i16::MAX
}

/// Translates three 2-axis joysticks into a 6-degree-of-freedom space-mouse
/// event. The sticks sit in a triangle, the first at the top and the other
/// two at the bottom, all facing outwards; translation averages the aligned
/// axes, rotation takes their differences.
pub fn calculate_triangular_6dof(j1x: i16, j1y: i16, j2x: i16, j2y: i16, j3x: i16, j3y: i16) -> (r:
    ReactorEvent)
    requires
        mixdown_in_range(j1x, j1y, j2x, j2y, j3x, j3y),
    ensures
        r == (ReactorEvent::Joystick6DoF {
            x: div_trunc(j1x + j2x + j3x, 3) as i16,
            y: div_trunc(j1y + j2y + j3y, 3) as i16,
            z: div_trunc(j1x - j2x, 2) as i16,
            rx: div_trunc(j1y - j2y, 2) as i16,
            ry: div_trunc(j1x + j2x - 2 * j3x, 3) as i16,
            rz: div_trunc(j1y + j2y - 2 * j3y, 3) as i16,
        }),
{
    ReactorEvent::Joystick6DoF {
        x: (j1x + j2x + j3x) / 3,
        y: (j1y + j2y + j3y) / 3,
        z: (j1x - j2x) / 2,
        rx: (j1y - j2y) / 2,
        ry: (j1x + j2x - 2 * j3x) / 3,
        rz: (j1y + j2y - 2 * j3y) / 3,
    }
}

/// The mixdown as a stateless middleware: raw six-axis events become
/// space-mouse events, everything else passes by untouched.
#[derive(Clone, Copy, PartialEq, Eq, Structural, Debug)]
pub struct Joystick6DOFMid();

impl Default for Joystick6DOFMid {
    fn default() -> (r: Self)
        ensures
            r == Joystick6DOFMid(),
    {
        Joystick6DOFMid()
    }
}

impl Joystick6DOFMid {
    /// Feeds one bus event through: only raw six-axis readings produce an
    /// output event.
    pub fn process(&mut self, value: ReactorEvent) -> (out: Option<ReactorEvent>)
        requires
            value matches ReactorEvent::Analog6Axis(j1x, j1y, j2x, j2y, j3x, j3y)
                ==> mixdown_in_range(j1x, j1y, j2x, j2y, j3x, j3y),
        ensures
            value matches ReactorEvent::Analog6Axis(j1x, j1y, j2x, j2y, j3x, j3y) ==> out == Some(
                ReactorEvent::Joystick6DoF {
                    x: div_trunc(j1x + j2x + j3x, 3) as i16,
                    y: div_trunc(j1y + j2y + j3y, 3) as i16,
                    z: div_trunc(j1x - j2x, 2) as i16,
                    rx: div_trunc(j1y - j2y, 2) as i16,
                    ry: div_trunc(j1x + j2x - 2 * j3x, 3) as i16,
                    rz: div_trunc(j1y + j2y - 2 * j3y, 3) as i16,
                },
            ),
            !(value matches ReactorEvent::Analog6Axis(_, _, _, _, _, _)) ==> out == None::<
                ReactorEvent,
            >,
    {
        match value {
            ReactorEvent::Analog6Axis(j1x, j1y, j2x, j2y, j3x, j3y) => Some(
                calculate_triangular_6dof(j1x, j1y, j2x, j2y, j3x, j3y),
            ),
            _ => None,
        }
    }
}

} // verus!
