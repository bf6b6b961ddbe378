use vstd::prelude::*;

verus! {

/// Smallest and largest size of a ball spawned at start-up.
pub const AMBIENT_SIZE_MIN: i32 = 5;

pub const AMBIENT_SIZE_MAX: i32 = 30;

/// Smallest and largest size of a ball spawned by a click.
pub const CLICK_SIZE_MIN: i32 = 15;

pub const CLICK_SIZE_MAX: i32 = 50;

/// Smallest and largest initial speed along each axis, in pixels per second.
pub const SPEED_MIN: i32 = 1;

pub const SPEED_MAX: i32 = 100;

/// Sign of one velocity component.
#[derive(Clone, Copy, Debug, PartialEq, Eq, Structural)]
pub enum Heading {
    Negative,
    Still,
    Positive,
}

/// The heading of a velocity component after the boundary check on its axis,
/// made once the position has moved. A ball at or past the far edge that
/// still moves outward turns back; one below zero that still moves outward
/// turns forward. Otherwise the heading is kept. Only the sign changes: the
/// speed is kept and the position is not clamped.
pub open spec fn bounce_spec(at_or_past_limit: bool, below_zero: bool, h: Heading) -> Heading {
    if at_or_past_limit && h == Heading::Positive {
        Heading::Negative
    } else if below_zero && h == Heading::Negative {
        Heading::Positive
    } else {
        h
    }
}

/// Applies the reflective boundary to one axis.
pub fn bounce(at_or_past_limit: bool, below_zero: bool, h: Heading) -> (r: Heading)
    ensures
        r == bounce_spec(at_or_past_limit, below_zero, h),
        at_or_past_limit && !below_zero ==> r != Heading::Positive,
        below_zero && !at_or_past_limit ==> r != Heading::Negative,
        !at_or_past_limit && !below_zero ==> r == h,
{
    match h {
        Heading::Positive => {
            if at_or_past_limit {
                Heading::Negative
            } else {
                Heading::Positive
            }
        },
        Heading::Negative => {
            if below_zero {
                Heading::Positive
            } else {
                Heading::Negative
            }
        },
        Heading::Still => Heading::Still,
    }
}

} // verus!
