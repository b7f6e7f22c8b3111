use vstd::prelude::*;

verus! {

/// The first port of the range `start..=end` to try, if the range has any.
pub fn first_port(start: u16, end: u16) -> (r: Option<u16>)
    ensures
        r == (if start <= end {
            Some(start)
        } else {
            None::<u16>
        }),
{
    if start <= end {
        Some(start)
    } else {
        None
    }
}

/// The port to try after `current` was taken, if the range up to `end` has
/// one left.
pub fn next_port(current: u16, end: u16) -> (r: Option<u16>)
    ensures
        r == (if current < end {
            Some((current + 1) as u16)
        } else {
            None::<u16>
        }),
{
    if current < end {
        Some(current + 1)
    } else {
        None
    }
}

/// The port to serve on: the free one found, or `fallback` where none was.
pub fn port_or(found: Option<u16>, fallback: u16) -> (r: u16)
    ensures
        r == (match found {
            Some(p) => p,
            None => fallback,
        }),
{
    match found {
        Some(p) => p,
        None => fallback,
    }
}

} // verus!
