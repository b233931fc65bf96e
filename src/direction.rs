use vstd::prelude::*;
use crate::orientation::Orientation;

verus! {

/// Euclidean remainder of an angle by a full turn.
pub open spec fn normalized_degrees(d: int) -> int {
    d % 360
}

/// Brings an angle in whole degrees (as rounded from `atan2`, possibly
/// negative) into `[0, 360)`.
pub fn normalize_degrees(d: i32) -> (r: u32)
    ensures
        r < 360,
        r as int == normalized_degrees(d as int),
        0 <= d < 360 ==> r as int == d,
{
    let m: i32 = d % 360;
    if m < 0 {
        (m + 360) as u32
    } else {
        m as u32
    }
}

/// Index of the 45-degree sector centred on a multiple of 45 degrees that holds
/// `d`; sector 0 is centred on the positive x-axis and sectors go
/// counter-clockwise.
pub open spec fn sector_of(d: int) -> int {
    ((d + 22) / 45) % 8
}

/// Orientation facing along an angle measured counter-clockwise from the
/// positive x-axis, positive y up.
pub open spec fn orientation_of_sector(s: int) -> Orientation {
    if s == 0 {
        Orientation::Right
    } else if s == 1 {
        Orientation::UpRight
    } else if s == 2 {
        Orientation::Up
    } else if s == 3 {
        Orientation::UpLeft
    } else if s == 4 {
        Orientation::Left
    } else if s == 5 {
        Orientation::DownLeft
    } else if s == 6 {
        Orientation::Down
    } else {
        Orientation::DownRight
    }
}

/// Buckets an angle of travel in `[0, 360)` into one of the eight facings.
pub fn orientation_from_degrees(d: u32) -> (r: Orientation)
    requires
        d < 360,
    ensures
        r == orientation_of_sector(sector_of(d as int)),
        r != Orientation::Still,
{
    let s: u32 = ((d + 22) / 45) % 8;
    if s == 0 {
        Orientation::Right
    } else if s == 1 {
        Orientation::UpRight
    } else if s == 2 {
        Orientation::Up
    } else if s == 3 {
        Orientation::UpLeft
    } else if s == 4 {
        Orientation::Left
    } else if s == 5 {
        Orientation::DownLeft
    } else if s == 6 {
        Orientation::Down
    } else {
        Orientation::DownRight
    }
}

} // verus!
