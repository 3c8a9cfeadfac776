use vstd::prelude::*;

use crate::chance::draw_between;

verus! {

// Distances are in hundredths of a mile, times in milliseconds and tip
// adjustments in tenths of a percent.

/// Shortest ride distance that a passenger asks for.
pub const MIN_RIDE_DISTANCE: u32 = 25;

/// Longest ride distance that a passenger asks for.
pub const MAX_RIDE_DISTANCE: u32 = 1000;

/// Fare for each mile, in whole units of money.
pub const FARE_PER_MILE: u64 = 7;

/// Tip, in tenths of a percent, that every ride starts from.
pub const BASE_TIP: i64 = 100;

/// The fare of a ride of `distance`: the price per mile times the miles,
/// rounded up to a whole unit.
pub open spec fn fare_of(distance: int) -> int {
    (FARE_PER_MILE * distance + 99) / 100
}

/// Tip adjustment for stopping `past` beyond the drop-off point: a bonus
/// under a quarter mile, then ever larger cuts.
pub open spec fn past_dropoff_adjustment(past: int) -> int {
    if past < 25 {
        35
    } else if past < 50 {
        5
    } else if past < 75 {
        -20
    } else if past < 175 {
        -40
    } else if past < 200 {
        -60
    } else if past < 300 {
        -80
    } else {
        -100
    }
}

/// Whether a ride of `distance` taking `time` ms took under `tenths` tenths of
/// the fastest time, that of driving at full speed (300 per second, a
/// thousandth of a mile each) all the way.
pub open spec fn under_ratio(distance: int, time: int, tenths: int) -> bool {
    3 * time < 10 * tenths * distance
}

/// Tip adjustment for the ratio of the trip time to the fastest time: a bonus
/// under 1.1, then ever larger cuts up to 1.6 and beyond.
pub open spec fn speed_adjustment(distance: int, time: int) -> int {
    if under_ratio(distance, time, 11) {
        40
    } else if under_ratio(distance, time, 12) {
        25
    } else if under_ratio(distance, time, 13) {
        5
    } else if under_ratio(distance, time, 14) {
        -10
    } else if under_ratio(distance, time, 15) {
        -30
    } else if under_ratio(distance, time, 16) {
        -60
    } else {
        -100
    }
}

/// The tip percentage, in three-thousandths of a percent: the base, the two
/// adjustments, and one percent less each second beyond the fastest time.
pub open spec fn tip_share(distance: int, past: int, time: int) -> int {
    300 * (BASE_TIP + past_dropoff_adjustment(past) + speed_adjustment(distance, time)) + 3000 - 3
        * time + 100 * distance
}

/// The tip on a fare `cost`: that share of it, rounded down, and never below
/// nothing.
pub open spec fn tip_of(cost: int, distance: int, past: int, time: int) -> int {
    let n = cost * tip_share(distance, past, time);
    if n <= 0 {
        0
    } else {
        n / 300000
    }
}

/// Fare of a ride of `distance`.
pub fn trip_cost(distance: u32) -> (r: u32)
    ensures
        r == fare_of(distance as int),
{
    ((FARE_PER_MILE * distance as u64 + 99) / 100) as u32
}

/// Tip adjustment for stopping `past` beyond the drop-off point.
pub fn past_dropoff_tip_adjustment(past: u32) -> (r: i64)
    ensures
        r == past_dropoff_adjustment(past as int),
{
    if past < 25 {
        35
    } else if past < 50 {
        5
    } else if past < 75 {
        -20
    } else if past < 175 {
        -40
    } else if past < 200 {
        -60
    } else if past < 300 {
        -80
    } else {
        -100
    }
}

/// Tip adjustment for how much longer than the fastest time the ride took.
pub fn speed_tip_adjustment(distance: u32, time: u32) -> (r: i64)
    ensures
        r == speed_adjustment(distance as int, time as int),
{
    let t: u64 = 3 * time as u64;
    let d: u64 = distance as u64;
    if t < 110 * d {
        40
    } else if t < 120 * d {
        25
    } else if t < 130 * d {
        5
    } else if t < 140 * d {
        -10
    } else if t < 150 * d {
        -30
    } else if t < 160 * d {
        -60
    } else {
        -100
    }
}

/// Tip for a ride of `distance`, with fare `cost`, that stopped `past` beyond
/// the drop-off point after `time` ms.
pub fn tip(cost: u32, distance: u32, past: u32, time: u32) -> (r: u64)
    ensures
        r == tip_of(cost as int, distance as int, past as int, time as int),
        r <= 10000000000000000,
{
    let adjust: i64 = BASE_TIP + past_dropoff_tip_adjustment(past) + speed_tip_adjustment(
        distance,
        time,
    );
    let share: i64 = 300 * adjust + 3000 - 3 * (time as i64) + 100 * (distance as i64);
    assert(share == tip_share(distance as int, past as int, time as int));
    assert(-13000000000 <= share <= 430000000000);
    assert(-60000000000000000000 <= cost * share <= 2000000000000000000000) by (nonlinear_arith)
        requires
            0 <= cost <= 4294967295,
            -13000000000 <= share <= 430000000000,
    ;
    let n: i128 = (cost as i128) * (share as i128);
    if n <= 0 {
        0
    } else {
        ((n as u128) / 300000) as u64
    }
}

/// Fare and tip of a completed ride.
pub fn fare(distance: u32, past: u32, time: u32) -> (r: (u32, u64))
    ensures
        r.0 == fare_of(distance as int),
        r.1 == tip_of(fare_of(distance as int), distance as int, past as int, time as int),
{
    let cost = trip_cost(distance);
    (cost, tip(cost, distance, past, time))
}

/// A distance for a new ride, drawn from the shortest to the longest.
pub fn new_ride_distance() -> (r: u32)
    ensures
        MIN_RIDE_DISTANCE <= r <= MAX_RIDE_DISTANCE,
{
    draw_between(MIN_RIDE_DISTANCE, MAX_RIDE_DISTANCE)
}

} // verus!
