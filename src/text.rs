use vstd::prelude::*;
use vstd::string::StringExecFns;

use crate::taxi::{ride_index, Ride, Taxi};

verus! {

/// The character of the decimal digit `d`.
pub open spec fn digit_of(d: nat) -> char {
    ((d + 48) as u8) as char
}

/// The decimal digits of `n`, with no leading zero.
pub open spec fn decimal_of(n: nat) -> Seq<char>
    decreases n,
{
    if n < 10 {
        seq![digit_of(n)]
    } else {
        decimal_of(n / 10) + seq![digit_of(n % 10)]
    }
}

/// `h` hundredths as a decimal number, with no trailing zero after the
/// point and no point for a whole number.
pub open spec fn hundredths_of(h: nat) -> Seq<char> {
    let whole = decimal_of(h / 100);
    let cents = h % 100;
    if cents == 0 {
        whole
    } else if cents % 10 == 0 {
        whole + seq!['.', digit_of(cents / 10)]
    } else {
        whole + seq!['.', digit_of(cents / 10), digit_of(cents % 10)]
    }
}

/// `t` with every match of `from`, taken from the left without overlap,
/// replaced by `to`.
pub open spec fn replaced(t: Seq<char>, from: Seq<char>, to: Seq<char>) -> Seq<char>
    decreases t.len(),
{
    if from.len() == 0 || t.len() < from.len() {
        t
    } else if t.subrange(0, from.len() as int) == from {
        to + replaced(t.subrange(from.len() as int, t.len() as int), from, to)
    } else {
        seq![t[0]] + replaced(t.subrange(1, t.len() as int), from, to)
    }
}

/// Relies on u64's `to_string` (its `Display`): the decimal digits, with no
/// sign and no leading zero.
#[verifier::external_body]
fn decimal(n: u64) -> (r: String)
    ensures
        r@ == decimal_of(n as nat),
{
    n.to_string()
}

/// Relies on `str::replace`: every match of `from`, found from the left
/// without overlap, replaced by `to`.
#[verifier::external_body]
fn replace(text: &str, from: &str, to: &str) -> (r: String)
    requires
        from@.len() > 0,
    ensures
        r@ == replaced(text@, from@, to@),
{
    text.replace(from, to)
}

/// `h` hundredths written as a decimal number.
pub fn hundredths_text(h: u64) -> (r: String)
    ensures
        r@ == hundredths_of(h as nat),
{
    let mut s = decimal(h / 100);
    let cents = h % 100;
    proof {
        reveal_strlit(".");
        assert(decimal_of((cents / 10) as nat) == seq![digit_of((cents / 10) as nat)]);
        assert(decimal_of((cents % 10) as nat) == seq![digit_of((cents % 10) as nat)]);
    }
    if cents != 0 {
        s.append(".");
        s.append(decimal(cents / 10).as_str());
        if cents % 10 != 0 {
            s.append(decimal(cents % 10).as_str());
        }
    }
    assert(s@ =~= hundredths_of(h as nat));
    s
}

/// `text` with the placeholders of a ride filled in: the passenger's name,
/// the distance, the fare and the tip.
pub open spec fn ride_text_of(text: Seq<char>, ride: Ride) -> Seq<char> {
    replaced(
        replaced(
            replaced(
                replaced(text, "{person}"@, ride.passenger.name@),
                "{distance}"@,
                hundredths_of(ride.distance as nat),
            ),
            "{price}"@,
            decimal_of(ride.trip_cost as nat),
        ),
        "{tip}"@,
        decimal_of(ride.tip as nat),
    )
}

/// Fills the placeholders of `text` with what `ride` holds.
pub fn ride_text(text: &String, ride: &Ride) -> (r: String)
    ensures
        r@ == ride_text_of(text@, *ride),
{
    proof {
        reveal_strlit("{person}");
        reveal_strlit("{distance}");
        reveal_strlit("{price}");
        reveal_strlit("{tip}");
    }
    let t = replace(text.as_str(), "{person}", ride.passenger.name.as_str());
    let t = replace(t.as_str(), "{distance}", hundredths_text(ride.distance as u64).as_str());
    let t = replace(t.as_str(), "{price}", decimal(ride.trip_cost as u64).as_str());
    replace(t.as_str(), "{tip}", decimal(ride.tip).as_str())
}

/// `text` filled with the ride of the person closest to the taxi, where that
/// person has one; `text` as it is otherwise.
pub open spec fn closest_text_of(text: Seq<char>, taxi: Taxi) -> Seq<char> {
    match taxi.closest_person {
        Some(w) => match ride_index(taxi.rides@, w) {
            Some(i) => ride_text_of(text, taxi.rides@[i]),
            None => text,
        },
        None => text,
    }
}

/// Fills the placeholders of `text` with the ride of the closest person.
pub fn closest_text(text: &String, taxi: &Taxi) -> (r: String)
    ensures
        r@ == closest_text_of(text@, *taxi),
{
    match taxi.closest_person {
        Some(w) => {
            proof {
                crate::taxi::lemma_ride_index_from(taxi.rides@, w, 0);
            }
            match taxi.find_ride(w) {
                Some(i) => ride_text(text, &taxi.rides[i]),
                None => text.clone(),
            }
        },
        None => text.clone(),
    }
}

/// `text` with the placeholders of the game over screen filled in: the level
/// reached (one more than the time limits passed), the money collected, the
/// rides completed and the distance driven, in hundredths.
pub open spec fn game_over_text_of(
    text: Seq<char>,
    cycles: u32,
    total: u64,
    rides: u64,
    distance: u64,
) -> Seq<char> {
    replaced(
        replaced(
            replaced(
                replaced(text, "{level}"@, decimal_of(cycles as nat + 1)),
                "{total_collected}"@,
                decimal_of(total as nat),
            ),
            "{rides_completed}"@,
            decimal_of(rides as nat),
        ),
        "{total_distance}"@,
        hundredths_of(distance as nat),
    )
}

/// Fills the placeholders of the game over screen.
pub fn game_over_text(text: &String, cycles: u32, total: u64, rides: u64, distance: u64) -> (r:
    String)
    ensures
        r@ == game_over_text_of(text@, cycles, total, rides, distance),
{
    proof {
        reveal_strlit("{level}");
        reveal_strlit("{total_collected}");
        reveal_strlit("{rides_completed}");
        reveal_strlit("{total_distance}");
    }
    let t = replace(text.as_str(), "{level}", decimal(cycles as u64 + 1).as_str());
    let t = replace(t.as_str(), "{total_collected}", decimal(total).as_str());
    let t = replace(t.as_str(), "{rides_completed}", decimal(rides).as_str());
    replace(t.as_str(), "{total_distance}", hundredths_text(distance).as_str())
}

} // verus!
