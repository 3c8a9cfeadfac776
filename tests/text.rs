use taxi_gt::taxi::{Passenger, Ride, Taxi};
use taxi_gt::text::{closest_text, game_over_text, hundredths_text, ride_text};

fn ride(distance: u32, trip_cost: u32, tip: u64) -> Ride {
    Ride {
        who: 9,
        passenger: Passenger { name: "Ana".to_string(), sprite_index: 2 },
        accepted: None,
        distance,
        completed: false,
        trip_cost,
        tip,
    }
}

#[test]
fn hundredths_text_trims_zeros() {
    assert_eq!(hundredths_text(150), "1.5");
    assert_eq!(hundredths_text(307), "3.07");
    assert_eq!(hundredths_text(200), "2");
    assert_eq!(hundredths_text(25), "0.25");
    assert_eq!(hundredths_text(0), "0");
    assert_eq!(hundredths_text(123456), "1234.56");
}

#[test]
fn ride_text_fills_every_placeholder() {
    let t = "{person}: {distance} miles for ${price} plus ${tip}. {person}!".to_string();
    assert_eq!(ride_text(&t, &ride(150, 11, 2)), "Ana: 1.5 miles for $11 plus $2. Ana!");
    assert_eq!(ride_text(&"no placeholders".to_string(), &ride(150, 11, 2)), "no placeholders");
}

#[test]
fn closest_text_uses_the_closest_ride() {
    let t = "{person} goes {distance}".to_string();
    let mut taxi = Taxi::new();
    assert_eq!(closest_text(&t, &taxi), t);
    taxi.meet_with_distance(5, Passenger { name: "Bo".to_string(), sprite_index: 1 }, 307);
    assert_eq!(closest_text(&t, &taxi), "Bo goes 3.07");
}

#[test]
fn game_over_text_fills_the_summary() {
    let t = "Level {level}, ${total_collected}, {rides_completed} rides, {total_distance} miles"
        .to_string();
    assert_eq!(game_over_text(&t, 2, 158, 12, 4321), "Level 3, $158, 12 rides, 43.21 miles");
    assert_eq!(game_over_text(&t, 0, 0, 0, 0), "Level 1, $0, 0 rides, 0 miles");
}
