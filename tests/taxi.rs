use taxi_gt::car::{player_contact, player_frame, Overlap};
use taxi_gt::chance::{one_in_n, random_bool_one_in_n};
use taxi_gt::fare::{
    fare, new_ride_distance, past_dropoff_tip_adjustment, speed_tip_adjustment, tip, trip_cost,
    MAX_RIDE_DISTANCE, MIN_RIDE_DISTANCE,
};
use taxi_gt::selection::Confirmation;
use taxi_gt::taxi::{drop_off_step, DropOffStep, Passenger, Taxi, EMPTY_SEAT_SPRITE};

fn person(name: &str, sprite_index: usize) -> Passenger {
    Passenger { name: name.to_string(), sprite_index }
}

#[test]
fn trip_cost_rounds_up() {
    assert_eq!(trip_cost(100), 7);
    assert_eq!(trip_cost(150), 11);
    assert_eq!(trip_cost(25), 2);
    assert_eq!(trip_cost(1000), 70);
    assert_eq!(trip_cost(0), 0);
}

#[test]
fn past_dropoff_adjustment_table() {
    assert_eq!(past_dropoff_tip_adjustment(0), 35);
    assert_eq!(past_dropoff_tip_adjustment(24), 35);
    assert_eq!(past_dropoff_tip_adjustment(25), 5);
    assert_eq!(past_dropoff_tip_adjustment(60), -20);
    assert_eq!(past_dropoff_tip_adjustment(100), -40);
    assert_eq!(past_dropoff_tip_adjustment(199), -60);
    assert_eq!(past_dropoff_tip_adjustment(250), -80);
    assert_eq!(past_dropoff_tip_adjustment(300), -100);
}

#[test]
fn speed_adjustment_table() {
    // one mile takes 3333 ms at full speed
    assert_eq!(speed_tip_adjustment(100, 3500), 40);
    assert_eq!(speed_tip_adjustment(100, 3900), 25);
    assert_eq!(speed_tip_adjustment(100, 4300), 5);
    assert_eq!(speed_tip_adjustment(100, 4600), -10);
    assert_eq!(speed_tip_adjustment(100, 4900), -30);
    assert_eq!(speed_tip_adjustment(100, 5300), -60);
    assert_eq!(speed_tip_adjustment(100, 6000), -100);
    assert_eq!(speed_tip_adjustment(0, 0), -100);
}

#[test]
fn tip_of_a_quick_ride() {
    // 10 + 3.5 + 4 + (1 - (3.5 - 3.333)) percent of 7 is 1.28
    assert_eq!(tip(7, 100, 10, 3500), 1);
    assert_eq!(fare(100, 10, 3500), (7, 1));
    // 10 + 3.5 + 4 + (1 - 0.1) percent of 70 (ten miles in 33.4 s)
    assert_eq!(tip(70, 1000, 0, 33400), 12);
}

#[test]
fn tip_never_below_zero() {
    assert_eq!(tip(7, 100, 500, 60000), 0);
    assert_eq!(fare(100, 500, 60000), (7, 0));
}

#[test]
fn new_ride_distance_in_range() {
    for _ in 0..100 {
        let d = new_ride_distance();
        assert!(MIN_RIDE_DISTANCE <= d && d <= MAX_RIDE_DISTANCE);
    }
}

#[test]
fn one_in_one_is_always_true() {
    for _ in 0..20 {
        assert!(random_bool_one_in_n(1));
    }
}

#[test]
fn one_in_n_is_sometimes_false() {
    let falses = (0..200).filter(|_| !random_bool_one_in_n(2)).count();
    assert!(falses > 0 && falses < 200);
}

#[test]
fn add_ride_offers_a_ride() {
    let mut t = Taxi::new();
    t.add_ride(5, person("ana", 3), 150);
    assert_eq!(t.rides.len(), 1);
    let r = &t.rides[0];
    assert_eq!(r.who, 5);
    assert_eq!(r.trip_cost, 11);
    assert_eq!(r.accepted, None);
    assert!(!r.completed);
    assert_eq!(t.closest_person, Some(5));
    assert_eq!(t.current_rider, None);
}

#[test]
fn meet_keeps_an_earlier_offer() {
    let mut t = Taxi::new();
    assert!(t.meet_with_distance(5, person("ana", 3), 150));
    assert!(t.meet_with_distance(5, person("ana", 3), 400));
    assert_eq!(t.rides.len(), 1);
    assert_eq!(t.rides[0].distance, 150);
    assert!(t.meet(6, person("bo", 4)));
    assert_eq!(t.rides.len(), 2);
    assert!(MIN_RIDE_DISTANCE <= t.rides[1].distance && t.rides[1].distance <= MAX_RIDE_DISTANCE);
    assert_eq!(t.closest_person, Some(6));
}

#[test]
fn declined_ride_is_not_offered_again() {
    let mut t = Taxi::new();
    t.meet_with_distance(5, person("ana", 3), 150);
    assert_eq!(t.confirm(Confirmation::DeclineRide), None);
    assert_eq!(t.rides[0].accepted, Some(false));
    assert_eq!(t.current_rider, None);
    assert!(!t.meet_with_distance(5, person("ana", 3), 150));
}

#[test]
fn accepted_ride_takes_the_person_aboard() {
    let mut t = Taxi::new();
    assert_eq!(t.rider_sprite_index(), EMPTY_SEAT_SPRITE);
    t.meet_with_distance(5, person("ana", 3), 150);
    assert_eq!(t.confirm(Confirmation::AcceptRide), Some(150));
    assert_eq!(t.current_rider, Some(5));
    assert_eq!(t.rider_sprite_index(), 3);
    assert_eq!(t.confirm(Confirmation::DropRider), None);
    assert_eq!(t.current_rider, None);
    assert_eq!(t.rider_sprite_index(), EMPTY_SEAT_SPRITE);
}

#[test]
fn finish_ride_pays_fare_and_tip_once() {
    let mut t = Taxi::new();
    assert_eq!(t.finish_ride(10, 3500), None);
    t.meet_with_distance(5, person("ana", 3), 100);
    t.confirm(Confirmation::AcceptRide);
    assert_eq!(t.rides_completed(), 0);
    assert_eq!(t.finish_ride(10, 3500), Some(8));
    assert!(t.rides[0].completed);
    assert_eq!(t.rides[0].tip, 1);
    assert_eq!(t.rides_completed(), 1);
    assert_eq!(t.finish_ride(10, 3500), None);
}

#[test]
fn other_confirmations_leave_the_taxi_alone() {
    let mut t = Taxi::new();
    t.meet_with_distance(5, person("ana", 3), 100);
    assert_eq!(t.confirm(Confirmation::Close), None);
    assert_eq!(t.confirm(Confirmation::PlayAgain), None);
    assert_eq!(t.rides[0].accepted, None);
    assert_eq!(t.closest_person, Some(5));
}

#[test]
fn drop_off_steps() {
    let s = |x: &str| x.to_string();
    assert_eq!(drop_off_step(true, false, &s("drop off soon"), true, true), DropOffStep::ClearDialog);
    assert_eq!(drop_off_step(true, false, &s(""), true, true), DropOffStep::PastDropOff);
    assert_eq!(drop_off_step(true, false, &s("here"), false, true), DropOffStep::ClearDialog);
    assert_eq!(drop_off_step(true, false, &s(""), false, true), DropOffStep::Complete);
    assert_eq!(drop_off_step(true, false, &s(""), false, false), DropOffStep::Wait);
    assert_eq!(drop_off_step(false, true, &s(""), true, true), DropOffStep::DropOffSoon);
    assert_eq!(drop_off_step(false, false, &s(""), true, true), DropOffStep::DriveOn);
}

fn overlap(upper_lane: bool, starts_right: bool, ends_left: bool, front: bool) -> Overlap {
    Overlap {
        upper_lane,
        starts_right,
        ends_left,
        ends_past_front: front,
        starts_before_front: front,
    }
}

#[test]
fn no_overlap_no_contact() {
    let c = player_contact(None, true);
    assert!(!c.intersects_player && !c.blocks_player_movement);
}

#[test]
fn upper_lane_contacts() {
    let c = player_contact(Some(overlap(true, true, false, false)), true);
    assert!(c.intersects_player && !c.blocks_player_movement);
    let c = player_contact(Some(overlap(true, true, false, false)), false);
    assert!(c.intersects_player && c.blocks_player_movement);
    let c = player_contact(Some(overlap(true, false, false, false)), true);
    assert!(c.intersects_player && c.blocks_player_movement);
    let c = player_contact(Some(overlap(true, false, false, true)), false);
    assert!(c.intersects_player && c.blocks_player_movement);
    let c = player_contact(Some(overlap(true, false, false, false)), false);
    assert!(!c.intersects_player && !c.blocks_player_movement);
}

#[test]
fn lower_lane_contacts() {
    let c = player_contact(Some(overlap(false, false, true, false)), false);
    assert!(c.intersects_player && !c.blocks_player_movement);
    let c = player_contact(Some(overlap(false, false, true, false)), true);
    assert!(c.intersects_player && c.blocks_player_movement);
    let c = player_contact(Some(overlap(false, false, false, false)), false);
    assert!(c.intersects_player && c.blocks_player_movement);
    let c = player_contact(Some(overlap(false, false, false, true)), true);
    assert!(c.intersects_player && c.blocks_player_movement);
    let c = player_contact(Some(overlap(false, false, false, false)), true);
    assert!(!c.intersects_player && !c.blocks_player_movement);
}

#[test]
fn one_in_n_wins_only_on_one() {
    assert!(one_in_n(1));
    assert!(!one_in_n(0));
    assert!(!one_in_n(2));
    assert!(!one_in_n(7));
}

#[test]
fn accept_without_closest_person_seats_nobody() {
    let mut t = Taxi::new();
    assert_eq!(t.confirm(Confirmation::AcceptRide), None);
    assert_eq!(t.current_rider, None);
}

#[test]
fn player_frame_cycles_while_moving() {
    assert_eq!(player_frame(3, 2, 5, true, true), 4);
    assert_eq!(player_frame(5, 2, 5, true, true), 2);
    assert_eq!(player_frame(3, 2, 5, true, false), 3);
    assert_eq!(player_frame(4, 2, 5, false, true), 2);
}
