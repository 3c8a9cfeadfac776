use vstd::prelude::*;

use crate::fare::{
    fare_of, new_ride_distance, tip, tip_of, trip_cost, MAX_RIDE_DISTANCE, MIN_RIDE_DISTANCE,
};
use crate::selection::Confirmation;

verus! {

/// Sprite shown in the passenger seat while nobody rides.
pub const EMPTY_SEAT_SPRITE: usize = 27;

/// A person who may ride, and the sprite that draws them.
#[derive(Debug)]
pub struct Passenger {
    pub name: String,
    pub sprite_index: usize,
}

impl Clone for Passenger {
    fn clone(&self) -> (r: Self)
        ensures
            r == *self,
    {
        Passenger { name: self.name.clone(), sprite_index: self.sprite_index }
    }
}

/// A ride offered to the person `who`: whether it was accepted, its
/// distance in hundredths of a mile, its fare, and the tip once completed.
#[derive(Debug)]
pub struct Ride {
    pub who: u64,
    pub passenger: Passenger,
    pub accepted: Option<bool>,
    pub distance: u32,
    pub completed: bool,
    pub trip_cost: u32,
    pub tip: u64,
}

/// The rides offered so far, the person standing closest to the taxi and the
/// one riding in it.
#[derive(Debug)]
pub struct Taxi {
    pub rides: Vec<Ride>,
    pub closest_person: Option<u64>,
    pub current_rider: Option<u64>,
}

/// The first position at or after `start` of a ride offered to `who`.
pub open spec fn ride_index_from(rides: Seq<Ride>, who: u64, start: int) -> Option<int>
    decreases rides.len() - start,
{
    if start < 0 || start >= rides.len() {
        None
    } else if rides[start].who == who {
        Some(start)
    } else {
        ride_index_from(rides, who, start + 1)
    }
}

/// The position of the first ride offered to `who`.
pub open spec fn ride_index(rides: Seq<Ride>, who: u64) -> Option<int> {
    ride_index_from(rides, who, 0)
}

/// A position found at or after `start` holds a ride offered to `who`, and
/// none found means no ride from `start` on is offered to `who`.
pub proof fn lemma_ride_index_from(rides: Seq<Ride>, who: u64, start: int)
    requires
        0 <= start,
    ensures
        match ride_index_from(rides, who, start) {
            Some(i) => start <= i < rides.len() && rides[i].who == who,
            None => forall|j: int| start <= j < rides.len() ==> rides[j].who != who,
        },
    decreases rides.len() - start,
{
    if start < rides.len() && rides[start].who != who {
        lemma_ride_index_from(rides, who, start + 1);
    }
}

/// The number of completed rides in `rides`.
pub open spec fn completed_count(rides: Seq<Ride>) -> nat
    decreases rides.len(),
{
    if rides.len() == 0 {
        0
    } else {
        completed_count(rides.drop_last()) + if rides.last().completed {
            1nat
        } else {
            0nat
        }
    }
}

/// A new ride for `who` over `distance`, not yet accepted or declined.
pub open spec fn offered(who: u64, passenger: Passenger, distance: u32) -> Ride {
    Ride {
        who,
        passenger,
        accepted: None,
        distance,
        completed: false,
        trip_cost: fare_of(distance as int) as u32,
        tip: 0,
    }
}

/// The sprite of the rider `rider` as found in `rides`, or the empty seat.
pub open spec fn seat_sprite(rides: Seq<Ride>, rider: Option<u64>) -> usize {
    match rider {
        Some(w) => match ride_index(rides, w) {
            Some(i) => rides[i].passenger.sprite_index,
            None => EMPTY_SEAT_SPRITE,
        },
        None => EMPTY_SEAT_SPRITE,
    }
}

/// `ride`, declined.
pub open spec fn declined(ride: Ride) -> Ride {
    Ride {
        who: ride.who,
        passenger: ride.passenger,
        accepted: Some(false),
        distance: ride.distance,
        completed: ride.completed,
        trip_cost: ride.trip_cost,
        tip: ride.tip,
    }
}

/// `rides` with every ride offered to `who` declined.
pub open spec fn decline_all(rides: Seq<Ride>, who: u64) -> Seq<Ride> {
    rides.map_values(|r: Ride| if r.who == who { declined(r) } else { r })
}

/// `ride`, completed `past` beyond the drop-off point after `time` ms, with
/// its tip.
pub open spec fn finished(ride: Ride, past: u32, time: u32) -> Ride {
    Ride {
        who: ride.who,
        passenger: ride.passenger,
        accepted: ride.accepted,
        distance: ride.distance,
        completed: true,
        trip_cost: ride.trip_cost,
        tip: tip_of(ride.trip_cost as int, ride.distance as int, past as int, time as int) as u64,
    }
}

/// The position of the ride of the rider aboard, if it is not completed yet.
pub open spec fn open_ride(rides: Seq<Ride>, rider: Option<u64>) -> Option<int> {
    match rider {
        Some(w) => match ride_index(rides, w) {
            Some(i) => if rides[i].completed {
                None
            } else {
                Some(i)
            },
            None => None,
        },
        None => None,
    }
}

/// Whether some ride of `rides` is offered to `who`.
pub open spec fn has_ride(rides: Seq<Ride>, who: u64) -> bool {
    exists|i: int| 0 <= i < rides.len() && #[trigger] rides[i].who == who
}

/// Whether `person`, where there is one, has a ride in `rides`.
pub open spec fn rides_cover(rides: Seq<Ride>, person: Option<u64>) -> bool {
    match person {
        Some(w) => has_ride(rides, w),
        None => true,
    }
}

/// A ride found for `who` exists, and none found means there is none.
pub proof fn lemma_has_ride(rides: Seq<Ride>, who: u64)
    ensures
        has_ride(rides, who) == ride_index(rides, who) is Some,
{
    lemma_ride_index_from(rides, who, 0);
    if let Some(i) = ride_index(rides, who) {
        assert(rides[i].who == who);
    }
}

/// Two lists of rides offered to the same people in the same order cover the
/// same people.
pub proof fn lemma_same_people(a: Seq<Ride>, b: Seq<Ride>, person: Option<u64>)
    requires
        a.len() == b.len(),
        forall|i: int| 0 <= i < a.len() ==> a[i].who == b[i].who,
    ensures
        rides_cover(a, person) == rides_cover(b, person),
{
    if let Some(w) = person {
        if has_ride(a, w) {
            let i = choose|i: int| 0 <= i < a.len() && #[trigger] a[i].who == w;
            assert(b[i].who == w);
        }
        if has_ride(b, w) {
            let i = choose|i: int| 0 <= i < b.len() && #[trigger] b[i].who == w;
            assert(a[i].who == w);
        }
    }
}

/// Adding a ride keeps every person covered, and covers the one it is for.
pub proof fn lemma_push_covers(rides: Seq<Ride>, ride: Ride, person: Option<u64>)
    ensures
        rides_cover(rides, person) ==> rides_cover(rides.push(ride), person),
        rides_cover(rides.push(ride), Some(ride.who)),
{
    let n = rides.push(ride);
    assert(n[rides.len() as int].who == ride.who);
    if let Some(w) = person {
        if has_ride(rides, w) {
            let i = choose|i: int| 0 <= i < rides.len() && #[trigger] rides[i].who == w;
            assert(n[i].who == w);
        }
    }
}

impl Taxi {
    /// The rider aboard and the person closest, where there are such, have
    /// been offered a ride.
    pub open spec fn wf(&self) -> bool {
        rides_cover(self.rides@, self.current_rider) && rides_cover(
            self.rides@,
            self.closest_person,
        )
    }

    /// A taxi with no rides, nobody close and nobody aboard.
    pub fn new() -> (r: Taxi)
        ensures
            r.wf(),
            r.rides@.len() == 0,
            r.closest_person is None,
            r.current_rider is None,
    {
        Taxi { rides: Vec::new(), closest_person: None, current_rider: None }
    }

    /// Position of the first ride offered to `who`, if there is one.
    pub fn find_ride(&self, who: u64) -> (r: Option<usize>)
        ensures
            match r {
                Some(i) => ride_index(self.rides@, who) == Some(i as int),
                None => ride_index(self.rides@, who) == None::<int>,
            },
    {
        let mut i: usize = 0;
        while i < self.rides.len()
            invariant
                i <= self.rides@.len(),
                ride_index(self.rides@, who) == ride_index_from(self.rides@, who, i as int),
            decreases self.rides@.len() - i,
        {
            if self.rides[i].who == who {
                return Some(i);
            }
            i = i + 1;
        }
        None
    }

    /// The sprite to show in the passenger seat: that of the rider aboard,
    /// or the empty seat.
    pub fn rider_sprite_index(&self) -> (r: usize)
        ensures
            r == seat_sprite(self.rides@, self.current_rider),
    {
        match self.current_rider {
            Some(w) => {
                proof {
                    lemma_ride_index_from(self.rides@, w, 0);
                }
                match self.find_ride(w) {
                    Some(i) => self.rides[i].passenger.sprite_index,
                    None => EMPTY_SEAT_SPRITE,
                }
            },
            None => EMPTY_SEAT_SPRITE,
        }
    }

    /// Offers a ride over `distance` to `who`, who now stands closest.
    pub fn add_ride(&mut self, who: u64, passenger: Passenger, distance: u32)
        requires
            old(self).wf(),
        ensures
            final(self).wf(),
            final(self).rides@ == old(self).rides@.push(offered(who, passenger, distance)),
            final(self).closest_person == Some(who),
            final(self).current_rider == old(self).current_rider,
    {
        let ride = Ride {
            who,
            passenger,
            accepted: None,
            distance,
            completed: false,
            trip_cost: trip_cost(distance),
            tip: 0,
        };
        proof {
            lemma_push_covers(self.rides@, ride, self.current_rider);
        }
        self.rides.push(ride);
        self.closest_person = Some(who);
    }

    /// The taxi stops beside `who`. A person offered a ride before keeps it,
    /// and the answer is whether they did not decline it; anyone else is
    /// offered a ride over `distance` and stands closest now. Whether to show
    /// the offer is returned.
    pub fn meet_with_distance(&mut self, who: u64, passenger: Passenger, distance: u32) -> (r:
        bool)
        requires
            old(self).wf(),
        ensures
            final(self).wf(),
            match ride_index(old(self).rides@, who) {
                Some(i) => final(self).rides@ == old(self).rides@ && final(self).closest_person
                    == old(self).closest_person && r == (old(self).rides@[i].accepted != Some(
                    false,
                )),
                None => final(self).rides@ == old(self).rides@.push(
                    offered(who, passenger, distance),
                ) && final(self).closest_person == Some(who) && r,
            },
            final(self).current_rider == old(self).current_rider,
    {
        proof {
            lemma_ride_index_from(self.rides@, who, 0);
        }
        match self.find_ride(who) {
            Some(i) => match self.rides[i].accepted {
                Some(b) => b,
                None => true,
            },
            None => {
                self.add_ride(who, passenger, distance);
                true
            },
        }
    }

    /// The taxi stops beside `who`, as in `meet_with_distance`, with a new
    /// ride drawn between the shortest and the longest distance.
    pub fn meet(&mut self, who: u64, passenger: Passenger) -> (r: bool)
        requires
            old(self).wf(),
        ensures
            final(self).wf(),
            match ride_index(old(self).rides@, who) {
                Some(i) => final(self).rides@ == old(self).rides@ && final(self).closest_person
                    == old(self).closest_person && r == (old(self).rides@[i].accepted != Some(
                    false,
                )),
                None => final(self).rides@ == old(self).rides@.push(
                    offered(who, passenger, final(self).rides@.last().distance),
                ) && MIN_RIDE_DISTANCE <= final(self).rides@.last().distance <= MAX_RIDE_DISTANCE
                    && final(self).closest_person == Some(who) && r,
            },
            final(self).current_rider == old(self).current_rider,
    {
        proof {
            lemma_ride_index_from(self.rides@, who, 0);
        }
        match self.find_ride(who) {
            Some(i) => match self.rides[i].accepted {
                Some(b) => b,
                None => true,
            },
            None => {
                let distance = new_ride_distance();
                self.add_ride(who, passenger, distance);
                true
            },
        }
    }

    /// Applies a confirmed choice: a rider aboard is let out, an accepted
    /// ride takes the closest person aboard and returns the distance to
    /// drive, and a declined one is marked so on every ride of the closest
    /// person.
    pub fn confirm(&mut self, confirmation: Confirmation) -> (r: Option<u32>)
        requires
            old(self).wf(),
        ensures
            final(self).wf(),
            final(self).closest_person == old(self).closest_person,
            match confirmation {
                Confirmation::DropRider => final(self).current_rider is None && final(self).rides@
                    == old(self).rides@ && r is None,
                Confirmation::AcceptRide => final(self).current_rider == old(self).closest_person
                    && final(self).rides@ == old(self).rides@ && (r is Some <==> old(
                    self,
                ).closest_person is Some) && r == match old(
                    self,
                ).closest_person {
                    Some(w) => match ride_index(old(self).rides@, w) {
                        Some(i) => Some(old(self).rides@[i].distance),
                        None => None,
                    },
                    None => None,
                },
                Confirmation::DeclineRide => final(self).current_rider is None && r is None
                    && final(self).rides@ == match old(self).closest_person {
                    Some(w) => decline_all(old(self).rides@, w),
                    None => old(self).rides@,
                },
                _ => final(self).current_rider == old(self).current_rider && final(self).rides@
                    == old(self).rides@ && r is None,
            },
    {
        match confirmation {
            Confirmation::DropRider => {
                self.current_rider = None;
                None
            },
            Confirmation::AcceptRide => {
                self.current_rider = self.closest_person;
                match self.closest_person {
                    Some(w) => {
                        proof {
                            lemma_ride_index_from(self.rides@, w, 0);
                            lemma_has_ride(self.rides@, w);
                        }
                        match self.find_ride(w) {
                            Some(i) => Some(self.rides[i].distance),
                            None => None,
                        }
                    },
                    None => None,
                }
            },
            Confirmation::DeclineRide => {
                self.current_rider = None;
                if let Some(w) = self.closest_person {
                    let ghost start = self.rides@;
                    let mut i: usize = 0;
                    while i < self.rides.len()
                        invariant
                            i <= self.rides@.len(),
                            self.rides@.len() == start.len(),
                            self.closest_person == Some(w),
                            self.current_rider is None,
                            forall|j: int|
                                0 <= j < i ==> self.rides@[j] == decline_all(start, w)[j],
                            forall|j: int| i <= j < start.len() ==> self.rides@[j] == start[j],
                        decreases self.rides@.len() - i,
                    {
                        if self.rides[i].who == w {
                            self.rides[i].accepted = Some(false);
                        }
                        i = i + 1;
                    }
                    assert(self.rides@ =~= decline_all(start, w));
                    proof {
                        lemma_same_people(start, self.rides@, self.closest_person);
                    }
                }
                None
            },
            _ => None,
        }
    }

    /// Completes the ride of the rider aboard, stopped `past` beyond the
    /// drop-off point after `time` ms, and returns its fare and tip. Without
    /// an uncompleted ride aboard nothing changes.
    pub fn finish_ride(&mut self, past: u32, time: u32) -> (r: Option<u64>)
        requires
            old(self).wf(),
        ensures
            final(self).wf(),
            final(self).closest_person == old(self).closest_person,
            final(self).current_rider == old(self).current_rider,
            match open_ride(old(self).rides@, old(self).current_rider) {
                Some(i) => final(self).rides@ == old(self).rides@.update(
                    i,
                    finished(old(self).rides@[i], past, time),
                ) && tip_of(
                    old(self).rides@[i].trip_cost as int,
                    old(self).rides@[i].distance as int,
                    past as int,
                    time as int,
                ) <= 10000000000000000 && r == Some((old(self).rides@[i].trip_cost + finished(
                    old(self).rides@[i],
                    past,
                    time,
                ).tip) as u64),
                None => final(self).rides@ == old(self).rides@ && r is None,
            },
    {
        let w = match self.current_rider {
            Some(w) => w,
            None => {
                return None;
            },
        };
        proof {
            lemma_ride_index_from(self.rides@, w, 0);
        }
        let i = match self.find_ride(w) {
            Some(i) => i,
            None => {
                return None;
            },
        };
        if self.rides[i].completed {
            return None;
        }
        let cost = self.rides[i].trip_cost;
        let t = tip(cost, self.rides[i].distance, past, time);
        self.rides[i].tip = t;
        self.rides[i].completed = true;
        assert(self.rides@ =~= old(self).rides@.update(
            i as int,
            finished(old(self).rides@[i as int], past, time),
        ));
        proof {
            lemma_same_people(old(self).rides@, self.rides@, self.current_rider);
            lemma_same_people(old(self).rides@, self.rides@, self.closest_person);
        }
        Some(cost as u64 + t)
    }

    /// The number of completed rides.
    pub fn rides_completed(&self) -> (r: usize)
        ensures
            r == completed_count(self.rides@),
    {
        let mut n: usize = 0;
        let mut i: usize = 0;
        while i < self.rides.len()
            invariant
                i <= self.rides@.len(),
                n == completed_count(self.rides@.subrange(0, i as int)),
                n <= i,
            decreases self.rides@.len() - i,
        {
            assert(self.rides@.subrange(0, i as int + 1).drop_last() =~= self.rides@.subrange(
                0,
                i as int,
            ));
            if self.rides[i].completed {
                n = n + 1;
            }
            i = i + 1;
        }
        assert(self.rides@.subrange(0, i as int) =~= self.rides@);
        n
    }
}

/// What the ride aboard does this frame.
#[derive(Clone, Copy, Debug, PartialEq, Eq, Structural)]
pub enum DropOffStep {
    /// Close the dialog on screen.
    ClearDialog,
    /// Tell the driver that the drop-off point is behind, and count the
    /// distance driven past it.
    PastDropOff,
    /// Complete the ride and show the farewell.
    Complete,
    /// Wait for the driver.
    Wait,
    /// Tell the driver that the drop-off point is near.
    DropOffSoon,
    /// Drive on.
    DriveOn,
}

/// The step of a ride that has `arrived` past its distance, or is
/// `nearly_there` (beyond seven tenths of it), with the dialog `dialog_id` on
/// screen (empty for none), the taxi `moving` or stopped where passengers
/// `can_drop_off`.
pub open spec fn drop_off_step_of(
    arrived: bool,
    nearly_there: bool,
    dialog_id: Seq<char>,
    moving: bool,
    can_drop_off: bool,
) -> DropOffStep {
    if arrived {
        if dialog_id == "drop off soon"@ {
            DropOffStep::ClearDialog
        } else if moving {
            DropOffStep::PastDropOff
        } else if can_drop_off && dialog_id == "here"@ {
            DropOffStep::ClearDialog
        } else if can_drop_off && dialog_id.len() == 0 {
            DropOffStep::Complete
        } else {
            DropOffStep::Wait
        }
    } else if nearly_there {
        DropOffStep::DropOffSoon
    } else {
        DropOffStep::DriveOn
    }
}

/// Decides the step of the ride aboard, as `drop_off_step_of` states.
pub fn drop_off_step(
    arrived: bool,
    nearly_there: bool,
    dialog_id: &String,
    moving: bool,
    can_drop_off: bool,
) -> (r: DropOffStep)
    ensures
        r == drop_off_step_of(arrived, nearly_there, dialog_id@, moving, can_drop_off),
{
    if arrived {
        if *dialog_id == "drop off soon".to_owned() {
            DropOffStep::ClearDialog
        } else if moving {
            DropOffStep::PastDropOff
        } else if can_drop_off && *dialog_id == "here".to_owned() {
            DropOffStep::ClearDialog
        } else if can_drop_off && dialog_id.as_str().is_empty() {
            DropOffStep::Complete
        } else {
            DropOffStep::Wait
        }
    } else if nearly_there {
        DropOffStep::DropOffSoon
    } else {
        DropOffStep::DriveOn
    }
}

} // verus!
