use vstd::prelude::*;

verus! {

/// What the player must earn within the first time limit.
pub const FIRST_REQUIRED_EARNINGS: u64 = 50;

/// The player's money: earned in all, earned within the current time limit,
/// needed by its end, and the time limits passed so far.
#[derive(Clone, Copy, Debug, PartialEq, Eq, Structural)]
pub struct PlayerHealth {
    pub total_earnings: u64,
    pub earnings: u64,
    pub time_limit_required_earnings: u64,
    pub cycles_completed: u32,
}

/// The exponent, in thousandths above one, of the earnings required after
/// `cycles` time limits: two hundredths a cycle up to ten cycles, then a
/// fifth plus two thousandths a cycle up to thirty, then fixed.
pub open spec fn required_exponent_of(cycles: int) -> int {
    if cycles < 10 {
        20 * cycles
    } else if cycles < 30 {
        200 + 2 * cycles
    } else {
        258
    }
}

/// The exponent after `cycles` time limits, as `required_exponent_of` states.
/// The next required earnings are 49 raised to one plus this many
/// thousandths, rounded up.
pub fn required_exponent(cycles: u32) -> (r: u32)
    ensures
        r == required_exponent_of(cycles as int),
{
    if cycles < 10 {
        20 * cycles
    } else if cycles < 30 {
        200 + 2 * cycles
    } else {
        258
    }
}

impl PlayerHealth {
    /// Nothing earned, the first requirement, no time limit passed.
    pub fn new() -> (r: PlayerHealth)
        ensures
            r.total_earnings == 0,
            r.earnings == 0,
            r.time_limit_required_earnings == FIRST_REQUIRED_EARNINGS,
            r.cycles_completed == 0,
    {
        PlayerHealth {
            total_earnings: 0,
            earnings: 0,
            time_limit_required_earnings: FIRST_REQUIRED_EARNINGS,
            cycles_completed: 0,
        }
    }

    /// Adds the fare and tip `amount` of a completed ride.
    pub fn earn(&mut self, amount: u64)
        requires
            old(self).total_earnings + amount <= u64::MAX,
            old(self).earnings + amount <= u64::MAX,
        ensures
            final(self).total_earnings == old(self).total_earnings + amount,
            final(self).earnings == old(self).earnings + amount,
            final(self).time_limit_required_earnings == old(self).time_limit_required_earnings,
            final(self).cycles_completed == old(self).cycles_completed,
    {
        self.total_earnings = self.total_earnings + amount;
        self.earnings = self.earnings + amount;
    }

    /// The time limit ran out. The player passes it by having earned more
    /// than required: a new time limit starts with nothing earned in it and
    /// `next_required` to earn, and true is returned. Otherwise the game is
    /// over, nothing changes and false is returned.
    pub fn time_up(&mut self, next_required: u64) -> (r: bool)
        requires
            old(self).cycles_completed < u32::MAX,
        ensures
            r == (old(self).earnings > old(self).time_limit_required_earnings),
            r ==> final(self).cycles_completed == old(self).cycles_completed + 1
                && final(self).earnings == 0 && final(self).time_limit_required_earnings
                == next_required && final(self).total_earnings == old(self).total_earnings,
            !r ==> *final(self) == *old(self),
    {
        if self.earnings > self.time_limit_required_earnings {
            self.cycles_completed = self.cycles_completed + 1;
            self.earnings = 0;
            self.time_limit_required_earnings = next_required;
            true
        } else {
            false
        }
    }
}

} // verus!
