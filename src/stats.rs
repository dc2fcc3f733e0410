use vstd::prelude::*;

verus! {

/// Hit points with a ceiling: `current` never rises above `max` through `add`.
#[derive(Clone, Copy, Debug, PartialEq, Eq, Structural)]
pub struct Health {
    pub max: u16,
    pub current: u16,
}

impl Health {
    /// Full health: `current` starts at `max`.
    pub fn new(max: u16) -> (r: Health)
        ensures
            r.max == max,
            r.current == max,
    {
        Health { max, current: max }
    }

    /// Heals by `health`, saturating, then clamps to `max`.
    pub fn add(&mut self, health: u16)
        ensures
            final(self).max == old(self).max,
            final(self).current == if old(self).current + health >= old(self).max {
                old(self).max as int
            } else {
                old(self).current + health
            },
    {
        let raised = self.current.saturating_add(health);
        self.current = if raised < self.max {
            raised
        } else {
            self.max
        };
    }

    /// Takes `health` away, stopping at zero.
    pub fn sub(&mut self, health: u16)
        ensures
            final(self).max == old(self).max,
            final(self).current == if old(self).current >= health {
                old(self).current - health
            } else {
                0
            },
    {
        self.current = self.current.saturating_sub(health);
    }

    pub fn current(&self) -> (r: u16)
        ensures
            r == self.current,
    {
        self.current
    }
}

/// The points an object is worth when shot down.
#[derive(Clone, Copy, Debug, PartialEq, Eq, Structural)]
pub struct Points(pub u32);

/// The running score of a play session.
#[derive(Clone, Copy, Debug, PartialEq, Eq, Structural)]
pub struct Score {
    pub current: u32,
    pub high: u32,
    pub previous_high: u32,
}

/// `a + b`, held at `u32::MAX`.
pub open spec fn saturating_sum(a: u32, b: u32) -> u32 {
    if a + b > u32::MAX {
        u32::MAX
    } else {
        (a + b) as u32
    }
}

impl Score {
    pub fn new() -> (r: Score)
        ensures
            r.current == 0,
            r.high == 0,
            r.previous_high == 0,
    {
        Score { current: 0, high: 0, previous_high: 0 }
    }

    /// Adds `points` to the current score; the score saturates at `u32::MAX`.
    pub fn award(&mut self, points: u32)
        ensures
            final(self).current == saturating_sum(old(self).current, points),
            final(self).high == old(self).high,
            final(self).previous_high == old(self).previous_high,
    {
        self.current = self.current.saturating_add(points);
    }
}

} // verus!
