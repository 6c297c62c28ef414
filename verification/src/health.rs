//! Hit points and their one mutation: taking damage.
//!
//! Health is decremented only through damage events; a hit whose amount
//! meets or exceeds the remaining points is lethal. The subtraction
//! saturates at the integer floor so that no sequence of hits can wrap a
//! dying entity back to positive health.

use vstd::prelude::*;

verus! {

/// Remaining hit points of a damageable entity.
#[derive(Clone, Copy, Debug, PartialEq, Eq, Structural)]
pub struct Health {
    pub current: i32,
}

/// The health value after subtracting `amount`, saturating at the `i32`
/// limits.
pub open spec fn spec_after_damage(current: int, amount: int) -> int {
    if current - amount < i32::MIN {
        i32::MIN as int
    } else if current - amount > i32::MAX {
        i32::MAX as int
    } else {
        current - amount
    }
}

impl Health {
    pub fn new(current: i32) -> (h: Health)
        ensures
            h.current == current,
    {
        Health { current }
    }

    /// Subtract `amount` hit points; reports whether the hit left the
    /// entity at or below zero (lethal).
    pub fn apply_damage(&mut self, amount: i32) -> (lethal: bool)
        ensures
            final(self).current == spec_after_damage(old(self).current as int, amount as int),
            lethal == (final(self).current <= 0),
    {
        let next: i64 = self.current as i64 - amount as i64;
        if next < i32::MIN as i64 {
            self.current = i32::MIN;
        } else if next > i32::MAX as i64 {
            self.current = i32::MAX;
        } else {
            self.current = next as i32;
        }
        self.current <= 0
    }
}

} // verus!
