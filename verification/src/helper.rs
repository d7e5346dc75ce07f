//! Generator of process-unique numbers, backed by an owned store of the
//! numbers already handed out.

use vstd::prelude::*;

verus! {

/// Relies on `rand::random::<u32>()`: a fresh draw from the thread-local
/// generator. Nothing is promised of the value.
#[verifier::external_body]
fn random_u32() -> u32 {
    rand::random::<u32>()
}

/// How many random draws are attempted before the generator gives up.
pub const MAX_DRAW_ATTEMPTS: u32 = 1024;

/// Hands out numbers no earlier call has handed out, remembering every
/// number it accepted.
#[derive(Debug, Clone, PartialEq)]
pub struct Helper {
    pub used_numbers: Vec<u32>,
}

impl Helper {
    /// An empty store: no number has been handed out yet.
    pub fn init() -> (r: Helper)
        ensures
            r.used_numbers@ == Seq::<u32>::empty(),
    {
        Helper { used_numbers: Vec::new() }
    }

    /// Accepts `number` exactly when it is new, recording it; a number
    /// seen before is refused and the store is unchanged.
    pub fn is_unique(&mut self, number: u32) -> (fresh: bool)
        ensures
            fresh == !old(self).used_numbers@.contains(number),
            fresh ==> final(self).used_numbers@ == old(self).used_numbers@.push(number),
            !fresh ==> final(self).used_numbers@ == old(self).used_numbers@,
    {
        let mut i: usize = 0;
        let len = self.used_numbers.len();
        while i < len
            invariant
                len == self.used_numbers@.len(),
                0 <= i <= len,
                forall|k: int| 0 <= k < i ==> self.used_numbers@[k] != number,
                self.used_numbers@ == old(self).used_numbers@,
            decreases len - i,
        {
            if self.used_numbers[i] == number {
                return false;
            }
            i = i + 1;
        }
        self.used_numbers.push(number);
        true
    }

    /// Draws random numbers until one is new, records and returns it;
    /// gives up with `None` after a fixed number of draws, leaving the
    /// store as it was.
    pub fn generate_unique_number(&mut self) -> (r: Option<u32>)
        ensures
            match r {
                Some(n) => !old(self).used_numbers@.contains(n) && final(self).used_numbers@ == old(
                    self,
                ).used_numbers@.push(n),
                None => final(self).used_numbers@ == old(self).used_numbers@,
            },
    {
        let mut attempts: u32 = 0;
        while attempts < MAX_DRAW_ATTEMPTS
            invariant
                self.used_numbers@ == old(self).used_numbers@,
            decreases MAX_DRAW_ATTEMPTS - attempts,
        {
            let number = random_u32();
            if self.is_unique(number) {
                return Some(number);
            }
            attempts = attempts + 1;
        }
        None
    }
}

} // verus!
