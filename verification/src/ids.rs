//! Identifiers drawn at random.

use vstd::prelude::*;

verus! {

/// An identifier that was drawn at random.
#[derive(Debug)]
pub struct RandomId {
    number: u128,
}

impl View for RandomId {
    type V = u128;

    closed spec fn view(&self) -> u128 {
        self.number
    }
}

impl RandomId {
    /// Takes over a number that was drawn. Of no number that did not come from the generator can
    /// this be shown, so that no other ends up in an identifier.
    pub(crate) fn drawn(number: u128) -> (id: RandomId)
        requires
            exists|id: RandomId| (#[trigger] id@) == number,
        ensures
            id@ == number,
    {
        RandomId { number }
    }

    /// The identifier as a number.
    pub fn number(&self) -> (number: u128)
        ensures
            number == self@,
    {
        self.number
    }
}

/// An identifier is known by its number.
proof fn id_is_its_number(id: RandomId)
    ensures
        id@ == id.number,
{
}

} // verus!
