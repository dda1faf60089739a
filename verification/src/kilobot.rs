//! The agent that a board cell can hold.

use vstd::prelude::*;

verus! {

/// A single robot, known to the board only by its identifier.
#[derive(Debug)]
pub struct Kilobot {
    uid: u16,
}

impl Kilobot {
    /// The identifier of this bot.
    pub closed spec fn spec_uid(&self) -> u16 {
        self.uid
    }

    /// Creates a bot with the given identifier.
    pub fn new(uid: u16) -> (bot: Kilobot)
        ensures
            bot.spec_uid() == uid,
    {
        Kilobot { uid }
    }

    /// Returns the identifier of this bot.
    #[verifier::when_used_as_spec(spec_uid)]
    pub fn get_uid(&self) -> (uid: u16)
        ensures
            uid == self.spec_uid(),
    {
        self.uid
    }
}

} // verus!
