//! The secret code and where it came from.
//!
//! A password is replaced as a whole and never changed in place: its fields
//! are private, and the only ways to one are the two constructors.

use crate::mastermind::color::{all_from, PegColor};
use crate::mastermind::guess::NUM_SLOTS_PER_ROW;
use crate::rand_seed::{get_last_set_rand_seed, randomize_rand_seed, time_seed, RandState};
use crate::timestamp::Timestamp;
use vstd::prelude::*;

verus! {

/// Where a password came from.
#[derive(Clone, Copy, Debug, PartialEq, Eq, Structural)]
pub enum PasswordSource {
    /// Drawn from the generator right after it was given `seed`.
    Random { seed: u64 },
    /// Set by a player, colour by colour.
    Player,
}

/// The code that the guesser has to find.
#[derive(Clone, Copy, Debug)]
pub struct Password {
    password: [PegColor; NUM_SLOTS_PER_ROW],
    source: PasswordSource,
}

impl Password {
    /// The colours of the code, in order.
    pub closed spec fn colors(&self) -> Seq<PegColor> {
        self.password@
    }

    /// Where the code came from.
    pub closed spec fn provenance(&self) -> PasswordSource {
        self.source
    }

    /// A password drawn colour by colour from `palette`, right after the
    /// generator was given a fresh seed derived from `now`. The seed is kept
    /// with the password.
    pub fn random(rand_state: &mut RandState, palette: &[PegColor], now: Timestamp) -> (password:
        Password)
        requires
            palette@.len() > 0,
        ensures
            password.colors().len() == NUM_SLOTS_PER_ROW,
            all_from(password.colors(), palette@),
            password.provenance() == (PasswordSource::Random { seed: time_seed(now) }),
            final(rand_state).last_set_seed() == time_seed(now),
    {
        randomize_rand_seed(rand_state, now);
        Password {
            password: PegColor::random_array(palette),
            source: PasswordSource::Random { seed: get_last_set_rand_seed(rand_state) },
        }
    }

    /// The password that a player chose.
    pub fn player_specified(password: [PegColor; NUM_SLOTS_PER_ROW]) -> (chosen: Password)
        ensures
            chosen.colors() == password@,
            chosen.provenance() == PasswordSource::Player,
    {
        Password { password, source: PasswordSource::Player }
    }

    pub fn password(&self) -> (colors: &[PegColor; NUM_SLOTS_PER_ROW])
        ensures
            colors@ == self.colors(),
    {
        &self.password
    }

    pub fn source(&self) -> (source: PasswordSource)
        ensures
            source == self.provenance(),
    {
        self.source
    }
}

} // verus!
