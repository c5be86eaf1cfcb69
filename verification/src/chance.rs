//! The odds of the game and how they follow the day's win count.

use vstd::prelude::*;

verus! {

/// Number of wins per day from which on the reduced odds apply.
pub const WIN_QUOTA: u64 = 30;

/// A chance of winning, as `numerator` in `denominator`.
#[derive(Clone, Copy, Debug, PartialEq, Eq)]
pub struct Odds {
    numerator: u32,
    denominator: u32,
}

/// Draws from the thread-local generator of `rand::rng` with
/// `rand::Rng::random_ratio`, which answers `true` with the given chance. Of
/// a single draw only the two certain cases can be said: a chance of one
/// always hits, a chance of zero never does. The call panics on a zero
/// denominator and on a numerator above the denominator.
#[verifier::external_body]
fn random_ratio(numerator: u32, denominator: u32) -> (hit: bool)
    requires
        denominator > 0,
        numerator <= denominator,
    ensures
        numerator == denominator ==> hit,
        numerator == 0 ==> !hit,
{
    rand::Rng::random_ratio(&mut rand::rng(), numerator, denominator)
}

impl Odds {
    #[verifier::type_invariant]
    spec fn well_formed(self) -> bool {
        0 < self.denominator && self.numerator <= self.denominator
    }

    pub closed spec fn spec_numerator(&self) -> u32 {
        self.numerator
    }

    pub closed spec fn spec_denominator(&self) -> u32 {
        self.denominator
    }

    /// The odds while the day's wins are below the quota: seven in ten.
    pub open spec fn spec_high() -> (u32, u32) {
        (7, 10)
    }

    /// The odds once the day's wins have reached the quota: four in ten.
    pub open spec fn spec_reduced() -> (u32, u32) {
        (4, 10)
    }

    /// The tier that applies after `wins` wins today.
    pub open spec fn spec_for_wins(wins: u64) -> (u32, u32) {
        if wins >= WIN_QUOTA {
            Self::spec_reduced()
        } else {
            Self::spec_high()
        }
    }

    /// The ratio as a pair, numerator first.
    pub open spec fn ratio(&self) -> (u32, u32) {
        (self.spec_numerator(), self.spec_denominator())
    }

    /// A chance of `numerator` in `denominator`, where that is a chance
    /// between never and always.
    pub fn new(numerator: u32, denominator: u32) -> (made: Option<Odds>)
        ensures
            made is Some <==> 0 < denominator && numerator <= denominator,
            made is Some ==> made.unwrap().ratio() == (numerator, denominator),
    {
        if 0 < denominator && numerator <= denominator {
            Some(Odds { numerator, denominator })
        } else {
            None
        }
    }

    /// Seven in ten.
    pub fn high() -> (odds: Odds)
        ensures
            odds.ratio() == Self::spec_high(),
    {
        Odds { numerator: 7, denominator: 10 }
    }

    /// Four in ten.
    pub fn reduced() -> (odds: Odds)
        ensures
            odds.ratio() == Self::spec_reduced(),
    {
        Odds { numerator: 4, denominator: 10 }
    }

    /// The odds of the next round when `wins` wins were read for today: the
    /// reduced tier from the quota on, the high tier below it.
    pub fn for_wins(wins: u64) -> (odds: Odds)
        ensures
            odds.ratio() == Self::spec_for_wins(wins),
            wins >= WIN_QUOTA ==> odds.ratio() == (4u32, 10u32),
            wins < WIN_QUOTA ==> odds.ratio() == (7u32, 10u32),
    {
        if wins >= WIN_QUOTA {
            Self::reduced()
        } else {
            Self::high()
        }
    }

    #[verifier::when_used_as_spec(spec_numerator)]
    pub fn numerator(&self) -> (numerator: u32)
        ensures
            numerator == self.spec_numerator(),
    {
        self.numerator
    }

    #[verifier::when_used_as_spec(spec_denominator)]
    pub fn denominator(&self) -> (denominator: u32)
        ensures
            denominator == self.spec_denominator(),
    {
        self.denominator
    }

    /// One random draw at these odds. Certain odds give a certain result;
    /// of any other draw nothing is known in advance.
    pub fn draw(&self) -> (win: bool)
        ensures
            self.spec_numerator() == self.spec_denominator() ==> win,
            self.spec_numerator() == 0 ==> !win,
    {
        proof {
            use_type_invariant(self);
        }
        random_ratio(self.numerator, self.denominator)
    }
}

} // verus!
