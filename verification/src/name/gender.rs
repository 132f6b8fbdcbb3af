//! The gender that a given name is drawn for.

use crate::random::draw;
use vstd::prelude::*;

verus! {

/// One of the two genders that the name table keeps given names for.
#[derive(Clone, Copy, Debug, PartialEq, Eq, Structural)]
pub enum Gender {
    Female,
    Male,
}

impl Gender {
    /// The gender that a draw stands for: an even draw is `Female`, an odd
    /// one `Male`.
    pub open spec fn of_draw(draw: nat) -> Gender {
        if draw % 2 == 0 {
            Gender::Female
        } else {
            Gender::Male
        }
    }

    /// The key under which the table keeps the given names of this gender.
    pub open spec fn key_model(self) -> Seq<char> {
        match self {
            Gender::Female => "female"@,
            Gender::Male => "male"@,
        }
    }

    /// The gender that `draw` stands for.
    pub fn from_draw(draw: usize) -> (g: Gender)
        ensures
            g == Gender::of_draw(draw as nat),
    {
        if draw % 2 == 0 {
            Gender::Female
        } else {
            Gender::Male
        }
    }

    /// A gender chosen by one fresh random draw, each with the same chance.
    pub fn sample() -> (g: Gender)
        ensures
            exists|draw: nat| g == Gender::of_draw(draw),
    {
        let n: usize = draw();
        let g = Gender::from_draw(n);
        assert(g == Gender::of_draw(n as nat));
        g
    }

    /// The key under which the table keeps the given names of this gender.
    pub fn key(&self) -> (k: &'static str)
        ensures
            k@ == self.key_model(),
    {
        match self {
            Gender::Female => "female",
            Gender::Male => "male",
        }
    }

    /// Whether this is `Female`.
    pub fn is_female(&self) -> (b: bool)
        ensures
            b == (*self == Gender::Female),
    {
        match self {
            Gender::Female => true,
            Gender::Male => false,
        }
    }

    /// Whether this is `Male`.
    pub fn is_male(&self) -> (b: bool)
        ensures
            b == (*self == Gender::Male),
    {
        match self {
            Gender::Female => false,
            Gender::Male => true,
        }
    }
}

/// Neither key holds a dot, so each names one step in a table.
pub proof fn lemma_key_has_no_dot(gender: Gender)
    ensures
        !gender.key_model().contains('.'),
{
    reveal_strlit("female");
    reveal_strlit("male");
}

} // verus!
