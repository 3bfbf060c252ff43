//! The colours a code is made of.

use crate::rand_seed::random_index;
use vstd::array::array_fill_for_copy_types;
use vstd::prelude::*;

verus! {

/// A colour of a code peg. Colours are told apart; they have no order that
/// the game uses.
#[derive(Clone, Copy, Debug, PartialEq, Eq, Hash, Structural)]
pub enum PegColor {
    Red,
    Orange,
    Yellow,
    Green,
    Blue,
    Purple,
    Pink,
    LightBlue,
    NeonGreen,
}

/// How many colours there are in all.
pub const NUM_COLORS: usize = 9;

/// The colours in play.
pub const COLOR_PALETTE: [PegColor; 6] = [
    PegColor::Red,
    PegColor::Orange,
    PegColor::Yellow,
    PegColor::Green,
    PegColor::Blue,
    PegColor::Purple,
];

/// Every colour of `colors` is one of `palette`.
pub open spec fn all_from(colors: Seq<PegColor>, palette: Seq<PegColor>) -> bool {
    forall|i: int| 0 <= i < colors.len() ==> palette.contains(#[trigger] colors[i])
}

/// Slot by slot, `colors` holds the colour of `palette` at the place that
/// `draws` names.
pub open spec fn colors_of_draws(colors: Seq<PegColor>, palette: Seq<PegColor>, draws: Seq<usize>) -> bool {
    &&& colors.len() == draws.len()
    &&& forall|i: int| 0 <= i < draws.len() ==> #[trigger] colors[i] == palette[draws[i] as int]
}

impl PegColor {
    /// The place of this colour in the list of all colours, from 0.
    pub open spec fn ordinal(self) -> nat {
        match self {
            PegColor::Red => 0,
            PegColor::Orange => 1,
            PegColor::Yellow => 2,
            PegColor::Green => 3,
            PegColor::Blue => 4,
            PegColor::Purple => 5,
            PegColor::Pink => 6,
            PegColor::LightBlue => 7,
            PegColor::NeonGreen => 8,
        }
    }

    /// The colour at a place in the list of all colours.
    pub open spec fn from_ordinal(ordinal: nat) -> PegColor {
        if ordinal == 0 {
            PegColor::Red
        } else if ordinal == 1 {
            PegColor::Orange
        } else if ordinal == 2 {
            PegColor::Yellow
        } else if ordinal == 3 {
            PegColor::Green
        } else if ordinal == 4 {
            PegColor::Blue
        } else if ordinal == 5 {
            PegColor::Purple
        } else if ordinal == 6 {
            PegColor::Pink
        } else if ordinal == 7 {
            PegColor::LightBlue
        } else {
            PegColor::NeonGreen
        }
    }

    /// The place of this colour in the list of all colours, from 0.
    pub fn index(self) -> (index: usize)
        ensures
            index == self.ordinal(),
            index < NUM_COLORS,
            PegColor::from_ordinal(index as nat) == self,
    {
        match self {
            PegColor::Red => 0,
            PegColor::Orange => 1,
            PegColor::Yellow => 2,
            PegColor::Green => 3,
            PegColor::Blue => 4,
            PegColor::Purple => 5,
            PegColor::Pink => 6,
            PegColor::LightBlue => 7,
            PegColor::NeonGreen => 8,
        }
    }

    /// The colour of `palette` that a drawn index stands for: the one at that
    /// place.
    pub fn at_draw(palette: &[PegColor], draw: usize) -> (color: PegColor)
        requires
            draw < palette@.len(),
        ensures
            color == palette@[draw as int],
    {
        palette[draw]
    }

    /// The colours of `palette` that drawn indices stand for, slot by slot:
    /// slot `i` holds the colour at the place of the `i`-th draw.
    pub fn from_draws<const N: usize>(palette: &[PegColor], draws: &[usize; N]) -> (colors:
        [PegColor; N])
        requires
            forall|i: int| 0 <= i < N ==> (#[trigger] draws@[i]) < palette@.len(),
        ensures
            colors_of_draws(colors@, palette@, draws@),
    {
        // Every slot is set below; what fills the row before that does not matter.
        let mut colors: [PegColor; N] = array_fill_for_copy_types(PegColor::Red);
        let mut i: usize = 0;
        while i < N
            invariant
                i <= N,
                colors@.len() == N,
                draws@.len() == N,
                forall|j: int| 0 <= j < N ==> (#[trigger] draws@[j]) < palette@.len(),
                forall|j: int| 0 <= j < i ==> #[trigger] colors@[j] == palette@[draws@[j] as int],
            decreases N - i,
        {
            colors[i] = PegColor::at_draw(palette, draws[i]);
            i = i + 1;
        }
        colors
    }

    /// One colour of `palette`, drawn from the shared generator: an index
    /// below the length of the palette is drawn, and the colour at that place
    /// is taken.
    pub fn random(palette: &[PegColor]) -> (color: PegColor)
        requires
            palette@.len() > 0,
        ensures
            palette@.contains(color),
    {
        let draw = random_index(palette.len());
        PegColor::at_draw(palette, draw)
    }

    /// `N` colours of `palette`, each drawn on its own, so that a colour may
    /// come up more than once. The draws are made in the order of the
    /// slots.
    pub fn random_array<const N: usize>(palette: &[PegColor]) -> (colors: [PegColor; N])
        requires
            N > 0 ==> palette@.len() > 0,
        ensures
            all_from(colors@, palette@),
    {
        let mut draws: [usize; N] = array_fill_for_copy_types(0);
        let mut i: usize = 0;
        while i < N
            invariant
                i <= N,
                N > 0 ==> palette@.len() > 0,
                draws@.len() == N,
                forall|j: int| 0 <= j < N ==> (#[trigger] draws@[j]) < palette@.len() || j >= i,
            decreases N - i,
        {
            draws[i] = random_index(palette.len());
            i = i + 1;
        }
        PegColor::from_draws(palette, &draws)
    }
}

} // verus!
