//! How menu buttons react to the pointer: a random highlight color and
//! selection markers around the text while hovered.
use vstd::prelude::*;
use rand::seq::IndexedRandom;

use crate::palette::Rgb;
use crate::text::concat3;

verus! {

/// Relies on rand's `IndexedRandom::choose` with the thread-local
/// generator of `rand::rng`: `None` exactly for an empty slice, else one of
/// its elements.
#[verifier::external_body]
fn choose_color(colors: &[Rgb]) -> (r: Option<Rgb>)
    ensures
        r is None <==> colors@.len() == 0,
        r matches Some(c) ==> colors@.contains(c),
{
    colors.choose(&mut rand::rng()).copied()
}

/// Text colors of a button: one when idle, and a choice of colors of which
/// one is drawn each time the pointer enters it.
#[derive(Debug, Clone)]
pub struct InteractionPalette {
    pub none: Rgb,
    pub hovered: Vec<Rgb>,
}

impl InteractionPalette {
    /// The text color when the pointer enters: one of the hover colors,
    /// drawn at random.
    pub fn hovered_color(&self) -> (r: Rgb)
        requires
            self.hovered@.len() > 0,
        ensures
            self.hovered@.contains(r),
    {
        match choose_color(self.hovered.as_slice()) {
            Some(c) => c,
            None => self.none,
        }
    }

    /// The text color when the pointer leaves.
    pub fn idle_color(&self) -> (r: Rgb)
        ensures
            r == self.none,
    {
        self.none
    }
}

/// Text of a button that shows `>` and `<` around it while hovered.
#[derive(Debug, Clone)]
pub struct SelectionMarkerText {
    pub base: String,
}

impl SelectionMarkerText {
    /// The text while hovered.
    pub fn hovered_text(&self) -> (r: String)
        ensures
            r@ == "> "@ + self.base@ + " <"@,
    {
        concat3("> ", self.base.as_str(), " <")
    }

    /// The text while not hovered.
    pub fn idle_text(&self) -> (r: String)
        ensures
            r@ == self.base@,
    {
        String::from_str(self.base.as_str())
    }
}

} // verus!
