//! The colors that walls, objects, droplets and the player carry.
use vstd::prelude::*;

use crate::palette::Rgb;
use crate::text::{concat3, str_eq};

verus! {

/// Colors that game elements can carry.
#[derive(Debug, Clone, Copy, PartialEq, Eq, Hash, Structural)]
pub enum GameColor {
    White,
    Grey,
    Green,
    Brown,
    Orange,
}

/// Position of a color in the declaration order of [`GameColor`].
pub open spec fn color_index(c: GameColor) -> nat {
    match c {
        GameColor::White => 0,
        GameColor::Grey => 1,
        GameColor::Green => 2,
        GameColor::Brown => 3,
        GameColor::Orange => 4,
    }
}

/// The name under which a color is written in level data.
pub open spec fn color_name(c: GameColor) -> Seq<char> {
    match c {
        GameColor::White => "White"@,
        GameColor::Grey => "Grey"@,
        GameColor::Green => "Green"@,
        GameColor::Brown => "Brown"@,
        GameColor::Orange => "Orange"@,
    }
}

/// The message of a failed parse of `s`.
pub open spec fn color_parse_error(s: Seq<char>) -> Seq<char> {
    "Cannot parse "@ + s + " as GameColor."@
}

/// The color that follows `c` when the player's tint is cycled by hand.
pub open spec fn next_debug_color_spec(c: GameColor) -> GameColor {
    match c {
        GameColor::White => GameColor::Brown,
        GameColor::Grey => GameColor::White,
        GameColor::Green => GameColor::Grey,
        GameColor::Brown => GameColor::Green,
        GameColor::Orange => GameColor::White,
    }
}

/// The on-screen shade of each color.
pub open spec fn shade_of(c: GameColor) -> Rgb {
    match c {
        GameColor::White => Rgb { r: 210, g: 201, b: 165 },
        GameColor::Grey => Rgb { r: 86, g: 84, b: 110 },
        GameColor::Green => Rgb { r: 102, g: 132, b: 95 },
        GameColor::Brown => Rgb { r: 138, g: 88, b: 101 },
        GameColor::Orange => Rgb { r: 188, g: 133, b: 99 },
    }
}

/// Distinct colors have distinct names.
pub proof fn lemma_color_names_distinct(a: GameColor, b: GameColor)
    ensures
        color_name(a) == color_name(b) <==> a == b,
{
    reveal_strlit("White");
    reveal_strlit("Grey");
    reveal_strlit("Green");
    reveal_strlit("Brown");
    reveal_strlit("Orange");
    if a != b {
        assert(color_name(a).len() != color_name(b).len() || color_name(a)[2] != color_name(b)[2]);
    }
}

impl GameColor {
    /// Parses a color from its name; any other text is an error that
    /// quotes it.
    pub fn from_str(s: &str) -> (r: Result<GameColor, String>)
        ensures
            match r {
                Ok(c) => s@ == color_name(c),
                Err(e) => (forall|c: GameColor| s@ != #[trigger] color_name(c))
                    && e@ == color_parse_error(s@),
            },
    {
        if str_eq(s, "White") {
            Ok(GameColor::White)
        } else if str_eq(s, "Grey") {
            Ok(GameColor::Grey)
        } else if str_eq(s, "Green") {
            Ok(GameColor::Green)
        } else if str_eq(s, "Brown") {
            Ok(GameColor::Brown)
        } else if str_eq(s, "Orange") {
            Ok(GameColor::Orange)
        } else {
            assert forall|c: GameColor| s@ != #[trigger] color_name(c) by {
                match c {
                    GameColor::White => {},
                    GameColor::Grey => {},
                    GameColor::Green => {},
                    GameColor::Brown => {},
                    GameColor::Orange => {},
                }
            }
            Err(concat3("Cannot parse ", s, " as GameColor."))
        }
    }

    /// The on-screen shade of this color.
    pub fn color(&self) -> (r: Rgb)
        ensures
            r == shade_of(*self),
    {
        match self {
            GameColor::White => Rgb::new(210, 201, 165),
            GameColor::Grey => Rgb::new(86, 84, 110),
            GameColor::Green => Rgb::new(102, 132, 95),
            GameColor::Brown => Rgb::new(138, 88, 101),
            GameColor::Orange => Rgb::new(188, 133, 99),
        }
    }

    /// Color shown after this one when the player's tint is cycled by hand.
    pub fn next_debug_color(&self) -> (r: GameColor)
        ensures
            r == next_debug_color_spec(*self),
    {
        match self {
            GameColor::White => GameColor::Brown,
            GameColor::Grey => GameColor::White,
            GameColor::Green => GameColor::Grey,
            GameColor::Brown => GameColor::Green,
            GameColor::Orange => GameColor::White,
        }
    }
}

impl std::str::FromStr for GameColor {
    type Err = String;

    fn from_str(s: &str) -> Result<GameColor, String> {
        GameColor::from_str(s)
    }
}

/// Cycling by hand goes through white, brown, green and grey, and comes
/// back to the start after four steps; orange leads into that cycle.
pub proof fn lemma_debug_cycle(c: GameColor)
    ensures
        c != GameColor::Orange ==> next_debug_color_spec(
            next_debug_color_spec(next_debug_color_spec(next_debug_color_spec(c))),
        ) == c,
        next_debug_color_spec(c) != GameColor::Orange,
        next_debug_color_spec(c) != c,
{
}

} // verus!
