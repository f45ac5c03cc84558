//! A tint: the set of colors that a game element carries. Two elements
//! that share a color do not block each other.
use vstd::prelude::*;

use crate::color::{color_index, color_name, next_debug_color_spec, GameColor};

verus! {

/// The set of colors of a game element, one flag per color.
#[derive(Debug, Clone, Copy, PartialEq, Eq, Hash, Structural)]
pub struct Tint {
    pub white: bool,
    pub grey: bool,
    pub green: bool,
    pub brown: bool,
    pub orange: bool,
}

impl Tint {
    /// Whether the flag of `c` is set.
    pub open spec fn holds(self, c: GameColor) -> bool {
        match c {
            GameColor::White => self.white,
            GameColor::Grey => self.grey,
            GameColor::Green => self.green,
            GameColor::Brown => self.brown,
            GameColor::Orange => self.orange,
        }
    }
}

impl View for Tint {
    type V = Set<GameColor>;

    open spec fn view(&self) -> Set<GameColor> {
        Set::new(|c: GameColor| self.holds(c))
    }
}

/// The colors that some entry of `names` names.
pub open spec fn named_colors(names: Seq<Seq<char>>) -> Set<GameColor> {
    Set::new(|c: GameColor| names.contains(color_name(c)))
}

/// The colors that some present entry of `names` names.
pub open spec fn named_colors_opt(names: Seq<Option<Seq<char>>>) -> Set<GameColor> {
    Set::new(|c: GameColor| names.contains(Some(color_name(c))))
}

/// The colors of a tint in declaration order.
pub open spec fn colors_in_order(t: Tint) -> Seq<GameColor> {
    (if t.white {
        seq![GameColor::White]
    } else {
        Seq::empty()
    }) + (if t.grey {
        seq![GameColor::Grey]
    } else {
        Seq::empty()
    }) + (if t.green {
        seq![GameColor::Green]
    } else {
        Seq::empty()
    }) + (if t.brown {
        seq![GameColor::Brown]
    } else {
        Seq::empty()
    }) + (if t.orange {
        seq![GameColor::Orange]
    } else {
        Seq::empty()
    })
}

/// The color that stands for a whole tint: its first color in declaration
/// order, or white when it has none.
pub open spec fn main_color_of(s: Set<GameColor>) -> GameColor {
    if s.contains(GameColor::White) {
        GameColor::White
    } else if s.contains(GameColor::Grey) {
        GameColor::Grey
    } else if s.contains(GameColor::Green) {
        GameColor::Green
    } else if s.contains(GameColor::Brown) {
        GameColor::Brown
    } else if s.contains(GameColor::Orange) {
        GameColor::Orange
    } else {
        GameColor::White
    }
}

impl Tint {
    /// A tint without any color.
    pub fn empty() -> (r: Tint)
        ensures
            r@ == Set::<GameColor>::empty(),
    {
        let r = Tint { white: false, grey: false, green: false, brown: false, orange: false };
        assert(r@ =~= Set::<GameColor>::empty());
        r
    }

    /// Adds one color to the tint.
    pub fn insert(&mut self, c: GameColor)
        ensures
            final(self)@ == old(self)@.insert(c),
    {
        match c {
            GameColor::White => self.white = true,
            GameColor::Grey => self.grey = true,
            GameColor::Green => self.green = true,
            GameColor::Brown => self.brown = true,
            GameColor::Orange => self.orange = true,
        }
        assert(self@ =~= old(self)@.insert(c));
    }

    /// A tint of the single color `color`.
    pub fn from_color(color: GameColor) -> (r: Tint)
        ensures
            r@ == set![color],
    {
        let mut r = Tint::empty();
        r.insert(color);
        assert(r@ =~= set![color]);
        r
    }

    /// A tint of the given color, or an empty one.
    pub fn from_option(maybe_color: Option<GameColor>) -> (r: Tint)
        ensures
            r@ == match maybe_color {
                Some(c) => set![c],
                None => Set::<GameColor>::empty(),
            },
    {
        match maybe_color {
            Some(c) => Tint::from_color(c),
            None => Tint::empty(),
        }
    }

    /// A tint of all the listed colors; repeats count once.
    pub fn from_colors(colors: &Vec<GameColor>) -> (r: Tint)
        ensures
            r@ == colors@.to_set(),
    {
        let mut r = Tint::empty();
        let mut i: usize = 0;
        while i < colors.len()
            invariant
                i <= colors@.len(),
                r@ == colors@.subrange(0, i as int).to_set(),
            decreases colors@.len() - i,
        {
            r.insert(colors[i]);
            assert(colors@.subrange(0, i + 1) =~= colors@.subrange(0, i as int).push(colors@[i as int]));
            proof {
                colors@.subrange(0, i as int).lemma_push_to_set_commute(colors@[i as int]);
            }
            i = i + 1;
        }
        assert(colors@.subrange(0, i as int) =~= colors@);
        r
    }

    /// A tint of the colors named in `names`: each tag that names a color
    /// adds it, the others are ignored.
    pub fn from_color_names(names: &Vec<String>) -> (r: Tint)
        ensures
            r@ == named_colors(names@.map_values(|n: String| n@)),
    {
        let ghost full = names@.map_values(|n: String| n@);
        let mut r = Tint::empty();
        let mut i: usize = 0;
        while i < names.len()
            invariant
                i <= names@.len(),
                full == names@.map_values(|n: String| n@),
                r@ == named_colors(full.subrange(0, i as int)),
            decreases names@.len() - i,
        {
            let ghost before = r@;
            let parsed = GameColor::from_str(names[i].as_str());
            match parsed {
                Ok(c) => r.insert(c),
                Err(_) => {},
            }
            assert(full.subrange(0, i + 1) =~= full.subrange(0, i as int).push(full[i as int]));
            assert forall|d: GameColor| #[trigger] r@.contains(d) <==> named_colors(
                full.subrange(0, i + 1),
            ).contains(d) by {
                assert(full[i as int] == names@[i as int]@);
                assert(before.contains(d) == named_colors(full.subrange(0, i as int)).contains(d));
                vstd::seq_lib::lemma_seq_contains_after_push(
                    full.subrange(0, i as int),
                    full[i as int],
                    color_name(d),
                );
                assert(full.subrange(0, i as int).push(full[i as int]).contains(color_name(d)) <==> (
                full.subrange(0, i as int).contains(color_name(d)) || full[i as int] == color_name(
                    d,
                )));
                if let Ok(c) = parsed {
                    crate::color::lemma_color_names_distinct(c, d);
                }
            }
            assert(r@ =~= named_colors(full.subrange(0, i + 1)));
            i = i + 1;
        }
        assert(full.subrange(0, i as int) =~= full);
        r
    }

    /// A tint of the colors named by the present entries of `values`, the
    /// form in which level data lists an element's colors. Absent entries
    /// and unknown names are ignored.
    pub fn from_colors_field(values: &Vec<Option<String>>) -> (r: Tint)
        ensures
            r@ == named_colors_opt(
                values@.map_values(|v: Option<String>| match v {
                    Some(n) => Some(n@),
                    None => None,
                }),
            ),
    {
        let ghost full = values@.map_values(
            |v: Option<String>| match v {
                Some(n) => Some(n@),
                None => None,
            },
        );
        let mut r = Tint::empty();
        let mut i: usize = 0;
        while i < values.len()
            invariant
                i <= values@.len(),
                full == values@.map_values(
                    |v: Option<String>| match v {
                        Some(n) => Some(n@),
                        None => None,
                    },
                ),
                r@ == named_colors_opt(full.subrange(0, i as int)),
            decreases values@.len() - i,
        {
            match &values[i] {
                Some(name) => {
                    let ghost before = r@;
                    let parsed = GameColor::from_str(name.as_str());
                    match parsed {
                        Ok(c) => r.insert(c),
                        Err(_) => {},
                    }
                    assert forall|d: GameColor| #[trigger] r@.contains(d) <==> named_colors_opt(
                        full.subrange(0, i + 1),
                    ).contains(d) by {
                        assert(full.subrange(0, i + 1) =~= full.subrange(0, i as int).push(
                            full[i as int],
                        ));
                        assert(full[i as int] == Some(name@));
                        assert(before.contains(d) == named_colors_opt(
                            full.subrange(0, i as int),
                        ).contains(d));
                        vstd::seq_lib::lemma_seq_contains_after_push(
                            full.subrange(0, i as int),
                            full[i as int],
                            Some(color_name(d)),
                        );
                        assert(full.subrange(0, i as int).push(full[i as int]).contains(
                            Some(color_name(d)),
                        ) <==> (full.subrange(0, i as int).contains(Some(color_name(d)))
                            || full[i as int] == Some(color_name(d))));
                        if let Ok(c) = parsed {
                            crate::color::lemma_color_names_distinct(c, d);
                        }
                    }
                },
                None => {},
            }
            assert(full.subrange(0, i + 1) =~= full.subrange(0, i as int).push(full[i as int]));
            assert(r@ =~= named_colors_opt(full.subrange(0, i + 1)));
            i = i + 1;
        }
        assert(full.subrange(0, i as int) =~= full);
        r
    }

    /// A tint of the color named by `value`, or an empty one when it is
    /// absent or names no color.
    pub fn from_color_field(value: &Option<String>) -> (r: Tint)
        ensures
            r@ == match value {
                Some(n) => Set::new(|c: GameColor| n@ == color_name(c)),
                None => Set::<GameColor>::empty(),
            },
    {
        match value {
            Some(n) => match GameColor::from_str(n.as_str()) {
                Ok(c) => {
                    let r = Tint::from_color(c);
                    assert forall|d: GameColor| r@.contains(d) <==> n@ == color_name(d) by {
                        crate::color::lemma_color_names_distinct(c, d);
                    }
                    assert(r@ =~= Set::new(|d: GameColor| n@ == color_name(d)));
                    r
                },
                Err(_) => {
                    let r = Tint::empty();
                    assert(r@ =~= Set::new(|d: GameColor| n@ == color_name(d)));
                    r
                },
            },
            None => Tint::empty(),
        }
    }

    /// The colors of the tint, each once, in declaration order.
    pub fn get_colors(&self) -> (r: Vec<GameColor>)
        ensures
            r@ == colors_in_order(*self),
            forall|c: GameColor| r@.contains(c) <==> self@.contains(c),
            forall|i: int, j: int|
                0 <= i < j < r@.len() ==> color_index(r@[i]) < color_index(r@[j]),
    {
        broadcast use vstd::seq_lib::lemma_seq_contains_after_push;
        broadcast use vstd::seq_lib::lemma_seq_empty_contains_nothing;

        let mut r: Vec<GameColor> = Vec::new();
        if self.white {
            r.push(GameColor::White);
        }
        if self.grey {
            r.push(GameColor::Grey);
        }
        if self.green {
            r.push(GameColor::Green);
        }
        if self.brown {
            r.push(GameColor::Brown);
        }
        if self.orange {
            r.push(GameColor::Orange);
        }
        assert(r@ =~= colors_in_order(*self));
        r
    }

    /// Whether the tint holds `color`.
    pub fn has_color(&self, color: GameColor) -> (r: bool)
        ensures
            r == self@.contains(color),
    {
        match color {
            GameColor::White => self.white,
            GameColor::Grey => self.grey,
            GameColor::Green => self.green,
            GameColor::Brown => self.brown,
            GameColor::Orange => self.orange,
        }
    }

    /// Whether the two tints have a color in common.
    pub fn share_color_with(&self, other: &Tint) -> (r: bool)
        ensures
            r == exists|c: GameColor| self@.contains(c) && other@.contains(c),
    {
        let r = (self.white && other.white) || (self.grey && other.grey) || (self.green
            && other.green) || (self.brown && other.brown) || (self.orange && other.orange);
        if r {
            if self.white && other.white {
                assert(self@.contains(GameColor::White));
            } else if self.grey && other.grey {
                assert(self@.contains(GameColor::Grey));
            } else if self.green && other.green {
                assert(self@.contains(GameColor::Green));
            } else if self.brown && other.brown {
                assert(self@.contains(GameColor::Brown));
            } else {
                assert(self@.contains(GameColor::Orange));
            }
        }
        r
    }

    /// The color that stands for the whole tint: its first color in
    /// declaration order, or white when it has none.
    pub fn main_color(&self) -> (r: GameColor)
        ensures
            r == main_color_of(self@),
            self@ == Set::<GameColor>::empty() ==> r == GameColor::White,
            self@ != Set::<GameColor>::empty() ==> self@.contains(r) && forall|c: GameColor|
                #[trigger] self@.contains(c) ==> color_index(r) <= color_index(c),
    {
        let colors = self.get_colors();
        if colors.len() == 0 {
            assert(self@ =~= Set::<GameColor>::empty());
            GameColor::White
        } else {
            assert(colors@.contains(colors@[0]));
            colors[0]
        }
    }

    /// The tint that follows this one when it is cycled by hand: the
    /// single color after its main color.
    pub fn next_debug_tint(&self) -> (r: Tint)
        ensures
            r@ == set![next_debug_color_spec(main_color_of(self@))],
    {
        Tint::from_color(self.main_color().next_debug_color())
    }
}

/// The tint whose colors are those of `s`.
pub open spec fn tint_of_set(s: Set<GameColor>) -> Tint {
    Tint {
        white: s.contains(GameColor::White),
        grey: s.contains(GameColor::Grey),
        green: s.contains(GameColor::Green),
        brown: s.contains(GameColor::Brown),
        orange: s.contains(GameColor::Orange),
    }
}

/// A tint is determined by its set of colors.
pub proof fn lemma_tint_of_view(t: Tint)
    ensures
        tint_of_set(t@) == t,
{
}

impl From<GameColor> for Tint {
    fn from(color: GameColor) -> (r: Tint) {
        let r = Tint::from_color(color);
        proof {
            lemma_tint_of_view(r);
        }
        r
    }
}

impl vstd::std_specs::convert::FromSpecImpl<GameColor> for Tint {
    open spec fn obeys_from_spec() -> bool {
        true
    }

    open spec fn from_spec(color: GameColor) -> Tint {
        tint_of_set(set![color])
    }
}

impl From<Option<GameColor>> for Tint {
    fn from(maybe_color: Option<GameColor>) -> (r: Tint) {
        let r = Tint::from_option(maybe_color);
        proof {
            lemma_tint_of_view(r);
        }
        r
    }
}

impl vstd::std_specs::convert::FromSpecImpl<Option<GameColor>> for Tint {
    open spec fn obeys_from_spec() -> bool {
        true
    }

    open spec fn from_spec(maybe_color: Option<GameColor>) -> Tint {
        tint_of_set(
            match maybe_color {
                Some(c) => set![c],
                None => Set::<GameColor>::empty(),
            },
        )
    }
}

impl From<Vec<GameColor>> for Tint {
    fn from(colors: Vec<GameColor>) -> (r: Tint) {
        let r = Tint::from_colors(&colors);
        proof {
            lemma_tint_of_view(r);
        }
        r
    }
}

impl vstd::std_specs::convert::FromSpecImpl<Vec<GameColor>> for Tint {
    open spec fn obeys_from_spec() -> bool {
        true
    }

    open spec fn from_spec(colors: Vec<GameColor>) -> Tint {
        tint_of_set(colors@.to_set())
    }
}

/// Having a color in common does not depend on the order of the two tints.
pub proof fn lemma_share_color_symmetric(a: Tint, b: Tint)
    ensures
        (exists|c: GameColor| a@.contains(c) && b@.contains(c)) == (exists|c: GameColor|
            b@.contains(c) && a@.contains(c)),
{
}

} // verus!
