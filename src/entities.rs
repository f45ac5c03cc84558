//! Entities of the levels: collectable objects and the droplets that
//! change the player's color.
use vstd::prelude::*;

use crate::color::{color_name, color_parse_error, GameColor};
use crate::text::{concat3, str_eq};
use crate::tint::Tint;

verus! {

/// Kinds of collectable objects.
#[derive(Debug, Clone, Copy, PartialEq, Eq, Structural)]
pub enum ObjectType {
    Book,
    Feather,
}

/// The name under which an object kind is written in level data.
pub open spec fn object_type_name(t: ObjectType) -> Seq<char> {
    match t {
        ObjectType::Book => "Book"@,
        ObjectType::Feather => "Feather"@,
    }
}

/// The message of a failed parse of `s`.
pub open spec fn object_type_parse_error(s: Seq<char>) -> Seq<char> {
    "Cannot parse "@ + s + " as ObjectType"@
}

impl ObjectType {
    /// Parses an object kind from its name; any other text is an error
    /// that quotes it.
    pub fn from_str(s: &str) -> (r: Result<ObjectType, String>)
        ensures
            match r {
                Ok(t) => s@ == object_type_name(t),
                Err(e) => (forall|t: ObjectType| s@ != #[trigger] object_type_name(t))
                    && e@ == object_type_parse_error(s@),
            },
    {
        if str_eq(s, "Book") {
            Ok(ObjectType::Book)
        } else if str_eq(s, "Feather") {
            Ok(ObjectType::Feather)
        } else {
            assert forall|t: ObjectType| s@ != #[trigger] object_type_name(t) by {
                match t {
                    ObjectType::Book => {},
                    ObjectType::Feather => {},
                }
            }
            Err(concat3("Cannot parse ", s, " as ObjectType"))
        }
    }
}

impl std::str::FromStr for ObjectType {
    type Err = String;

    fn from_str(s: &str) -> Result<ObjectType, String> {
        ObjectType::from_str(s)
    }
}

/// Whether the player collects an object on touching it: they share a
/// color.
pub fn is_collected(object_tint: &Tint, player_tint: &Tint) -> (r: bool)
    ensures
        r == exists|c: GameColor| object_tint@.contains(c) && player_tint@.contains(c),
{
    object_tint.share_color_with(player_tint)
}

/// A droplet of paint: touching it gives the player its color.
#[derive(Debug, Clone, Copy, PartialEq, Eq, Structural)]
pub struct Droplet(pub GameColor);

impl Droplet {
    /// The droplet of the color named `name` in level data.
    pub fn from_color_name(name: &str) -> (r: Result<Droplet, String>)
        ensures
            match r {
                Ok(d) => name@ == color_name(d.0),
                Err(e) => (forall|c: GameColor| name@ != #[trigger] color_name(c))
                    && e@ == color_parse_error(name@),
            },
    {
        match GameColor::from_str(name) {
            Ok(c) => Ok(Droplet(c)),
            Err(e) => Err(e),
        }
    }

    /// The player's tint after picking the droplet up: the droplet's color
    /// alone.
    pub fn pickup_tint(&self) -> (r: Tint)
        ensures
            r@ == set![self.0],
    {
        Tint::from_color(self.0)
    }
}

/// Once the player has picked up a droplet, it collects exactly the
/// objects that carry the droplet's color.
pub proof fn lemma_collect_after_pickup(droplet: Droplet, object_tint: Tint)
    ensures
        (exists|c: GameColor| object_tint@.contains(c) && set![droplet.0].contains(c))
            <==> object_tint@.contains(droplet.0),
{
    if object_tint@.contains(droplet.0) {
        assert(set![droplet.0].contains(droplet.0));
    }
}

} // verus!
