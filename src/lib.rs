//! Rules of a color-matching platformer.
//!
//! Every wall, object and droplet of a level carries a tint, a set of
//! colors; the player carries one too and passes through what shares a
//! color with it. This crate holds the game's logic apart from its engine:
//! tints and their parsing from level data, the collision shapes of wall
//! tiles, the grid of levels and the camera's target in it, the volume
//! settings, the decisions of the character controller, and the texts and
//! colors of the menus.

pub mod audio;
pub mod camera;
pub mod color;
pub mod entities;
pub mod grid;
pub mod interaction;
pub mod movement;
pub mod palette;
pub mod spawn;
pub mod text;
pub mod tint;
pub mod wall;

