//! Collision shapes of wall tiles. A tile's metadata describes which part
//! of the tile is solid; the shape becomes a list of rectangles in tile
//! pixels, and then a list of boxes placed around the tile's center.
use vstd::prelude::*;

verus! {

/// Width and height of a tile, in pixels.
pub const TILE_SIZE: u32 = 16;

/// A rectangle inside a tile as `(left, top, right, bottom)`, in pixels,
/// with the origin at the tile's upper left corner and y pointing down.
pub type RectShape = (u32, u32, u32, u32);

/// Solid part of a wall tile.
#[derive(Debug, Clone, PartialEq, Eq)]
pub enum WallCollider {
    /// A band along the top edge, of the given height.
    Top(u32),
    /// A band along the bottom edge, of the given height.
    Bottom(u32),
    /// A band along the left edge, of the given length.
    Left(u32),
    /// A band along the right edge, of the given length.
    Right(u32),
    /// Top band of the given height, then a left band of the given length below it.
    TopLeft(u32, u32),
    /// Top band of the given height, then a right band of the given length below it.
    TopRight(u32, u32),
    /// Bottom band of the given height, then a left band of the given length above it.
    BottomLeft(u32, u32),
    /// Bottom band of the given height, then a right band of the given length above it.
    BottomRight(u32, u32),
    /// Rectangles given one by one.
    Custom(Vec<RectShape>),
}

/// An axis-aligned box of a tile's collider: its size, and its center
/// relative to the tile's center with y pointing up. The center is given
/// doubled so that it stays a whole number.
#[derive(Debug, Clone, Copy, PartialEq, Eq, Structural)]
pub struct TileBox {
    pub width: u32,
    pub height: u32,
    pub center_x2: i64,
    pub center_y2: i64,
}

impl WallCollider {
    /// Whether every band length the shape subtracts from the tile size
    /// fits in the tile.
    pub open spec fn fits_tile_spec(&self) -> bool {
        match *self {
            WallCollider::Bottom(h) => h <= TILE_SIZE,
            WallCollider::Right(l) => l <= TILE_SIZE,
            WallCollider::TopRight(_, l) => l <= TILE_SIZE,
            WallCollider::BottomLeft(h, _) => h <= TILE_SIZE,
            WallCollider::BottomRight(h, l) => h <= TILE_SIZE && l <= TILE_SIZE,
            _ => true,
        }
    }

    /// The rectangles of the shape.
    pub open spec fn coords_spec(&self) -> Seq<RectShape>
        recommends
            self.fits_tile_spec(),
    {
        let t = TILE_SIZE;
        match *self {
            WallCollider::Top(h) => seq![(0u32, 0u32, t, h)],
            WallCollider::Bottom(h) => seq![(0u32, (t - h) as u32, t, t)],
            WallCollider::Left(l) => seq![(0u32, 0u32, l, t)],
            WallCollider::Right(l) => seq![((t - l) as u32, 0u32, t, t)],
            WallCollider::TopLeft(h, l) => seq![(0u32, 0u32, t, h), (0u32, h, l, t)],
            WallCollider::TopRight(h, l) => seq![(0u32, 0u32, t, h), ((t - l) as u32, h, t, t)],
            WallCollider::BottomLeft(h, l) => seq![
                (0u32, (t - h) as u32, t, t),
                (0u32, 0u32, l, (t - h) as u32),
            ],
            WallCollider::BottomRight(h, l) => seq![
                (0u32, (t - h) as u32, t, t),
                ((t - l) as u32, 0u32, t, (t - h) as u32),
            ],
            WallCollider::Custom(items) => items@,
        }
    }

    /// Whether the shape can be turned into rectangles: see
    /// [`WallCollider::into_coords`].
    pub fn fits_tile(&self) -> (r: bool)
        ensures
            r == self.fits_tile_spec(),
    {
        match self {
            WallCollider::Bottom(h) => *h <= TILE_SIZE,
            WallCollider::Right(l) => *l <= TILE_SIZE,
            WallCollider::TopRight(_, l) => *l <= TILE_SIZE,
            WallCollider::BottomLeft(h, _) => *h <= TILE_SIZE,
            WallCollider::BottomRight(h, l) => *h <= TILE_SIZE && *l <= TILE_SIZE,
            _ => true,
        }
    }

    /// The rectangles of the shape, in tile pixels.
    pub fn into_coords(self) -> (r: Vec<RectShape>)
        requires
            self.fits_tile_spec(),
        ensures
            r@ == self.coords_spec(),
    {
        match self {
            WallCollider::Top(height) => vec![(0, 0, TILE_SIZE, height)],
            WallCollider::Bottom(height) => {
                let top = TILE_SIZE - height;
                vec![(0, top, TILE_SIZE, TILE_SIZE)]
            },
            WallCollider::Left(length) => vec![(0, 0, length, TILE_SIZE)],
            WallCollider::Right(length) => {
                let left = TILE_SIZE - length;
                vec![(left, 0, TILE_SIZE, TILE_SIZE)]
            },
            WallCollider::TopLeft(height, length) => {
                vec![(0, 0, TILE_SIZE, height), (0, height, length, TILE_SIZE)]
            },
            WallCollider::TopRight(height, length) => {
                let left = TILE_SIZE - length;
                vec![(0, 0, TILE_SIZE, height), (left, height, TILE_SIZE, TILE_SIZE)]
            },
            WallCollider::BottomLeft(height, length) => {
                let top = TILE_SIZE - height;
                vec![(0, top, TILE_SIZE, TILE_SIZE), (0, 0, length, top)]
            },
            WallCollider::BottomRight(height, length) => {
                let top = TILE_SIZE - height;
                let left = TILE_SIZE - length;
                vec![(0, top, TILE_SIZE, TILE_SIZE), (left, 0, TILE_SIZE, top)]
            },
            WallCollider::Custom(items) => items,
        }
    }

    /// The boxes of the tile's collider, one per rectangle of the shape.
    pub fn into_collider_boxes(self) -> (r: Vec<TileBox>)
        requires
            self.fits_tile_spec(),
        ensures
            r@ == self.coords_spec().map_values(|s: RectShape| box_of(s)),
    {
        let coords = self.into_coords();
        let mut r: Vec<TileBox> = Vec::new();
        let mut i: usize = 0;
        while i < coords.len()
            invariant
                i <= coords@.len(),
                r@ == coords@.subrange(0, i as int).map_values(|s: RectShape| box_of(s)),
            decreases coords@.len() - i,
        {
            r.push(TileBox::from_rect(coords[i]));
            assert(coords@.subrange(0, i + 1).map_values(|s: RectShape| box_of(s))
                =~= coords@.subrange(0, i as int).map_values(|s: RectShape| box_of(s)).push(
                box_of(coords@[i as int]),
            ));
            i = i + 1;
        }
        assert(coords@.subrange(0, i as int) =~= coords@);
        r
    }
}

/// Distance between two coordinates.
pub open spec fn span(a: u32, b: u32) -> u32 {
    if a <= b {
        (b - a) as u32
    } else {
        (a - b) as u32
    }
}

/// The collider box of a rectangle: its size, and its center moved to
/// the tile's center with y flipped to point up.
pub open spec fn box_of(s: RectShape) -> TileBox {
    let (a, b, c, d) = s;
    TileBox {
        width: span(a, c),
        height: span(b, d),
        center_x2: (a + c - TILE_SIZE) as i64,
        center_y2: (TILE_SIZE - b - d) as i64,
    }
}

impl TileBox {
    /// The box that fills the whole tile.
    pub fn full_tile() -> (r: TileBox)
        ensures
            r == box_of((0, 0, TILE_SIZE, TILE_SIZE)),
    {
        TileBox { width: TILE_SIZE, height: TILE_SIZE, center_x2: 0, center_y2: 0 }
    }

    /// The collider box of a rectangle given by two opposite corners.
    pub fn from_rect(s: RectShape) -> (r: TileBox)
        ensures
            r == box_of(s),
    {
        let (a, b, c, d) = s;
        let width = if a <= c {
            c - a
        } else {
            a - c
        };
        let height = if b <= d {
            d - b
        } else {
            b - d
        };
        TileBox {
            width,
            height,
            center_x2: a as i64 + c as i64 - TILE_SIZE as i64,
            center_y2: TILE_SIZE as i64 - b as i64 - d as i64,
        }
    }
}

} // verus!
