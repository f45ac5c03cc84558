use plateformer::wall::{TileBox, WallCollider};

#[test]
fn band_shapes() {
    assert_eq!(WallCollider::Top(4).into_coords(), vec![(0, 0, 16, 4)]);
    assert_eq!(WallCollider::Bottom(4).into_coords(), vec![(0, 12, 16, 16)]);
    assert_eq!(WallCollider::Left(6).into_coords(), vec![(0, 0, 6, 16)]);
    assert_eq!(WallCollider::Right(6).into_coords(), vec![(10, 0, 16, 16)]);
}

#[test]
fn corner_shapes() {
    assert_eq!(
        WallCollider::TopLeft(4, 6).into_coords(),
        vec![(0, 0, 16, 4), (0, 4, 6, 16)]
    );
    assert_eq!(
        WallCollider::TopRight(4, 6).into_coords(),
        vec![(0, 0, 16, 4), (10, 4, 16, 16)]
    );
    assert_eq!(
        WallCollider::BottomLeft(4, 6).into_coords(),
        vec![(0, 12, 16, 16), (0, 0, 6, 12)]
    );
    assert_eq!(
        WallCollider::BottomRight(4, 6).into_coords(),
        vec![(0, 12, 16, 16), (10, 0, 16, 12)]
    );
}

#[test]
fn custom_shape_is_kept() {
    let rects = vec![(1, 2, 3, 4), (5, 6, 7, 8)];
    assert_eq!(WallCollider::Custom(rects.clone()).into_coords(), rects);
    assert_eq!(WallCollider::Custom(vec![]).into_coords(), vec![]);
}

#[test]
fn full_and_empty_bands() {
    assert_eq!(WallCollider::Bottom(16).into_coords(), vec![(0, 0, 16, 16)]);
    assert_eq!(WallCollider::Right(0).into_coords(), vec![(16, 0, 16, 16)]);
}

#[test]
fn fitting_in_the_tile() {
    assert!(WallCollider::Bottom(16).fits_tile());
    assert!(!WallCollider::Bottom(17).fits_tile());
    assert!(!WallCollider::Right(20).fits_tile());
    assert!(!WallCollider::TopRight(0, 17).fits_tile());
    assert!(!WallCollider::BottomLeft(17, 0).fits_tile());
    assert!(!WallCollider::BottomRight(4, 17).fits_tile());
    assert!(WallCollider::Top(100).fits_tile());
    assert!(WallCollider::Custom(vec![(0, 0, 99, 99)]).fits_tile());
}

#[test]
fn collider_boxes() {
    assert_eq!(
        WallCollider::Top(4).into_collider_boxes(),
        vec![TileBox {
            width: 16,
            height: 4,
            center_x2: 0,
            center_y2: 12
        }]
    );
    assert_eq!(
        WallCollider::BottomRight(4, 6).into_collider_boxes(),
        vec![
            TileBox {
                width: 16,
                height: 4,
                center_x2: 0,
                center_y2: -12
            },
            TileBox {
                width: 6,
                height: 12,
                center_x2: 10,
                center_y2: 4
            },
        ]
    );
}

#[test]
fn reversed_corners_give_the_same_box() {
    assert_eq!(
        TileBox::from_rect((16, 16, 0, 0)),
        TileBox::from_rect((0, 0, 16, 16))
    );
    assert_eq!(TileBox::from_rect((0, 0, 16, 16)), TileBox::full_tile());
    assert_eq!(
        TileBox::from_rect((4, 2, 8, 10)),
        TileBox {
            width: 4,
            height: 8,
            center_x2: -4,
            center_y2: 4
        }
    );
}
