use plateformer::color::GameColor;
use plateformer::entities::{is_collected, Droplet, ObjectType};
use plateformer::palette::Rgb;
use plateformer::tint::Tint;

#[test]
fn parse_every_color() {
    assert_eq!(GameColor::from_str("White"), Ok(GameColor::White));
    assert_eq!(GameColor::from_str("Grey"), Ok(GameColor::Grey));
    assert_eq!(GameColor::from_str("Green"), Ok(GameColor::Green));
    assert_eq!(GameColor::from_str("Brown"), Ok(GameColor::Brown));
    assert_eq!(GameColor::from_str("Orange"), Ok(GameColor::Orange));
    assert_eq!("Green".parse::<GameColor>(), Ok(GameColor::Green));
}

#[test]
fn parse_color_errors() {
    assert_eq!(
        GameColor::from_str("Red"),
        Err("Cannot parse Red as GameColor.".to_string())
    );
    assert_eq!(
        GameColor::from_str("white"),
        Err("Cannot parse white as GameColor.".to_string())
    );
    assert_eq!(
        GameColor::from_str(""),
        Err("Cannot parse  as GameColor.".to_string())
    );
}

#[test]
fn shades() {
    assert_eq!(GameColor::White.color(), Rgb::new(210, 201, 165));
    assert_eq!(GameColor::Grey.color(), Rgb::new(86, 84, 110));
    assert_eq!(GameColor::Green.color(), Rgb::new(102, 132, 95));
    assert_eq!(GameColor::Brown.color(), Rgb::new(138, 88, 101));
    assert_eq!(GameColor::Orange.color(), Rgb::new(188, 133, 99));
}

#[test]
fn debug_cycle() {
    assert_eq!(GameColor::White.next_debug_color(), GameColor::Brown);
    assert_eq!(GameColor::Brown.next_debug_color(), GameColor::Green);
    assert_eq!(GameColor::Green.next_debug_color(), GameColor::Grey);
    assert_eq!(GameColor::Grey.next_debug_color(), GameColor::White);
    assert_eq!(GameColor::Orange.next_debug_color(), GameColor::White);
}

#[test]
fn tint_from_colors_and_options() {
    let t = Tint::from_color(GameColor::Green);
    assert_eq!(t.get_colors(), vec![GameColor::Green]);
    assert_eq!(Tint::from(GameColor::Brown).get_colors(), vec![GameColor::Brown]);
    assert!(Tint::from(None::<GameColor>).get_colors().is_empty());
    assert_eq!(
        Tint::from(Some(GameColor::Grey)).get_colors(),
        vec![GameColor::Grey]
    );
    let many = Tint::from(vec![
        GameColor::Orange,
        GameColor::White,
        GameColor::Orange,
        GameColor::Green,
    ]);
    assert_eq!(
        many.get_colors(),
        vec![GameColor::White, GameColor::Green, GameColor::Orange]
    );
    assert!(Tint::from(Vec::<GameColor>::new()).get_colors().is_empty());
}

#[test]
fn tint_from_tags() {
    let tags = vec![
        "Brown".to_string(),
        "Solid".to_string(),
        "Grey".to_string(),
        "Brown".to_string(),
    ];
    assert_eq!(
        Tint::from_color_names(&tags).get_colors(),
        vec![GameColor::Grey, GameColor::Brown]
    );
    assert!(Tint::from_color_names(&vec![]).get_colors().is_empty());
}

#[test]
fn tint_from_fields() {
    let values = vec![
        Some("Orange".to_string()),
        None,
        Some("Nope".to_string()),
        Some("White".to_string()),
    ];
    assert_eq!(
        Tint::from_colors_field(&values).get_colors(),
        vec![GameColor::White, GameColor::Orange]
    );
    assert_eq!(
        Tint::from_color_field(&Some("Green".to_string())).get_colors(),
        vec![GameColor::Green]
    );
    assert!(Tint::from_color_field(&Some("green".to_string()))
        .get_colors()
        .is_empty());
    assert!(Tint::from_color_field(&None).get_colors().is_empty());
}

#[test]
fn tint_membership_and_sharing() {
    let a = Tint::from(vec![GameColor::White, GameColor::Green]);
    let b = Tint::from(vec![GameColor::Green, GameColor::Brown]);
    let c = Tint::from(vec![GameColor::Grey]);
    assert!(a.has_color(GameColor::White));
    assert!(!a.has_color(GameColor::Brown));
    assert!(a.share_color_with(&b));
    assert!(b.share_color_with(&a));
    assert!(!a.share_color_with(&c));
    assert!(!c.share_color_with(&a));
    assert!(!Tint::empty().share_color_with(&Tint::empty()));
    assert!(!Tint::empty().share_color_with(&a));
}

#[test]
fn insert_adds_a_color() {
    let mut t = Tint::empty();
    t.insert(GameColor::Orange);
    t.insert(GameColor::Grey);
    t.insert(GameColor::Orange);
    assert_eq!(t.get_colors(), vec![GameColor::Grey, GameColor::Orange]);
}

#[test]
fn main_color_and_cycle() {
    assert_eq!(Tint::empty().main_color(), GameColor::White);
    assert_eq!(
        Tint::from(vec![GameColor::Orange, GameColor::Green]).main_color(),
        GameColor::Green
    );
    assert_eq!(
        Tint::from(GameColor::Grey).next_debug_tint().get_colors(),
        vec![GameColor::White]
    );
    assert_eq!(
        Tint::empty().next_debug_tint().get_colors(),
        vec![GameColor::Brown]
    );
}

#[test]
fn object_types() {
    assert_eq!(ObjectType::from_str("Book"), Ok(ObjectType::Book));
    assert_eq!(ObjectType::from_str("Feather"), Ok(ObjectType::Feather));
    assert_eq!("Book".parse::<ObjectType>(), Ok(ObjectType::Book));
    assert_eq!(
        ObjectType::from_str("Scroll"),
        Err("Cannot parse Scroll as ObjectType".to_string())
    );
}

#[test]
fn droplets_and_pickups() {
    assert_eq!(
        Droplet::from_color_name("Brown"),
        Ok(Droplet(GameColor::Brown))
    );
    assert_eq!(
        Droplet::from_color_name("Pink"),
        Err("Cannot parse Pink as GameColor.".to_string())
    );
    let player = Droplet(GameColor::Green).pickup_tint();
    assert_eq!(player.get_colors(), vec![GameColor::Green]);
    let book = Tint::from(vec![GameColor::Green, GameColor::Orange]);
    let feather = Tint::from(vec![GameColor::Grey]);
    assert!(is_collected(&book, &player));
    assert!(!is_collected(&feather, &player));
}
