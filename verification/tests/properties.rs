use tarot::errors::{PipValueError, TarotValueError, TrumpValueError};
use tarot::{Color, ColorCard, Face, Theme, TrumpCard};

fn all_colors() -> [Color; 4] {
    [Color::Clubs, Color::Spades, Color::Diamonds, Color::Hearts]
}

fn all_faces() -> [Face; 4] {
    [Face::King, Face::Queen, Face::Knight, Face::Jack]
}

#[test]
fn pip_constructor_accepts_every_pip_value() {
    for color in all_colors() {
        for n in 1..=10u8 {
            let card = ColorCard::new_pip(n, color).unwrap();
            assert!(card.is_pip());
            assert!(!card.is_face());
        }
    }
}

#[test]
fn pip_constructor_rejects_every_other_value() {
    let err = ColorCard::new_pip(0, Color::Clubs).unwrap_err();
    assert_eq!(err.value(), 0);
    for n in 11..=255u8 {
        let err = ColorCard::new_pip(n, Color::Diamonds).unwrap_err();
        assert_eq!(err.value(), n);
    }
}

#[test]
fn trump_constructor_accepts_every_trump_value() {
    for n in 1..=21u8 {
        let card = TrumpCard::new_trump_card(n).unwrap();
        assert_eq!(card.number(), Some(n));
    }
}

#[test]
fn trump_constructor_rejects_every_other_value() {
    let err = TrumpCard::new_trump_card(0).unwrap_err();
    assert_eq!(err.value(), 0);
    for n in 22..=255u8 {
        let err = TrumpCard::new_trump_card(n).unwrap_err();
        assert_eq!(err.value(), n);
    }
}

#[test]
fn oudlers_are_exactly_fool_one_and_twenty_one() {
    assert!(TrumpCard::Fool.is_oudler());
    assert!(TrumpCard::Number(1).is_oudler());
    assert!(TrumpCard::Number(21).is_oudler());
    for n in 2..=20u8 {
        assert!(!TrumpCard::Number(n).is_oudler());
    }
}

#[test]
fn half_points_of_every_card() {
    for color in all_colors() {
        assert_eq!(ColorCard::new_face(Face::King, color).half_points(), 9);
        assert_eq!(ColorCard::new_face(Face::Queen, color).half_points(), 7);
        assert_eq!(ColorCard::new_face(Face::Knight, color).half_points(), 5);
        assert_eq!(ColorCard::new_face(Face::Jack, color).half_points(), 3);
        for n in 1..=10u8 {
            assert_eq!(ColorCard::new_pip(n, color).unwrap().half_points(), 1);
        }
    }
    assert_eq!(TrumpCard::Fool.half_points(), 9);
    assert_eq!(TrumpCard::little_one().half_points(), 9);
    assert_eq!(TrumpCard::the_world().half_points(), 9);
    for n in 2..=20u8 {
        assert_eq!(TrumpCard::new_trump_card(n).unwrap().half_points(), 1);
    }
}

#[test]
fn concrete_rank_scenario() {
    let hearts = Theme::Color(Color::Hearts);
    assert_eq!(ColorCard::new_face(Face::King, Color::Hearts).rank(hearts), 14);
    assert_eq!(TrumpCard::little_one().rank(hearts), 15);
    assert_eq!(TrumpCard::the_world().rank(hearts), 35);
    assert_eq!(TrumpCard::the_world().rank(Theme::Trump), 21);
    assert_eq!(ColorCard::new_face(Face::King, Color::Spades).rank(hearts), 0);
}

#[test]
fn ranks_under_trump_theme() {
    for color in all_colors() {
        for face in all_faces() {
            assert_eq!(ColorCard::new_face(face, color).rank(Theme::Trump), 0);
        }
        for n in 1..=10u8 {
            assert_eq!(ColorCard::new_pip(n, color).unwrap().rank(Theme::Trump), 0);
        }
    }
    assert_eq!(TrumpCard::Fool.rank(Theme::Trump), 0);
    for n in 1..=21u8 {
        assert_eq!(TrumpCard::new_trump_card(n).unwrap().rank(Theme::Trump), n);
    }
}

#[test]
fn ranks_under_color_theme() {
    let theme = Theme::Color(Color::Spades);
    assert_eq!(ColorCard::new_pip(7, Color::Spades).unwrap().rank(theme), 7);
    assert_eq!(ColorCard::new_face(Face::Jack, Color::Spades).rank(theme), 11);
    assert_eq!(ColorCard::new_pip(7, Color::Hearts).unwrap().rank(theme), 0);
    assert_eq!(ColorCard::new_face(Face::Jack, Color::Clubs).rank(theme), 0);
    assert_eq!(TrumpCard::Fool.rank(theme), 0);
    for n in 1..=21u8 {
        assert_eq!(TrumpCard::new_trump_card(n).unwrap().rank(theme), 14 + n);
    }
}

#[test]
fn accessors_round_trip() {
    for color in all_colors() {
        for face in all_faces() {
            let card = ColorCard::new_face(face, color);
            assert_eq!(card.color(), color);
            assert_eq!(card.face(), Some(face));
            assert_eq!(card.face_checked(), face);
            assert!(card.is_face());
        }
        for n in 1..=10u8 {
            let card = ColorCard::new_pip(n, color).unwrap();
            assert_eq!(card.color(), color);
            assert_eq!(card.number(), n);
            assert_eq!(card.face(), None);
        }
    }
    for n in 1..=21u8 {
        let card = TrumpCard::new_trump_card(n).unwrap();
        assert_eq!(card.number(), Some(n));
    }
    assert_eq!(TrumpCard::Fool.number(), None);
}

#[test]
fn face_numbers_are_fixed_ordinals() {
    let color = Color::Diamonds;
    assert_eq!(ColorCard::new_face(Face::King, color).number(), 14);
    assert_eq!(ColorCard::new_face(Face::Queen, color).number(), 13);
    assert_eq!(ColorCard::new_face(Face::Knight, color).number(), 12);
    assert_eq!(ColorCard::new_face(Face::Jack, color).number(), 11);
}

#[test]
fn theme_accessors() {
    let trump = Theme::Trump;
    assert!(trump.is_trump());
    assert!(!trump.is_color());
    assert_eq!(trump.color(), None);

    let hearts = Theme::Color(Color::Hearts);
    assert!(hearts.is_color());
    assert!(!hearts.is_trump());
    assert_eq!(hearts.color(), Some(Color::Hearts));
    assert_eq!(hearts.color_checked(), Color::Hearts);
}

#[test]
fn error_constructors_carry_the_value() {
    assert_eq!(TarotValueError::new(5).value(), 5);
    assert_eq!(PipValueError::new(32).value(), 32);
    assert_eq!(TrumpValueError::new(23).value(), 23);
}
