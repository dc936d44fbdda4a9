//! Model of the cards of the French Tarot game.
//!
//! Two kinds of card exist: `ColorCard`, a suited card bearing a face or a
//! pip number, and `TrumpCard`, a numbered trump or the Fool. Both answer
//! two questions: how many points the card scores (`half_points`, counted
//! in half points so that scores stay integral), and how it ranks within a
//! trick under a given `Theme` (`rank`), which the game engine uses to pick
//! the trick's winner. `Face` and `Color` represent face ranks and suit
//! colors respectively.

use vstd::prelude::*;

pub mod errors;

use crate::errors::{PipValueError, TrumpValueError};

verus! {

/// The four suit colors.
#[derive(PartialEq, Eq, Structural, Clone, Copy, Debug)]
pub enum Color {
    Clubs,
    Spades,
    Diamonds,
    Hearts,
}

/// The four face ranks.
#[derive(PartialEq, Eq, Structural, Clone, Copy, Debug)]
pub enum Face {
    King,
    Queen,
    Knight,
    Jack,
}

impl Face {
    /// The fixed ordinal of a face rank: jacks sit just above the pips,
    /// kings highest.
    pub open spec fn ordinal(self) -> u8 {
        match self {
            Face::King => 14,
            Face::Queen => 13,
            Face::Knight => 12,
            Face::Jack => 11,
        }
    }

    /// The face's point score counted in half points: a king is worth
    /// 4.5 points, so 9 half points.
    pub open spec fn half_points(self) -> u8 {
        match self {
            Face::King => 9,
            Face::Queen => 7,
            Face::Knight => 5,
            Face::Jack => 3,
        }
    }
}

/// The theme of a trick: either a trump trick, or a trick led in a suit.
#[derive(Clone, Copy, Debug)]
pub enum Theme {
    Trump,
    Color(Color),
}

impl Theme {
    /// The suit the theme wraps, if it is a color theme.
    pub open spec fn spec_color(&self) -> Option<Color> {
        match *self {
            Theme::Trump => None,
            Theme::Color(c) => Some(c),
        }
    }

    /// Returns whether the theme is a color theme.
    pub fn is_color(&self) -> (r: bool)
        ensures
            r == (*self is Color),
    {
        matches!(self, Theme::Color(_))
    }

    /// Returns whether the theme is the trump theme. A theme is always
    /// exactly one of trump and color.
    pub fn is_trump(&self) -> (r: bool)
        ensures
            r == (*self is Trump),
            r == !(*self is Color),
    {
        !self.is_color()
    }

    /// Returns the color of the theme, wrapped in an option.
    pub fn color(&self) -> (r: Option<Color>)
        ensures
            r == self.spec_color(),
    {
        match self {
            Theme::Trump => Option::None,
            Theme::Color(c) => Option::Some(*c),
        }
    }

    /// Returns the color of the theme. Asking a trump theme for a color is
    /// a caller error, so the theme is required to be a color theme.
    pub fn color_checked(&self) -> (r: Color)
        requires
            *self is Color,
        ensures
            Some(r) == self.spec_color(),
    {
        match self {
            Theme::Trump => vstd::pervasive::unreached(),
            Theme::Color(c) => *c,
        }
    }
}

/// A theme is exactly one of trump and color, and wraps a suit exactly
/// when it is a color theme.
pub proof fn lemma_theme_exactly_one(theme: Theme)
    ensures
        (theme is Trump) != (theme is Color),
        (theme is Color) == (theme.spec_color() is Some),
{
}

/// A suited card, i.e. not a trump card: a face card or a pip card of one
/// of the four suits.
#[derive(Debug)]
pub struct ColorCard {
    color: Color,
    face: Option<Face>,
    number: u8,
}

impl ColorCard {
    /// The card's suit.
    pub closed spec fn spec_color(&self) -> Color {
        self.color
    }

    /// The card's face, if it is a face card.
    pub closed spec fn spec_face(&self) -> Option<Face> {
        self.face
    }

    /// The card's number: the face's ordinal (11..=14) for a face card,
    /// the pip value (1..=10) for a pip card.
    pub closed spec fn spec_number(&self) -> u8 {
        self.number
    }

    /// A well-formed suited card: a face card carries its face's fixed
    /// ordinal, a pip card a number in 1..=10. Both constructors establish
    /// this, and no card is mutated after construction.
    pub open spec fn wf(&self) -> bool {
        match self.spec_face() {
            Some(f) => self.spec_number() == f.ordinal(),
            None => 1 <= self.spec_number() <= 10,
        }
    }

    /// The face card built from a face and a suit.
    pub closed spec fn face_card(face: Face, color: Color) -> ColorCard {
        ColorCard { color, face: Some(face), number: face.ordinal() }
    }

    /// The pip card built from a pip value and a suit.
    pub closed spec fn pip_card(number: u8, color: Color) -> ColorCard {
        ColorCard { color, face: None, number }
    }

    /// Creates a new face card.
    pub fn new_face(face: Face, color: Color) -> (r: Self)
        ensures
            r == ColorCard::face_card(face, color),
            r.wf(),
    {
        ColorCard {
            color,
            face: Option::Some(face),
            number: match face {
                Face::King => 14,
                Face::Queen => 13,
                Face::Knight => 12,
                Face::Jack => 11,
            },
        }
    }

    /// Creates a new pip card. Succeeds exactly on pip values 1..=10;
    /// any other value represents no pip card and is returned inside the
    /// error.
    pub fn new_pip(number: u8, color: Color) -> (r: Result<Self, PipValueError>)
        ensures
            1 <= number <= 10 ==> (r matches Ok(card) && card == ColorCard::pip_card(
                number,
                color,
            ) && card.wf()),
            !(1 <= number <= 10) ==> (r matches Err(e) && e.spec_value() == number),
    {
        if number > 0 && number < 11 {
            Ok(ColorCard { color, number, face: None })
        } else {
            Err(PipValueError::new(number))
        }
    }

    /// Returns the color of the card.
    pub fn color(&self) -> (r: Color)
        ensures
            r == self.spec_color(),
    {
        self.color
    }

    /// Returns the current card's number.
    pub fn number(&self) -> (r: u8)
        ensures
            r == self.spec_number(),
    {
        self.number
    }

    /// Returns whether this card is a face card.
    pub fn is_face(&self) -> (r: bool)
        ensures
            r == (self.spec_face() is Some),
    {
        self.face.is_some()
    }

    /// Returns whether this card is a pip card. A card is exactly one of
    /// face and pip.
    pub fn is_pip(&self) -> (r: bool)
        ensures
            r == (self.spec_face() is None),
            r == !(self.spec_face() is Some),
    {
        !self.is_face()
    }

    /// Returns the current card's optional face.
    pub fn face(&self) -> (r: Option<Face>)
        ensures
            r == self.spec_face(),
    {
        self.face
    }

    /// Returns the current card's face. Calling this on a pip card is a
    /// caller error, so the card is required to be a face card.
    pub fn face_checked(&self) -> (r: Face)
        requires
            self.spec_face() is Some,
        ensures
            Some(r) == self.spec_face(),
    {
        self.face.unwrap()
    }

    /// The card's point score counted in half points: a king is worth 4.5
    /// points (9), a queen 3.5 (7), a knight 2.5 (5), a jack 1.5 (3), and
    /// any pip card 0.5 (1).
    pub open spec fn spec_half_points(&self) -> u8 {
        match self.spec_face() {
            Some(f) => f.half_points(),
            None => 1,
        }
    }

    /// Returns the card's point score counted in half points, so that
    /// scores stay integral despite the half-point convention of French
    /// Tarot.
    pub fn half_points(&self) -> (r: u8)
        ensures
            r == self.spec_half_points(),
    {
        match self.face {
            Some(Face::King) => 9,
            Some(Face::Queen) => 7,
            Some(Face::Knight) => 5,
            Some(Face::Jack) => 3,
            None => 1,
        }
    }

    /// The card's rank under a theme: its own number when the trick is led
    /// in its suit, and 0 otherwise — a suited card never takes part in a
    /// trump trick or in another suit's trick.
    pub open spec fn spec_rank(&self, theme: Theme) -> u8 {
        match theme {
            Theme::Trump => 0,
            Theme::Color(c) => if self.spec_color() == c {
                self.spec_number()
            } else {
                0
            },
        }
    }

    /// Returns the rank of the card under the given theme.
    pub fn rank(&self, theme: Theme) -> (r: u8)
        ensures
            r == self.spec_rank(theme),
    {
        if theme.is_color() && self.color == theme.color_checked() {
            self.number
        } else {
            0
        }
    }
}

/// A trump card: either one of the 21 numbered trumps, or the Fool.
#[derive(Debug)]
pub enum TrumpCard {
    Number(u8),
    Fool,
}

impl TrumpCard {
    /// The card's number, if it is a numbered trump.
    pub open spec fn spec_number(&self) -> Option<u8> {
        match *self {
            TrumpCard::Number(n) => Some(n),
            TrumpCard::Fool => None,
        }
    }

    /// A well-formed trump card: a numbered trump carries a number in
    /// 1..=21. The validated constructor establishes this.
    pub open spec fn wf(&self) -> bool {
        *self matches TrumpCard::Number(n) ==> 1 <= n <= 21
    }

    /// True exactly for the three oudlers: the Fool, the 1 and the 21.
    pub open spec fn spec_is_oudler(&self) -> bool {
        match *self {
            TrumpCard::Fool => true,
            TrumpCard::Number(n) => n == 1 || n == 21,
        }
    }

    /// Creates a new numbered trump card. Succeeds exactly on values
    /// 1..=21; any other value represents no trump card and is returned
    /// inside the error.
    pub fn new_trump_card(value: u8) -> (r: Result<Self, TrumpValueError>)
        ensures
            1 <= value <= 21 ==> (r matches Ok(card) && card == TrumpCard::Number(value)
                && card.wf()),
            !(1 <= value <= 21) ==> (r matches Err(e) && e.spec_value() == value),
    {
        if value > 0 && value < 22 {
            Ok(TrumpCard::Number(value))
        } else {
            Err(TrumpValueError::new(value))
        }
    }

    /// Returns the oudler 1 of trumps, also called the "little one".
    pub fn little_one() -> (r: Self)
        ensures
            r == TrumpCard::Number(1u8),
            r.wf(),
    {
        TrumpCard::Number(1)
    }

    /// Returns the oudler 21 of trumps, also called "the world".
    pub fn the_world() -> (r: Self)
        ensures
            r == TrumpCard::Number(21u8),
            r.wf(),
    {
        TrumpCard::Number(21)
    }

    /// Returns whether the current trump card is the Fool.
    pub fn is_fool(&self) -> (r: bool)
        ensures
            r == (*self is Fool),
    {
        matches!(self, Self::Fool)
    }

    /// Returns whether the current trump card is an oudler: the Fool, the
    /// 1 or the 21, and no other.
    pub fn is_oudler(&self) -> (r: bool)
        ensures
            r == self.spec_is_oudler(),
    {
        match self {
            TrumpCard::Fool => true,
            TrumpCard::Number(n) => *n == 1 || *n == 21,
        }
    }

    /// Returns the optional number of the trump card.
    pub fn number(&self) -> (r: Option<u8>)
        ensures
            r == self.spec_number(),
    {
        match self {
            TrumpCard::Number(n) => Option::Some(*n),
            _ => Option::None,
        }
    }

    /// The card's point score counted in half points: an oudler is worth
    /// 4.5 points (9), every other trump 0.5 (1).
    pub open spec fn spec_half_points(&self) -> u8 {
        if self.spec_is_oudler() {
            9
        } else {
            1
        }
    }

    /// Returns the card's point score counted in half points, so that
    /// scores stay integral despite the half-point convention of French
    /// Tarot.
    pub fn half_points(&self) -> (r: u8)
        ensures
            r == self.spec_half_points(),
    {
        if self.is_oudler() {
            9
        } else {
            1
        }
    }

    /// The card's rank under a theme. The Fool always ranks 0: it scores
    /// as an oudler but never wins a trick. A numbered trump ranks its own
    /// number in a trump trick, and 14 more than its number in a suit
    /// trick, so that every trump outranks every suited card.
    pub open spec fn spec_rank(&self, theme: Theme) -> int {
        match *self {
            TrumpCard::Fool => 0,
            TrumpCard::Number(n) => if theme is Color {
                14 + n
            } else {
                n as int
            },
        }
    }

    /// Returns the rank of the card under the given theme.
    pub fn rank(&self, theme: Theme) -> (r: u8)
        requires
            self.wf(),
        ensures
            r == self.spec_rank(theme),
    {
        match self {
            TrumpCard::Fool => 0,
            TrumpCard::Number(n) => {
                if theme.is_color() {
                    14 + *n
                } else {
                    *n
                }
            },
        }
    }
}

/// Round trip of a face card: building it from a face and a suit and
/// reading the accessors back gives exactly the constructing arguments.
pub proof fn lemma_face_card_round_trip(face: Face, color: Color)
    ensures
        ColorCard::face_card(face, color).spec_color() == color,
        ColorCard::face_card(face, color).spec_face() == Some(face),
        ColorCard::face_card(face, color).spec_number() == face.ordinal(),
        ColorCard::face_card(face, color).wf(),
{
}

/// Round trip of a pip card: building it from a pip value and a suit and
/// reading the accessors back gives exactly the constructing arguments,
/// and no face.
pub proof fn lemma_pip_card_round_trip(number: u8, color: Color)
    ensures
        ColorCard::pip_card(number, color).spec_color() == color,
        ColorCard::pip_card(number, color).spec_face() is None,
        ColorCard::pip_card(number, color).spec_number() == number,
{
}

/// Round trip of a trump card: a numbered trump reads back exactly its
/// constructing value, and the Fool has no number.
pub proof fn lemma_trump_card_round_trip(value: u8)
    ensures
        TrumpCard::Number(value).spec_number() == Some(value),
        TrumpCard::Fool.spec_number() is None,
{
}

/// In a suit trick, every numbered trump outranks every suited card:
/// suited ranks cap at 14 and a trump ranks 14 more than its number,
/// which is at least 1.
pub proof fn lemma_trump_outranks_suited(trump: TrumpCard, card: ColorCard, color: Color)
    requires
        trump.wf(),
        card.wf(),
        trump is Number,
    ensures
        trump.spec_rank(Theme::Color(color)) > card.spec_rank(Theme::Color(color)),
{
}

} // verus!
