//! Cards, their four-character encoding, and the choice of the contested
//! powers for each kind of attack.
use vstd::prelude::*;

use crate::odds::{loss_count, probability_of_win, win_count, WinOdds};

verus! {

/// How a card attacks.
#[derive(Clone, Copy, Debug, PartialEq, Eq, Structural)]
pub enum AttackType {
    Physical,
    Magic,
    Flexible,
    Assault,
}

/// The attack type that a code character stands for, in either case.
pub open spec fn attack_type_of(c: char) -> Option<AttackType> {
    if c == 'p' || c == 'P' {
        Some(AttackType::Physical)
    } else if c == 'm' || c == 'M' {
        Some(AttackType::Magic)
    } else if c == 'x' || c == 'X' {
        Some(AttackType::Flexible)
    } else if c == 'a' || c == 'A' {
        Some(AttackType::Assault)
    } else {
        None
    }
}

/// The value of a hexadecimal digit, in either case.
pub open spec fn hex_value(c: char) -> Option<u8> {
    let n = c as u32;
    if 48 <= n <= 57 {
        Some((n - 48) as u8)
    } else if 97 <= n <= 102 {
        Some((n - 87) as u8)
    } else if 65 <= n <= 70 {
        Some((n - 55) as u8)
    } else {
        None
    }
}

impl AttackType {
    /// Reads an attack type from its code character.
    pub fn from_char(c: char) -> (r: Option<AttackType>)
        ensures
            r == attack_type_of(c),
    {
        if c == 'p' || c == 'P' {
            Some(AttackType::Physical)
        } else if c == 'm' || c == 'M' {
            Some(AttackType::Magic)
        } else if c == 'x' || c == 'X' {
            Some(AttackType::Flexible)
        } else if c == 'a' || c == 'A' {
            Some(AttackType::Assault)
        } else {
            None
        }
    }

    /// Reads an attack type from a text of exactly one code character.
    pub fn from_str(s: &str) -> (r: Result<AttackType, ()>)
        ensures
            r is Ok <==> s@.len() == 1 && attack_type_of(s@[0]) is Some,
            r is Ok ==> r == Ok::<AttackType, ()>(attack_type_of(s@[0])->Some_0),
    {
        if s.unicode_len() != 1 {
            return Err(());
        }
        match AttackType::from_char(s.get_char(0)) {
            Some(t) => Ok(t),
            None => Err(()),
        }
    }
}

/// Reads one hexadecimal digit.
fn hex_digit(c: char) -> (r: Option<u8>)
    ensures
        r == hex_value(c),
{
    let n: u32 = c as u32;
    if 48 <= n && n <= 57 {
        Some((n - 48) as u8)
    } else if 97 <= n && n <= 102 {
        Some((n - 87) as u8)
    } else if 65 <= n && n <= 70 {
        Some((n - 55) as u8)
    } else {
        None
    }
}

/// A card: an attack value, an attack type and two defenses, each value
/// taken from one hexadecimal digit.
#[derive(Clone, Copy, Debug, PartialEq, Eq, Structural)]
pub struct Card {
    pub attack_value: u8,
    pub attack_type: AttackType,
    pub physical_defense: u8,
    pub magical_defense: u8,
}

/// The card that a text encodes: four characters, a hexadecimal attack
/// value, an attack type code, then the physical and the magical defense as
/// hexadecimal digits. Any other text encodes no card.
pub open spec fn card_of(s: Seq<char>) -> Option<Card> {
    if s.len() == 4 && hex_value(s[0]) is Some && attack_type_of(s[1]) is Some
        && hex_value(s[2]) is Some && hex_value(s[3]) is Some {
        Some(
            Card {
                attack_value: hex_value(s[0])->Some_0,
                attack_type: attack_type_of(s[1])->Some_0,
                physical_defense: hex_value(s[2])->Some_0,
                magical_defense: hex_value(s[3])->Some_0,
            },
        )
    } else {
        None
    }
}

/// The largest of three values.
pub open spec fn max3(x: u8, y: u8, z: u8) -> u8 {
    if x >= y && x >= z {
        x
    } else if y >= z {
        y
    } else {
        z
    }
}

/// The smallest of three values.
pub open spec fn min3(x: u8, y: u8, z: u8) -> u8 {
    if x <= y && x <= z {
        x
    } else if y <= z {
        y
    } else {
        z
    }
}

impl Card {
    /// Every value fits in one hexadecimal digit.
    pub open spec fn wf(&self) -> bool {
        self.attack_value <= 15 && self.physical_defense <= 15 && self.magical_defense <= 15
    }

    /// The attack power that this card brings to an exchange.
    pub open spec fn attack_power(&self) -> u8 {
        match self.attack_type {
            AttackType::Assault => max3(self.attack_value, self.physical_defense, self.magical_defense),
            _ => self.attack_value,
        }
    }

    /// The defense power that `other` opposes to this card.
    pub open spec fn defense_power(&self, other: Card) -> u8 {
        match self.attack_type {
            AttackType::Physical => other.physical_defense,
            AttackType::Magic => other.magical_defense,
            AttackType::Flexible => if other.physical_defense > other.magical_defense {
                other.magical_defense
            } else {
                other.physical_defense
            },
            AttackType::Assault => min3(other.attack_value, other.physical_defense, other.magical_defense),
        }
    }

    /// Reads a card from its four-character encoding; `None` where the text
    /// is not one.
    pub fn new(card_in: &str) -> (r: Option<Card>)
        ensures
            r == card_of(card_in@),
            r matches Some(c) ==> c.wf(),
    {
        if card_in.unicode_len() != 4 {
            return None;
        }
        let attack_value = match hex_digit(card_in.get_char(0)) {
            Some(v) => v,
            None => return None,
        };
        let attack_type = match AttackType::from_char(card_in.get_char(1)) {
            Some(t) => t,
            None => return None,
        };
        let physical_defense = match hex_digit(card_in.get_char(2)) {
            Some(v) => v,
            None => return None,
        };
        let magical_defense = match hex_digit(card_in.get_char(3)) {
            Some(v) => v,
            None => return None,
        };
        Some(Card { attack_value, attack_type, physical_defense, magical_defense })
    }

    /// The attack power and the defense power that meet when this card
    /// attacks `other`.
    pub fn contest_powers(&self, other: &Card) -> (r: (u8, u8))
        ensures
            r == (self.attack_power(), self.defense_power(*other)),
    {
        match self.attack_type {
            AttackType::Physical => (self.attack_value, other.physical_defense),
            AttackType::Magic => (self.attack_value, other.magical_defense),
            AttackType::Flexible => {
                let defense = if other.physical_defense > other.magical_defense {
                    other.magical_defense
                } else {
                    other.physical_defense
                };
                (self.attack_value, defense)
            },
            AttackType::Assault => {
                let attack = largest_of(self.attack_value, self.physical_defense, self.magical_defense);
                let defense = smallest_of(other.attack_value, other.physical_defense, other.magical_defense);
                (attack, defense)
            },
        }
    }

    /// The odds that this card wins an exchange against `other`.
    pub fn battle_calc(&self, other: &Card) -> (r: WinOdds)
        requires
            self.wf(),
            other.wf(),
        ensures
            r.wins == win_count(self.attack_power() as int, self.defense_power(*other) as int),
            r.losses == loss_count(self.attack_power() as int, self.defense_power(*other) as int),
            r.wins + r.losses > 0,
    {
        let (attack_power, defense_power) = self.contest_powers(other);
        probability_of_win(attack_power, defense_power)
    }
}

/// The largest of three values.
fn largest_of(x: u8, y: u8, z: u8) -> (r: u8)
    ensures
        r == max3(x, y, z),
        r >= x && r >= y && r >= z,
        r == x || r == y || r == z,
{
    if x >= y && x >= z {
        x
    } else if y >= z {
        y
    } else {
        z
    }
}

/// The smallest of three values.
fn smallest_of(x: u8, y: u8, z: u8) -> (r: u8)
    ensures
        r == min3(x, y, z),
        r <= x && r <= y && r <= z,
        r == x || r == y || r == z,
{
    if x <= y && x <= z {
        x
    } else if y <= z {
        y
    } else {
        z
    }
}

} // verus!
