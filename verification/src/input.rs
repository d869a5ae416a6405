//! Keys and modifiers, as far as the browser tells them apart.

use vstd::prelude::*;

verus! {

/// A key that the browser knows.
#[derive(Clone, Copy, Debug, PartialEq, Eq, Structural)]
pub enum Key {
    Return,
    KeypadEnter,
    Escape,
    BackSpace,
    Left,
    Right,
    Up,
    Down,
    H,
    J,
    K,
    L,
    Other,
}

/// The modifiers that were held with a key or a button.
#[derive(Clone, Copy, Debug, PartialEq, Eq, Structural)]
pub struct Modifiers {
    pub control: bool,
    pub shift: bool,
    pub alt: bool,
    pub meta: bool,
}

impl Modifiers {
    /// Whether any modifier was held.
    pub open spec fn is_any(self) -> bool {
        self.control || self.shift || self.alt || self.meta
    }

    /// Whether any modifier was held.
    pub fn any(&self) -> (result: bool)
        ensures
            result == self.is_any(),
    {
        self.control || self.shift || self.alt || self.meta
    }
}

/// A direction in which the focus moves.
#[derive(Clone, Copy, Debug, PartialEq, Eq, Structural)]
pub enum Direction {
    Left,
    Down,
    Up,
    Right,
}

/// The direction that a letter of the home row moves the focus in.
pub open spec fn home_row_direction(key: Key) -> Option<Direction> {
    match key {
        Key::H => Some(Direction::Left),
        Key::J => Some(Direction::Down),
        Key::K => Some(Direction::Up),
        Key::L => Some(Direction::Right),
        _ => None,
    }
}

/// The direction that a letter of the home row moves the focus in.
pub fn vim_focus_direction(key: Key) -> (result: Option<Direction>)
    ensures
        result == home_row_direction(key),
{
    match key {
        Key::H => Some(Direction::Left),
        Key::J => Some(Direction::Down),
        Key::K => Some(Direction::Up),
        Key::L => Some(Direction::Right),
        _ => None,
    }
}

/// Whether a handler keeps a key to itself or lets it go on.
#[derive(Clone, Copy, Debug, PartialEq, Eq, Structural)]
pub enum Propagation {
    Stop,
    Proceed,
}

/// The number that follows a counter of requests; the last number follows itself.
pub open spec fn next_number(number: u64) -> u64 {
    if number == u64::MAX {
        number
    } else {
        (number + 1) as u64
    }
}

/// The number that follows a counter of requests; the last number follows itself.
pub fn following_number(number: u64) -> (result: u64)
    ensures
        result == next_number(number),
{
    if number == u64::MAX {
        number
    } else {
        number + 1
    }
}

/// A counter that moved on matches none of the numbers it gave out before, as long as the numbers
/// last.
pub proof fn law_numbers_are_not_reused(counter: u64, earlier: u64)
    requires
        earlier <= counter,
        counter < u64::MAX,
    ensures
        next_number(counter) != earlier,
        counter <= next_number(counter),
{
}

/// Each number is one more than the one before it, up to the last.
pub proof fn law_numbers_count_up(number: u64)
    ensures
        number < u64::MAX ==> next_number(number) == number + 1,
        next_number(u64::MAX) == u64::MAX,
{
}

/// The four keys of the home row lead in the four directions, each in its own, and no other key does.
pub proof fn law_home_row_leads_in_four_directions(key: Key)
    ensures
        home_row_direction(key) is Some <==> key is H || key is J || key is K || key is L,
        home_row_direction(Key::H) == Some(Direction::Left),
        home_row_direction(Key::L) == Some(Direction::Right),
        home_row_direction(Key::J) == Some(Direction::Down),
        home_row_direction(Key::K) == Some(Direction::Up),
{
}

/// A modifier is held where at least one of the four is.
pub proof fn law_any_modifier_counts(modifiers: Modifiers)
    ensures
        !modifiers.is_any() <==> !modifiers.control && !modifiers.shift && !modifiers.alt
            && !modifiers.meta,
{
}

} // verus!
