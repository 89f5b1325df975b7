//! The three front buttons of the board share one ADC pin: each button pulls
//! the pin to its own voltage window, given here in millivolts.

use vstd::prelude::*;

verus! {

/// Lowest reading, in millivolts, of the left-most button.
pub const LEFT_BUTTON_LOW: u16 = 2680;
/// Highest reading, in millivolts, of the left-most button.
pub const LEFT_BUTTON_HIGH: u16 = 2720;
/// Lowest reading, in millivolts, of the middle button.
pub const MIDDLE_BUTTON_LOW: u16 = 2130;
/// Highest reading, in millivolts, of the middle button.
pub const MIDDLE_BUTTON_HIGH: u16 = 2170;
/// Lowest reading, in millivolts, of the right-most button.
pub const RIGHT_BUTTON_LOW: u16 = 705;
/// Highest reading, in millivolts, of the right-most button.
pub const RIGHT_BUTTON_HIGH: u16 = 745;

/// One of the three buttons.
#[derive(Clone, Copy, Debug, PartialEq, Eq, Structural)]
pub enum Button {
    Left,
    Middle,
    Right,
}

/// `mv` lies in the closed window `[low, high]`.
pub open spec fn within(low: u16, high: u16, mv: u16) -> bool {
    low <= mv <= high
}

/// The button whose window holds `mv`, if any.
pub open spec fn button_of(mv: u16) -> Option<Button> {
    if within(LEFT_BUTTON_LOW, LEFT_BUTTON_HIGH, mv) {
        Some(Button::Left)
    } else if within(MIDDLE_BUTTON_LOW, MIDDLE_BUTTON_HIGH, mv) {
        Some(Button::Middle)
    } else if within(RIGHT_BUTTON_LOW, RIGHT_BUTTON_HIGH, mv) {
        Some(Button::Right)
    } else {
        None
    }
}

/// Whether the closed window `[low, high]` holds `mv`.
pub fn window_contains(low: u16, high: u16, mv: u16) -> (r: bool)
    ensures
        r == within(low, high, mv),
{
    low <= mv && mv <= high
}

/// Whether the reading `mv` is the left button's.
pub fn is_left(mv: u16) -> (r: bool)
    ensures
        r == within(LEFT_BUTTON_LOW, LEFT_BUTTON_HIGH, mv),
{
    window_contains(LEFT_BUTTON_LOW, LEFT_BUTTON_HIGH, mv)
}

/// Whether the reading `mv` is the middle button's.
pub fn is_middle(mv: u16) -> (r: bool)
    ensures
        r == within(MIDDLE_BUTTON_LOW, MIDDLE_BUTTON_HIGH, mv),
{
    window_contains(MIDDLE_BUTTON_LOW, MIDDLE_BUTTON_HIGH, mv)
}

/// Whether the reading `mv` is the right button's.
pub fn is_right(mv: u16) -> (r: bool)
    ensures
        r == within(RIGHT_BUTTON_LOW, RIGHT_BUTTON_HIGH, mv),
{
    window_contains(RIGHT_BUTTON_LOW, RIGHT_BUTTON_HIGH, mv)
}

/// The button that the reading `mv` stands for, or `None` when no button
/// is pressed.
pub fn classify(mv: u16) -> (r: Option<Button>)
    ensures
        r == button_of(mv),
        r == Some(Button::Left) <==> within(LEFT_BUTTON_LOW, LEFT_BUTTON_HIGH, mv),
        r == Some(Button::Middle) <==> within(MIDDLE_BUTTON_LOW, MIDDLE_BUTTON_HIGH, mv),
        r == Some(Button::Right) <==> within(RIGHT_BUTTON_LOW, RIGHT_BUTTON_HIGH, mv),
{
    if is_left(mv) {
        Some(Button::Left)
    } else if is_middle(mv) {
        Some(Button::Middle)
    } else if is_right(mv) {
        Some(Button::Right)
    } else {
        None
    }
}

/// A reading stands for the left button exactly from 2680 to 2720 mV, for
/// the middle one from 2130 to 2170 mV, for the right one from 705 to
/// 745 mV, and for no button outside these windows.
pub proof fn lemma_button_windows(mv: u16)
    ensures
        button_of(mv) == Some(Button::Left) <==> 2680 <= mv <= 2720,
        button_of(mv) == Some(Button::Middle) <==> 2130 <= mv <= 2170,
        button_of(mv) == Some(Button::Right) <==> 705 <= mv <= 745,
        button_of(mv) is None <==> !(2680 <= mv <= 2720 || 2130 <= mv <= 2170 || 705 <= mv <= 745),
{
}

/// The three windows are disjoint: no reading stands for two buttons.
pub proof fn lemma_windows_disjoint(mv: u16)
    ensures
        !(within(LEFT_BUTTON_LOW, LEFT_BUTTON_HIGH, mv) && within(MIDDLE_BUTTON_LOW, MIDDLE_BUTTON_HIGH, mv)),
        !(within(LEFT_BUTTON_LOW, LEFT_BUTTON_HIGH, mv) && within(RIGHT_BUTTON_LOW, RIGHT_BUTTON_HIGH, mv)),
        !(within(MIDDLE_BUTTON_LOW, MIDDLE_BUTTON_HIGH, mv) && within(RIGHT_BUTTON_LOW, RIGHT_BUTTON_HIGH, mv)),
{
}

} // verus!
