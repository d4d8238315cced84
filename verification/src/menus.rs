//! What the menu screens show, and what their buttons do.

pub mod failed;

use vstd::prelude::*;

verus! {

/// Asset path of the font that every menu is set in.
pub const FONT: &'static str = "fonts/FiraSans-Bold.ttf";

/// How the pointer stands to a button in one frame.
#[derive(Clone, Copy, Debug, PartialEq, Eq, Structural)]
pub enum Interaction {
    /// The button was clicked.
    Clicked,
    /// The pointer is over the button.
    Hovered,
    /// The pointer is elsewhere.
    Idle,
}

/// A line of text as a menu shows it.
#[derive(Clone, Copy, Debug, PartialEq, Eq)]
pub struct Caption {
    pub text: &'static str,
    /// Asset path of the font.
    pub font: &'static str,
    /// In pixels.
    pub font_size: u32,
}

/// A button as a menu shows it; `B` says what the button is for.
#[derive(Debug, PartialEq)]
pub struct ButtonPlan<B> {
    pub button: B,
    pub caption: Caption,
    /// In pixels.
    pub width: u32,
    /// In pixels.
    pub height: u32,
    /// Space above the button, in percent of the screen.
    pub margin_top: u32,
}

/// A menu screen: a title and, below it, the buttons from the top down.
#[derive(Debug, PartialEq)]
pub struct Layout<B> {
    pub title: Caption,
    pub buttons: Vec<ButtonPlan<B>>,
}

} // verus!
