use vstd::prelude::*;

verus! {

/// An RGBA color, one byte per channel.
#[derive(Clone, Copy, Debug, PartialEq, Eq, Structural)]
pub struct Color {
    pub red: u8,
    pub green: u8,
    pub blue: u8,
    pub alpha: u8,
}

/// Fully transparent black, RGBA (0, 0, 0, 0).
pub open spec fn transparent_spec() -> Color {
    Color { red: 0, green: 0, blue: 0, alpha: 0 }
}

impl Color {
    /// The background given to the main window during setup.
    pub fn transparent() -> (r: Color)
        ensures
            r == transparent_spec(),
    {
        Color { red: 0, green: 0, blue: 0, alpha: 0 }
    }
}

/// The label of the window that setup looks up.
pub fn main_window_label() -> (r: &'static str)
    ensures
        r@ == "main"@,
{
    "main"
}

} // verus!
