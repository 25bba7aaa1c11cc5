//! Fonts and the options with which text is drawn.

use vstd::prelude::*;

verus! {

/// Centre the text horizontally.
pub const DT_CENTER: u32 = 0x0000_0001;

/// Centre the text vertically.
pub const DT_VCENTER: u32 = 0x0000_0004;

/// Draw the text on a single line.
pub const DT_SINGLELINE: u32 = 0x0000_0020;

/// The handle of a font.
#[derive(Debug, Clone, Copy, PartialEq, Eq, Structural)]
pub struct Font(pub i32);

impl Font {
    /// The handle as a number.
    pub fn to_inner(self) -> (inner: i32)
        ensures
            inner == self.0,
    {
        self.0
    }
}

impl Default for Font {
    fn default() -> (font: Font)
        ensures
            font == Font(0),
    {
        Font(0)
    }
}

/// The flags with which text is drawn.
#[derive(Debug, Clone, Copy, PartialEq, Eq, Structural)]
pub struct TextOptions(pub u32);

impl TextOptions {
    /// No flag set.
    pub fn new() -> (options: TextOptions)
        ensures
            options == TextOptions(0),
    {
        TextOptions(0)
    }

    /// With the text centred horizontally.
    pub fn hcenter(self) -> (options: TextOptions)
        ensures
            options == TextOptions(self.0 | DT_CENTER),
    {
        TextOptions(self.0 | DT_CENTER)
    }

    /// With the text centred vertically.
    pub fn vcenter(self) -> (options: TextOptions)
        ensures
            options == TextOptions(self.0 | DT_VCENTER),
    {
        TextOptions(self.0 | DT_VCENTER)
    }

    /// With the text on a single line.
    pub fn single_line(self) -> (options: TextOptions)
        ensures
            options == TextOptions(self.0 | DT_SINGLELINE),
    {
        TextOptions(self.0 | DT_SINGLELINE)
    }
}

impl Default for TextOptions {
    /// Centred both ways, on a single line.
    fn default() -> (options: TextOptions)
        ensures
            options == TextOptions(0x25),
    {
        let options = TextOptions::new().hcenter().vcenter().single_line();
        assert(((0u32 | 0x1u32) | 0x4u32) | 0x20u32 == 0x25u32) by (bit_vector);
        options
    }
}

} // verus!
