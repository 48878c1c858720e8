use vstd::prelude::*;
use crate::color::Rgba8;

verus! {

/// Light or dark colour scheme of the application.
#[derive(Debug, Clone, Copy, PartialEq, Eq, Structural)]
pub struct Theme {
    pub dark_mode: bool,
}

/// The `k`-th colour of the six-colour palette for data series.
pub open spec fn series_palette(k: int) -> Rgba8 {
    if k == 0 {
        Rgba8 { r: 230, g: 60, b: 70, a: 255 }
    } else if k == 1 {
        Rgba8 { r: 140, g: 60, b: 220, a: 255 }
    } else if k == 2 {
        Rgba8 { r: 50, g: 150, b: 230, a: 255 }
    } else if k == 3 {
        Rgba8 { r: 230, g: 130, b: 200, a: 255 }
    } else if k == 4 {
        Rgba8 { r: 80, g: 200, b: 120, a: 255 }
    } else {
        Rgba8 { r: 255, g: 180, b: 50, a: 255 }
    }
}

/// Number of colours in the series palette.
pub const SERIES_COLOR_COUNT: usize = 6;

impl Default for Theme {
    /// The light theme.
    fn default() -> (t: Theme)
        ensures
            !t.dark_mode,
    {
        Theme { dark_mode: false }
    }
}

impl Theme {
    /// Background of drawing areas.
    pub fn bg_color(&self) -> (c: Rgba8)
        ensures
            c == (if self.dark_mode {
                Rgba8 { r: 20, g: 20, b: 30, a: 255 }
            } else {
                Rgba8 { r: 240, g: 240, b: 245, a: 255 }
            }),
    {
        if self.dark_mode {
            Rgba8::opaque(20, 20, 30)
        } else {
            Rgba8::opaque(240, 240, 245)
        }
    }

    /// Colour of text drawn on the background.
    pub fn text_color(&self) -> (c: Rgba8)
        ensures
            c == (if self.dark_mode {
                Rgba8 { r: 200, g: 200, b: 210, a: 255 }
            } else {
                Rgba8 { r: 40, g: 40, b: 50, a: 255 }
            }),
    {
        if self.dark_mode {
            Rgba8::opaque(200, 200, 210)
        } else {
            Rgba8::opaque(40, 40, 50)
        }
    }

    /// Translucent colour of grid lines, premultiplied.
    pub fn grid_color(&self) -> (c: Rgba8)
        ensures
            c == (if self.dark_mode {
                Rgba8 { r: 60, g: 60, b: 80, a: 100 }
            } else {
                Rgba8 { r: 150, g: 150, b: 170, a: 100 }
            }),
    {
        if self.dark_mode {
            Rgba8::premultiplied(60, 60, 80, 100)
        } else {
            Rgba8::premultiplied(150, 150, 170, 100)
        }
    }

    /// The accent colour, the same in both schemes.
    pub fn accent_color(&self) -> (c: Rgba8)
        ensures
            c == (Rgba8 { r: 50, g: 150, b: 230, a: 255 }),
    {
        Rgba8::opaque(50, 150, 230)
    }

    /// Background of the header bar.
    pub fn header_bg(&self) -> (c: Rgba8)
        ensures
            c == (if self.dark_mode {
                Rgba8 { r: 22, g: 25, b: 38, a: 255 }
            } else {
                Rgba8 { r: 255, g: 255, b: 255, a: 255 }
            }),
    {
        if self.dark_mode {
            Rgba8::opaque(22, 25, 38)
        } else {
            Rgba8::white()
        }
    }

    /// Colour of a composite (summed) curve.
    pub fn composite_color(&self) -> (c: Rgba8)
        ensures
            c == (if self.dark_mode {
                Rgba8 { r: 255, g: 255, b: 255, a: 255 }
            } else {
                Rgba8 { r: 20, g: 20, b: 20, a: 255 }
            }),
    {
        if self.dark_mode {
            Rgba8::white()
        } else {
            Rgba8::opaque(20, 20, 20)
        }
    }

    /// Colour of data series `idx`; the palette repeats every six series.
    pub fn series_color(&self, idx: usize) -> (c: Rgba8)
        ensures
            c == series_palette((idx % SERIES_COLOR_COUNT) as int),
    {
        let k = idx % SERIES_COLOR_COUNT;
        if k == 0 {
            Rgba8::opaque(230, 60, 70)
        } else if k == 1 {
            Rgba8::opaque(140, 60, 220)
        } else if k == 2 {
            Rgba8::opaque(50, 150, 230)
        } else if k == 3 {
            Rgba8::opaque(230, 130, 200)
        } else if k == 4 {
            Rgba8::opaque(80, 200, 120)
        } else {
            Rgba8::opaque(255, 180, 50)
        }
    }
}

/// The six series colours are pairwise distinct, so any six consecutive series are
/// told apart by colour.
pub proof fn lemma_series_colors_distinct(i: nat, j: nat)
    requires
        i % 6 != j % 6,
    ensures
        series_palette((i % 6) as int) != series_palette((j % 6) as int),
{
}

/// The palette repeats: series `i` and series `i + 6` share a colour.
pub proof fn lemma_series_colors_repeat(i: nat)
    ensures
        series_palette((i % 6) as int) == series_palette(((i + 6) % 6) as int),
{
}

/// Colour of the reference damping curve `i` in the frequency-response plots; every
/// index from four on shares the last colour.
pub fn zeta_color(i: usize) -> (c: Rgba8)
    ensures
        c == (if i == 0 {
            Rgba8 { r: 60, g: 140, b: 220, a: 255 }
        } else if i == 1 {
            Rgba8 { r: 60, g: 190, b: 80, a: 255 }
        } else if i == 2 {
            Rgba8 { r: 210, g: 170, b: 30, a: 255 }
        } else if i == 3 {
            Rgba8 { r: 210, g: 100, b: 30, a: 255 }
        } else {
            Rgba8 { r: 160, g: 60, b: 190, a: 255 }
        }),
{
    match i {
        0 => Rgba8::opaque(60, 140, 220),
        1 => Rgba8::opaque(60, 190, 80),
        2 => Rgba8::opaque(210, 170, 30),
        3 => Rgba8::opaque(210, 100, 30),
        _ => Rgba8::opaque(160, 60, 190),
    }
}

/// Colour of the X axis of the origin gizmo (red).
pub fn axis_x_color() -> (c: Rgba8)
    ensures
        c == (Rgba8 { r: 0xFF, g: 0x33, b: 0x53, a: 255 }),
{
    Rgba8::opaque(0xFF, 0x33, 0x53)
}

/// Colour of the Y axis of the origin gizmo (green).
pub fn axis_y_color() -> (c: Rgba8)
    ensures
        c == (Rgba8 { r: 0x33, g: 0xFF, b: 0x57, a: 255 }),
{
    Rgba8::opaque(0x33, 0xFF, 0x57)
}

/// Colour of the Z axis of the origin gizmo (blue).
pub fn axis_z_color() -> (c: Rgba8)
    ensures
        c == (Rgba8 { r: 0x33, g: 0x85, b: 0xFF, a: 255 }),
{
    Rgba8::opaque(0x33, 0x85, 0xFF)
}

} // verus!
