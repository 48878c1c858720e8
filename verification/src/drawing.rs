use vstd::prelude::*;
use crate::color::Rgba8;

verus! {

/// Style of one line of the XZ ground grid: every tenth line is bold.
#[derive(Debug, Clone, Copy, PartialEq, Eq, Structural)]
pub struct GridLine {
    pub bold: bool,
    pub color: Rgba8,
}

/// The style of the grid line at integer coordinate `i`: bold and lighter grey on
/// multiples of ten, subtle dark grey elsewhere.
pub fn xz_grid_line(i: i32) -> (l: GridLine)
    ensures
        l.bold == (i % 10 == 0),
        l.color == (if i % 10 == 0 {
            Rgba8 { r: 0x66, g: 0x66, b: 0x66, a: 255 }
        } else {
            Rgba8 { r: 0x44, g: 0x44, b: 0x44, a: 255 }
        }),
{
    let bold = i % 10 == 0;
    let color = if bold {
        Rgba8::opaque(0x66, 0x66, 0x66)
    } else {
        Rgba8::opaque(0x44, 0x44, 0x44)
    };
    GridLine { bold, color }
}

/// How a draggable split handle looks: the grey of its line and whether the pointer
/// shows a resize cursor.
#[derive(Debug, Clone, Copy, PartialEq, Eq, Structural)]
pub struct SplitHandleLook {
    pub gray: u8,
    pub resize_cursor: bool,
}

/// A split handle lights up and shows a resize cursor while hovered or dragged.
pub fn split_handle_look(hovered: bool, dragged: bool) -> (l: SplitHandleLook)
    ensures
        l.resize_cursor == (hovered || dragged),
        l.gray == (if hovered || dragged {
            180u8
        } else {
            100u8
        }),
{
    let active = hovered || dragged;
    SplitHandleLook { gray: if active { 180 } else { 100 }, resize_cursor: active }
}

/// A tab of the left control panel.
#[derive(Debug, Clone, Copy)]
pub struct TabDef {
    pub label: &'static str,
}

impl TabDef {
    /// A tab with the given label.
    pub fn new(label: &'static str) -> (t: TabDef)
        ensures
            t.label == label,
    {
        TabDef { label }
    }
}

} // verus!
