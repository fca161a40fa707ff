//! The size of the text area.

use vstd::prelude::*;
use vstd::std_specs::cmp::PartialEqSpecImpl;

verus! {

/// Columns and rows.
#[derive(Clone, Copy, Debug)]
pub struct Size {
    pub width: u16,
    pub height: u16,
}

impl PartialEq for Size {
    fn eq(&self, other: &Size) -> (equal: bool) {
        self.width == other.width && self.height == other.height
    }
}

impl PartialEqSpecImpl for Size {
    open spec fn obeys_eq_spec() -> bool {
        true
    }

    open spec fn eq_spec(&self, other: &Size) -> bool {
        self.width == other.width && self.height == other.height
    }
}

impl PartialEq<(u16, u16)> for Size {
    fn eq(&self, dim: &(u16, u16)) -> (equal: bool) {
        self.width == dim.0 && self.height == dim.1
    }
}

impl PartialEqSpecImpl<(u16, u16)> for Size {
    open spec fn obeys_eq_spec() -> bool {
        true
    }

    open spec fn eq_spec(&self, dim: &(u16, u16)) -> bool {
        self.width == dim.0 && self.height == dim.1
    }
}

/// The columns and rows of a screen that are left for text.
pub open spec fn text_area(columns: u16, rows: u16) -> Size {
    Size {
        width: if columns >= 1 {
            (columns - 1) as u16
        } else {
            0
        },
        height: if rows >= 3 {
            (rows - 3) as u16
        } else {
            0
        },
    }
}

/// What the editor knows of the screen: the size of its text area.
pub struct Terminal {
    size: Size,
}

impl Terminal {
    /// The text area.
    pub closed spec fn area(&self) -> Size {
        self.size
    }

    /// The terminal of a screen of `columns` by `rows`: one column and three
    /// rows are kept for the status and message bars.
    pub fn new(columns: u16, rows: u16) -> (terminal: Self)
        ensures
            terminal.area() == text_area(columns, rows),
    {
        Terminal { size: Size { width: columns.saturating_sub(1), height: rows.saturating_sub(3) } }
    }

    /// Takes over the screen size `cur_dim` unless it is `prev_dim`, and says
    /// whether it did: the screen is then to be cleared.
    pub fn update_dimensions(&mut self, prev_dim: Size, cur_dim: (u16, u16)) -> (changed: bool)
        ensures
            changed == !(prev_dim.width == cur_dim.0 && prev_dim.height == cur_dim.1),
            changed ==> final(self).area() == text_area(cur_dim.0, cur_dim.1),
            !changed ==> final(self).area() == old(self).area(),
    {
        if prev_dim != cur_dim {
            self.size = Size {
                width: cur_dim.0.saturating_sub(1),
                height: cur_dim.1.saturating_sub(3),
            };
            true
        } else {
            false
        }
    }

    /// The text area.
    pub fn size(&self) -> (size: &Size)
        ensures
            *size == self.area(),
    {
        &self.size
    }

    /// The text area as columns and rows.
    pub fn dim(&self) -> (dim: (u16, u16))
        ensures
            dim == (self.area().width, self.area().height),
    {
        (self.size.width, self.size.height)
    }
}

} // verus!
