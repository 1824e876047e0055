//! Small value types shared by the grid, the viewport state and the controller.

use vstd::prelude::*;

verus! {

/// What the next key press means.
#[derive(Debug, PartialEq, Eq, Hash, Clone, Copy, Structural)]
pub enum InputMode {
    Normal,
    Editing,
    SelectingRow,
    SelectingCol,
    Saving,
    Quiting,
    QuitSaving,
    Saved,
    SavedFailed,
}

/// Whether a row or column is being added or taken away.
#[derive(Debug, PartialEq, Eq, Clone, Copy, Structural)]
pub enum InsertMode {
    Adding,
    Removing,
}

/// How the program was started.
#[derive(Debug, PartialEq, Eq, Clone, Copy, Structural)]
pub enum RunningMode {
    Normal,
    Debug,
    Help,
}

/// A cell coordinate, absolute in the grid or relative to the window corner.
#[derive(Debug, PartialEq, Eq, Clone, Copy, Structural)]
pub struct Position {
    pub row: usize,
    pub col: usize,
}

impl Position {
    pub fn row(&self) -> (r: usize)
        ensures
            r == self.row,
    {
        self.row
    }

    pub fn col(&self) -> (c: usize)
        ensures
            c == self.col,
    {
        self.col
    }
}

/// An extent in cells: of the window or of the whole grid.
#[derive(Debug, PartialEq, Eq, Clone, Copy, Structural)]
pub struct Size {
    pub width: usize,
    pub height: usize,
}

impl Size {
    pub fn width(&self) -> (w: usize)
        ensures
            w == self.width,
    {
        self.width
    }

    pub fn height(&self) -> (h: usize)
        ensures
            h == self.height,
    {
        self.height
    }
}

} // verus!
