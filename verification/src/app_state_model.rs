//! The viewport state: where the window sits on the grid, which cell of the
//! window is selected, what mode the editor is in and what has been typed.

use vstd::prelude::*;
use vstd::string::StringExecFns;
use crate::text::{pop_char, push_char};
use crate::utils_model::{InputMode, Position, RunningMode};

verus! {

/// What an `AppStateModel` stands for.
pub ghost struct AppStateView {
    pub input: Seq<char>,
    pub input_mode: InputMode,
    pub running_mode: RunningMode,
    pub corner_pos: Position,
    pub relative_pos: Position,
}

impl AppStateView {
    /// The row of the selected cell in the grid.
    pub open spec fn absolute_row(self) -> int {
        self.corner_pos.row + self.relative_pos.row
    }

    /// The column of the selected cell in the grid.
    pub open spec fn absolute_col(self) -> int {
        self.corner_pos.col + self.relative_pos.col
    }

    /// The selected cell can be named: its absolute coordinates fit the
    /// machine's integers.
    pub open spec fn addressable(self) -> bool {
        self.absolute_row() <= usize::MAX && self.absolute_col() <= usize::MAX
    }
}

/// The window's corner and the selected cell in it, kept so that the
/// selected cell's absolute coordinates fit the machine's integers.
#[derive(Debug)]
struct Cursor {
    corner_pos: Position,
    relative_pos: Position,
}

impl Cursor {
    #[verifier::type_invariant]
    closed spec fn inv(&self) -> bool {
        self.corner_pos.row + self.relative_pos.row <= usize::MAX && self.corner_pos.col
            + self.relative_pos.col <= usize::MAX
    }
}

#[derive(Debug)]
pub struct AppStateModel {
    /// Current value of the input box
    input: String,
    /// Current input mode
    input_mode: InputMode,
    running_mode: RunningMode,
    cursor: Cursor,
}

impl View for AppStateModel {
    type V = AppStateView;

    closed spec fn view(&self) -> AppStateView {
        AppStateView {
            input: self.input@,
            input_mode: self.input_mode,
            running_mode: self.running_mode,
            corner_pos: self.cursor.corner_pos,
            relative_pos: self.cursor.relative_pos,
        }
    }
}

/// The state at start, for a program started in `running_mode`: the window
/// at the origin, its first cell selected, nothing typed, in `Normal` mode.
/// `Debug` is kept as the running mode, anything else runs as `Normal`.
pub open spec fn start_state(running_mode: RunningMode) -> AppStateView {
    AppStateView {
        input: Seq::empty(),
        input_mode: InputMode::Normal,
        running_mode: if running_mode == RunningMode::Debug {
            RunningMode::Debug
        } else {
            RunningMode::Normal
        },
        corner_pos: Position { row: 0, col: 0 },
        relative_pos: Position { row: 0, col: 0 },
    }
}

impl Default for AppStateModel {
    /// The state at start of a program that runs as `Normal`.
    fn default() -> (state: AppStateModel)
        ensures
            state@ == start_state(RunningMode::Normal),
    {
        AppStateModel {
            input: String::new(),
            input_mode: InputMode::Normal,
            running_mode: RunningMode::Normal,
            cursor: Cursor {
                corner_pos: Position { row: 0, col: 0 },
                relative_pos: Position { row: 0, col: 0 },
            },
        }
    }
}

impl AppStateModel {
    /// The state at start, for a program started in `running_mode`.
    pub fn from_running_mode(running_mode: &RunningMode) -> (state: AppStateModel)
        ensures
            state@ == start_state(*running_mode),
    {
        let mut state = AppStateModel::default();
        match running_mode {
            RunningMode::Debug => {
                state.running_mode = RunningMode::Debug;
            },
            _ => {},
        };
        state
    }

    pub fn get_relative_pos(&self) -> (pos: Position)
        ensures
            pos == self@.relative_pos,
    {
        self.cursor.relative_pos
    }

    /// The selected cell's coordinates in the grid: corner plus relative.
    pub fn get_absolute_pos(&self) -> (pos: Position)
        ensures
            self@.addressable(),
            pos.row == self@.absolute_row(),
            pos.col == self@.absolute_col(),
    {
        proof {
            use_type_invariant(&self.cursor);
        }
        Position {
            row: self.cursor.corner_pos.row + self.cursor.relative_pos.row,
            col: self.cursor.corner_pos.col + self.cursor.relative_pos.col,
        }
    }

    /// Moves the selection one row down.
    pub fn increment_relative_pos_row(&mut self)
        requires
            old(self)@.absolute_row() < usize::MAX,
        ensures
            final(self)@ == (AppStateView {
                relative_pos: Position {
                    row: (old(self)@.relative_pos.row + 1) as usize,
                    col: old(self)@.relative_pos.col,
                },
                ..old(self)@
            }),
            final(self)@.relative_pos.row == old(self)@.relative_pos.row + 1,
    {
        proof {
            use_type_invariant(&self.cursor);
        }
        self.cursor.relative_pos.row += 1;
    }

    /// Moves the selection one row up, and not above the window's first row.
    pub fn decrement_relative_pos_row(&mut self)
        ensures
            final(self)@ == (AppStateView {
                relative_pos: Position {
                    row: if old(self)@.relative_pos.row > 0 {
                        (old(self)@.relative_pos.row - 1) as usize
                    } else {
                        0
                    },
                    col: old(self)@.relative_pos.col,
                },
                ..old(self)@
            }),
    {
        proof {
            use_type_invariant(&self.cursor);
        }
        if self.cursor.relative_pos.row > 0 {
            self.cursor.relative_pos.row -= 1;
        }
    }

    /// Moves the selection one column to the right.
    pub fn increment_relative_pos_col(&mut self)
        requires
            old(self)@.absolute_col() < usize::MAX,
        ensures
            final(self)@ == (AppStateView {
                relative_pos: Position {
                    row: old(self)@.relative_pos.row,
                    col: (old(self)@.relative_pos.col + 1) as usize,
                },
                ..old(self)@
            }),
            final(self)@.relative_pos.col == old(self)@.relative_pos.col + 1,
    {
        proof {
            use_type_invariant(&self.cursor);
        }
        self.cursor.relative_pos.col += 1;
    }

    /// Moves the selection one column to the left, and not left of the
    /// window's first column.
    pub fn decrement_relative_pos_col(&mut self)
        ensures
            final(self)@ == (AppStateView {
                relative_pos: Position {
                    row: old(self)@.relative_pos.row,
                    col: if old(self)@.relative_pos.col > 0 {
                        (old(self)@.relative_pos.col - 1) as usize
                    } else {
                        0
                    },
                },
                ..old(self)@
            }),
    {
        proof {
            use_type_invariant(&self.cursor);
        }
        if self.cursor.relative_pos.col > 0 {
            self.cursor.relative_pos.col -= 1;
        }
    }

    pub fn get_corner_pos(&self) -> (pos: Position)
        ensures
            pos == self@.corner_pos,
    {
        self.cursor.corner_pos
    }

    /// Moves the window `n` rows down.
    pub fn add_to_corner_pos_row(&mut self, n: usize)
        requires
            old(self)@.absolute_row() + n <= usize::MAX,
        ensures
            final(self)@ == (AppStateView {
                corner_pos: Position {
                    row: (old(self)@.corner_pos.row + n) as usize,
                    col: old(self)@.corner_pos.col,
                },
                ..old(self)@
            }),
            final(self)@.corner_pos.row == old(self)@.corner_pos.row + n,
    {
        proof {
            use_type_invariant(&self.cursor);
        }
        self.cursor.corner_pos.row += n;
    }

    /// Moves the window `n` rows up, and not above the grid's first row.
    pub fn remove_from_corner_pos_row(&mut self, n: usize)
        ensures
            final(self)@ == (AppStateView {
                corner_pos: Position {
                    row: if old(self)@.corner_pos.row > n {
                        (old(self)@.corner_pos.row - n) as usize
                    } else {
                        0
                    },
                    col: old(self)@.corner_pos.col,
                },
                ..old(self)@
            }),
    {
        proof {
            use_type_invariant(&self.cursor);
        }
        if self.cursor.corner_pos.row > n {
            self.cursor.corner_pos.row -= n;
        } else {
            self.cursor.corner_pos.row = 0;
        }
    }

    /// Moves the window `n` columns to the right.
    pub fn add_to_corner_pos_col(&mut self, n: usize)
        requires
            old(self)@.absolute_col() + n <= usize::MAX,
        ensures
            final(self)@ == (AppStateView {
                corner_pos: Position {
                    row: old(self)@.corner_pos.row,
                    col: (old(self)@.corner_pos.col + n) as usize,
                },
                ..old(self)@
            }),
            final(self)@.corner_pos.col == old(self)@.corner_pos.col + n,
    {
        proof {
            use_type_invariant(&self.cursor);
        }
        self.cursor.corner_pos.col += n;
    }

    /// Moves the window `n` columns to the left, and not left of the grid's
    /// first column.
    pub fn remove_from_corner_pos_col(&mut self, n: usize)
        ensures
            final(self)@ == (AppStateView {
                corner_pos: Position {
                    row: old(self)@.corner_pos.row,
                    col: if old(self)@.corner_pos.col > n {
                        (old(self)@.corner_pos.col - n) as usize
                    } else {
                        0
                    },
                },
                ..old(self)@
            }),
    {
        proof {
            use_type_invariant(&self.cursor);
        }
        if self.cursor.corner_pos.col > n {
            self.cursor.corner_pos.col -= n;
        } else {
            self.cursor.corner_pos.col = 0;
        }
    }

    pub fn append_str_current_input(&mut self, string_value: &str)
        ensures
            final(self)@ == (AppStateView {
                input: old(self)@.input + string_value@,
                ..old(self)@
            }),
    {
        self.input.append(string_value);
    }

    pub fn append_char_current_input(&mut self, char_value: char)
        ensures
            final(self)@ == (AppStateView {
                input: old(self)@.input.push(char_value),
                ..old(self)@
            }),
    {
        push_char(&mut self.input, char_value);
    }

    /// Takes the last typed character back; `None` where nothing was typed.
    pub fn pop_current_input(&mut self) -> (last: Option<char>)
        ensures
            old(self)@.input.len() == 0 ==> last is None && final(self)@ == old(self)@,
            old(self)@.input.len() > 0 ==> last == Some(old(self)@.input.last()) && final(self)@
                == (AppStateView { input: old(self)@.input.drop_last(), ..old(self)@ }),
    {
        pop_char(&mut self.input)
    }

    /// Hands out what was typed and leaves the input empty.
    pub fn drain_input(&mut self) -> (typed: String)
        ensures
            typed@ == old(self)@.input,
            final(self)@ == (AppStateView { input: Seq::empty(), ..old(self)@ }),
    {
        let mut typed = String::new();
        core::mem::swap(&mut self.input, &mut typed);
        typed
    }

    pub fn clear_input(&mut self)
        ensures
            final(self)@ == (AppStateView { input: Seq::empty(), ..old(self)@ }),
    {
        self.input = String::new();
    }

    pub fn get_input(&self) -> (typed: &str)
        ensures
            typed@ == self@.input,
    {
        self.input.as_str()
    }

    pub fn get_input_mode(&self) -> (mode: &InputMode)
        ensures
            *mode == self@.input_mode,
    {
        &self.input_mode
    }

    pub fn set_input_mode(&mut self, input_node: InputMode)
        ensures
            final(self)@ == (AppStateView { input_mode: input_node, ..old(self)@ }),
    {
        self.input_mode = input_node;
    }

    pub fn get_running_mode(&self) -> (mode: &RunningMode)
        ensures
            *mode == self@.running_mode,
    {
        &self.running_mode
    }
}

} // verus!
