//! The state of an interactive simulation and the decisions of its driver.
//!
//! A driver owns a [`Session`], feeds it the commands and clicks of its user
//! and one tick per frame, and draws what the session holds. The session
//! decides what each of them does to the grid; it neither draws nor waits.

use crate::grid::Grid;
use crate::rules::{all_dead, in_bounds, next_generation, toggled};
use vstd::prelude::*;

verus! {

/// What a user can ask of a running simulation.
#[derive(Debug, Clone, Copy, PartialEq, Eq, Structural)]
pub enum Command {
    /// Replace the grid by a random one of the same size.
    Randomize,
    /// Replace the grid by an all-dead one of the same size.
    Clear,
    /// Pause a running simulation, or resume a paused one.
    TogglePause,
    /// Show or hide the help text.
    ToggleInfo,
    /// Leave the simulation.
    Quit,
}

/// A grid together with what the driver has to remember between frames.
#[derive(Debug)]
pub struct Session {
    /// The current generation.
    pub grid: Grid,
    /// While paused the grid does not advance and cells can be edited.
    pub paused: bool,
    /// Whether the driver should show its help text.
    pub show_info: bool,
}

impl Session {
    /// A session is well formed when its grid is.
    pub open spec fn wf(&self) -> bool {
        self.grid.wf()
    }

    /// A paused session on an all-dead grid, with the help text shown.
    pub fn new(rows: usize, cols: usize) -> (session: Session)
        requires
            rows >= 1,
            cols >= 1,
        ensures
            session.wf(),
            session.grid@ == all_dead(rows as nat, cols as nat),
            session.paused,
            session.show_info,
    {
        Session { grid: Grid::new(rows, cols), paused: true, show_info: true }
    }

    /// Carries out `command` and tells whether the user asked to quit.
    ///
    /// `Randomize` and `Clear` replace the grid by a fresh one of the same
    /// size, the two toggles flip their flag, and `Quit` changes nothing: it
    /// is for the driver to stop.
    pub fn handle_command(&mut self, command: Command) -> (quit: bool)
        requires
            old(self).wf(),
        ensures
            final(self).wf(),
            quit == (command == Command::Quit),
            final(self).grid@.len() == old(self).grid@.len(),
            final(self).grid@[0].len() == old(self).grid@[0].len(),
            final(self).paused == (if command == Command::TogglePause {
                !old(self).paused
            } else {
                old(self).paused
            }),
            final(self).show_info == (if command == Command::ToggleInfo {
                !old(self).show_info
            } else {
                old(self).show_info
            }),
            command == Command::Clear ==> final(self).grid@ == all_dead(
                old(self).grid@.len(),
                old(self).grid@[0].len(),
            ),
            command != Command::Clear && command != Command::Randomize
                ==> final(self).grid@ == old(self).grid@,
    {
        match command {
            Command::Randomize => {
                self.grid = Grid::new_random(self.grid.rows(), self.grid.cols());
                false
            },
            Command::Clear => {
                self.grid = Grid::new(self.grid.rows(), self.grid.cols());
                false
            },
            Command::TogglePause => {
                self.paused = !self.paused;
                false
            },
            Command::ToggleInfo => {
                self.show_info = !self.show_info;
                false
            },
            Command::Quit => true,
        }
    }

    /// One frame of simulated time: a running session moves on to the next
    /// generation, a paused one stays as it is. Tells whether the grid
    /// advanced.
    pub fn tick(&mut self) -> (advanced: bool)
        requires
            old(self).wf(),
        ensures
            final(self).wf(),
            advanced == !old(self).paused,
            final(self).paused == old(self).paused,
            final(self).show_info == old(self).show_info,
            final(self).grid@ == (if old(self).paused {
                old(self).grid@
            } else {
                next_generation(old(self).grid@)
            }),
            final(self).grid@.len() == old(self).grid@.len(),
            final(self).grid@[0].len() == old(self).grid@[0].len(),
    {
        if self.paused {
            false
        } else {
            self.grid.update();
            true
        }
    }

    /// A click on the cell at `(row, col)`: a paused session negates that
    /// cell, a running one ignores the click. Tells whether the cell changed.
    pub fn click(&mut self, row: usize, col: usize) -> (edited: bool)
        requires
            old(self).wf(),
            in_bounds(old(self).grid@, row as int, col as int),
        ensures
            final(self).wf(),
            edited == old(self).paused,
            final(self).paused == old(self).paused,
            final(self).show_info == old(self).show_info,
            final(self).grid@ == (if old(self).paused {
                toggled(old(self).grid@, row as int, col as int)
            } else {
                old(self).grid@
            }),
            final(self).grid@.len() == old(self).grid@.len(),
            final(self).grid@[0].len() == old(self).grid@[0].len(),
    {
        if self.paused {
            self.grid.toggle_cell(row, col);
            true
        } else {
            false
        }
    }
}

} // verus!
