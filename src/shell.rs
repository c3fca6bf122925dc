//! The settings of a console shell, and what they decide.

use vstd::prelude::*;

verus! {

/// How a console shell is set up: whether colour is wanted, whether output
/// is verbose, and whether the stream is a terminal.
#[derive(Clone, Copy, Debug, PartialEq, Eq, Structural)]
pub struct ShellConfig {
    pub color: bool,
    pub verbose: bool,
    pub tty: bool,
}

impl ShellConfig {
    /// Whether a shell with these settings writes in colour: only to a
    /// terminal, and only when colour is wanted.
    pub fn wants_color(&self) -> (r: bool)
        ensures
            r == (self.tty && self.color),
    {
        self.tty && self.color
    }
}

} // verus!
