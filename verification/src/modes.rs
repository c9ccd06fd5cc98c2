//! The editing modes.

use vstd::prelude::*;

verus! {

/// The three modes. Exactly one is active at any time; the initial one is
/// `Insert`.
#[derive(Debug, Clone, Copy, PartialEq, Eq, Structural)]
pub enum VimMode {
    /// Keys reach the focused application unchanged.
    Insert,
    /// Keys are interpreted as motions, operators and mode changes.
    Normal,
    /// Motions extend a selection.
    Visual,
}

impl VimMode {
    /// The symbolic name under which a mode is announced to listeners.
    pub open spec fn name(self) -> Seq<char> {
        match self {
            VimMode::Insert => "insert"@,
            VimMode::Normal => "normal"@,
            VimMode::Visual => "visual"@,
        }
    }

    /// The mode's symbolic name: `"insert"`, `"normal"` or `"visual"`.
    pub fn as_str(&self) -> (name: &'static str)
        ensures
            name@ == self.name(),
    {
        match self {
            VimMode::Insert => "insert",
            VimMode::Normal => "normal",
            VimMode::Visual => "visual",
        }
    }
}

impl Default for VimMode {
    fn default() -> (mode: Self)
        ensures
            mode == VimMode::Insert,
    {
        VimMode::Insert
    }
}

} // verus!
