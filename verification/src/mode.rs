//! The input mode of the session, as far as the line shows it.

use vstd::prelude::*;

verus! {

/// The input mode that the session is in.
#[derive(Clone, Copy, Debug, PartialEq, Eq, Structural)]
pub enum InputMode {
    Normal,
    Locked,
    Resize,
    Pane,
    Tab,
    Scroll,
    EnterSearch,
    Search,
    RenameTab,
    RenamePane,
    Session,
    Move,
    Prompt,
    Tmux,
}

/// The three ways in which the line treats a mode.
#[derive(Clone, Copy, Debug, PartialEq, Eq, Structural)]
pub enum ModeKind {
    Locked,
    Normal,
    Other,
}

/// The name of `mode` as the badge shows it.
pub open spec fn mode_text(mode: InputMode) -> Seq<char> {
    match mode {
        InputMode::Normal => "NORMAL"@,
        InputMode::Locked => "LOCKED"@,
        InputMode::Resize => "RESIZE"@,
        InputMode::Pane => "PANE"@,
        InputMode::Tab => "TAB"@,
        InputMode::Scroll => "SCROLL"@,
        InputMode::EnterSearch => "ENTERSEARCH"@,
        InputMode::Search => "SEARCH"@,
        InputMode::RenameTab => "RENAMETAB"@,
        InputMode::RenamePane => "RENAMEPANE"@,
        InputMode::Session => "SESSION"@,
        InputMode::Move => "MOVE"@,
        InputMode::Prompt => "PROMPT"@,
        InputMode::Tmux => "TMUX"@,
    }
}

impl InputMode {
    /// How the line treats this mode.
    pub open spec fn spec_kind(self) -> ModeKind {
        match self {
            InputMode::Locked => ModeKind::Locked,
            InputMode::Normal => ModeKind::Normal,
            _ => ModeKind::Other,
        }
    }

    /// How the line treats this mode.
    #[verifier::when_used_as_spec(spec_kind)]
    pub fn kind(self) -> (kind: ModeKind)
        ensures
            kind == self.spec_kind(),
    {
        match self {
            InputMode::Locked => ModeKind::Locked,
            InputMode::Normal => ModeKind::Normal,
            _ => ModeKind::Other,
        }
    }

    /// The name of this mode in capitals.
    pub fn name(self) -> (name: &'static str)
        ensures
            name@ == mode_text(self),
    {
        match self {
            InputMode::Normal => "NORMAL",
            InputMode::Locked => "LOCKED",
            InputMode::Resize => "RESIZE",
            InputMode::Pane => "PANE",
            InputMode::Tab => "TAB",
            InputMode::Scroll => "SCROLL",
            InputMode::EnterSearch => "ENTERSEARCH",
            InputMode::Search => "SEARCH",
            InputMode::RenameTab => "RENAMETAB",
            InputMode::RenamePane => "RENAMEPANE",
            InputMode::Session => "SESSION",
            InputMode::Move => "MOVE",
            InputMode::Prompt => "PROMPT",
            InputMode::Tmux => "TMUX",
        }
    }
}

} // verus!
