//! What the bar does when the session tells it something: what it keeps,
//! and what it asks of the session in return.

use crate::part::{views, LinePart, LinePartView};
use crate::tab::{get_tab_to_focus, next_tab, previous_tab, tab_to_focus};
use vstd::prelude::*;

verus! {

/// What the bar remembers between two events.
#[derive(Debug)]
pub struct State {
    /// Whether the session has granted what the bar asked for.
    pub got_permissions: bool,
    /// The active tab, counted from 1.
    pub active_tab_idx: usize,
    /// The number of tabs.
    pub tab_count: usize,
    /// The line as it was last drawn.
    pub tab_line: Vec<LinePart>,
}

/// What a `State` is to the contracts.
pub struct StateView {
    pub got_permissions: bool,
    pub active_tab_idx: nat,
    pub tab_count: nat,
    pub tab_line: Seq<LinePartView>,
}

impl View for State {
    type V = StateView;

    open spec fn view(&self) -> StateView {
        StateView {
            got_permissions: self.got_permissions,
            active_tab_idx: self.active_tab_idx as nat,
            tab_count: self.tab_count as nat,
            tab_line: views(self.tab_line@),
        }
    }
}

impl Default for State {
    /// The state before anything was heard of: nothing granted, no tabs.
    fn default() -> (state: State)
        ensures
            state@ == (StateView {
                got_permissions: false,
                active_tab_idx: 0,
                tab_count: 0,
                tab_line: Seq::empty(),
            }),
    {
        let state = State {
            got_permissions: false,
            active_tab_idx: 0,
            tab_count: 0,
            tab_line: Vec::new(),
        };
        assert(views(state.tab_line@) =~= Seq::<LinePartView>::empty());
        state
    }
}

/// What the session tells the bar.
#[derive(Clone, Copy, Debug)]
pub enum Event {
    /// What the bar asked for was granted.
    PermissionGranted,
    /// What the bar asked for was refused.
    PermissionDenied,
    /// The input mode was reported; `changed` tells whether the report
    /// differs from the last one.
    ModeUpdate { changed: bool },
    /// The tabs were reported: how many there are, which of them is the
    /// active one, counted from 0, and whether the report differs from the
    /// last one.
    TabUpdate { count: usize, active: Option<usize>, changed: bool },
    /// The left button was pressed on a column.
    LeftClick { column: usize },
    /// The wheel was turned up.
    ScrollUp,
    /// The wheel was turned down.
    ScrollDown,
    /// Something else was done with the mouse.
    Mouse,
    /// The timer ran out.
    Timer,
    /// Anything else.
    Other,
}

/// What the bar has to say about an event that it could not use.
#[derive(Clone, Copy, Debug, PartialEq, Eq, Structural)]
pub enum Complaint {
    /// A report of the tabs named no active tab.
    NoActiveTab,
    /// The event is none that the bar knows.
    Unrecognized,
}

/// What the bar asks for after an event.
#[derive(Clone, Copy, Debug)]
pub struct Reaction {
    /// Draw the line again.
    pub should_render: bool,
    /// Keep what was reported in place of the last report.
    pub keep_report: bool,
    /// Make this tab, counted from 1, the active one.
    pub switch_tab_to: Option<usize>,
    /// Start the timer again.
    pub set_timer: bool,
    /// Move to the folder from which the load is read.
    pub change_host_folder: bool,
    /// Say this to whoever reads the log.
    pub complaint: Option<Complaint>,
}

/// What a `Reaction` is to the contracts.
pub struct ReactionView {
    pub should_render: bool,
    pub keep_report: bool,
    pub switch_tab_to: Option<nat>,
    pub set_timer: bool,
    pub change_host_folder: bool,
    pub complaint: Option<Complaint>,
}

impl View for Reaction {
    type V = ReactionView;

    open spec fn view(&self) -> ReactionView {
        ReactionView {
            should_render: self.should_render,
            keep_report: self.keep_report,
            switch_tab_to: match self.switch_tab_to {
                Some(tab) => Some(tab as nat),
                None => None,
            },
            set_timer: self.set_timer,
            change_host_folder: self.change_host_folder,
            complaint: self.complaint,
        }
    }
}

/// The reaction that asks for nothing.
pub open spec fn no_reaction() -> ReactionView {
    ReactionView {
        should_render: false,
        keep_report: false,
        switch_tab_to: None,
        set_timer: false,
        change_host_folder: false,
        complaint: None,
    }
}

/// Whether an event is one that the bar can take: a report of the tabs
/// names its active tab among them.
pub open spec fn well_formed(event: Event) -> bool {
    event matches Event::TabUpdate { count, active: Some(active), .. } ==> active < count
}

/// The state after `event`.
///
/// Until the grant has come, only the grant changes anything. After it, a
/// report of the tabs that names an active tab sets the active tab and the
/// number of tabs; nothing else is remembered here.
pub open spec fn next_state(state: StateView, event: Event) -> StateView {
    if !state.got_permissions {
        match event {
            Event::PermissionGranted => StateView { got_permissions: true, ..state },
            _ => state,
        }
    } else {
        match event {
            Event::TabUpdate { count, active: Some(active), .. } => StateView {
                active_tab_idx: (active + 1) as nat,
                tab_count: count as nat,
                ..state
            },
            _ => state,
        }
    }
}

/// What the bar asks for after `event`.
///
/// The grant is answered by drawing the line and moving to the host's
/// folder; before it, nothing else is answered at all. After it: a report is
/// kept, and the line drawn again where the report says something new; a
/// click switches to the tab under it, the wheel to the next or the previous
/// tab; the timer is started again and the line drawn.
pub open spec fn reaction(state: StateView, event: Event) -> ReactionView {
    if !state.got_permissions {
        match event {
            Event::PermissionGranted => ReactionView {
                should_render: true,
                change_host_folder: true,
                ..no_reaction()
            },
            _ => no_reaction(),
        }
    } else {
        match event {
            Event::ModeUpdate { changed } => ReactionView {
                should_render: changed,
                keep_report: true,
                ..no_reaction()
            },
            Event::TabUpdate { count, active: Some(active), changed } => ReactionView {
                should_render: state.active_tab_idx != active + 1 || changed,
                keep_report: true,
                ..no_reaction()
            },
            Event::TabUpdate { active: None, .. } => ReactionView {
                complaint: Some(Complaint::NoActiveTab),
                ..no_reaction()
            },
            Event::LeftClick { column } => ReactionView {
                switch_tab_to: tab_to_focus(state.tab_line, state.active_tab_idx, column as nat),
                ..no_reaction()
            },
            Event::ScrollUp => ReactionView {
                switch_tab_to: Some(
                    if state.active_tab_idx + 1 <= state.tab_count {
                        state.active_tab_idx + 1
                    } else {
                        state.tab_count
                    },
                ),
                ..no_reaction()
            },
            Event::ScrollDown => ReactionView {
                switch_tab_to: Some(
                    if state.active_tab_idx >= 2 {
                        (state.active_tab_idx - 1) as nat
                    } else {
                        1
                    },
                ),
                ..no_reaction()
            },
            Event::Mouse => no_reaction(),
            Event::Timer => ReactionView { should_render: true, set_timer: true, ..no_reaction() },
            _ => ReactionView { complaint: Some(Complaint::Unrecognized), ..no_reaction() },
        }
    }
}

/// Takes `event` in: changes `state` as `next_state` says and returns what
/// `reaction` says.
pub fn update(state: &mut State, event: Event) -> (asked: Reaction)
    requires
        well_formed(event),
    ensures
        final(state)@ == next_state(old(state)@, event),
        asked@ == reaction(old(state)@, event),
{
    let nothing = Reaction {
        should_render: false,
        keep_report: false,
        switch_tab_to: None,
        set_timer: false,
        change_host_folder: false,
        complaint: None,
    };
    if !state.got_permissions {
        return match event {
            Event::PermissionGranted => {
                state.got_permissions = true;
                Reaction { should_render: true, change_host_folder: true, ..nothing }
            },
            _ => nothing,
        };
    }
    match event {
        Event::ModeUpdate { changed } => Reaction {
            should_render: changed,
            keep_report: true,
            ..nothing
        },
        Event::TabUpdate { count, active: Some(active_tab_index), changed } => {
            // tabs are counted from 1 by those who switch between them
            let active_tab_idx: usize = active_tab_index + 1;
            let should_render = state.active_tab_idx != active_tab_idx || changed;
            state.active_tab_idx = active_tab_idx;
            state.tab_count = count;
            Reaction { should_render, keep_report: true, ..nothing }
        },
        Event::TabUpdate { count, active: None, changed } => Reaction {
            complaint: Some(Complaint::NoActiveTab),
            ..nothing
        },
        Event::LeftClick { column } => Reaction {
            switch_tab_to: get_tab_to_focus(&state.tab_line, state.active_tab_idx, column),
            ..nothing
        },
        Event::ScrollUp => Reaction {
            switch_tab_to: Some(next_tab(state.active_tab_idx, state.tab_count)),
            ..nothing
        },
        Event::ScrollDown => Reaction {
            switch_tab_to: Some(previous_tab(state.active_tab_idx)),
            ..nothing
        },
        Event::Mouse => nothing,
        Event::Timer => Reaction { should_render: true, set_timer: true, ..nothing },
        _ => Reaction { complaint: Some(Complaint::Unrecognized), ..nothing },
    }
}

/// The nanoseconds in a second.
pub const NANOS_PER_SECOND: u32 = 1_000_000_000;

/// The nanoseconds to wait, `subsec_nanos` nanoseconds into a second, for
/// the next whole second.
pub fn nanos_until_whole_second(subsec_nanos: u32) -> (wait: u32)
    requires
        subsec_nanos < NANOS_PER_SECOND,
    ensures
        wait == NANOS_PER_SECOND - subsec_nanos,
{
    NANOS_PER_SECOND - subsec_nanos
}

} // verus!
