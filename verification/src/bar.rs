//! One frame of the bar: from the tabs as the session reports them to the
//! text that is written to the terminal.

use crate::line::{
    separator_text, status_room, tab_line_status, tab_line_title, tab_line_view, title_view,
};
use crate::load::LoadAverage;
use crate::mode::InputMode;
use crate::part::{views, LinePart, LinePartView};
use crate::prefix::session_text;
use crate::status::{layout_name_text, load_view, status_view, time_view};
use crate::style::{Palette, PaletteColor, PluginCapabilities, Styling};
use crate::tab::{tab_style, tab_view, TabInfo};
use crate::text::{decimal, decimal_string};
use vstd::prelude::*;
use vstd::string::*;

verus! {

/// The name under which a tab is drawn: its own, or a prompt in its place
/// while the active tab is being renamed and has no name yet.
pub open spec fn shown_name(tab: TabInfo, mode: InputMode) -> Seq<char> {
    if tab.active && mode == InputMode::RenameTab && tab.name@.len() == 0 {
        "Enter name..."@
    } else {
        tab.name@
    }
}

/// The tabs as pieces, in order, every second one marked as alternate.
pub open spec fn styled_tabs(
    tabs: Seq<TabInfo>,
    mode: InputMode,
    palette: Styling,
    capabilities: PluginCapabilities,
) -> Seq<LinePartView> {
    Seq::new(
        tabs.len(),
        |i: int|
            tab_view(
                shown_name(tabs[i], mode),
                tabs[i].position as nat,
                tabs[i].active,
                i % 2 == 1,
                palette,
                capabilities,
            ),
    )
}

/// What the line takes from the active tab.
pub struct ActiveTab {
    pub index: nat,
    pub swap_layout_name: Option<Seq<char>>,
    pub is_swap_layout_dirty: bool,
}

/// What the line takes from the active tab of `tabs`, or nothing where no
/// tab says it is active. The last tab that says so counts. Its position is
/// taken, and its layout unless the tab is being renamed.
pub open spec fn active_tab(tabs: Seq<TabInfo>, mode: InputMode) -> Option<ActiveTab>
    decreases tabs.len(),
{
    if tabs.len() == 0 {
        None
    } else {
        let earlier = active_tab(tabs.drop_last(), mode);
        let tab = tabs.last();
        if tab.active && mode == InputMode::RenameTab {
            match earlier {
                Some(earlier) => Some(ActiveTab { index: tab.position as nat, ..earlier }),
                None => Some(
                    ActiveTab {
                        index: tab.position as nat,
                        swap_layout_name: None,
                        is_swap_layout_dirty: false,
                    },
                ),
            }
        } else if tab.active {
            Some(
                ActiveTab {
                    index: tab.position as nat,
                    swap_layout_name: layout_name_text(tab.active_swap_layout_name),
                    is_swap_layout_dirty: tab.is_swap_layout_dirty,
                },
            )
        } else {
            earlier
        }
    }
}

/// The line of `cols` columns for the tabs `tabs`: empty where none of them
/// is active.
pub open spec fn render_view(
    tabs: Seq<TabInfo>,
    session_name: Option<Seq<char>>,
    cols: nat,
    palette: Styling,
    load_palette: Palette,
    capabilities: PluginCapabilities,
    hide_session_name: bool,
    mode: InputMode,
    time: Seq<char>,
    load: LoadAverage,
) -> Seq<LinePartView> {
    match active_tab(tabs, mode) {
        Some(active) => tab_line_view(
            session_name,
            styled_tabs(tabs, mode, palette, capabilities),
            active.index,
            cols,
            palette,
            load_palette,
            capabilities,
            hide_session_name,
            mode,
            active.swap_layout_name,
            active.is_swap_layout_dirty,
            time,
            load,
        ),
        None => Seq::empty(),
    }
}

/// What is left to do for the status widgets of a line: the columns they
/// get and what they say of the layout in use.
#[derive(Debug)]
pub struct StatusRoom {
    pub space: usize,
    pub swap_layout_name: Option<String>,
    pub is_swap_layout_dirty: bool,
}

/// A line before its status widgets, and the room for them where it is to
/// have any.
#[derive(Debug)]
pub struct Title {
    pub parts: Vec<LinePart>,
    pub status: Option<StatusRoom>,
}

/// Whether `title` is the title of the line of `cols` columns for `tabs`,
/// whose active tab says `active`.
pub open spec fn is_title(
    title: Title,
    active: ActiveTab,
    tabs: Seq<TabInfo>,
    session_name: Option<Seq<char>>,
    cols: nat,
    palette: Styling,
    capabilities: PluginCapabilities,
    hide_session_name: bool,
    mode: InputMode,
) -> bool {
    let all_tabs = styled_tabs(tabs, mode, palette, capabilities);
    let room = status_room(
        session_name,
        all_tabs,
        active.index,
        cols,
        palette,
        capabilities,
        hide_session_name,
        mode,
    );
    &&& views(title.parts@) == title_view(
        session_name,
        all_tabs,
        active.index,
        cols,
        palette,
        capabilities,
        hide_session_name,
        mode,
    )
    &&& match title.status {
        Some(status) => {
            &&& room == Some(status.space as nat)
            &&& layout_name_text(status.swap_layout_name) == active.swap_layout_name
            &&& status.is_swap_layout_dirty == active.is_swap_layout_dirty
        },
        None => room is None,
    }
}

/// Builds the line of `cols` columns for the tabs `tabs` up to its status
/// widgets, or nothing where no tab is active. Where the title comes with
/// room for the status widgets, `complete` adds them; where it comes
/// without, it is the whole line.
pub fn title(
    tabs: &Vec<TabInfo>,
    session_name: Option<&str>,
    cols: usize,
    palette: Styling,
    capabilities: PluginCapabilities,
    hide_session_name: bool,
    mode: InputMode,
) -> (title: Option<Title>)
    ensures
        title is Some <==> active_tab(tabs@, mode) is Some,
        title matches Some(title) ==> is_title(
            title,
            active_tab(tabs@, mode)->0,
            tabs@,
            session_text(session_name),
            cols as nat,
            palette,
            capabilities,
            hide_session_name,
            mode,
        ),
{
    let mut all_tabs: Vec<LinePart> = Vec::new();
    let mut found = false;
    let mut active_tab_index: usize = 0;
    let mut active_swap_layout_name: Option<String> = None;
    let mut is_swap_layout_dirty = false;
    let mut is_alternate_tab = false;
    let renaming = match mode {
        InputMode::RenameTab => true,
        _ => false,
    };
    let mut i: usize = 0;
    while i < tabs.len()
        invariant
            i <= tabs.len(),
            renaming == (mode == InputMode::RenameTab),
            is_alternate_tab == (i % 2 == 1),
            all_tabs.len() == i,
            views(all_tabs@) == styled_tabs(tabs@.take(i as int), mode, palette, capabilities),
            found == active_tab(tabs@.take(i as int), mode) is Some,
            found ==> active_tab_index == active_tab(tabs@.take(i as int), mode)->0.index,
            found ==> layout_name_text(active_swap_layout_name) == active_tab(
                tabs@.take(i as int),
                mode,
            )->0.swap_layout_name,
            found ==> is_swap_layout_dirty == active_tab(
                tabs@.take(i as int),
                mode,
            )->0.is_swap_layout_dirty,
            !found ==> active_swap_layout_name is None && !is_swap_layout_dirty,
        decreases tabs.len() - i,
    {
        let t = &tabs[i];
        let mut tabname = t.name.clone();
        proof {
            assert(tabs@.take(i + 1).drop_last() =~= tabs@.take(i as int));
            assert(tabs@.take(i + 1).last() == *t);
        }
        if t.active && renaming {
            if tabname.as_str().is_empty() {
                tabname = String::from_str("Enter name...");
            }
            found = true;
            active_tab_index = t.position;
        } else if t.active {
            found = true;
            active_tab_index = t.position;
            is_swap_layout_dirty = t.is_swap_layout_dirty;
            active_swap_layout_name = match &t.active_swap_layout_name {
                Some(name) => Some(name.clone()),
                None => None,
            };
        }
        assert(tabname@ == shown_name(*t, mode));
        let ghost earlier = all_tabs@;
        let tab = tab_style(tabname, t, is_alternate_tab, palette, capabilities);
        is_alternate_tab = !is_alternate_tab;
        all_tabs.push(tab);
        proof {
            let now = styled_tabs(tabs@.take(i + 1), mode, palette, capabilities);
            assert(views(all_tabs@).len() == now.len());
            assert forall|j: int| 0 <= j < now.len() implies views(all_tabs@)[j] == now[j] by {
                if j < i {
                    assert(views(all_tabs@)[j] == views(earlier)[j]);
                    assert(tabs@.take(i as int)[j] == tabs@.take(i + 1)[j]);
                } else {
                    assert(tabs@.take(i + 1)[j] == *t);
                }
            }
            assert(views(all_tabs@) =~= now);
        }
        i = i + 1;
    }
    proof {
        assert(tabs@.take(i as int) =~= tabs@);
    }
    if !found {
        // no tab to gather the others around: nothing is drawn
        return None;
    }
    let (parts, room) = tab_line_title(
        session_name,
        all_tabs,
        active_tab_index,
        cols,
        palette,
        capabilities,
        hide_session_name,
        mode,
    );
    let status = match room {
        Some(space) => Some(
            StatusRoom {
                space,
                swap_layout_name: active_swap_layout_name,
                is_swap_layout_dirty,
            },
        ),
        None => None,
    };
    Some(Title { parts, status })
}

/// Follows the pieces `parts` of a title with the status widgets that
/// `room` has room for. `time` is what the clock says and `load` what was
/// read of the machine's load.
pub fn complete(
    parts: Vec<LinePart>,
    room: &StatusRoom,
    palette: Styling,
    load_palette: &Palette,
    capabilities: PluginCapabilities,
    mode: InputMode,
    time: &str,
    load: &LoadAverage,
) -> (line: Vec<LinePart>)
    ensures
        views(line@) == views(parts@) + status_view(
            room.space as nat,
            time_view(palette, separator_text(capabilities), time@),
            load_view(
                palette,
                *load_palette,
                separator_text(capabilities),
                load.one@,
                load.five@,
                load.fifteen@,
                load.percent as nat,
            ),
            layout_name_text(room.swap_layout_name),
            room.is_swap_layout_dirty,
            mode,
            palette,
            separator_text(capabilities),
        ),
{
    tab_line_status(
        parts,
        room.space,
        palette,
        load_palette,
        capabilities,
        mode,
        &room.swap_layout_name,
        room.is_swap_layout_dirty,
        time,
        load,
    )
}

/// Builds the line of `cols` columns for the tabs `tabs`, or nothing where
/// no tab is active; the line that was drawn before then stays.
pub fn render(
    tabs: &Vec<TabInfo>,
    session_name: Option<&str>,
    cols: usize,
    palette: Styling,
    load_palette: &Palette,
    capabilities: PluginCapabilities,
    hide_session_name: bool,
    mode: InputMode,
    time: &str,
    load: &LoadAverage,
) -> (line: Option<Vec<LinePart>>)
    ensures
        line is Some <==> active_tab(tabs@, mode) is Some,
        line is Some ==> tabs.len() > 0,
        line matches Some(parts) ==> views(parts@) == render_view(
            tabs@,
            session_text(session_name),
            cols as nat,
            palette,
            *load_palette,
            capabilities,
            hide_session_name,
            mode,
            time@,
            *load,
        ),
{
    match title(tabs, session_name, cols, palette, capabilities, hide_session_name, mode) {
        Some(title) => match title.status {
            Some(room) => Some(
                complete(
                    title.parts,
                    &room,
                    palette,
                    load_palette,
                    capabilities,
                    mode,
                    time,
                    load,
                ),
            ),
            None => Some(title.parts),
        },
        None => None,
    }
}

/// The texts of the pieces of a row, one after the other.
pub open spec fn joined(parts: Seq<LinePartView>) -> Seq<char>
    decreases parts.len(),
{
    if parts.len() == 0 {
        Seq::empty()
    } else {
        joined(parts.drop_last()) + parts.last().part
    }
}

/// The escape sequences that set the background to `background` and clear
/// the rest of the line with it.
pub open spec fn fill_text(background: PaletteColor) -> Seq<char> {
    match background {
        PaletteColor::Rgb(r, g, b) => "\u{1b}[48;2;"@ + decimal(r as nat) + ";"@ + decimal(
            g as nat,
        ) + ";"@ + decimal(b as nat) + "m\u{1b}[0K"@,
        PaletteColor::EightBit(color) => "\u{1b}[48;5;"@ + decimal(color as nat) + "m\u{1b}[0K"@,
    }
}

/// Writes out the pieces of `parts` one after the other.
pub fn line_text(parts: &Vec<LinePart>) -> (output: String)
    ensures
        output@ == joined(views(parts@)),
{
    let mut output = String::new();
    let mut i: usize = 0;
    while i < parts.len()
        invariant
            i <= parts.len(),
            output@ == joined(views(parts@.take(i as int))),
        decreases parts.len() - i,
    {
        proof {
            let next = views(parts@.take(i + 1));
            assert(next.drop_last() =~= views(parts@.take(i as int)));
            assert(next.last() == parts@[i as int]@);
        }
        output.append(parts[i].part.as_str());
        i = i + 1;
    }
    proof {
        assert(parts@.take(i as int) =~= parts@);
    }
    output
}

/// What is written to the terminal for the line `parts`: its pieces, then
/// the rest of the line filled with `background`.
pub fn frame(parts: &Vec<LinePart>, background: PaletteColor) -> (output: String)
    ensures
        output@ == joined(views(parts@)) + fill_text(background),
{
    let mut output = line_text(parts);
    match background {
        PaletteColor::Rgb(r, g, b) => {
            output.append("\u{1b}[48;2;");
            output.append(decimal_string(r as usize).as_str());
            output.append(";");
            output.append(decimal_string(g as usize).as_str());
            output.append(";");
            output.append(decimal_string(b as usize).as_str());
            output.append("m\u{1b}[0K");
        },
        PaletteColor::EightBit(color) => {
            output.append("\u{1b}[48;5;");
            output.append(decimal_string(color as usize).as_str());
            output.append("m\u{1b}[0K");
        },
    }
    proof {
        assert(output@ =~= joined(views(parts@)) + fill_text(background));
    }
    output
}

} // verus!
