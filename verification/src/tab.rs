//! Single tabs: how one is drawn, which one a click lands on, and which one
//! the wheel moves to.

use crate::fit::capped;
use crate::line::{separator_text, tab_separator};
use crate::part::{
    lemma_total_width_add, lemma_total_width_one, total_width, views, LinePart, LinePartView,
};
use crate::style::{paint_ribbon, painted_ribbon, PaletteColor, PluginCapabilities, Styling};
use crate::width::{display_width, str_width};
use vstd::prelude::*;
use vstd::string::*;

verus! {

/// The piece of `parts` that covers the column `col`, counted from 0: the
/// first one, from the left, that ends beyond it.
pub open spec fn clicked_part(parts: Seq<LinePartView>, col: nat) -> Option<LinePartView>
    decreases parts.len(),
{
    if parts.len() == 0 {
        None
    } else if col < parts[0].len {
        Some(parts[0])
    } else {
        clicked_part(parts.drop_first(), (col - parts[0].len) as nat)
    }
}

/// The column at which the piece at `place` begins.
pub open spec fn offset(parts: Seq<LinePartView>, place: int) -> nat {
    total_width(parts.take(place))
}

/// Whether the piece at `place` covers the column `col`.
pub open spec fn covers(parts: Seq<LinePartView>, place: int, col: nat) -> bool {
    &&& 0 <= place < parts.len()
    &&& offset(parts, place) <= col < offset(parts, place) + parts[place].len
}

/// The tab that a click on the column `col` selects: the one that the piece
/// under the click names, if there is a piece there and it names one.
pub open spec fn clicked_tab_of(parts: Seq<LinePartView>, col: nat) -> Option<nat> {
    match clicked_part(parts, col) {
        Some(part) => part.tab_index,
        None => None,
    }
}

/// The piece at `place` begins where the piece before it ends.
proof fn lemma_offset_step(parts: Seq<LinePartView>, place: int)
    requires
        0 <= place < parts.len(),
    ensures
        offset(parts, place + 1) == offset(parts, place) + parts[place].len,
        offset(parts, 0) == 0,
{
    assert(parts.take(place + 1).drop_last() =~= parts.take(place));
    assert(parts.take(0) =~= Seq::<LinePartView>::empty());
}

/// Without its first piece, a row has its other pieces one place and the
/// first piece's columns further to the left.
proof fn lemma_offset_drop_first(parts: Seq<LinePartView>, place: int)
    requires
        0 < place <= parts.len(),
    ensures
        offset(parts, place) == parts[0].len + offset(parts.drop_first(), place - 1),
{
    assert(parts.take(place) =~= seq![parts[0]] + parts.drop_first().take(place - 1));
    lemma_total_width_add(seq![parts[0]], parts.drop_first().take(place - 1));
    lemma_total_width_one(parts[0]);
}

/// A column that a piece covers is a click on that piece.
pub proof fn lemma_covered_is_clicked(parts: Seq<LinePartView>, place: int, col: nat)
    requires
        covers(parts, place, col),
    ensures
        clicked_part(parts, col) == Some(parts[place]),
    decreases parts.len(),
{
    if place == 0 {
        lemma_offset_step(parts, 0);
    } else {
        lemma_offset_drop_first(parts, place);
        lemma_offset_drop_first(parts, place + 1);
        lemma_offset_step(parts, place);
        let rest = parts.drop_first();
        assert(rest[place - 1] == parts[place]);
        lemma_offset_step(rest, place - 1);
        lemma_covered_is_clicked(rest, place - 1, (col - parts[0].len) as nat);
    }
}

/// A click lands on a piece only where that piece covers the column, and on
/// none only beyond the end of the row.
pub proof fn lemma_clicked_is_covered(parts: Seq<LinePartView>, col: nat)
    ensures
        match clicked_part(parts, col) {
            Some(part) => exists|place: int| #[trigger]
                covers(parts, place, col) && parts[place] == part,
            None => col >= total_width(parts),
        },
    decreases parts.len(),
{
    if parts.len() == 0 {
    } else if col < parts[0].len {
        lemma_offset_step(parts, 0);
        assert(covers(parts, 0, col));
    } else {
        let rest = parts.drop_first();
        let inner = (col - parts[0].len) as nat;
        lemma_clicked_is_covered(rest, inner);
        assert(parts =~= seq![parts[0]] + rest);
        lemma_total_width_add(seq![parts[0]], rest);
        lemma_total_width_one(parts[0]);
        match clicked_part(rest, inner) {
            Some(part) => {
                let place = choose|place: int| #[trigger]
                    covers(rest, place, inner) && rest[place] == part;
                lemma_offset_drop_first(parts, place + 1);
                assert(parts[place + 1] == rest[place]);
                assert(covers(parts, place + 1, col));
            },
            None => {},
        }
    }
}

/// The tab that a click on the column `col` of the line `tab_line` selects,
/// if the click lands on a piece that names one.
pub fn clicked_tab(tab_line: &Vec<LinePart>, col: usize) -> (tab: Option<usize>)
    ensures
        match tab {
            Some(index) => clicked_tab_of(views(tab_line@), col as nat) == Some(index as nat),
            None => clicked_tab_of(views(tab_line@), col as nat) is None,
        },
{
    let mut rest: usize = col;
    let mut i: usize = 0;
    assert(views(tab_line@).skip(0) =~= views(tab_line@));
    while i < tab_line.len()
        invariant
            i <= tab_line.len(),
            clicked_part(views(tab_line@), col as nat) == clicked_part(
                views(tab_line@).skip(i as int),
                rest as nat,
            ),
        decreases tab_line.len() - i,
    {
        proof {
            let left = views(tab_line@).skip(i as int);
            assert(left[0] == tab_line@[i as int]@);
            assert(left.drop_first() =~= views(tab_line@).skip(i + 1));
        }
        if rest < tab_line[i].len {
            return tab_line[i].tab_index;
        }
        rest = rest - tab_line[i].len;
        i = i + 1;
    }
    None
}

/// The tab to switch to after a click on the column `mouse_click_col`: the
/// one that the piece under the click names, counted from 1, unless it is
/// the active one already.
pub open spec fn tab_to_focus(
    parts: Seq<LinePartView>,
    active_tab_idx: nat,
    col: nat,
) -> Option<nat> {
    match clicked_tab_of(parts, col) {
        Some(index) => if index + 1 != active_tab_idx && index + 1 <= usize::MAX {
            Some(index + 1)
        } else {
            None
        },
        None => None,
    }
}

/// Finds the tab to switch to after a click on the column
/// `mouse_click_col`. Tabs are counted from 1 here, as `active_tab_idx` is.
pub fn get_tab_to_focus(
    tab_line: &Vec<LinePart>,
    active_tab_idx: usize,
    mouse_click_col: usize,
) -> (tab: Option<usize>)
    ensures
        match tab {
            Some(index) => tab_to_focus(
                views(tab_line@),
                active_tab_idx as nat,
                mouse_click_col as nat,
            ) == Some(index as nat),
            None => tab_to_focus(views(tab_line@), active_tab_idx as nat, mouse_click_col as nat)
                is None,
        },
{
    match clicked_tab(tab_line, mouse_click_col) {
        Some(clicked_tab_idx) => {
            // tabs are counted from 1 by those who switch between them
            match clicked_tab_idx.checked_add(1) {
                Some(clicked_tab_idx) => if clicked_tab_idx != active_tab_idx {
                    Some(clicked_tab_idx)
                } else {
                    None
                },
                None => None,
            }
        },
        None => None,
    }
}

/// The tab that the wheel, turned up, moves to from the tab
/// `active_tab_idx` of `tab_count`: the next one, or the last.
pub fn next_tab(active_tab_idx: usize, tab_count: usize) -> (tab: usize)
    ensures
        tab == if active_tab_idx + 1 <= tab_count {
            active_tab_idx + 1
        } else {
            tab_count as int
        },
{
    let next: usize = active_tab_idx.saturating_add(1);
    if next <= tab_count {
        next
    } else {
        tab_count
    }
}

/// The tab that the wheel, turned down, moves to from the tab
/// `active_tab_idx`: the one before it, or the first.
pub fn previous_tab(active_tab_idx: usize) -> (tab: usize)
    ensures
        tab == if active_tab_idx - 1 >= 1 {
            active_tab_idx - 1
        } else {
            1
        },
{
    let previous: usize = active_tab_idx.saturating_sub(1);
    if previous >= 1 {
        previous
    } else {
        1
    }
}

/// What the line needs to know of a tab.
#[derive(Debug)]
pub struct TabInfo {
    pub name: String,
    pub position: usize,
    pub active: bool,
    pub is_swap_layout_dirty: bool,
    pub active_swap_layout_name: Option<String>,
}

/// The name of a tab between two blanks.
pub open spec fn tab_text(name: Seq<char>) -> Seq<char> {
    " "@ + name + " "@
}

/// The colour of a tab's ribbon: one for the active tab, and for the others
/// one of two in turn where the font can draw slanted edges.
pub open spec fn tab_fill(
    active: bool,
    is_alternate_tab: bool,
    palette: Styling,
    capabilities: PluginCapabilities,
) -> PaletteColor {
    if active {
        palette.ribbon_selected.background
    } else if is_alternate_tab && capabilities.arrow_fonts {
        palette.ribbon_unselected.emphasis_1
    } else {
        palette.ribbon_unselected.background
    }
}

/// The colour of a tab's name.
pub open spec fn tab_ink(active: bool, palette: Styling) -> PaletteColor {
    if active {
        palette.ribbon_selected.base
    } else {
        palette.ribbon_unselected.base
    }
}

/// The piece that shows the tab called `name` at `position`: a ribbon with
/// the name between blanks, as wide as the name, the two blanks and the two
/// separators. A click on it selects `position`.
pub open spec fn tab_view(
    name: Seq<char>,
    position: nat,
    active: bool,
    is_alternate_tab: bool,
    palette: Styling,
    capabilities: PluginCapabilities,
) -> LinePartView {
    let separator = separator_text(capabilities);
    LinePartView {
        part: painted_ribbon(
            separator,
            tab_text(name),
            tab_ink(active, palette),
            palette.text_unselected.background,
            tab_fill(active, is_alternate_tab, palette, capabilities),
        ),
        len: capped(display_width(name) + 2 * display_width(separator) + 2),
        tab_index: Some(position),
    }
}

/// Draws the tab `tab` under the name `tabname`.
pub fn tab_style(
    tabname: String,
    tab: &TabInfo,
    is_alternate_tab: bool,
    palette: Styling,
    capabilities: PluginCapabilities,
) -> (part: LinePart)
    ensures
        part@ == tab_view(
            tabname@,
            tab.position as nat,
            tab.active,
            is_alternate_tab,
            palette,
            capabilities,
        ),
{
    let separator = tab_separator(capabilities);
    let separator_width: usize = str_width(separator);
    // alternate tabs are told apart by colour only between slanted edges
    let is_alternate_tab = is_alternate_tab && capabilities.arrow_fonts;
    let background_color = if tab.active {
        palette.ribbon_selected.background
    } else if is_alternate_tab {
        palette.ribbon_unselected.emphasis_1
    } else {
        palette.ribbon_unselected.background
    };
    let foreground_color = if tab.active {
        palette.ribbon_selected.base
    } else {
        palette.ribbon_unselected.base
    };
    let separator_fill_color = palette.text_unselected.background;
    // two more columns for the blanks
    let tab_text_len: usize = str_width(tabname.as_str()).saturating_add(
        separator_width.saturating_add(separator_width),
    ).saturating_add(2);
    let mut text = String::from_str(" ");
    text.append(tabname.as_str());
    text.append(" ");
    let tab_styled_text = paint_ribbon(
        separator,
        text.as_str(),
        foreground_color,
        separator_fill_color,
        background_color,
    );
    LinePart { part: tab_styled_text, len: tab_text_len, tab_index: Some(tab.position) }
}

} // verus!
