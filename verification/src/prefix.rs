//! The fixed pieces at the start of the line: a label, the name of the
//! session and the badge of the input mode.

use crate::mode::{mode_text, InputMode, ModeKind};
use crate::part::{views, LinePart, LinePartView};
use crate::style::{paint, painted, Emphasis, PaletteColor, Styling};
use crate::width::{display_width, str_width};
use vstd::prelude::*;
use vstd::string::*;

verus! {

/// The label that opens the line. It is empty.
pub open spec fn label_view(palette: Styling) -> LinePartView {
    LinePartView {
        part: painted(
            ""@,
            palette.text_unselected.base,
            palette.text_unselected.background,
            Emphasis::Bold,
        ),
        len: 0,
        tab_index: None,
    }
}

/// The name of the session in round brackets.
pub open spec fn name_text(name: Seq<char>) -> Seq<char> {
    "("@ + name + ")"@
}

/// The piece that shows the name of the session.
pub open spec fn name_view(name: Seq<char>, palette: Styling) -> LinePartView {
    LinePartView {
        part: painted(
            name_text(name),
            palette.text_unselected.base,
            palette.text_unselected.background,
            Emphasis::Bold,
        ),
        len: display_width(name_text(name)),
        tab_index: None,
    }
}

/// The name of the mode between two blanks.
pub open spec fn badge_text(mode: InputMode) -> Seq<char> {
    " "@ + mode_text(mode) + " "@
}

/// The colour of the badge: one for the locked mode, one for the normal
/// mode, one for all others.
pub open spec fn badge_color(mode: InputMode, palette: Styling) -> PaletteColor {
    match mode.spec_kind() {
        ModeKind::Locked => palette.text_unselected.emphasis_3,
        ModeKind::Normal => palette.text_unselected.emphasis_2,
        ModeKind::Other => palette.text_unselected.emphasis_0,
    }
}

/// The badge of the input mode.
pub open spec fn badge_view(mode: InputMode, palette: Styling) -> LinePartView {
    LinePartView {
        part: painted(
            badge_text(mode),
            badge_color(mode, palette),
            palette.text_unselected.background,
            Emphasis::Bold,
        ),
        len: display_width(badge_text(mode)),
        tab_index: None,
    }
}

/// A session's name, if there is one, as text.
pub open spec fn session_text(session_name: Option<&str>) -> Option<Seq<char>> {
    match session_name {
        Some(name) => Some(name@),
        None => None,
    }
}

/// The prefix of a line of `cols` columns: the label, then the name of the
/// session and the badge of the mode, each of them only where it fits in
/// `cols` by itself. What one of them takes is not held against the other.
pub open spec fn prefix_view(
    session_name: Option<Seq<char>>,
    mode: InputMode,
    palette: Styling,
    cols: nat,
) -> Seq<LinePartView> {
    let name = match session_name {
        Some(name) => if display_width(name_text(name)) <= cols {
            seq![name_view(name, palette)]
        } else {
            Seq::empty()
        },
        None => Seq::empty(),
    };
    let badge = if display_width(badge_text(mode)) <= cols {
        seq![badge_view(mode, palette)]
    } else {
        Seq::empty()
    };
    seq![label_view(palette)] + name + badge
}

/// Builds the prefix of a line of `cols` columns.
pub fn tab_line_prefix(
    session_name: Option<&str>,
    mode: InputMode,
    palette: Styling,
    cols: usize,
) -> (parts: Vec<LinePart>)
    ensures
        views(parts@) == prefix_view(
            session_text(session_name),
            mode,
            palette,
            cols as nat,
        ),
{
    let prefix_text = "";
    let prefix_text_len: usize = 0;
    let text_color = palette.text_unselected.base;
    let bg_color = palette.text_unselected.background;
    let locked_mode_color = palette.text_unselected.emphasis_3;
    let normal_mode_color = palette.text_unselected.emphasis_2;
    let other_modes_color = palette.text_unselected.emphasis_0;

    let prefix_styled_text = paint(prefix_text, text_color, bg_color, Emphasis::Bold);
    let mut parts: Vec<LinePart> = Vec::new();
    parts.push(LinePart { part: prefix_styled_text, len: prefix_text_len, tab_index: None });
    if let Some(name) = session_name {
        let mut name_part = String::from_str("(");
        name_part.append(name);
        name_part.append(")");
        let name_part_len: usize = str_width(name_part.as_str());
        let name_part_styled_text = paint(name_part.as_str(), text_color, bg_color, Emphasis::Bold);
        if cols.saturating_sub(prefix_text_len) >= name_part_len {
            parts.push(
                LinePart { part: name_part_styled_text, len: name_part_len, tab_index: None },
            );
        }
    }
    let mut mode_part_padded = String::from_str(" ");
    mode_part_padded.append(mode.name());
    mode_part_padded.append(" ");
    let mode_part_len: usize = str_width(mode_part_padded.as_str());
    let mode_color = match mode.kind() {
        ModeKind::Locked => locked_mode_color,
        ModeKind::Normal => normal_mode_color,
        ModeKind::Other => other_modes_color,
    };
    let mode_part_styled_text = paint(
        mode_part_padded.as_str(),
        mode_color,
        bg_color,
        Emphasis::Bold,
    );
    if cols.saturating_sub(prefix_text_len) >= mode_part_len {
        parts.push(LinePart { part: mode_part_styled_text, len: mode_part_len, tab_index: None });
    }
    proof {
        assert(views(parts@) =~= prefix_view(
            session_text(session_name),
            mode,
            palette,
            cols as nat,
        ));
    }
    parts
}

} // verus!
