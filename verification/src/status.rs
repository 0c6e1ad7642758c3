//! The widgets at the right end of the line: the clock, the load of the
//! machine and the name of the layout in use.

use crate::fit::capped;
use crate::load::{load_color, load_color_of, LoadAverage};
use crate::mode::{InputMode, ModeKind};
use crate::part::{
    lemma_total_width_add, lemma_total_width_one, total_width, views, LinePart, LinePartView,
};
use crate::style::{paint, painted, Emphasis, Palette, PaletteColor, Styling};
use crate::width::{display_width, str_width};
use vstd::prelude::*;
use vstd::string::*;

verus! {

/// The clock: the separator and `time`, in the colours of the selected
/// ribbon.
pub open spec fn time_view(palette: Styling, separator: Seq<char>, time: Seq<char>) -> LinePartView {
    LinePartView {
        part: painted(
            separator + time,
            palette.text_unselected.background,
            palette.ribbon_selected.background,
            Emphasis::Plain,
        ),
        len: display_width(separator + time),
        tab_index: None,
    }
}

/// Builds the clock from what it says.
pub fn time_status(palette: Styling, separator: &str, time: &str) -> (status: LinePart)
    ensures
        status@ == time_view(palette, separator@, time@),
{
    let mut part = String::from_str(separator);
    part.append(time);
    let len: usize = str_width(part.as_str());

    let bg = palette.text_unselected.background;
    let green = palette.ribbon_selected.background;
    let part = paint(part.as_str(), bg, green, Emphasis::Plain);

    LinePart { part, len, tab_index: None }
}

/// Three load figures, each between blanks.
pub open spec fn loads_text(one: Seq<char>, five: Seq<char>, fifteen: Seq<char>) -> Seq<char> {
    " "@ + one + " "@ + five + " "@ + fifteen + " "@
}

/// The load widget: the three figures between two separators, in the colour
/// that goes with the load. The colour has no part in the width.
pub open spec fn load_view(
    styling: Styling,
    palette: Palette,
    separator: Seq<char>,
    one: Seq<char>,
    five: Seq<char>,
    fifteen: Seq<char>,
    percent: nat,
) -> LinePartView {
    let bg = styling.text_unselected.background;
    let color = load_color_of(percent, palette);
    let loads = loads_text(one, five, fifteen);
    LinePartView {
        part: painted(
            painted(separator, bg, color, Emphasis::Plain) + painted(
                loads,
                bg,
                color,
                Emphasis::Plain,
            ) + painted(separator, color, bg, Emphasis::Plain),
            bg,
            color,
            Emphasis::Plain,
        ),
        len: display_width(separator + loads + separator),
        tab_index: None,
    }
}

/// Builds the load widget from the figures that were read.
pub fn load_status(styling: Styling, palette: &Palette, separator: &str, load: &LoadAverage) -> (status:
    LinePart)
    ensures
        status@ == load_view(
            styling,
            *palette,
            separator@,
            load.one@,
            load.five@,
            load.fifteen@,
            load.percent as nat,
        ),
{
    let bg = styling.text_unselected.background;
    let color = load_color(load.percent, palette);

    let mut loads = String::from_str(" ");
    loads.append(load.one.as_str());
    loads.append(" ");
    loads.append(load.five.as_str());
    loads.append(" ");
    loads.append(load.fifteen.as_str());
    loads.append(" ");

    let mut part = String::from_str(separator);
    part.append(loads.as_str());
    part.append(separator);
    let len: usize = str_width(part.as_str());

    let mut part = paint(separator, bg, color, Emphasis::Plain);
    part.append(paint(loads.as_str(), bg, color, Emphasis::Plain).as_str());
    part.append(paint(separator, color, bg, Emphasis::Plain).as_str());

    let part = paint(part.as_str(), bg, color, Emphasis::Plain);
    LinePart { part, len, tab_index: None }
}

/// `c` as a capital where it is one of the letters `a` to `z`, else `c`.
pub open spec fn ascii_upper(c: char) -> char {
    if 'a' <= c && c <= 'z' {
        ((c as u8 - 32) as u8) as char
    } else {
        c
    }
}

/// `text` with its letters `a` to `z` as capitals.
pub open spec fn ascii_uppercase(text: Seq<char>) -> Seq<char> {
    text.map_values(|c: char| ascii_upper(c))
}

/// Calls `String::make_ascii_uppercase`.
///
/// Trusted: the letters `a` to `z` become `A` to `Z`, and every other
/// character stays as it is.
#[verifier::external_body]
fn make_uppercase(text: &mut String)
    ensures
        final(text)@ == ascii_uppercase(old(text)@),
{
    text.make_ascii_uppercase();
}

/// The name of a layout as the line shows it: in capitals, between blanks.
pub open spec fn layout_text(name: Seq<char>) -> Seq<char> {
    ascii_uppercase(" "@ + name + " "@)
}

/// The columns of the full form of the layout widget: those of its text and
/// of two separators.
pub open spec fn layout_width(name: Seq<char>, separator: Seq<char>) -> nat {
    capped(display_width(layout_text(name)) + 2 * display_width(separator))
}

/// The colour behind the name of the layout: one while the layout is as it
/// was declared and the session is not locked, another otherwise.
pub open spec fn layout_color(damaged: bool, mode: InputMode, palette: Styling) -> PaletteColor {
    if mode.spec_kind() == ModeKind::Locked || damaged {
        palette.ribbon_unselected.background
    } else {
        palette.ribbon_selected.background
    }
}

/// How the name of the layout is written: slanted while the session is
/// locked, heavy otherwise.
pub open spec fn layout_emphasis(mode: InputMode) -> Emphasis {
    if mode.spec_kind() == ModeKind::Locked {
        Emphasis::Italic
    } else {
        Emphasis::Bold
    }
}

/// The name of the layout between two separators, painted.
pub open spec fn layout_painted(
    name: Seq<char>,
    damaged: bool,
    mode: InputMode,
    palette: Styling,
    separator: Seq<char>,
) -> Seq<char> {
    let bg = palette.text_unselected.background;
    let color = layout_color(damaged, mode, palette);
    painted(separator, bg, color, Emphasis::Plain) + painted(
        layout_text(name),
        bg,
        color,
        layout_emphasis(mode),
    ) + painted(separator, color, bg, Emphasis::Plain)
}

/// The columns given to the layout widget within `max_len`: those of the
/// full form where it fits; else one less, for the short form, where that
/// fits and the session is not locked; else none.
pub open spec fn layout_len(full_len: nat, max_len: nat, mode: InputMode) -> Option<nat> {
    if full_len <= max_len {
        Some(full_len)
    } else if full_len - 1 <= max_len && mode.spec_kind() != ModeKind::Locked {
        Some((full_len - 1) as nat)
    } else {
        None
    }
}

/// The layout widget within `max_len` columns, if there is a layout to name
/// and room to name it.
pub open spec fn swap_layout_view(
    max_len: nat,
    name: Option<Seq<char>>,
    damaged: bool,
    mode: InputMode,
    palette: Styling,
    separator: Seq<char>,
) -> Option<LinePartView> {
    match name {
        Some(name) => match layout_len(layout_width(name, separator), max_len, mode) {
            Some(len) => Some(
                LinePartView {
                    part: layout_painted(name, damaged, mode, palette, separator),
                    len,
                    tab_index: None,
                },
            ),
            None => None,
        },
        None => None,
    }
}

/// The name of a layout, if there is one, as text.
pub open spec fn layout_name_text(name: Option<String>) -> Option<Seq<char>> {
    match name {
        Some(name) => Some(name@),
        None => None,
    }
}

/// Builds the widget that names the layout in use, within `max_len`
/// columns.
pub fn swap_layout_status(
    max_len: usize,
    swap_layout_name: &Option<String>,
    is_swap_layout_damaged: bool,
    input_mode: InputMode,
    palette: &Styling,
    separator: &str,
) -> (status: Option<LinePart>)
    ensures
        match status {
            Some(part) => swap_layout_view(
                max_len as nat,
                layout_name_text(*swap_layout_name),
                is_swap_layout_damaged,
                input_mode,
                *palette,
                separator@,
            ) == Some(part@),
            None => swap_layout_view(
                max_len as nat,
                layout_name_text(*swap_layout_name),
                is_swap_layout_damaged,
                input_mode,
                *palette,
                separator@,
            ) is None,
        },
{
    match swap_layout_name {
        Some(swap_layout_name) => {
            let mut name = String::from_str(" ");
            name.append(swap_layout_name.as_str());
            name.append(" ");
            make_uppercase(&mut name);
            let bg = palette.text_unselected.background;
            let fg = palette.ribbon_unselected.background;
            let green = palette.ribbon_selected.background;
            let locked = input_mode.kind() == ModeKind::Locked;

            let color = if locked || is_swap_layout_damaged {
                fg
            } else {
                green
            };
            let emphasis = if locked {
                Emphasis::Italic
            } else {
                Emphasis::Bold
            };
            let mut swap_layout_indicator = paint(separator, bg, color, Emphasis::Plain);
            swap_layout_indicator.append(paint(name.as_str(), bg, color, emphasis).as_str());
            swap_layout_indicator.append(paint(separator, color, bg, Emphasis::Plain).as_str());

            let separator_width: usize = str_width(separator);
            let full_len: usize = str_width(name.as_str()).saturating_add(
                separator_width.saturating_add(separator_width),
            );
            if full_len <= max_len {
                Some(LinePart { part: swap_layout_indicator, len: full_len, tab_index: None })
            } else if full_len - 1 <= max_len && !locked {
                // the short form gives up a column of its surroundings
                Some(LinePart { part: swap_layout_indicator, len: full_len - 1, tab_index: None })
            } else {
                None
            }
        },
        None => None,
    }
}

/// `piece` written `times` times over.
pub open spec fn repeated(piece: Seq<char>, times: nat) -> Seq<char>
    decreases times,
{
    if times == 0 {
        Seq::empty()
    } else {
        repeated(piece, (times - 1) as nat) + piece
    }
}

/// `columns` blanks in the colour of the background.
pub open spec fn padding_view(columns: nat, palette: Styling) -> LinePartView {
    LinePartView {
        part: repeated(
            painted(
                " "@,
                palette.text_unselected.background,
                palette.text_unselected.background,
                Emphasis::Plain,
            ),
            columns,
        ),
        len: columns,
        tab_index: None,
    }
}

/// A widget, if it fits in `space` columns.
pub open spec fn admitted(space: nat, widget: LinePartView) -> Seq<LinePartView> {
    if widget.len <= space {
        seq![widget]
    } else {
        Seq::empty()
    }
}

/// What is left of `space` columns once a widget was offered them: less by
/// its width if it fits, all of them if it does not.
pub open spec fn space_after(space: nat, widget: LinePartView) -> nat {
    if widget.len <= space {
        (space - widget.len) as nat
    } else {
        space
    }
}

/// The layout widget in what is left after the clock and the load. It is
/// not tried where nothing is left.
pub open spec fn layout_in(
    space: nat,
    name: Option<Seq<char>>,
    damaged: bool,
    mode: InputMode,
    palette: Styling,
    separator: Seq<char>,
) -> Seq<LinePartView> {
    if space > 0 {
        match swap_layout_view(space, name, damaged, mode, palette, separator) {
            Some(layout) => seq![layout],
            None => Seq::empty(),
        }
    } else {
        Seq::empty()
    }
}

/// The right end of the line in `space` columns. The clock is offered the
/// space first, then the load what the clock left, then the layout what
/// both left; one that does not fit is left out and the next is still
/// tried. They are drawn from the right in that order, after blanks that
/// take up what none of them took.
pub open spec fn status_view(
    space: nat,
    clock: LinePartView,
    load: LinePartView,
    layout_name: Option<Seq<char>>,
    damaged: bool,
    mode: InputMode,
    palette: Styling,
    separator: Seq<char>,
) -> Seq<LinePartView> {
    let after_clock = space_after(space, clock);
    let after_load = space_after(after_clock, load);
    let layout = layout_in(after_load, layout_name, damaged, mode, palette, separator);
    let rest = (after_load - total_width(layout)) as nat;
    seq![padding_view(rest, palette)] + layout + admitted(after_clock, load) + admitted(
        space,
        clock,
    )
}

/// The right end of the line takes up exactly the space it was given.
pub proof fn lemma_status_width(
    space: nat,
    clock: LinePartView,
    load: LinePartView,
    layout_name: Option<Seq<char>>,
    damaged: bool,
    mode: InputMode,
    palette: Styling,
    separator: Seq<char>,
)
    ensures
        total_width(
            status_view(space, clock, load, layout_name, damaged, mode, palette, separator),
        ) == space,
{
    let after_clock = space_after(space, clock);
    let after_load = space_after(after_clock, load);
    let layout = layout_in(after_load, layout_name, damaged, mode, palette, separator);
    let rest = (after_load - total_width(layout)) as nat;
    let padding = seq![padding_view(rest, palette)];
    if layout.len() > 0 {
        lemma_total_width_one(layout[0]);
        assert(layout =~= seq![layout[0]]);
    } else {
        assert(layout =~= Seq::<LinePartView>::empty());
    }
    lemma_total_width_one(padding_view(rest, palette));
    lemma_total_width_one(load);
    lemma_total_width_one(clock);
    lemma_total_width_add(padding, layout);
    lemma_total_width_add(padding + layout, admitted(after_clock, load));
    lemma_total_width_add(padding + layout + admitted(after_clock, load), admitted(space, clock));
}

/// Where the clock fits but not the clock and the load together, the clock
/// is drawn, at the very end, and the load is not.
pub proof fn lemma_clock_before_load(
    space: nat,
    clock: LinePartView,
    load: LinePartView,
    layout_name: Option<Seq<char>>,
    damaged: bool,
    mode: InputMode,
    palette: Styling,
    separator: Seq<char>,
)
    requires
        clock.len <= space,
        clock.len + load.len > space,
    ensures
        admitted(space, clock) == seq![clock],
        admitted(space_after(space, clock), load) == Seq::<LinePartView>::empty(),
        status_view(space, clock, load, layout_name, damaged, mode, palette, separator) == seq![
            padding_view(
                (space - clock.len - total_width(
                    layout_in(
                        (space - clock.len) as nat,
                        layout_name,
                        damaged,
                        mode,
                        palette,
                        separator,
                    ),
                )) as nat,
                palette,
            ),
        ] + layout_in((space - clock.len) as nat, layout_name, damaged, mode, palette, separator)
            + seq![clock],
{
    let after_clock = space_after(space, clock);
    let layout = layout_in(after_clock, layout_name, damaged, mode, palette, separator);
    let rest = (after_clock - total_width(layout)) as nat;
    assert(seq![padding_view(rest, palette)] + layout + Seq::<LinePartView>::empty() + seq![clock]
        =~= seq![padding_view(rest, palette)] + layout + seq![clock]);
}

/// Builds the right end of the line in `remaining_space` columns from the
/// clock and the load as they were built, and the layout in use.
pub fn status_line(
    remaining_space: usize,
    time_status: LinePart,
    load_status: LinePart,
    swap_layout_name: &Option<String>,
    is_swap_layout_dirty: bool,
    mode: InputMode,
    palette: &Styling,
    separator: &str,
) -> (parts: Vec<LinePart>)
    ensures
        views(parts@) == status_view(
            remaining_space as nat,
            time_status@,
            load_status@,
            layout_name_text(*swap_layout_name),
            is_swap_layout_dirty,
            mode,
            *palette,
            separator@,
        ),
{
    let mut rest: usize = remaining_space;
    let clock_fits = rest >= time_status.len;
    if clock_fits {
        rest = rest - time_status.len;
    }
    let load_fits = rest >= load_status.len;
    if load_fits {
        rest = rest - load_status.len;
    }
    let swap_layout = if rest > 0 {
        swap_layout_status(
            rest,
            swap_layout_name,
            is_swap_layout_dirty,
            mode,
            palette,
            separator,
        )
    } else {
        None
    };
    let ghost layout = layout_in(
        rest as nat,
        layout_name_text(*swap_layout_name),
        is_swap_layout_dirty,
        mode,
        *palette,
        separator@,
    );
    if let Some(status) = &swap_layout {
        proof {
            lemma_total_width_one(status@);
        }
        rest = rest - status.len;
    }
    let bg = palette.text_unselected.background;
    let blank = paint(" ", bg, bg, Emphasis::Plain);
    let mut buffer = String::new();
    let mut filled: usize = 0;
    while filled < rest
        invariant
            filled <= rest,
            buffer@ == repeated(blank@, filled as nat),
        decreases rest - filled,
    {
        buffer.append(blank.as_str());
        filled = filled + 1;
    }
    let mut parts: Vec<LinePart> = Vec::new();
    parts.push(LinePart { part: buffer, len: rest, tab_index: None });
    if let Some(status) = swap_layout {
        parts.push(status);
    }
    if load_fits {
        parts.push(load_status);
    }
    if clock_fits {
        parts.push(time_status);
    }
    proof {
        assert(views(parts@) =~= status_view(
            remaining_space as nat,
            time_status@,
            load_status@,
            layout_name_text(*swap_layout_name),
            is_swap_layout_dirty,
            mode,
            *palette,
            separator@,
        ));
    }
    parts
}

} // verus!
