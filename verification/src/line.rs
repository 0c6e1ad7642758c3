//! Putting the line together: the tabs around the active one, the prefix
//! before them and the status widgets after them.

use crate::fit::{
    all_wide, capped, collapsed_width, fit, fit_from, left_fits, left_indicator, left_more_view,
    left_width, lemma_centered, lemma_fit_within, lemma_left_width_step, lemma_rendered_width,
    lemma_right_width_step, next_step, rendered_tabs, right_fits, right_indicator,
    right_more_view, right_width, shown_width, Fit,
};
use crate::load::LoadAverage;
use crate::mode::InputMode;
use crate::part::{
    checked_title_len, get_current_title_len, lemma_total_width_add, lemma_total_width_one,
    lemma_views_add, lemma_views_cut, total_width, views, LinePart, LinePartView,
};
use crate::prefix::{prefix_view, session_text, tab_line_prefix};
use crate::status::{
    layout_name_text, lemma_status_width, load_status, load_view, status_line, status_view,
    time_status, time_view,
};
use crate::style::{paint_ribbon, Palette, PluginCapabilities, Styling};
use crate::text::{left_more_string, right_more_string};
use crate::width::str_width;
use vstd::prelude::*;

verus! {

/// The glyph that closes a ribbon where the font has no slanted edges.
pub const ARROW_SEPARATOR: &'static str = "\u{e0bc}";

/// The separator that goes with `capabilities`, as text.
pub open spec fn separator_text(capabilities: PluginCapabilities) -> Seq<char> {
    if !capabilities.arrow_fonts {
        ARROW_SEPARATOR@
    } else {
        ""@
    }
}

/// The separator drawn on both sides of every ribbon.
pub fn tab_separator(capabilities: PluginCapabilities) -> (separator: &'static str)
    ensures
        separator@ == separator_text(capabilities),
{
    if !capabilities.arrow_fonts {
        ARROW_SEPARATOR
    } else {
        ""
    }
}

/// The columns of a ribbon whose wording takes `text_width` columns and
/// whose separator takes `separator_width`.
fn ribbon_len(text_width: usize, separator_width: usize) -> (len: usize)
    ensures
        len == capped((text_width + 2 * separator_width) as nat),
{
    text_width.saturating_add(separator_width.saturating_add(separator_width))
}

/// The indicator that stands for `tab_count_to_the_left` hidden tabs.
pub fn left_more_message(
    tab_count_to_the_left: usize,
    palette: Styling,
    separator: &str,
    tab_index: usize,
) -> (message: LinePart)
    ensures
        message@ == left_more_view(
            tab_count_to_the_left as nat,
            palette,
            separator@,
            tab_index as nat,
        ),
{
    if tab_count_to_the_left == 0 {
        return LinePart::default();
    }
    let more_text = left_more_string(tab_count_to_the_left);
    let more_text_len = ribbon_len(str_width(more_text.as_str()), str_width(separator));
    let more_styled_text = paint_ribbon(
        separator,
        more_text.as_str(),
        palette.ribbon_unselected.base,
        palette.text_unselected.background,
        palette.text_selected.emphasis_0,
    );
    LinePart { part: more_styled_text, len: more_text_len, tab_index: Some(tab_index) }
}

/// The indicator that stands for `tab_count_to_the_right` hidden tabs.
pub fn right_more_message(
    tab_count_to_the_right: usize,
    palette: Styling,
    separator: &str,
    tab_index: usize,
) -> (message: LinePart)
    ensures
        message@ == right_more_view(
            tab_count_to_the_right as nat,
            palette,
            separator@,
            tab_index as nat,
        ),
{
    if tab_count_to_the_right == 0 {
        return LinePart::default();
    }
    let more_text = right_more_string(tab_count_to_the_right);
    let more_text_len = ribbon_len(str_width(more_text.as_str()), str_width(separator));
    let more_styled_text = paint_ribbon(
        separator,
        more_text.as_str(),
        palette.ribbon_unselected.base,
        palette.text_unselected.background,
        palette.text_selected.emphasis_0,
    );
    LinePart { part: more_styled_text, len: more_text_len, tab_index: Some(tab_index) }
}

/// The row that is drawn where the fitting stops with `left` and `right`
/// tabs taken and room for the indicators: the tabs shown, between the
/// indicators that were built for the hidden ones.
proof fn lemma_closed_row(
    all_before: Seq<LinePart>,
    all_middle: Seq<LinePart>,
    all_after: Seq<LinePart>,
    left: nat,
    right: nat,
    more_left: LinePart,
    more_right: LinePart,
    row: Seq<LinePart>,
    palette: Styling,
    separator: Seq<char>,
)
    requires
        left <= all_before.len(),
        right <= all_after.len(),
        more_left@ == left_more_view(
            (all_before.len() - left) as nat,
            palette,
            separator,
            (all_before.len() - left - 1) as nat,
        ),
        more_right@ == right_more_view(
            (all_after.len() - right) as nat,
            palette,
            separator,
            capped(all_before.len() + all_middle.len() + right),
        ),
        row == (if left < all_before.len() {
            seq![more_left]
        } else {
            Seq::<LinePart>::empty()
        }) + (all_before.skip(all_before.len() - left) + all_middle + all_after.take(
            right as int,
        )) + (if right < all_after.len() {
            seq![more_right]
        } else {
            Seq::<LinePart>::empty()
        }),
    ensures
        views(row) == rendered_tabs(
            views(all_before),
            views(all_after),
            views(all_middle),
            (Fit { left, right, collapsed: true }),
            palette,
            separator,
        ),
{
    assert(views(row) =~= rendered_tabs(
        views(all_before),
        views(all_after),
        views(all_middle),
        (Fit { left, right, collapsed: true }),
        palette,
        separator,
    ));
}

/// The row that is drawn where the fitting gives up with `left` and
/// `right` tabs taken: the tabs shown, and nothing beside them.
proof fn lemma_open_row(
    all_before: Seq<LinePart>,
    all_middle: Seq<LinePart>,
    all_after: Seq<LinePart>,
    left: nat,
    right: nat,
    palette: Styling,
    separator: Seq<char>,
)
    requires
        left <= all_before.len(),
        right <= all_after.len(),
    ensures
        views(
            all_before.skip(all_before.len() - left) + all_middle + all_after.take(right as int),
        ) == rendered_tabs(
            views(all_before),
            views(all_after),
            views(all_middle),
            (Fit { left, right, collapsed: false }),
            palette,
            separator,
        ),
{
    assert(views(
        all_before.skip(all_before.len() - left) + all_middle + all_after.take(right as int),
    ) =~= rendered_tabs(
        views(all_before),
        views(all_after),
        views(all_middle),
        (Fit { left, right, collapsed: false }),
        palette,
        separator,
    ));
}

/// Moves tabs out of `tabs_before_active` and `tabs_after_active` into
/// `tabs_to_render` for as long as they fit in `cols` columns, nearest tab
/// first and the narrower side first, and closes the row with the
/// indicators for the tabs that stay hidden.
///
/// What is taken and what is drawn is what `fit` and `rendered_tabs` say of
/// the rows as they were handed in; the tabs not taken stay where they were.
pub fn populate_tabs_in_tab_line(
    tabs_before_active: &mut Vec<LinePart>,
    tabs_after_active: &mut Vec<LinePart>,
    tabs_to_render: &mut Vec<LinePart>,
    cols: usize,
    palette: Styling,
    capabilities: PluginCapabilities,
)
    ensures
        ({
            let before = views(old(tabs_before_active)@);
            let after = views(old(tabs_after_active)@);
            let middle = views(old(tabs_to_render)@);
            let separator = separator_text(capabilities);
            let end = fit(before, after, total_width(middle), cols as nat, separator);
            let hidden_left = final(tabs_before_active)@.len();
            let hidden_right = final(tabs_after_active)@.len();
            let row = final(tabs_to_render)@;
            let more_left = left_indicator(before, end, palette, separator).len();
            let more_right = right_indicator(before, after, middle, end, palette, separator).len();
            // what is taken, and what is drawn
            &&& end.left <= before.len()
            &&& end.right <= after.len()
            &&& final(tabs_before_active)@ == old(tabs_before_active)@.take(
                before.len() - end.left,
            )
            &&& final(tabs_after_active)@ == old(tabs_after_active)@.skip(end.right as int)
            &&& views(row) == rendered_tabs(before, after, middle, end, palette, separator)
            // the tabs are all still there, as they were and in their order:
            // those hidden on the left, those between the indicators, those
            // hidden on the right
            &&& final(tabs_before_active)@ + row.subrange(
                more_left as int,
                row.len() - more_right,
            ) + final(tabs_after_active)@ == old(tabs_before_active)@ + old(tabs_to_render)@
                + old(tabs_after_active)@
            // a row around a middle that fits in `cols` fits in `cols`
            &&& total_width(middle) <= cols ==> total_width(views(row)) <= cols
            // an indicator counts the tabs that are hidden when the row is
            // closed, and selects the nearest of them
            &&& more_left == 1 ==> hidden_left > 0 && row.first()@ == left_more_view(
                hidden_left,
                palette,
                separator,
                (hidden_left - 1) as nat,
            )
            &&& more_right == 1 ==> hidden_right > 0 && row.last()@ == right_more_view(
                hidden_right,
                palette,
                separator,
                capped(before.len() + middle.len() + end.right),
            )
            // among tabs of one width, the two sides are served in turn
            &&& forall|width: nat|
                width > 0 && #[trigger] all_wide(before, width) && all_wide(after, width)
                    && hidden_left > 0 && hidden_right > 0 ==> end.right <= end.left
                    <= end.right + 1
        }),
{
    let ghost all_before = tabs_before_active@;
    let ghost all_after = tabs_after_active@;
    let ghost all_middle = tabs_to_render@;
    let ghost before = views(all_before);
    let ghost after = views(all_after);
    let ghost middle = total_width(views(all_middle));
    let ghost bound = cols as nat;
    let separator = tab_separator(capabilities);
    let ghost sep = separator@;

    proof {
        assert(before.skip(before.len() as int) =~= Seq::<LinePartView>::empty());
        assert(after.take(0) =~= Seq::<LinePartView>::empty());
        assert(all_before.skip(all_before.len() as int) + all_middle + all_after.take(0)
            =~= all_middle);
        assert(all_before.take(all_before.len() as int) =~= all_before);
        assert(all_after.skip(0) =~= all_after);
    }
    let mut middle_size: usize = match checked_title_len(tabs_to_render) {
        Some(len) => len,
        None => {
            // wider than any row: the row stays as it is
            proof {
                assert(next_step(before, after, middle, bound, sep, 0, 0) is GiveUp);
                lemma_open_row(all_before, all_middle, all_after, 0, 0, palette, sep);
                assert(all_middle.subrange(0, all_middle.len() as int) =~= all_middle);
                assert forall|width: nat|
                    width > 0 && #[trigger] all_wide(before, width) && all_wide(after, width)
                        && all_before.len() > 0 && all_after.len() > 0 implies 0 <= 0 <= 1 by {}
            }
            return;
        },
    };
    let mut total_left: usize = 0;
    let mut total_right: usize = 0;
    let mut fitting = true;
    let ghost mut left: nat = 0;
    let ghost mut right: nat = 0;
    let ghost mut lead = Seq::<LinePart>::empty();
    let ghost mut trail = Seq::<LinePart>::empty();
    while fitting
        invariant
            before == views(all_before),
            after == views(all_after),
            middle == total_width(views(all_middle)),
            bound == cols,
            sep == separator@,
            sep == separator_text(capabilities),
            left <= all_before.len(),
            right <= all_after.len(),
            tabs_before_active@ == all_before.take(all_before.len() - left),
            tabs_after_active@ == all_after.skip(right as int),
            fit_from(before, after, middle, bound, sep, left, right) == fit(
                before,
                after,
                middle,
                bound,
                sep,
            ),
            fitting ==> tabs_to_render@ == all_before.skip(all_before.len() - left) + all_middle
                + all_after.take(right as int),
            fitting ==> middle_size == shown_width(before, after, middle, left, right),
            fitting ==> total_left == left_width(before, left),
            fitting ==> total_right == right_width(after, right),
            !fitting ==> fit(before, after, middle, bound, sep).left == left,
            !fitting ==> fit(before, after, middle, bound, sep).right == right,
            !fitting ==> views(tabs_to_render@) == rendered_tabs(
                before,
                after,
                views(all_middle),
                fit(before, after, middle, bound, sep),
                palette,
                sep,
            ),
            !fitting ==> tabs_to_render@ == lead + (all_before.skip(all_before.len() - left)
                + all_middle + all_after.take(right as int)) + trail,
            !fitting ==> lead.len() == left_indicator(
                before,
                fit(before, after, middle, bound, sep),
                palette,
                sep,
            ).len(),
            !fitting ==> trail.len() == right_indicator(
                before,
                after,
                views(all_middle),
                fit(before, after, middle, bound, sep),
                palette,
                sep,
            ).len(),
        decreases
            tabs_before_active.len() + tabs_after_active.len() + (if fitting {
                1nat
            } else {
                0nat
            }),
    {
        let left_count: usize = tabs_before_active.len();
        let right_count: usize = tabs_after_active.len();

        // the tab to the left of the leftmost visible tab
        let left_more_tab_index: usize = left_count.saturating_sub(1);
        let collapsed_left = left_more_message(
            left_count,
            palette,
            separator,
            left_more_tab_index,
        );
        // the tab to the right of the rightmost visible tab
        let right_more_tab_index: usize = left_count.saturating_add(tabs_to_render.len());
        let collapsed_right = right_more_message(
            right_count,
            palette,
            separator,
            right_more_tab_index,
        );

        let total_size: u128 = collapsed_left.len as u128 + middle_size as u128
            + collapsed_right.len as u128;
        proof {
            assert(total_size == collapsed_width(before, after, middle, sep, left, right));
        }

        if total_size > cols as u128 {
            // not even the indicators fit: the row stays as it is
            proof {
                assert(next_step(before, after, middle, bound, sep, left, right) is GiveUp);
                lemma_open_row(all_before, all_middle, all_after, left, right, palette, sep);
                lead = Seq::empty();
                trail = Seq::empty();
                assert(tabs_to_render@ =~= lead + tabs_to_render@ + trail);
            }
            fitting = false;
        } else {
            // the row is shorter by an indicator once its last tab is shown
            let left_fits_in: bool = left_count > 0 && tabs_before_active[left_count - 1].len as u128
                + total_size - (if left_count == 1 {
                collapsed_left.len as u128
            } else {
                0
            }) <= cols as u128;
            let right_fits_in: bool = right_count > 0 && tabs_after_active[0].len as u128
                + total_size - (if right_count == 1 {
                collapsed_right.len as u128
            } else {
                0
            }) <= cols as u128;
            proof {
                if left_count > 0 {
                    assert(tabs_before_active@[left_count - 1]@ == before[left_count - 1]);
                }
                if right_count > 0 {
                    assert(tabs_after_active@[0]@ == after[right as int]);
                }
                assert(left_fits_in == left_fits(before, after, middle, bound, sep, left, right));
                assert(right_fits_in == right_fits(
                    before,
                    after,
                    middle,
                    bound,
                    sep,
                    left,
                    right,
                ));
            }

            // the active tab is kept in the middle by adding to the side
            // that has less width, or if the tab on the other side doesn't fit
            if (total_left <= total_right || !right_fits_in) && left_fits_in {
                proof {
                    assert(next_step(before, after, middle, bound, sep, left, right) is TakeLeft);
                    lemma_left_width_step(before, left);
                }
                let tab = tabs_before_active.pop().unwrap();
                middle_size = middle_size + tab.len;
                total_left = total_left + tab.len;
                tabs_to_render.insert(0, tab);
                proof {
                    let hidden = all_before.len() - left;
                    assert(tabs_to_render@ =~= all_before.skip(hidden - 1) + all_middle
                        + all_after.take(right as int));
                    assert(tabs_before_active@ =~= all_before.take(hidden - 1));
                    left = left + 1;
                }
            } else if right_fits_in {
                proof {
                    assert(next_step(before, after, middle, bound, sep, left, right) is TakeRight);
                    lemma_right_width_step(after, right);
                }
                let tab = tabs_after_active.remove(0);
                middle_size = middle_size + tab.len;
                total_right = total_right + tab.len;
                tabs_to_render.push(tab);
                proof {
                    assert(tabs_to_render@ =~= all_before.skip(all_before.len() - left)
                        + all_middle + all_after.take((right + 1) as int));
                    assert(tabs_after_active@ =~= all_after.skip((right + 1) as int));
                    right = right + 1;
                }
            } else {
                // no room for another tab, or no tab left: close the row
                proof {
                    assert(next_step(before, after, middle, bound, sep, left, right) is Collapse);
                }
                let ghost shown = tabs_to_render@;
                if left_count > 0 {
                    tabs_to_render.insert(0, collapsed_left);
                }
                if right_count > 0 {
                    tabs_to_render.push(collapsed_right);
                }
                proof {
                    lead = if left_count > 0 {
                        seq![collapsed_left]
                    } else {
                        Seq::<LinePart>::empty()
                    };
                    trail = if right_count > 0 {
                        seq![collapsed_right]
                    } else {
                        Seq::<LinePart>::empty()
                    };
                    assert(tabs_to_render@ =~= lead + shown + trail);
                    lemma_closed_row(
                        all_before,
                        all_middle,
                        all_after,
                        left,
                        right,
                        collapsed_left,
                        collapsed_right,
                        tabs_to_render@,
                        palette,
                        sep,
                    );
                }
                fitting = false;
            }
        }
    }
    proof {
        let end = fit(before, after, middle, bound, sep);
        let shown = all_before.skip(all_before.len() - left) + all_middle + all_after.take(
            right as int,
        );
        assert(tabs_to_render@.subrange(lead.len() as int, tabs_to_render@.len() - trail.len())
            =~= shown);
        assert(tabs_before_active@ + shown + tabs_after_active@ =~= all_before + all_middle
            + all_after);
        if middle <= bound {
            lemma_fit_within(before, after, middle, bound, sep);
            lemma_rendered_width(before, after, views(all_middle), end, palette, sep);
        }
        let row = rendered_tabs(before, after, views(all_middle), end, palette, sep);
        let more_left = left_indicator(before, end, palette, sep);
        let more_right = right_indicator(before, after, views(all_middle), end, palette, sep);
        if more_left.len() == 1 {
            assert(tabs_to_render@.first()@ == views(tabs_to_render@)[0]);
            assert(row[0] == more_left[0]);
        }
        if more_right.len() == 1 {
            assert(tabs_to_render@.last()@ == views(tabs_to_render@).last());
            assert(row.last() == more_right[0]);
        }
        assert forall|width: nat|
            width > 0 && #[trigger] all_wide(before, width) && all_wide(after, width)
                && tabs_before_active@.len() > 0 && tabs_after_active@.len()
                > 0 implies end.right <= end.left <= end.right + 1 by {
            lemma_centered(before, after, middle, bound, sep, width);
        }
    }
}

/// Where the active tab stands among `count` tabs when the caller names
/// the place `active_tab_index`: there, or at the end where the caller
/// names the place after the last tab.
pub open spec fn active_place(count: nat, active_tab_index: nat) -> int {
    if active_tab_index < count {
        active_tab_index as int
    } else {
        count - 1
    }
}

/// The session's name as the prefix gets it: none where it is to be hidden.
pub open spec fn shown_session(
    session_name: Option<Seq<char>>,
    hide_session_name: bool,
) -> Option<Seq<char>> {
    if hide_session_name {
        None
    } else {
        session_name
    }
}

/// Whether the line draws its tabs: there are tabs, the active one is among
/// them, and the prefix leaves it room.
pub open spec fn draws_tabs(
    session_name: Option<Seq<char>>,
    all_tabs: Seq<LinePartView>,
    active_tab_index: nat,
    cols: nat,
    palette: Styling,
    hide_session_name: bool,
    mode: InputMode,
) -> bool {
    let prefix = prefix_view(shown_session(session_name, hide_session_name), mode, palette, cols);
    &&& all_tabs.len() > 0
    &&& active_tab_index <= all_tabs.len()
    &&& total_width(prefix) + all_tabs[active_place(all_tabs.len(), active_tab_index)].len
        <= cols
}

/// The tabs of the line, fitted around the active one into what the prefix
/// leaves of `cols` columns.
pub open spec fn tabs_view(
    session_name: Option<Seq<char>>,
    all_tabs: Seq<LinePartView>,
    active_tab_index: nat,
    cols: nat,
    palette: Styling,
    capabilities: PluginCapabilities,
    hide_session_name: bool,
    mode: InputMode,
) -> Seq<LinePartView> {
    let place = active_place(all_tabs.len(), active_tab_index);
    let before = all_tabs.take(place);
    let active = all_tabs[place];
    let after = all_tabs.skip(place + 1);
    let prefix = prefix_view(shown_session(session_name, hide_session_name), mode, palette, cols);
    let budget = (cols - total_width(prefix)) as nat;
    let separator = separator_text(capabilities);
    rendered_tabs(
        before,
        after,
        seq![active],
        fit(before, after, active.len, budget, separator),
        palette,
        separator,
    )
}

/// The whole line of `cols` columns.
///
/// Without tabs, or with an active tab that is not among them, nothing is
/// drawn. Where the prefix leaves no room for the active tab, the prefix is
/// all there is. Otherwise the prefix is followed by the tabs, fitted around
/// the active one, and by the status widgets in what is left.
pub open spec fn tab_line_view(
    session_name: Option<Seq<char>>,
    all_tabs: Seq<LinePartView>,
    active_tab_index: nat,
    cols: nat,
    palette: Styling,
    load_palette: Palette,
    capabilities: PluginCapabilities,
    hide_session_name: bool,
    mode: InputMode,
    active_swap_layout_name: Option<Seq<char>>,
    is_swap_layout_dirty: bool,
    time: Seq<char>,
    load: LoadAverage,
) -> Seq<LinePartView> {
    let prefix = prefix_view(shown_session(session_name, hide_session_name), mode, palette, cols);
    let separator = separator_text(capabilities);
    if all_tabs.len() == 0 || active_tab_index > all_tabs.len() {
        Seq::empty()
    } else if !draws_tabs(
        session_name,
        all_tabs,
        active_tab_index,
        cols,
        palette,
        hide_session_name,
        mode,
    ) {
        prefix
    } else {
        let title = prefix + tabs_view(
            session_name,
            all_tabs,
            active_tab_index,
            cols,
            palette,
            capabilities,
            hide_session_name,
            mode,
        );
        title + status_view(
            (cols - total_width(title)) as nat,
            time_view(palette, separator, time),
            load_view(
                palette,
                load_palette,
                separator,
                load.one@,
                load.five@,
                load.fifteen@,
                load.percent as nat,
            ),
            active_swap_layout_name,
            is_swap_layout_dirty,
            mode,
            palette,
            separator,
        )
    }
}

/// The prefix and the tabs of a line that draws its tabs fit in `cols`.
pub proof fn lemma_title_within(
    session_name: Option<Seq<char>>,
    all_tabs: Seq<LinePartView>,
    active_tab_index: nat,
    cols: nat,
    palette: Styling,
    capabilities: PluginCapabilities,
    hide_session_name: bool,
    mode: InputMode,
)
    requires
        draws_tabs(
            session_name,
            all_tabs,
            active_tab_index,
            cols,
            palette,
            hide_session_name,
            mode,
        ),
    ensures
        total_width(
            prefix_view(shown_session(session_name, hide_session_name), mode, palette, cols)
                + tabs_view(
                session_name,
                all_tabs,
                active_tab_index,
                cols,
                palette,
                capabilities,
                hide_session_name,
                mode,
            ),
        ) <= cols,
{
    let place = active_place(all_tabs.len(), active_tab_index);
    let before = all_tabs.take(place);
    let active = all_tabs[place];
    let after = all_tabs.skip(place + 1);
    let prefix = prefix_view(shown_session(session_name, hide_session_name), mode, palette, cols);
    let budget = (cols - total_width(prefix)) as nat;
    let separator = separator_text(capabilities);
    let end = fit(before, after, active.len, budget, separator);
    lemma_fit_within(before, after, active.len, budget, separator);
    lemma_rendered_width(before, after, seq![active], end, palette, separator);
    lemma_total_width_one(active);
    lemma_total_width_add(
        prefix,
        tabs_view(
            session_name,
            all_tabs,
            active_tab_index,
            cols,
            palette,
            capabilities,
            hide_session_name,
            mode,
        ),
    );
}

/// A line that draws its tabs is exactly `cols` columns wide.
pub proof fn lemma_line_width(
    session_name: Option<Seq<char>>,
    all_tabs: Seq<LinePartView>,
    active_tab_index: nat,
    cols: nat,
    palette: Styling,
    load_palette: Palette,
    capabilities: PluginCapabilities,
    hide_session_name: bool,
    mode: InputMode,
    active_swap_layout_name: Option<Seq<char>>,
    is_swap_layout_dirty: bool,
    time: Seq<char>,
    load: LoadAverage,
)
    requires
        draws_tabs(
            session_name,
            all_tabs,
            active_tab_index,
            cols,
            palette,
            hide_session_name,
            mode,
        ),
    ensures
        total_width(
            tab_line_view(
                session_name,
                all_tabs,
                active_tab_index,
                cols,
                palette,
                load_palette,
                capabilities,
                hide_session_name,
                mode,
                active_swap_layout_name,
                is_swap_layout_dirty,
                time,
                load,
            ),
        ) == cols,
{
    let prefix = prefix_view(shown_session(session_name, hide_session_name), mode, palette, cols);
    let separator = separator_text(capabilities);
    let title = prefix + tabs_view(
        session_name,
        all_tabs,
        active_tab_index,
        cols,
        palette,
        capabilities,
        hide_session_name,
        mode,
    );
    let clock = time_view(palette, separator, time);
    let load_part = load_view(
        palette,
        load_palette,
        separator,
        load.one@,
        load.five@,
        load.fifteen@,
        load.percent as nat,
    );
    let space = (cols - total_width(title)) as nat;
    lemma_title_within(
        session_name,
        all_tabs,
        active_tab_index,
        cols,
        palette,
        capabilities,
        hide_session_name,
        mode,
    );
    lemma_status_width(
        space,
        clock,
        load_part,
        active_swap_layout_name,
        is_swap_layout_dirty,
        mode,
        palette,
        separator,
    );
    lemma_total_width_add(
        title,
        status_view(
            space,
            clock,
            load_part,
            active_swap_layout_name,
            is_swap_layout_dirty,
            mode,
            palette,
            separator,
        ),
    );
}

/// The place of the active tab in a line that draws its tabs: after the
/// prefix, the indicator on the left if there is one, and the tabs taken on
/// the left.
pub open spec fn active_index(
    session_name: Option<Seq<char>>,
    all_tabs: Seq<LinePartView>,
    active_tab_index: nat,
    cols: nat,
    palette: Styling,
    capabilities: PluginCapabilities,
    hide_session_name: bool,
    mode: InputMode,
) -> int {
    let place = active_place(all_tabs.len(), active_tab_index);
    let before = all_tabs.take(place);
    let after = all_tabs.skip(place + 1);
    let prefix = prefix_view(shown_session(session_name, hide_session_name), mode, palette, cols);
    let separator = separator_text(capabilities);
    let end = fit(
        before,
        after,
        all_tabs[place].len,
        (cols - total_width(prefix)) as nat,
        separator,
    );
    (prefix.len() + left_indicator(before, end, palette, separator).len() + end.left) as int
}

/// A line that draws its tabs shows the active one.
pub proof fn lemma_active_shown(
    session_name: Option<Seq<char>>,
    all_tabs: Seq<LinePartView>,
    active_tab_index: nat,
    cols: nat,
    palette: Styling,
    load_palette: Palette,
    capabilities: PluginCapabilities,
    hide_session_name: bool,
    mode: InputMode,
    active_swap_layout_name: Option<Seq<char>>,
    is_swap_layout_dirty: bool,
    time: Seq<char>,
    load: LoadAverage,
)
    requires
        draws_tabs(
            session_name,
            all_tabs,
            active_tab_index,
            cols,
            palette,
            hide_session_name,
            mode,
        ),
    ensures
        ({
            let line = tab_line_view(
                session_name,
                all_tabs,
                active_tab_index,
                cols,
                palette,
                load_palette,
                capabilities,
                hide_session_name,
                mode,
                active_swap_layout_name,
                is_swap_layout_dirty,
                time,
                load,
            );
            let at = active_index(
                session_name,
                all_tabs,
                active_tab_index,
                cols,
                palette,
                capabilities,
                hide_session_name,
                mode,
            );
            0 <= at < line.len() && line[at] == all_tabs[active_place(
                all_tabs.len(),
                active_tab_index,
            )]
        }),
{
    let place = active_place(all_tabs.len(), active_tab_index);
    let before = all_tabs.take(place);
    let after = all_tabs.skip(place + 1);
    let prefix = prefix_view(shown_session(session_name, hide_session_name), mode, palette, cols);
    let separator = separator_text(capabilities);
    let budget = (cols - total_width(prefix)) as nat;
    lemma_fit_within(before, after, all_tabs[place].len, budget, separator);
}

/// The line before its status widgets: nothing without tabs or with an
/// active tab that is not among them; the prefix alone where it leaves the
/// active tab no room; else the prefix and the tabs.
pub open spec fn title_view(
    session_name: Option<Seq<char>>,
    all_tabs: Seq<LinePartView>,
    active_tab_index: nat,
    cols: nat,
    palette: Styling,
    capabilities: PluginCapabilities,
    hide_session_name: bool,
    mode: InputMode,
) -> Seq<LinePartView> {
    let prefix = prefix_view(shown_session(session_name, hide_session_name), mode, palette, cols);
    if all_tabs.len() == 0 || active_tab_index > all_tabs.len() {
        Seq::empty()
    } else if !draws_tabs(
        session_name,
        all_tabs,
        active_tab_index,
        cols,
        palette,
        hide_session_name,
        mode,
    ) {
        prefix
    } else {
        prefix + tabs_view(
            session_name,
            all_tabs,
            active_tab_index,
            cols,
            palette,
            capabilities,
            hide_session_name,
            mode,
        )
    }
}

/// The columns that a line leaves to its status widgets: what the prefix
/// and the tabs do not take, where the tabs are drawn; and no status widgets
/// at all where they are not.
pub open spec fn status_room(
    session_name: Option<Seq<char>>,
    all_tabs: Seq<LinePartView>,
    active_tab_index: nat,
    cols: nat,
    palette: Styling,
    capabilities: PluginCapabilities,
    hide_session_name: bool,
    mode: InputMode,
) -> Option<nat> {
    if draws_tabs(
        session_name,
        all_tabs,
        active_tab_index,
        cols,
        palette,
        hide_session_name,
        mode,
    ) {
        Some(
            (cols - total_width(
                title_view(
                    session_name,
                    all_tabs,
                    active_tab_index,
                    cols,
                    palette,
                    capabilities,
                    hide_session_name,
                    mode,
                ),
            )) as nat,
        )
    } else {
        None
    }
}

/// The room as a `usize` holds it.
pub open spec fn room_of(room: Option<usize>) -> Option<nat> {
    match room {
        Some(space) => Some(space as nat),
        None => None,
    }
}

/// Builds the line of `cols` columns up to its status widgets: the prefix
/// and the tabs around the one at `active_tab_index`. With them comes the
/// number of columns that are left for the status widgets, or nothing where
/// the line is to have none. Neither the clock nor the load is needed
/// before that is known.
pub fn tab_line_title(
    session_name: Option<&str>,
    all_tabs: Vec<LinePart>,
    active_tab_index: usize,
    cols: usize,
    palette: Styling,
    capabilities: PluginCapabilities,
    hide_session_name: bool,
    mode: InputMode,
) -> (title: (Vec<LinePart>, Option<usize>))
    ensures
        views(title.0@) == title_view(
            session_text(session_name),
            views(all_tabs@),
            active_tab_index as nat,
            cols as nat,
            palette,
            capabilities,
            hide_session_name,
            mode,
        ),
        room_of(title.1) == status_room(
            session_text(session_name),
            views(all_tabs@),
            active_tab_index as nat,
            cols as nat,
            palette,
            capabilities,
            hide_session_name,
            mode,
        ),
{
    let ghost tabs = all_tabs@;
    let ghost name = session_text(session_name);
    if all_tabs.len() == 0 || active_tab_index > all_tabs.len() {
        let line: Vec<LinePart> = Vec::new();
        assert(views(line@) =~= Seq::<LinePartView>::empty());
        return (line, None);
    }
    let ghost place = active_place(tabs.len(), active_tab_index as nat);
    let mut all_tabs = all_tabs;
    let mut tabs_after_active = all_tabs.split_off(active_tab_index);
    let mut tabs_before_active = all_tabs;
    let active_tab = if !tabs_after_active.is_empty() {
        tabs_after_active.remove(0)
    } else {
        tabs_before_active.pop().unwrap()
    };
    proof {
        assert(tabs_before_active@ =~= tabs.take(place));
        assert(tabs_after_active@ =~= tabs.skip(place + 1));
        assert(active_tab == tabs[place]);
        lemma_views_cut(tabs, place);
        lemma_views_cut(tabs, place + 1);
    }
    let mut prefix = if hide_session_name {
        tab_line_prefix(None, mode, palette, cols)
    } else {
        tab_line_prefix(session_name, mode, palette, cols)
    };
    let ghost prefix_parts = prefix@;

    // if the active tab alone won't fit in cols, don't draw any tabs
    let active_fits = match checked_title_len(&prefix) {
        Some(prefix_len) => prefix_len <= cols && active_tab.len <= cols - prefix_len,
        None => false,
    };
    if !active_fits {
        return (prefix, None);
    }
    let prefix_len: usize = get_current_title_len(&prefix);

    let mut tabs_to_render: Vec<LinePart> = Vec::new();
    tabs_to_render.push(active_tab);
    proof {
        assert(views(tabs_to_render@) =~= seq![tabs[place]@]);
        lemma_total_width_one(tabs[place]@);
    }

    populate_tabs_in_tab_line(
        &mut tabs_before_active,
        &mut tabs_after_active,
        &mut tabs_to_render,
        cols - prefix_len,
        palette,
        capabilities,
    );
    let ghost tab_parts = tabs_to_render@;
    prefix.append(&mut tabs_to_render);
    proof {
        lemma_views_add(prefix_parts, tab_parts);
        lemma_title_within(
            name,
            views(tabs),
            active_tab_index as nat,
            cols as nat,
            palette,
            capabilities,
            hide_session_name,
            mode,
        );
    }

    let current_title_len: usize = get_current_title_len(&prefix);
    let remaining_space: usize = cols - current_title_len;
    (prefix, Some(remaining_space))
}

/// Follows `title` with the status widgets in `remaining_space` columns:
/// blanks, the layout in use, the load and the clock. `time` is what the
/// clock says and `load` what was read of the machine's load.
pub fn tab_line_status(
    title: Vec<LinePart>,
    remaining_space: usize,
    palette: Styling,
    load_palette: &Palette,
    capabilities: PluginCapabilities,
    mode: InputMode,
    active_swap_layout_name: &Option<String>,
    is_swap_layout_dirty: bool,
    time: &str,
    load: &LoadAverage,
) -> (line: Vec<LinePart>)
    ensures
        views(line@) == views(title@) + status_view(
            remaining_space as nat,
            time_view(palette, separator_text(capabilities), time@),
            load_view(
                palette,
                *load_palette,
                separator_text(capabilities),
                load.one@,
                load.five@,
                load.fifteen@,
                load.percent as nat,
            ),
            layout_name_text(*active_swap_layout_name),
            is_swap_layout_dirty,
            mode,
            palette,
            separator_text(capabilities),
        ),
{
    let ghost title_parts = title@;
    let mut line = title;
    let separator = tab_separator(capabilities);
    let time_status = time_status(palette, separator, time);
    let load_status = load_status(palette, load_palette, separator, load);
    let mut right_parts = status_line(
        remaining_space,
        time_status,
        load_status,
        active_swap_layout_name,
        is_swap_layout_dirty,
        mode,
        &palette,
        separator,
    );
    let ghost status = right_parts@;
    line.append(&mut right_parts);
    proof {
        lemma_views_add(title_parts, status);
    }
    line
}

/// Builds the whole line of `cols` columns: the prefix, the tabs around
/// the one at `active_tab_index`, blanks, and the status widgets at the
/// right end. `time` is what the clock says and `load` what was read of the
/// machine's load.
///
/// The line is what `tab_line_view` says. Where it draws its tabs it is
/// exactly `cols` columns wide.
pub fn tab_line(
    session_name: Option<&str>,
    all_tabs: Vec<LinePart>,
    active_tab_index: usize,
    cols: usize,
    palette: Styling,
    load_palette: &Palette,
    capabilities: PluginCapabilities,
    hide_session_name: bool,
    mode: InputMode,
    active_swap_layout_name: &Option<String>,
    is_swap_layout_dirty: bool,
    time: &str,
    load: &LoadAverage,
) -> (line: Vec<LinePart>)
    ensures
        views(line@) == tab_line_view(
            session_text(session_name),
            views(all_tabs@),
            active_tab_index as nat,
            cols as nat,
            palette,
            *load_palette,
            capabilities,
            hide_session_name,
            mode,
            layout_name_text(*active_swap_layout_name),
            is_swap_layout_dirty,
            time@,
            *load,
        ),
        draws_tabs(
            session_text(session_name),
            views(all_tabs@),
            active_tab_index as nat,
            cols as nat,
            palette,
            hide_session_name,
            mode,
        ) ==> total_width(views(line@)) == cols,
{
    let ghost tabs = views(all_tabs@);
    let (title, room) = tab_line_title(
        session_name,
        all_tabs,
        active_tab_index,
        cols,
        palette,
        capabilities,
        hide_session_name,
        mode,
    );
    match room {
        Some(remaining_space) => {
            proof {
                lemma_line_width(
                    session_text(session_name),
                    tabs,
                    active_tab_index as nat,
                    cols as nat,
                    palette,
                    *load_palette,
                    capabilities,
                    hide_session_name,
                    mode,
                    layout_name_text(*active_swap_layout_name),
                    is_swap_layout_dirty,
                    time@,
                    *load,
                );
            }
            tab_line_status(
                title,
                remaining_space,
                palette,
                load_palette,
                capabilities,
                mode,
                active_swap_layout_name,
                is_swap_layout_dirty,
                time,
                load,
            )
        },
        None => title,
    }
}

} // verus!
