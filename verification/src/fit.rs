//! What it means to fit tabs around the active one: the rule that picks the
//! next tab, where it stops, and what is drawn once it has stopped.

use crate::part::{
    empty_part, lemma_total_width_add, lemma_total_width_one, total_width, LinePartView,
};
use crate::style::{painted_ribbon, Styling};
use crate::text::{left_more_text, right_more_text};
use crate::width::display_width;
use vstd::prelude::*;

verus! {

/// A width as a `usize` can hold it: itself, or the largest if it is larger.
pub open spec fn capped(width: nat) -> nat {
    if width <= usize::MAX {
        width
    } else {
        usize::MAX as nat
    }
}

/// The columns of the indicator for `count` hidden tabs on the left: none
/// where nothing is hidden, else its wording between two separators.
pub open spec fn left_more_width(count: nat, separator: Seq<char>) -> nat {
    if count == 0 {
        0
    } else {
        capped(display_width(left_more_text(count)) + 2 * display_width(separator))
    }
}

/// The columns of the indicator for `count` hidden tabs on the right.
pub open spec fn right_more_width(count: nat, separator: Seq<char>) -> nat {
    if count == 0 {
        0
    } else {
        capped(display_width(right_more_text(count)) + 2 * display_width(separator))
    }
}

/// The indicator for `count` hidden tabs on the left; a click on it selects
/// `tab_index`.
pub open spec fn left_more_view(
    count: nat,
    palette: Styling,
    separator: Seq<char>,
    tab_index: nat,
) -> LinePartView {
    if count == 0 {
        empty_part()
    } else {
        LinePartView {
            part: painted_ribbon(
                separator,
                left_more_text(count),
                palette.ribbon_unselected.base,
                palette.text_unselected.background,
                palette.text_selected.emphasis_0,
            ),
            len: left_more_width(count, separator),
            tab_index: Some(tab_index),
        }
    }
}

/// The indicator for `count` hidden tabs on the right; a click on it selects
/// `tab_index`.
pub open spec fn right_more_view(
    count: nat,
    palette: Styling,
    separator: Seq<char>,
    tab_index: nat,
) -> LinePartView {
    if count == 0 {
        empty_part()
    } else {
        LinePartView {
            part: painted_ribbon(
                separator,
                right_more_text(count),
                palette.ribbon_unselected.base,
                palette.text_unselected.background,
                palette.text_selected.emphasis_0,
            ),
            len: right_more_width(count, separator),
            tab_index: Some(tab_index),
        }
    }
}

/// How a fitting ended: how many tabs were taken from the end of those
/// before the active one and from the start of those after it, and whether
/// the indicators for the rest are drawn.
pub struct Fit {
    pub left: nat,
    pub right: nat,
    pub collapsed: bool,
}

/// What the fitting does next.
pub enum Step {
    /// Show the nearest hidden tab on the left.
    TakeLeft,
    /// Show the nearest hidden tab on the right.
    TakeRight,
    /// Stop, and draw the indicators for what is hidden.
    Collapse,
    /// Stop without indicators: what is shown does not leave room for them.
    GiveUp,
}

/// The columns of the tabs taken so far on the left.
pub open spec fn left_width(before: Seq<LinePartView>, left: nat) -> nat {
    total_width(before.skip(before.len() - left))
}

/// The columns of the tabs taken so far on the right.
pub open spec fn right_width(after: Seq<LinePartView>, right: nat) -> nat {
    total_width(after.take(right as int))
}

/// The columns of everything shown so far, indicators apart.
pub open spec fn shown_width(
    before: Seq<LinePartView>,
    after: Seq<LinePartView>,
    middle: nat,
    left: nat,
    right: nat,
) -> nat {
    middle + left_width(before, left) + right_width(after, right)
}

/// The columns of what is shown so far together with the indicators for
/// what is still hidden.
pub open spec fn collapsed_width(
    before: Seq<LinePartView>,
    after: Seq<LinePartView>,
    middle: nat,
    separator: Seq<char>,
    left: nat,
    right: nat,
) -> nat {
    left_more_width((before.len() - left) as nat, separator) + shown_width(
        before,
        after,
        middle,
        left,
        right,
    ) + right_more_width((after.len() - right) as nat, separator)
}

/// Whether the nearest hidden tab on the left can be shown within `cols`.
/// The last hidden tab takes its indicator away with it.
pub open spec fn left_fits(
    before: Seq<LinePartView>,
    after: Seq<LinePartView>,
    middle: nat,
    cols: nat,
    separator: Seq<char>,
    left: nat,
    right: nat,
) -> bool {
    let hidden = before.len() - left;
    let total = collapsed_width(before, after, middle, separator, left, right);
    let saved = if hidden == 1 {
        left_more_width(1, separator)
    } else {
        0
    };
    hidden > 0 && before[hidden - 1].len + total - saved <= cols
}

/// Whether the nearest hidden tab on the right can be shown within `cols`.
pub open spec fn right_fits(
    before: Seq<LinePartView>,
    after: Seq<LinePartView>,
    middle: nat,
    cols: nat,
    separator: Seq<char>,
    left: nat,
    right: nat,
) -> bool {
    let hidden = after.len() - right;
    let total = collapsed_width(before, after, middle, separator, left, right);
    let saved = if hidden == 1 {
        right_more_width(1, separator)
    } else {
        0
    };
    hidden > 0 && after[right as int].len + total - saved <= cols
}

/// The rule of the fitting, with `left` and `right` tabs taken so far.
///
/// Nothing more is drawn once what is shown and the indicators exceed
/// `cols`. Otherwise the side that has fewer columns so far goes first, the
/// left on a tie, as long as its next tab fits; else the other side, if its
/// next tab fits; and when neither does, the indicators close the row.
pub open spec fn next_step(
    before: Seq<LinePartView>,
    after: Seq<LinePartView>,
    middle: nat,
    cols: nat,
    separator: Seq<char>,
    left: nat,
    right: nat,
) -> Step {
    let fits_left = left_fits(before, after, middle, cols, separator, left, right);
    let fits_right = right_fits(before, after, middle, cols, separator, left, right);
    if collapsed_width(before, after, middle, separator, left, right) > cols {
        Step::GiveUp
    } else if (left_width(before, left) <= right_width(after, right) || !fits_right) && fits_left {
        Step::TakeLeft
    } else if fits_right {
        Step::TakeRight
    } else {
        Step::Collapse
    }
}

/// Where the fitting ends when it goes on from `left` and `right` tabs
/// taken.
pub open spec fn fit_from(
    before: Seq<LinePartView>,
    after: Seq<LinePartView>,
    middle: nat,
    cols: nat,
    separator: Seq<char>,
    left: nat,
    right: nat,
) -> Fit
    decreases before.len() + after.len() - left - right,
{
    if left > before.len() || right > after.len() {
        Fit { left, right, collapsed: false }
    } else {
        match next_step(before, after, middle, cols, separator, left, right) {
            Step::TakeLeft => fit_from(before, after, middle, cols, separator, left + 1, right),
            Step::TakeRight => fit_from(before, after, middle, cols, separator, left, right + 1),
            Step::Collapse => Fit { left, right, collapsed: true },
            Step::GiveUp => Fit { left, right, collapsed: false },
        }
    }
}

/// Where the fitting of the tabs `before` and `after` a middle of `middle`
/// columns ends within `cols` columns.
pub open spec fn fit(
    before: Seq<LinePartView>,
    after: Seq<LinePartView>,
    middle: nat,
    cols: nat,
    separator: Seq<char>,
) -> Fit {
    fit_from(before, after, middle, cols, separator, 0, 0)
}

/// One more tab on the left adds its own columns to those on the left.
pub proof fn lemma_left_width_step(before: Seq<LinePartView>, left: nat)
    requires
        left < before.len(),
    ensures
        left_width(before, left + 1) == before[before.len() - left - 1].len + left_width(
            before,
            left,
        ),
{
    let hidden = before.len() - left;
    assert(before.skip(hidden - 1) =~= seq![before[hidden - 1]] + before.skip(hidden));
    lemma_total_width_add(seq![before[hidden - 1]], before.skip(hidden));
    lemma_total_width_one(before[hidden - 1]);
}

/// One more tab on the right adds its own columns to those on the right.
pub proof fn lemma_right_width_step(after: Seq<LinePartView>, right: nat)
    requires
        right < after.len(),
    ensures
        right_width(after, right + 1) == right_width(after, right) + after[right as int].len,
{
    assert(after.take((right + 1) as int).drop_last() =~= after.take(right as int));
}

/// The indicator on the left of a row that ended as `end`: present where
/// the row was collapsed and tabs are hidden there. It counts the hidden
/// tabs and selects the nearest of them.
pub open spec fn left_indicator(
    before: Seq<LinePartView>,
    end: Fit,
    palette: Styling,
    separator: Seq<char>,
) -> Seq<LinePartView> {
    let hidden = (before.len() - end.left) as nat;
    if end.collapsed && hidden > 0 {
        seq![left_more_view(hidden, palette, separator, (hidden - 1) as nat)]
    } else {
        Seq::empty()
    }
}

/// The indicator on the right of a row that ended as `end`. The tab it
/// selects is counted from the first tab before the middle, as far as a
/// `usize` can count.
pub open spec fn right_indicator(
    before: Seq<LinePartView>,
    after: Seq<LinePartView>,
    middle: Seq<LinePartView>,
    end: Fit,
    palette: Styling,
    separator: Seq<char>,
) -> Seq<LinePartView> {
    let hidden = (after.len() - end.right) as nat;
    if end.collapsed && hidden > 0 {
        seq![
            right_more_view(
                hidden,
                palette,
                separator,
                capped(before.len() + middle.len() + end.right),
            ),
        ]
    } else {
        Seq::empty()
    }
}

/// The row that a fitting which ended as `end` draws: the tabs taken on the
/// left, the middle, the tabs taken on the right, between the indicators.
pub open spec fn rendered_tabs(
    before: Seq<LinePartView>,
    after: Seq<LinePartView>,
    middle: Seq<LinePartView>,
    end: Fit,
    palette: Styling,
    separator: Seq<char>,
) -> Seq<LinePartView> {
    left_indicator(before, end, palette, separator) + before.skip(before.len() - end.left)
        + middle + after.take(end.right as int) + right_indicator(
        before,
        after,
        middle,
        end,
        palette,
        separator,
    )
}

/// The columns of the row that a fitting which ended as `end` draws.
pub open spec fn fit_width(
    before: Seq<LinePartView>,
    after: Seq<LinePartView>,
    middle: nat,
    separator: Seq<char>,
    end: Fit,
) -> nat {
    if end.collapsed {
        collapsed_width(before, after, middle, separator, end.left, end.right)
    } else {
        shown_width(before, after, middle, end.left, end.right)
    }
}

/// The row that is drawn is as wide as the tabs shown and, where the row
/// was collapsed, the indicators.
pub proof fn lemma_rendered_width(
    before: Seq<LinePartView>,
    after: Seq<LinePartView>,
    middle: Seq<LinePartView>,
    end: Fit,
    palette: Styling,
    separator: Seq<char>,
)
    requires
        end.left <= before.len(),
        end.right <= after.len(),
    ensures
        total_width(rendered_tabs(before, after, middle, end, palette, separator)) == fit_width(
            before,
            after,
            total_width(middle),
            separator,
            end,
        ),
{
    let more_left = left_indicator(before, end, palette, separator);
    let more_right = right_indicator(before, after, middle, end, palette, separator);
    let taken_left = before.skip(before.len() - end.left);
    let taken_right = after.take(end.right as int);
    lemma_total_width_add(more_left, taken_left);
    lemma_total_width_add(more_left + taken_left, middle);
    lemma_total_width_add(more_left + taken_left + middle, taken_right);
    lemma_total_width_add(more_left + taken_left + middle + taken_right, more_right);
    if more_left.len() > 0 {
        lemma_total_width_one(more_left[0]);
    }
    if more_right.len() > 0 {
        lemma_total_width_one(more_right[0]);
    }
}

/// From wherever a fitting goes on, it ends with no fewer tabs than it had
/// and no more than there are; and if what was shown until then fitted in
/// `cols`, so does the row that it ends with.
pub proof fn lemma_fit_from_within(
    before: Seq<LinePartView>,
    after: Seq<LinePartView>,
    middle: nat,
    cols: nat,
    separator: Seq<char>,
    left: nat,
    right: nat,
)
    requires
        left <= before.len(),
        right <= after.len(),
    ensures
        left <= fit_from(before, after, middle, cols, separator, left, right).left <= before.len(),
        right <= fit_from(before, after, middle, cols, separator, left, right).right
            <= after.len(),
        shown_width(before, after, middle, left, right) <= cols ==> fit_width(
            before,
            after,
            middle,
            separator,
            fit_from(before, after, middle, cols, separator, left, right),
        ) <= cols,
    decreases before.len() + after.len() - left - right,
{
    match next_step(before, after, middle, cols, separator, left, right) {
        Step::TakeLeft => {
            lemma_left_width_step(before, left);
            lemma_fit_from_within(before, after, middle, cols, separator, left + 1, right);
        },
        Step::TakeRight => {
            lemma_right_width_step(after, right);
            lemma_fit_from_within(before, after, middle, cols, separator, left, right + 1);
        },
        Step::Collapse => {},
        Step::GiveUp => {},
    }
}

/// A row fitted around a middle that fits in `cols` fits in `cols`.
pub proof fn lemma_fit_within(
    before: Seq<LinePartView>,
    after: Seq<LinePartView>,
    middle: nat,
    cols: nat,
    separator: Seq<char>,
)
    requires
        middle <= cols,
    ensures
        fit(before, after, middle, cols, separator).left <= before.len(),
        fit(before, after, middle, cols, separator).right <= after.len(),
        fit_width(before, after, middle, separator, fit(before, after, middle, cols, separator))
            <= cols,
{
    assert(before.skip(before.len() as int) =~= Seq::<LinePartView>::empty());
    assert(after.take(0) =~= Seq::<LinePartView>::empty());
    lemma_fit_from_within(before, after, middle, cols, separator, 0, 0);
}

/// The indicators of a fitted row count what is hidden: where the row is
/// closed by an indicator, it stands at that end, says how many tabs of that
/// side are not drawn, and selects the nearest of them; and the tabs between
/// the indicators are the nearest ones, in their order, around the middle.
pub proof fn lemma_indicators_count_hidden(
    before: Seq<LinePartView>,
    after: Seq<LinePartView>,
    middle: Seq<LinePartView>,
    cols: nat,
    palette: Styling,
    separator: Seq<char>,
)
    ensures
        ({
            let end = fit(before, after, total_width(middle), cols, separator);
            let row = rendered_tabs(before, after, middle, end, palette, separator);
            let hidden_left = (before.len() - end.left) as nat;
            let hidden_right = (after.len() - end.right) as nat;
            let more_left = left_indicator(before, end, palette, separator);
            let more_right = right_indicator(before, after, middle, end, palette, separator);
            &&& end.left <= before.len()
            &&& end.right <= after.len()
            &&& row.len() == more_left.len() + end.left + middle.len() + end.right
                + more_right.len()
            &&& more_left.len() == 1 ==> row.first() == left_more_view(
                hidden_left,
                palette,
                separator,
                (hidden_left - 1) as nat,
            ) && row.first().part == painted_ribbon(
                separator,
                left_more_text(hidden_left),
                palette.ribbon_unselected.base,
                palette.text_unselected.background,
                palette.text_selected.emphasis_0,
            )
            &&& more_right.len() == 1 ==> row.last() == right_more_view(
                hidden_right,
                palette,
                separator,
                capped(before.len() + middle.len() + end.right),
            ) && row.last().part == painted_ribbon(
                separator,
                right_more_text(hidden_right),
                palette.ribbon_unselected.base,
                palette.text_unselected.background,
                palette.text_selected.emphasis_0,
            )
            &&& row.subrange(more_left.len() as int, row.len() - more_right.len())
                == before.skip(hidden_left as int) + middle + after.take(end.right as int)
        }),
{
    let end = fit(before, after, total_width(middle), cols, separator);
    let row = rendered_tabs(before, after, middle, end, palette, separator);
    let more_left = left_indicator(before, end, palette, separator);
    let more_right = right_indicator(before, after, middle, end, palette, separator);
    lemma_fit_within_bounds(before, after, total_width(middle), cols, separator);
    let hidden_left = (before.len() - end.left) as nat;
    assert(row.subrange(more_left.len() as int, row.len() - more_right.len()) =~= before.skip(
        hidden_left as int,
    ) + middle + after.take(end.right as int));
}

/// A fitting takes no more tabs than there are.
pub proof fn lemma_fit_within_bounds(
    before: Seq<LinePartView>,
    after: Seq<LinePartView>,
    middle: nat,
    cols: nat,
    separator: Seq<char>,
)
    ensures
        fit(before, after, middle, cols, separator).left <= before.len(),
        fit(before, after, middle, cols, separator).right <= after.len(),
{
    lemma_fit_from_within(before, after, middle, cols, separator, 0, 0);
}

/// Whether every piece of `parts` is `width` columns wide.
pub open spec fn all_wide(parts: Seq<LinePartView>, width: nat) -> bool {
    forall|i: int| 0 <= i < parts.len() ==> (#[trigger] parts[i]).len == width
}

/// A row of pieces of one width is as wide as their number times that
/// width.
pub proof fn lemma_uniform_width(parts: Seq<LinePartView>, width: nat)
    requires
        all_wide(parts, width),
    ensures
        total_width(parts) == parts.len() * width,
    decreases parts.len(),
{
    if parts.len() > 0 {
        lemma_uniform_width(parts.drop_last(), width);
        assert(parts.last().len == width);
        assert((parts.len() - 1) * width + width == parts.len() * width) by (nonlinear_arith);
    } else {
        assert(0 * width == 0) by (nonlinear_arith);
    }
}

/// Among tabs of one width the side with fewer tabs is the side with fewer
/// columns.
proof fn lemma_uniform_sides(
    before: Seq<LinePartView>,
    after: Seq<LinePartView>,
    width: nat,
    left: nat,
    right: nat,
)
    requires
        width > 0,
        all_wide(before, width),
        all_wide(after, width),
        left <= before.len(),
        right <= after.len(),
    ensures
        left <= right <==> left_width(before, left) <= right_width(after, right),
{
    lemma_uniform_width(before.skip(before.len() - left), width);
    lemma_uniform_width(after.take(right as int), width);
    assert(left <= right <==> left * width <= right * width) by (nonlinear_arith)
        requires
            width > 0,
    ;
}

/// Centring, from wherever a fitting goes on: see `lemma_centered`.
proof fn lemma_centered_from(
    before: Seq<LinePartView>,
    after: Seq<LinePartView>,
    middle: nat,
    cols: nat,
    separator: Seq<char>,
    width: nat,
    left: nat,
    right: nat,
)
    requires
        width > 0,
        all_wide(before, width),
        all_wide(after, width),
        left <= before.len(),
        right <= after.len(),
        left < before.len() && right < after.len() ==> right <= left <= right + 1,
    ensures
        ({
            let end = fit_from(before, after, middle, cols, separator, left, right);
            end.left < before.len() && end.right < after.len() ==> end.right <= end.left
                <= end.right + 1
        }),
    decreases before.len() + after.len() - left - right,
{
    lemma_uniform_sides(before, after, width, left, right);
    match next_step(before, after, middle, cols, separator, left, right) {
        Step::TakeLeft => {
            lemma_centered_from(before, after, middle, cols, separator, width, left + 1, right);
        },
        Step::TakeRight => {
            lemma_centered_from(before, after, middle, cols, separator, width, left, right + 1);
        },
        Step::Collapse => {},
        Step::GiveUp => {},
    }
}

/// The active tab stays in the middle: among tabs that all have one width,
/// which is not zero, a fitting that leaves tabs hidden on both sides has
/// taken as many from the left as from the right, or one more.
pub proof fn lemma_centered(
    before: Seq<LinePartView>,
    after: Seq<LinePartView>,
    middle: nat,
    cols: nat,
    separator: Seq<char>,
    width: nat,
)
    requires
        width > 0,
        all_wide(before, width),
        all_wide(after, width),
    ensures
        ({
            let end = fit(before, after, middle, cols, separator);
            end.left < before.len() && end.right < after.len() ==> end.right <= end.left
                <= end.right + 1
        }),
{
    lemma_centered_from(before, after, middle, cols, separator, width, 0, 0);
}

/// Whether the indicator on the left never gets wider when fewer tabs are
/// hidden behind it.
pub open spec fn left_indicator_shrinks(separator: Seq<char>) -> bool {
    forall|fewer: nat, more: nat|
        fewer <= more ==> #[trigger] left_more_width(fewer, separator) <= #[trigger] left_more_width(
            more,
            separator,
        )
}

/// Tabs without width, from wherever a fitting goes on: see
/// `lemma_centered_without_width`.
proof fn lemma_without_width_from(
    before: Seq<LinePartView>,
    after: Seq<LinePartView>,
    middle: nat,
    cols: nat,
    separator: Seq<char>,
    left: nat,
)
    requires
        all_wide(before, 0),
        left_indicator_shrinks(separator),
        left <= before.len(),
        collapsed_width(before, after, middle, separator, left, 0) <= cols,
    ensures
        fit_from(before, after, middle, cols, separator, left, 0).left == before.len(),
    decreases before.len() - left,
{
    assert(after.take(0) =~= Seq::<LinePartView>::empty());
    lemma_fit_from_within(before, after, middle, cols, separator, left, 0);
    if left < before.len() {
        let hidden = (before.len() - left) as nat;
        lemma_left_width_step(before, left);
        assert(before[hidden - 1].len == 0);
        lemma_uniform_width(before.skip(hidden as int), 0);
        assert(left_more_width((hidden - 1) as nat, separator) <= left_more_width(
            hidden,
            separator,
        ));
        assert(next_step(before, after, middle, cols, separator, left, 0) is TakeLeft);
        lemma_without_width_from(before, after, middle, cols, separator, left + 1);
    }
}

/// Tabs without width are centred too, as long as the indicator on the left
/// never gets wider when fewer tabs are hidden: a fitting that leaves tabs
/// hidden on both sides has then taken none at all, and otherwise every tab
/// on the left is shown.
pub proof fn lemma_centered_without_width(
    before: Seq<LinePartView>,
    after: Seq<LinePartView>,
    middle: nat,
    cols: nat,
    separator: Seq<char>,
)
    requires
        all_wide(before, 0),
        all_wide(after, 0),
        left_indicator_shrinks(separator),
    ensures
        ({
            let end = fit(before, after, middle, cols, separator);
            end.left < before.len() && end.right < after.len() ==> end.left == 0 && end.right
                == 0
        }),
{
    if collapsed_width(before, after, middle, separator, 0, 0) <= cols {
        lemma_without_width_from(before, after, middle, cols, separator, 0);
    }
}

/// More room, no fewer tabs, from wherever a fitting goes on with tabs on
/// the right only.
proof fn lemma_wider_right_from(
    after: Seq<LinePartView>,
    middle: nat,
    cols: nat,
    wider: nat,
    separator: Seq<char>,
    right: nat,
)
    requires
        cols <= wider,
        right <= after.len(),
    ensures
        fit_from(Seq::empty(), after, middle, cols, separator, 0, right).right <= fit_from(
            Seq::empty(),
            after,
            middle,
            wider,
            separator,
            0,
            right,
        ).right,
    decreases after.len() - right,
{
    let none = Seq::<LinePartView>::empty();
    lemma_fit_from_within(none, after, middle, wider, separator, 0, right);
    match next_step(none, after, middle, cols, separator, 0, right) {
        Step::TakeRight => {
            assert(next_step(none, after, middle, wider, separator, 0, right) is TakeRight);
            lemma_wider_right_from(after, middle, cols, wider, separator, right + 1);
        },
        _ => {},
    }
}

/// More room, no fewer tabs, from wherever a fitting goes on with tabs on
/// the left only.
proof fn lemma_wider_left_from(
    before: Seq<LinePartView>,
    middle: nat,
    cols: nat,
    wider: nat,
    separator: Seq<char>,
    left: nat,
)
    requires
        cols <= wider,
        left <= before.len(),
    ensures
        fit_from(before, Seq::empty(), middle, cols, separator, left, 0).left <= fit_from(
            before,
            Seq::empty(),
            middle,
            wider,
            separator,
            left,
            0,
        ).left,
    decreases before.len() - left,
{
    let none = Seq::<LinePartView>::empty();
    lemma_fit_from_within(before, none, middle, wider, separator, left, 0);
    match next_step(before, none, middle, cols, separator, left, 0) {
        Step::TakeLeft => {
            assert(next_step(before, none, middle, wider, separator, left, 0) is TakeLeft);
            lemma_wider_left_from(before, middle, cols, wider, separator, left + 1);
        },
        _ => {},
    }
}

/// More room never shows fewer tabs where the tabs are all on one side of
/// the active one.
pub proof fn lemma_wider_shows_no_fewer(
    before: Seq<LinePartView>,
    after: Seq<LinePartView>,
    middle: nat,
    cols: nat,
    wider: nat,
    separator: Seq<char>,
)
    requires
        cols <= wider,
        before.len() == 0 || after.len() == 0,
    ensures
        fit(before, after, middle, cols, separator).left + fit(
            before,
            after,
            middle,
            cols,
            separator,
        ).right <= fit(before, after, middle, wider, separator).left + fit(
            before,
            after,
            middle,
            wider,
            separator,
        ).right,
{
    lemma_fit_from_within(before, after, middle, cols, separator, 0, 0);
    lemma_fit_from_within(before, after, middle, wider, separator, 0, 0);
    if before.len() == 0 {
        assert(before =~= Seq::<LinePartView>::empty());
        lemma_wider_right_from(after, middle, cols, wider, separator, 0);
    } else {
        assert(after =~= Seq::<LinePartView>::empty());
        lemma_wider_left_from(before, middle, cols, wider, separator, 0);
    }
}

} // verus!
