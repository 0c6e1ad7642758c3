use tabline::line::{
    left_more_message, populate_tabs_in_tab_line, right_more_message, tab_separator,
    ARROW_SEPARATOR,
};
use tabline::part::{checked_title_len, get_current_title_len};
use tabline::style::{PaletteColor, PluginCapabilities, StyleDeclaration, Styling};
use tabline::LinePart;

fn declaration(first: u8) -> StyleDeclaration {
    StyleDeclaration {
        base: PaletteColor::EightBit(first),
        background: PaletteColor::EightBit(first + 1),
        emphasis_0: PaletteColor::EightBit(first + 2),
        emphasis_1: PaletteColor::EightBit(first + 3),
        emphasis_2: PaletteColor::EightBit(first + 4),
        emphasis_3: PaletteColor::EightBit(first + 5),
    }
}

fn styling() -> Styling {
    Styling {
        text_unselected: declaration(10),
        text_selected: declaration(20),
        ribbon_unselected: declaration(30),
        ribbon_selected: declaration(40),
    }
}

fn plain() -> PluginCapabilities {
    PluginCapabilities { arrow_fonts: true }
}

fn tab(width: usize, index: usize) -> LinePart {
    LinePart { part: "x".repeat(width), len: width, tab_index: Some(index) }
}

fn tabs(widths: &[usize], first_index: usize) -> Vec<LinePart> {
    widths.iter().enumerate().map(|(i, w)| tab(*w, first_index + i)).collect()
}

fn width_of(parts: &[LinePart]) -> usize {
    parts.iter().map(|p| p.len).sum()
}

fn indices(parts: &[LinePart]) -> Vec<Option<usize>> {
    parts.iter().map(|p| p.tab_index).collect()
}

/// Fits `before` and `after` around one active tab and returns what is left
/// on the left, what is shown, and what is left on the right.
fn fitted(
    before: &[usize],
    active: usize,
    after: &[usize],
    cols: usize,
) -> (Vec<LinePart>, Vec<LinePart>, Vec<LinePart>) {
    let mut left = tabs(before, 0);
    let mut right = tabs(after, before.len() + 1);
    let mut shown = vec![tab(active, before.len())];
    populate_tabs_in_tab_line(&mut left, &mut right, &mut shown, cols, styling(), plain());
    (left, shown, right)
}

#[test]
fn separator_follows_the_font() {
    assert_eq!(tab_separator(PluginCapabilities { arrow_fonts: true }), "");
    assert_eq!(tab_separator(PluginCapabilities { arrow_fonts: false }), ARROW_SEPARATOR);
    assert_eq!(ARROW_SEPARATOR, "\u{e0bc}");
}

#[test]
fn left_indicator_counts_and_measures() {
    let part = left_more_message(5, styling(), "", 4);
    assert_eq!(part.len, 6);
    assert_eq!(part.tab_index, Some(4));
    assert!(part.part.contains(" ← +5 "));
    assert_eq!(part.part, "\u{1b}[48;5;22;38;5;11m\u{1b}[1;38;5;30m ← +5 \u{1b}[0m\u{1b}[48;5;11;38;5;22m\u{1b}[0m");
}

#[test]
fn right_indicator_counts_and_measures() {
    let part = right_more_message(12, styling(), ARROW_SEPARATOR, 7);
    assert_eq!(part.len, 7 + 2);
    assert_eq!(part.tab_index, Some(7));
    assert!(part.part.contains(" +12 → "));
    assert!(part.part.starts_with("\u{1b}["));
}

#[test]
fn indicator_width_adds_two_separators() {
    let bare = left_more_message(3, styling(), "", 0);
    let edged = left_more_message(3, styling(), ARROW_SEPARATOR, 0);
    assert_eq!(bare.len, 6);
    assert_eq!(edged.len, 8);
}

#[test]
fn indicator_for_nothing_is_empty() {
    let left = left_more_message(0, styling(), ARROW_SEPARATOR, 3);
    assert_eq!(left.len, 0);
    assert_eq!(left.part, "");
    assert_eq!(left.tab_index, None);
    let right = right_more_message(0, styling(), ARROW_SEPARATOR, 3);
    assert_eq!(right.len, 0);
    assert_eq!(right.part, "");
    assert_eq!(right.tab_index, None);
}

#[test]
fn indicator_says_many_from_ten_thousand() {
    let below = left_more_message(9999, styling(), "", 0);
    assert!(below.part.contains(" ← +9999 "));
    assert_eq!(below.len, 9);
    let at = left_more_message(10000, styling(), "", 0);
    assert!(at.part.contains(" ← +many "));
    assert_eq!(at.len, 9);
    let right = right_more_message(10000, styling(), "", 0);
    assert!(right.part.contains(" +many → "));
    assert_eq!(right.len, 9);
}

#[test]
fn three_tabs_in_ten_columns_leave_no_room_for_indicators() {
    // one tab hidden on each side asks for two indicators of six columns
    // beside the active tab: the row stays as it is, without them
    let (left, shown, right) = fitted(&[3], 3, &[3], 10);
    assert_eq!(left.len(), 1);
    assert_eq!(right.len(), 1);
    assert_eq!(indices(&shown), vec![Some(1)]);
    assert_eq!(width_of(&shown), 3);
}

#[test]
fn three_tabs_in_fifteen_columns_are_all_shown() {
    let (left, shown, right) = fitted(&[3], 3, &[3], 15);
    assert!(left.is_empty());
    assert!(right.is_empty());
    assert_eq!(indices(&shown), vec![Some(0), Some(1), Some(2)]);
    assert_eq!(width_of(&shown), 9);
}

#[test]
fn last_tab_of_a_side_takes_its_indicator_along() {
    // 6 + 3 + 0 columns to start with; the left tab brings the row to 6
    let (left, shown, right) = fitted(&[3], 3, &[], 9);
    assert!(left.is_empty());
    assert!(right.is_empty());
    assert_eq!(indices(&shown), vec![Some(0), Some(1)]);
    assert_eq!(width_of(&shown), 6);
}

#[test]
fn hidden_tabs_are_counted_on_both_sides() {
    let before = [3; 10];
    let after = [3; 10];
    // indicators: " ← +N " and " +N → " are 6 columns for one digit, 7 for two
    let (left, shown, right) = fitted(&before, 3, &after, 30);
    let hidden_left = left.len();
    let hidden_right = right.len();
    assert!(hidden_left > 0 && hidden_right > 0);
    let first = &shown[0];
    let last = &shown[shown.len() - 1];
    assert!(first.part.contains(&format!(" ← +{} ", hidden_left)));
    assert!(last.part.contains(&format!(" +{} → ", hidden_right)));
    assert_eq!(first.tab_index, Some(hidden_left - 1));
    assert_eq!(last.tab_index, Some(before.len() + 1 + (after.len() - hidden_right)));
    assert_eq!(shown.len(), 2 + (10 - hidden_left) + 1 + (10 - hidden_right));
    assert!(width_of(&shown) <= 30);
    // 7 + 3 + 7 at first; then tabs of 3 in turn, left first, between
    // indicators of 6: 21, 24, 27, 30
    assert_eq!(hidden_left, 7);
    assert_eq!(hidden_right, 8);
    assert_eq!(width_of(&shown), 6 + 18 + 6);
}

#[test]
fn shown_tabs_are_the_nearest_in_order() {
    let (left, shown, right) = fitted(&[3; 10], 3, &[3; 10], 30);
    assert_eq!(indices(&left), (0..7).map(Some).collect::<Vec<_>>());
    assert_eq!(indices(&right), (13..21).map(Some).collect::<Vec<_>>());
    // the indicators select the nearest hidden tab on their side
    assert_eq!(indices(&shown), (6..14).map(Some).collect::<Vec<_>>());
}

#[test]
fn equal_tabs_are_taken_from_both_sides_in_turn() {
    for cols in 17..80 {
        let (left, _, right) = fitted(&[4; 12], 4, &[4; 12], cols);
        if !left.is_empty() && !right.is_empty() {
            let taken_left = 12 - left.len();
            let taken_right = 12 - right.len();
            assert!(taken_right <= taken_left && taken_left <= taken_right + 1);
        }
    }
}

#[test]
fn narrower_side_goes_first() {
    // the left tab is wide: after it the right side is served twice
    let (left, shown, right) = fitted(&[2, 2, 9], 3, &[2, 2, 2, 2], 28);
    assert_eq!(indices(&left), vec![Some(0), Some(1)]);
    assert_eq!(indices(&right), vec![Some(6), Some(7)]);
    assert_eq!(indices(&shown), (1..7).map(Some).collect::<Vec<_>>());
    assert_eq!(width_of(&shown), 6 + 9 + 3 + 2 + 2 + 6);
}

#[test]
fn more_room_never_hides_a_tab_on_one_side() {
    let mut last = 0;
    for cols in 0..60 {
        let (_, shown, right) = fitted(&[], 3, &[4, 2, 7, 1, 5, 3], cols);
        let visible = 6 - right.len();
        assert!(visible >= last);
        assert!(cols < 3 || width_of(&shown) <= cols);
        last = visible;
    }
    assert_eq!(last, 6);
    let mut last = 0;
    for cols in 0..60 {
        let (left, _, _) = fitted(&[4, 2, 7, 1, 5, 3], 3, &[], cols);
        let visible = 6 - left.len();
        assert!(visible >= last);
        last = visible;
    }
    assert_eq!(last, 6);
}

#[test]
fn more_room_can_hide_tabs_with_tabs_on_both_sides() {
    // in 16 columns the wide tab on the left does not fit and three small
    // ones on the right do; in 17 it fits, and nothing else beside it
    let (_, narrow, _) = fitted(&[10], 1, &[1, 1, 1, 1, 1], 16);
    let (_, wide, _) = fitted(&[10], 1, &[1, 1, 1, 1, 1], 17);
    let tabs_in = |row: &[LinePart]| row.iter().filter(|p| p.part.starts_with('x')).count();
    assert_eq!(tabs_in(&narrow), 4);
    assert_eq!(tabs_in(&wide), 2);
}

#[test]
fn row_never_exceeds_its_columns() {
    for cols in 3..70 {
        let (_, shown, _) = fitted(&[5, 1, 8, 2], 3, &[7, 7, 1, 4, 9], cols);
        assert!(width_of(&shown) <= cols);
        assert!(indices(&shown).contains(&Some(4)));
    }
}

#[test]
fn a_middle_wider_than_the_row_is_left_alone() {
    let (left, shown, right) = fitted(&[1], 8, &[1], 6);
    assert_eq!(left.len(), 1);
    assert_eq!(right.len(), 1);
    assert_eq!(indices(&shown), vec![Some(1)]);
}

#[test]
fn twenty_thousand_tabs_say_many_on_both_sides() {
    let before = vec![3; 10005];
    let after = vec![3; 10005];
    let (left, shown, right) = fitted(&before, 3, &after, 30);
    // 9 + 3 + 9 at first; then 24, 27, 30
    assert_eq!(left.len(), 10003);
    assert_eq!(right.len(), 10004);
    assert!(shown[0].part.contains(" ← +many "));
    assert!(shown[shown.len() - 1].part.contains(" +many → "));
    assert_eq!(shown[0].len, 9);
    assert_eq!(shown[shown.len() - 1].len, 9);
    assert_eq!(shown.len(), 2 + 3 + 1);
    assert_eq!(width_of(&shown), 30);
}

/// Pieces that claim the widths `widths`, whatever their text.
fn claimed(widths: &[usize], first_index: usize) -> Vec<LinePart> {
    widths
        .iter()
        .enumerate()
        .map(|(i, w)| LinePart { part: "x".to_string(), len: *w, tab_index: Some(first_index + i) })
        .collect()
}

#[test]
fn widths_are_summed() {
    assert_eq!(get_current_title_len(&Vec::new()), 0);
    assert_eq!(get_current_title_len(&tabs(&[3, 0, 9, 1], 0)), 13);
    assert_eq!(checked_title_len(&Vec::new()), Some(0));
    assert_eq!(checked_title_len(&tabs(&[3, 0, 9, 1], 0)), Some(13));
    assert_eq!(checked_title_len(&claimed(&[usize::MAX - 1, 1], 0)), Some(usize::MAX));
    assert_eq!(checked_title_len(&claimed(&[usize::MAX, 1], 0)), None);
    assert_eq!(checked_title_len(&claimed(&[1, usize::MAX, 0], 0)), None);
}

#[test]
fn a_middle_wider_than_any_row_is_left_alone() {
    let mut left = tabs(&[1], 0);
    let mut right = tabs(&[1], 3);
    let mut shown = claimed(&[usize::MAX, 1], 1);
    populate_tabs_in_tab_line(&mut left, &mut right, &mut shown, usize::MAX, styling(), plain());
    assert_eq!(indices(&left), vec![Some(0)]);
    assert_eq!(indices(&right), vec![Some(3)]);
    assert_eq!(indices(&shown), vec![Some(1), Some(2)]);
}

#[test]
fn widest_row_takes_every_tab() {
    let (left, shown, right) = fitted(&[5, 6], 7, &[8, 9], usize::MAX);
    assert!(left.is_empty() && right.is_empty());
    assert_eq!(indices(&shown), (0..5).map(Some).collect::<Vec<_>>());
    assert_eq!(width_of(&shown), 35);
}

#[test]
fn default_piece_is_empty() {
    let piece = LinePart::default();
    assert_eq!(piece.part, "");
    assert_eq!(piece.len, 0);
    assert_eq!(piece.tab_index, None);
}

#[test]
fn tabs_without_width_are_taken_from_the_left_first() {
    for cols in 0..40 {
        let (left, shown, right) = fitted(&[0; 5], 3, &[0; 5], cols);
        if !left.is_empty() && !right.is_empty() {
            // not even the indicators fitted beside the middle
            assert_eq!(left.len(), 5);
            assert_eq!(right.len(), 5);
            assert_eq!(indices(&shown), vec![Some(5)]);
        } else {
            assert!(left.is_empty());
        }
    }
}

#[test]
fn tabs_pass_through_the_fitting_unchanged() {
    for cols in 0..60 {
        let before = [5, 1, 8, 2];
        let after = [7, 7, 1, 4, 9];
        let (left, shown, right) = fitted(&before, 3, &after, cols);
        let mut texts: Vec<String> = left.iter().map(|p| p.part.clone()).collect();
        texts.extend(shown.iter().filter(|p| p.part.starts_with('x')).map(|p| p.part.clone()));
        texts.extend(right.iter().map(|p| p.part.clone()));
        let mut handed_in: Vec<String> = before.iter().map(|w| "x".repeat(*w)).collect();
        handed_in.push("x".repeat(3));
        handed_in.extend(after.iter().map(|w| "x".repeat(*w)));
        assert_eq!(texts, handed_in);
    }
}
