use tabline::bar::{complete, frame, line_text, render, title};
use tabline::line::{tab_line, tab_line_status, tab_line_title};
use tabline::load::LoadAverage;
use tabline::mode::InputMode;
use tabline::style::{
    paint_ribbon, Palette, PaletteColor, PluginCapabilities, StyleDeclaration, Styling,
};
use tabline::tab::{tab_style, TabInfo};
use tabline::LinePart;

fn declaration(first: u8) -> StyleDeclaration {
    StyleDeclaration {
        base: PaletteColor::EightBit(first),
        background: PaletteColor::EightBit(first + 1),
        emphasis_0: PaletteColor::EightBit(first + 2),
        emphasis_1: PaletteColor::EightBit(first + 3),
        emphasis_2: PaletteColor::EightBit(first + 4),
        emphasis_3: PaletteColor::EightBit(first + 5),
    }
}

fn styling() -> Styling {
    Styling {
        text_unselected: declaration(10),
        text_selected: declaration(20),
        ribbon_unselected: declaration(30),
        ribbon_selected: declaration(40),
    }
}

fn palette() -> Palette {
    Palette {
        green: PaletteColor::EightBit(1),
        white: PaletteColor::EightBit(2),
        blue: PaletteColor::EightBit(3),
        cyan: PaletteColor::EightBit(4),
        yellow: PaletteColor::EightBit(5),
        magenta: PaletteColor::EightBit(6),
        red: PaletteColor::Rgb(7, 8, 9),
    }
}

fn load() -> LoadAverage {
    LoadAverage {
        one: "0.20".to_string(),
        five: "0.18".to_string(),
        fifteen: "0.12".to_string(),
        percent: 5,
    }
}

fn plain() -> PluginCapabilities {
    PluginCapabilities { arrow_fonts: true }
}

fn tab(width: usize, index: usize) -> LinePart {
    LinePart { part: format!("<{}>", index), len: width, tab_index: Some(index) }
}

fn tabs(widths: &[usize]) -> Vec<LinePart> {
    widths.iter().enumerate().map(|(i, w)| tab(*w, i)).collect()
}

fn width_of(parts: &[LinePart]) -> usize {
    parts.iter().map(|p| p.len).sum()
}

const TIME: &str = " 08:00:00 木曜日 ";

fn line(widths: &[usize], active: usize, cols: usize) -> Vec<LinePart> {
    tab_line(
        Some("main"),
        tabs(widths),
        active,
        cols,
        styling(),
        &palette(),
        plain(),
        false,
        InputMode::Normal,
        &Some("base".to_string()),
        false,
        TIME,
        &load(),
    )
}

fn info(name: &str, position: usize, active: bool) -> TabInfo {
    TabInfo {
        name: name.to_string(),
        position,
        active,
        is_swap_layout_dirty: false,
        active_swap_layout_name: None,
    }
}

#[test]
fn line_is_as_wide_as_the_terminal() {
    for cols in 17..140 {
        let parts = line(&[5, 9, 4, 7, 6, 3, 8], 3, cols);
        // the prefix is 14 columns and the active tab 7
        if cols >= 21 {
            assert_eq!(width_of(&parts), cols);
        }
    }
}

#[test]
fn line_shows_the_active_tab_wherever_it_fits() {
    for cols in 21..140 {
        for active in 0..7 {
            let widths = [5, 9, 4, 7, 6, 3, 8];
            let parts = line(&widths, active, cols);
            if 14 + widths[active] <= cols {
                let shown = parts.iter().filter(|p| p.part == format!("<{}>", active)).count();
                assert_eq!(shown, 1);
            }
        }
    }
}

#[test]
fn line_in_eighty_columns() {
    let parts = line(&[5, 5, 5], 1, 80);
    let texts: Vec<&str> = parts.iter().map(|p| p.part.as_str()).collect();
    assert_eq!(parts.len(), 3 + 3 + 4);
    assert_eq!(&texts[3..6], &["<0>", "<1>", "<2>"]);
    let widths: Vec<usize> = parts.iter().map(|p| p.len).collect();
    // label, name, badge; three tabs; blanks, layout, load, clock
    assert_eq!(widths, vec![0, 6, 8, 5, 5, 5, 12, 6, 16, 17]);
    assert!(texts[7].contains(" BASE "));
    assert!(texts[8].contains(" 0.20 0.18 0.12 "));
    assert!(texts[9].contains(TIME));
    assert_eq!(width_of(&parts), 80);
}

fn bare_line(widths: &[usize], active: usize, cols: usize) -> Vec<LinePart> {
    tab_line(
        None,
        tabs(widths),
        active,
        cols,
        styling(),
        &palette(),
        plain(),
        true,
        InputMode::Normal,
        &None,
        false,
        TIME,
        &load(),
    )
}

#[test]
fn ten_columns_with_three_tabs_of_three() {
    // the badge takes eight of the ten columns: the active tab has no room,
    // and the prefix is all that is drawn
    let parts = bare_line(&[3, 3, 3], 1, 10);
    assert_eq!(parts.len(), 2);
    assert!(parts.iter().all(|p| p.tab_index.is_none()));
    assert_eq!(width_of(&parts), 8);
}

#[test]
fn three_tabs_of_three_and_blanks_after_them() {
    // eight columns for the badge, fifteen for the tabs and the indicators
    // that stand beside the active tab until the others are shown
    let parts = bare_line(&[3, 3, 3], 1, 23);
    let texts: Vec<&str> = parts.iter().map(|p| p.part.as_str()).collect();
    assert_eq!(&texts[2..5], &["<0>", "<1>", "<2>"]);
    assert_eq!(parts.len(), 6);
    assert_eq!(width_of(&parts[2..5]), 9);
    assert_eq!(parts[5].len, 6);
    assert_eq!(parts[5].tab_index, None);
    assert_eq!(width_of(&parts), 23);
    // a column less, and only the active tab is drawn, without indicators
    let tight = bare_line(&[3, 3, 3], 1, 22);
    assert_eq!(tight.iter().filter(|p| p.tab_index.is_some()).count(), 1);
    assert_eq!(width_of(&tight), 22);
}

#[test]
fn active_tab_wider_than_the_line_leaves_the_prefix_alone() {
    let parts = tab_line(
        None,
        tabs(&[3, 8, 3]),
        1,
        6,
        styling(),
        &palette(),
        plain(),
        false,
        InputMode::Normal,
        &None,
        false,
        TIME,
        &load(),
    );
    // the badge does not fit in six columns either: the label is all
    assert_eq!(parts.len(), 1);
    assert_eq!(parts[0].len, 0);
    assert!(parts.iter().all(|p| p.tab_index.is_none()));
}

#[test]
fn prefix_alone_can_be_wider_than_the_line() {
    // name and badge fit in eight columns each, not together
    let parts = line(&[3], 0, 8);
    assert_eq!(parts.len(), 3);
    assert_eq!(width_of(&parts), 14);
    assert!(parts.iter().all(|p| p.tab_index.is_none()));
}

#[test]
fn session_name_can_be_hidden() {
    let parts = tab_line(
        Some("main"),
        tabs(&[3]),
        0,
        40,
        styling(),
        &palette(),
        plain(),
        true,
        InputMode::Normal,
        &None,
        false,
        TIME,
        &load(),
    );
    assert!(parts.iter().all(|p| !p.part.contains("(main)")));
    assert_eq!(parts[1].len, 8);
    assert_eq!(width_of(&parts), 40);
}

#[test]
fn no_tabs_no_line() {
    assert!(line(&[], 0, 80).is_empty());
    assert!(line(&[], 3, 80).is_empty());
}

#[test]
fn active_tab_outside_the_tabs_no_line() {
    assert!(line(&[3, 3], 3, 80).is_empty());
    assert!(line(&[3, 3], usize::MAX, 80).is_empty());
}

#[test]
fn place_after_the_last_tab_means_the_last_tab() {
    let parts = line(&[3, 4, 30], 3, 80);
    assert!(parts.iter().any(|p| p.part == "<2>"));
    assert_eq!(width_of(&parts), 80);
    // 14 + 30 fit in 44 columns, the other tabs do not fit beside them
    let tight = line(&[3, 4, 30], 3, 44);
    assert_eq!(tight.iter().filter(|p| p.tab_index.is_some()).count(), 1);
    assert!(tight.iter().any(|p| p.part == "<2>"));
}

#[test]
fn tab_is_a_ribbon_around_its_name() {
    let plain_tab = tab_style("one".to_string(), &info("one", 4, false), false, styling(), plain());
    assert_eq!(plain_tab.len, 5);
    assert_eq!(plain_tab.tab_index, Some(4));
    assert_eq!(
        plain_tab.part,
        "\u{1b}[48;5;31;38;5;11m\u{1b}[1;38;5;30m one \u{1b}[0m\u{1b}[48;5;11;38;5;31m\u{1b}[0m"
    );
    let edged = tab_style(
        "日本".to_string(),
        &info("x", 0, true),
        false,
        styling(),
        PluginCapabilities { arrow_fonts: false },
    );
    assert_eq!(edged.len, 4 + 2 + 2);
    assert!(edged.part.contains(" 日本 "));
    assert!(edged.part.starts_with("\u{1b}[48;5;41;38;5;11m\u{e0bc}"));
}

#[test]
fn alternate_tabs_differ_in_colour_only() {
    let even = tab_style("t".to_string(), &info("t", 0, false), false, styling(), plain());
    let odd = tab_style("t".to_string(), &info("t", 0, false), true, styling(), plain());
    assert_eq!(even.len, odd.len);
    assert!(even.part.contains("48;5;31;"));
    assert!(odd.part.contains("48;5;33;"));
    let active = tab_style("t".to_string(), &info("t", 0, true), true, styling(), plain());
    assert!(active.part.contains("48;5;41;"));
}

#[test]
fn frame_draws_every_tab_and_the_active_one_in_the_middle() {
    let tabs = vec![info("one", 0, false), info("two", 1, true), info("three", 2, false)];
    let parts = render(
        &tabs,
        Some("main"),
        100,
        styling(),
        &palette(),
        plain(),
        false,
        InputMode::Normal,
        TIME,
        &load(),
    )
    .unwrap();
    assert_eq!(width_of(&parts), 100);
    let text = line_text(&parts);
    let one = text.find(" one ").unwrap();
    let two = text.find(" two ").unwrap();
    let three = text.find(" three ").unwrap();
    assert!(one < two && two < three);
    let by_index: Vec<usize> = parts.iter().filter_map(|p| p.tab_index).collect();
    assert_eq!(by_index, vec![0, 1, 2]);
}

#[test]
fn frame_takes_the_layout_from_the_active_tab() {
    let mut tabs = vec![info("one", 0, false), info("two", 1, true)];
    tabs[0].active_swap_layout_name = Some("other".to_string());
    tabs[1].active_swap_layout_name = Some("stacked".to_string());
    tabs[1].is_swap_layout_dirty = true;
    let normal = render(
        &tabs,
        None,
        100,
        styling(),
        &palette(),
        plain(),
        false,
        InputMode::Normal,
        TIME,
        &load(),
    )
    .unwrap();
    let text = line_text(&normal);
    assert!(text.contains(" STACKED "));
    assert!(!text.contains(" OTHER "));
    // while the tab is renamed, its layout is not looked at
    let renaming = render(
        &tabs,
        None,
        100,
        styling(),
        &palette(),
        plain(),
        false,
        InputMode::RenameTab,
        TIME,
        &load(),
    )
    .unwrap();
    assert!(!line_text(&renaming).contains(" STACKED "));
    assert_eq!(width_of(&renaming), 100);
}

#[test]
fn frame_prompts_for_a_name_while_renaming() {
    let tabs = vec![info("", 0, true), info("", 1, false)];
    let renaming = render(
        &tabs,
        None,
        100,
        styling(),
        &palette(),
        plain(),
        false,
        InputMode::RenameTab,
        TIME,
        &load(),
    )
    .unwrap();
    let text = line_text(&renaming);
    assert_eq!(text.matches(" Enter name... ").count(), 1);
    let normal = render(
        &tabs,
        None,
        100,
        styling(),
        &palette(),
        plain(),
        false,
        InputMode::Normal,
        TIME,
        &load(),
    )
    .unwrap();
    assert!(!line_text(&normal).contains("Enter name..."));
}

#[test]
fn frame_without_tabs_is_nothing() {
    let drawn = render(
        &Vec::new(),
        Some("main"),
        100,
        styling(),
        &palette(),
        plain(),
        false,
        InputMode::Normal,
        TIME,
        &load(),
    );
    assert!(drawn.is_none());
}

#[test]
fn frame_is_the_same_for_the_same_input() {
    let tabs = vec![info("one", 0, false), info("two", 1, true), info("three", 2, false)];
    let draw = || {
        let parts = render(
            &tabs,
            Some("main"),
            64,
            styling(),
            &palette(),
            plain(),
            false,
            InputMode::Pane,
            TIME,
            &load(),
        )
        .unwrap();
        frame(&parts, PaletteColor::EightBit(11))
    };
    assert_eq!(draw(), draw());
}

#[test]
fn output_ends_by_filling_the_line() {
    let parts = vec![tab(3, 0), tab(3, 1)];
    assert_eq!(line_text(&parts), "<0><1>");
    assert_eq!(frame(&parts, PaletteColor::EightBit(7)), "<0><1>\u{1b}[48;5;7m\u{1b}[0K");
    assert_eq!(
        frame(&parts, PaletteColor::Rgb(0, 128, 255)),
        "<0><1>\u{1b}[48;2;0;128;255m\u{1b}[0K"
    );
    assert_eq!(frame(&Vec::new(), PaletteColor::EightBit(0)), "\u{1b}[48;5;0m\u{1b}[0K");
}

#[test]
fn frame_without_an_active_tab_is_nothing() {
    let tabs = vec![info("one", 0, false), info("two", 1, false)];
    for mode in [InputMode::Normal, InputMode::RenameTab, InputMode::Locked] {
        let drawn = render(
            &tabs,
            Some("main"),
            100,
            styling(),
            &palette(),
            plain(),
            false,
            mode,
            TIME,
            &load(),
        );
        assert!(drawn.is_none());
        assert!(title(&tabs, Some("main"), 100, styling(), plain(), false, mode).is_none());
    }
}

#[test]
fn last_tab_that_says_it_is_active_counts() {
    let mut tabs = vec![info("one", 0, true), info("two", 1, false), info("three", 2, true)];
    tabs[0].active_swap_layout_name = Some("first".to_string());
    tabs[2].active_swap_layout_name = Some("third".to_string());
    let drawn = title(&tabs, None, 100, styling(), plain(), false, InputMode::Normal).unwrap();
    let room = drawn.status.unwrap();
    assert_eq!(room.swap_layout_name, Some("third".to_string()));
    // while renaming, the layout of the last tab is not looked at
    let renaming =
        title(&tabs, None, 100, styling(), plain(), false, InputMode::RenameTab).unwrap();
    assert_eq!(renaming.status.unwrap().swap_layout_name, None);
}

#[test]
fn title_and_status_make_the_line() {
    let tabs = vec![info("one", 0, false), info("two", 1, true), info("three", 2, false)];
    for cols in [0, 5, 8, 13, 14, 20, 21, 30, 45, 64, 100] {
        let whole = render(
            &tabs,
            Some("main"),
            cols,
            styling(),
            &palette(),
            plain(),
            false,
            InputMode::Normal,
            TIME,
            &load(),
        )
        .unwrap();
        let drawn =
            title(&tabs, Some("main"), cols, styling(), plain(), false, InputMode::Normal)
                .unwrap();
        let title_width = width_of(&drawn.parts);
        let parts = match drawn.status {
            Some(room) => {
                assert_eq!(room.space, cols - title_width);
                complete(
                    drawn.parts,
                    &room,
                    styling(),
                    &palette(),
                    plain(),
                    InputMode::Normal,
                    TIME,
                    &load(),
                )
            },
            None => drawn.parts,
        };
        assert_eq!(line_text(&parts), line_text(&whole));
        assert_eq!(
            parts.iter().map(|p| p.len).collect::<Vec<_>>(),
            whole.iter().map(|p| p.len).collect::<Vec<_>>()
        );
    }
}

#[test]
fn title_leaves_no_room_where_the_tabs_are_not_drawn() {
    // the prefix takes 14 columns and the active tab 7
    let (parts, room) = tab_line_title(
        Some("main"),
        tabs(&[5, 7, 5]),
        1,
        20,
        styling(),
        plain(),
        false,
        InputMode::Normal,
    );
    assert_eq!(room, None);
    assert_eq!(width_of(&parts), 14);
    let (parts, room) = tab_line_title(
        Some("main"),
        tabs(&[5, 7, 5]),
        1,
        21,
        styling(),
        plain(),
        false,
        InputMode::Normal,
    );
    assert_eq!(room, Some(0));
    assert_eq!(width_of(&parts), 21);
    let (parts, room) =
        tab_line_title(None, Vec::new(), 0, 21, styling(), plain(), false, InputMode::Normal);
    assert_eq!(room, None);
    assert!(parts.is_empty());
}

#[test]
fn status_follows_the_title() {
    let line = tab_line_status(
        tabs(&[4]),
        40,
        styling(),
        &palette(),
        plain(),
        InputMode::Normal,
        &Some("base".to_string()),
        false,
        TIME,
        &load(),
    );
    let widths: Vec<usize> = line.iter().map(|p| p.len).collect();
    assert_eq!(widths, vec![4, 1, 6, 16, 17]);
    assert_eq!(line[0].part, "<0>");
}

#[test]
fn ribbon_is_painted_in_one_go() {
    let ribbon = paint_ribbon(
        "|",
        " x ",
        PaletteColor::EightBit(1),
        PaletteColor::Rgb(2, 3, 4),
        PaletteColor::EightBit(5),
    );
    assert_eq!(
        ribbon,
        "\u{1b}[48;5;5;38;2;2;3;4m|\u{1b}[1;38;5;1m x \u{1b}[0m\u{1b}[48;2;2;3;4;38;5;5m|\u{1b}[0m"
    );
}
