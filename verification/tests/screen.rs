use sssh::layout::{split_within, Area, Axis, Extent};
use sssh::select::State;
use sssh::settings::ConfigServer;
use sssh::theme::{Color, Theme};
use sssh::ui::{
    draw_ui, error_layout, Alignment, error_ui, help_key_ui, is_drawable, main_help_ui, server_row,
    server_table_ui, username_list_ui, Body, Span, Style,
};

fn area(x: u16, y: u16, width: u16, height: u16) -> Area {
    Area { x, y, width, height }
}

fn room(width: u16, height: u16) -> Area {
    area(0, 0, width, height)
}

fn inside(inner: Area, outer: Area) -> bool {
    outer.x <= inner.x
        && inner.x as u32 + inner.width as u32 <= outer.x as u32 + outer.width as u32
        && outer.y <= inner.y
        && inner.y as u32 + inner.height as u32 <= outer.y as u32 + outer.height as u32
}

fn server(name: &str, port: u16, description: &str, users: &[&str]) -> ConfigServer {
    ConfigServer {
        name: name.to_string(),
        username_list: users.iter().map(|user| user.to_string()).collect(),
        hostname: format!("{}.example.com", name),
        port,
        description: description.to_string(),
    }
}

fn texts(spans: &[Span]) -> Vec<String> {
    spans.iter().map(|span| span.content.clone()).collect()
}

fn style(bg: Color, fg: Color, bold: bool, dim: bool, rapid_blink: bool) -> Style {
    Style { bg: Some(bg), fg: Some(fg), bold, dim, rapid_blink }
}

#[test]
fn default_theme_has_the_shipped_colours() {
    let theme = Theme::default();
    assert_eq!(theme.main_border_fg, Color::White);
    assert_eq!(theme.help_error_text_fg, Color::Red);
    assert_eq!(theme.table_border_fg, Color::Yellow);
    assert_eq!(theme.table_border_active_fg, Color::LightYellow);
    assert_eq!(theme.table_row_hostname_fg, Color::Green);
    assert_eq!(theme.table_row_description_fg, Color::LightBlue);
    assert_eq!(theme.username_fg, Color::LightBlue);
    assert_eq!(theme.help_key_not_working_fg, Color::DarkGray);
    assert_eq!(theme.help_key_guide_working_fg, Color::White);
    assert_eq!(theme.help_paragraph_bg, Color::Reset);
    assert_eq!(theme.help_paragraph_fg, Color::Reset);
}

#[test]
fn header_asks_for_a_choice() {
    let theme = Theme::default();
    let panel = main_help_ui(false, false, area(3, 2, 74, 2), &theme);
    assert_eq!(panel.area, area(3, 2, 74, 2));
    assert_eq!(panel.alignment, Alignment::Center);
    assert!(panel.trim);
    assert_eq!(panel.lines.len(), 1);
    assert_eq!(texts(&panel.lines[0]), vec!["Select Your SSH server to connect."]);
    assert_eq!(panel.lines[0][0].style, style(Color::Reset, Color::White, true, false, false));
    assert_eq!(panel.paragraph_style, style(Color::Reset, Color::Reset, false, false, false));
}

#[test]
fn header_hints_at_editing_the_shipped_configuration() {
    let theme = Theme::default();
    let panel = main_help_ui(true, false, room(80, 3), &theme);
    assert_eq!(panel.lines.len(), 2);
    assert_eq!(
        texts(&panel.lines[1]),
        vec!["Hint: Press ", "e", " key to edit configuration file"]
    );
    assert_eq!(panel.lines[1][0].style, style(Color::Reset, Color::White, false, true, false));
    assert_eq!(panel.lines[1][1].style, style(Color::Reset, Color::White, true, true, true));
    assert_eq!(panel.lines[1][2].style, style(Color::Reset, Color::White, false, true, false));
}

#[test]
fn header_under_a_failure_says_there_is_nothing_to_choose() {
    let theme = Theme::default();
    for is_default in [false, true] {
        let panel = main_help_ui(is_default, true, room(80, 3), &theme);
        assert_eq!(panel.lines.len(), 1);
        assert_eq!(texts(&panel.lines[0]), vec!["There is no server to choose..."]);
        assert_eq!(panel.lines[0][0].style, style(Color::Reset, Color::Red, true, false, false));
    }
}

#[test]
fn error_text_is_centred() {
    let theme = Theme::default();
    let panel = error_ui("first line\nsecond\r\nthird one is long\n", room(80, 24), &theme);
    assert_eq!(texts(&panel.lines), vec!["first line", "second", "third one is long"]);
    assert_eq!(panel.height, 3);
    assert_eq!(panel.top, 10);
    assert_eq!(panel.bottom, 10);
    assert_eq!(panel.width, 17);
    assert_eq!(panel.left, 31);
    assert_eq!(panel.right, 31);
    assert_eq!(panel.room, room(80, 24));
    assert!(inside(panel.area, panel.room));
    assert_eq!(panel.alignment, Alignment::Left);
    assert!(!panel.trim);
    assert_eq!(
        panel.lines[0].style,
        Style { bg: None, fg: Some(Color::LightRed), bold: false, dim: false, rapid_blink: false }
    );
    assert_eq!(panel.paragraph_style, style(Color::Reset, Color::Reset, true, false, false));
}

#[test]
fn error_text_that_does_not_fit_gets_no_margin() {
    let theme = Theme::default();
    let panel = error_ui("abcdef\nab\nabc", room(6, 3), &theme);
    assert_eq!((panel.top, panel.height, panel.bottom), (0, 3, 0));
    assert_eq!((panel.left, panel.width, panel.right), (0, 6, 0));
    let panel = error_ui("abcdef\nab\nabc", room(7, 4), &theme);
    assert_eq!((panel.top, panel.height, panel.bottom), (0, 3, 0));
    assert_eq!((panel.left, panel.width, panel.right), (0, 6, 0));
    let panel = error_ui("abcdef\nab\nabc", area(4, 2, 8, 5), &theme);
    assert_eq!((panel.top, panel.height, panel.bottom), (1, 3, 1));
    assert_eq!((panel.left, panel.width, panel.right), (1, 6, 1));
    assert_eq!(panel.area, area(5, 3, 6, 3));
}

#[test]
fn error_lines_follow_line_feeds() {
    let theme = Theme::default();
    assert!(error_ui("", room(10, 10), &theme).lines.is_empty());
    assert_eq!(error_ui("", room(10, 10), &theme).top, 5);
    assert_eq!(texts(&error_ui("\n", room(10, 10), &theme).lines), vec![""]);
    assert_eq!(texts(&error_ui("a\n\nb", room(10, 10), &theme).lines), vec!["a", "", "b"]);
    assert_eq!(texts(&error_ui("a\r", room(10, 10), &theme).lines), vec!["a\r"]);
    assert_eq!(texts(&error_ui("a\r\n", room(10, 10), &theme).lines), vec!["a"]);
    assert_eq!(texts(&error_ui("a\r\r\nb", room(10, 10), &theme).lines), vec!["a\r", "b"]);
}

#[test]
fn error_width_counts_bytes() {
    let theme = Theme::default();
    let panel = error_layout(&vec!["é".to_string(), "a".to_string()], room(10, 10), &theme);
    assert_eq!(panel.width, 2);
    assert_eq!(panel.left, 4);
    assert_eq!(panel.height, 2);
}

#[test]
fn row_shows_host_and_port() {
    let theme = Theme::default();
    let row = server_row(&server("a", 22, "", &["root"]), &theme);
    assert_eq!(row.name.content, "a");
    assert_eq!(row.hostname.content, "a.example.com");
    assert_eq!(row.height, 1);
    assert!(row.description.is_empty());
    let row = server_row(&server("b", 2222, "one\ntwo\nthree", &["root"]), &theme);
    assert_eq!(row.hostname.content, "b.example.com:2222");
    assert_eq!(row.height, 3);
    assert_eq!(texts(&row.description), vec!["one", "two", "three"]);
    assert_eq!(row.name.style, style(Color::Reset, Color::White, false, false, false));
    assert_eq!(row.hostname.style, style(Color::Reset, Color::Green, false, false, false));
    assert_eq!(
        row.description[0].style,
        style(Color::Reset, Color::LightBlue, false, false, false)
    );
    let row = server_row(&server("c", 1, "ends with a break\n", &["root"]), &theme);
    assert_eq!(row.height, 2);
    assert_eq!(texts(&row.description), vec!["ends with a break"]);
}

#[test]
fn table_shows_every_target_and_the_cursor() {
    let theme = Theme::default();
    let mut state = State::build(vec![
        server("b", 22, "", &["root", "ci"]),
        server("a", 22, "", &["admin"]),
    ]);
    let table = server_table_ui(&state, area(3, 5, 59, 13), &theme);
    assert_eq!(table.area, area(3, 5, 59, 13));
    assert_eq!(texts(&table.header), vec!["Name", "Hostname", "Description"]);
    assert_eq!(table.header[0].style, style(Color::Reset, Color::LightYellow, true, false, false));
    assert_eq!(table.rows.len(), 2);
    assert_eq!(table.rows[0].name.content, "a");
    assert_eq!(table.rows[1].name.content, "b");
    assert_eq!(table.selected, Some(0));
    assert_eq!(table.title.content, "Servers");
    assert_eq!(table.title_alignment, Alignment::Center);
    assert_eq!(table.widths, vec![15, 20, 65]);
    assert_eq!(table.header_height, 1);
    assert_eq!(table.bottom_margin, 1);
    assert_eq!(
        table.header_style,
        Style { bg: None, fg: Some(Color::Reset), bold: true, dim: false, rapid_blink: false }
    );
    assert_eq!(table.border_style.fg, Some(Color::LightYellow));
    assert_eq!(table.highlight_style, style(Color::Reset, Color::Reset, true, false, false));
    state.next_server();
    state.enter_identity_panel();
    let table = server_table_ui(&state, area(3, 5, 59, 13), &theme);
    assert_eq!(table.selected, Some(1));
    assert_eq!(table.border_style.fg, Some(Color::Yellow));
}

#[test]
fn list_shows_the_identities_of_the_highlighted_target() {
    let theme = Theme::default();
    let mut state = State::build(vec![
        server("b", 22, "", &["root", "ci"]),
        server("a", 22, "", &["admin"]),
    ]);
    let list = username_list_ui(&state, area(62, 5, 15, 13), &theme);
    assert_eq!(list.area, area(62, 5, 15, 13));
    assert_eq!(texts(&list.items), vec!["admin"]);
    assert_eq!(list.selected, None);
    assert_eq!(list.title.content, "Usernames");
    assert_eq!(list.title_alignment, Alignment::Center);
    assert_eq!(list.border_style.fg, Some(Color::Yellow));
    assert_eq!(list.items[0].style, style(Color::Reset, Color::LightBlue, true, false, false));
    state.next_server();
    state.enter_identity_panel();
    state.next_username();
    let list = username_list_ui(&state, area(62, 5, 15, 13), &theme);
    assert_eq!(texts(&list.items), vec!["root", "ci"]);
    assert_eq!(list.selected, Some(1));
    assert_eq!(list.border_style.fg, Some(Color::LightYellow));
}

#[test]
fn list_is_empty_without_targets() {
    let theme = Theme::default();
    let state = State::build(Vec::new());
    let list = username_list_ui(&state, area(62, 5, 15, 13), &theme);
    assert!(list.items.is_empty());
    assert_eq!(list.selected, None);
    assert!(server_table_ui(&state, area(3, 5, 59, 13), &theme).rows.is_empty());
}

#[test]
fn footer_lays_out_eight_keys_in_two_rows() {
    let theme = Theme::default();
    let state = State::build(Vec::new());
    let panel = help_key_ui(&state.working_keys, area(0, 20, 80, 4), &theme);
    assert_eq!(panel.area, area(0, 20, 80, 4));
    assert_eq!(
        panel.cells.iter().map(|cell| cell.area).collect::<Vec<_>>(),
        vec![
            area(0, 20, 20, 2),
            area(20, 20, 20, 2),
            area(40, 20, 20, 2),
            area(60, 20, 20, 2),
            area(0, 22, 20, 2),
            area(20, 22, 20, 2),
            area(40, 22, 20, 2),
            area(60, 22, 20, 2),
        ]
    );
    assert_eq!(panel.alignment, Alignment::Center);
    assert_eq!(panel.column_count, 4);
    assert_eq!(panel.row_count, 2);
    assert_eq!(panel.row_percentage, 50);
    assert_eq!(panel.column_percentage, 25);
    assert_eq!(panel.cells.len(), 8);
    let keys: Vec<String> = panel.cells.iter().map(|cell| cell.key.content.clone()).collect();
    assert_eq!(keys, vec!["Up", "Down", "Left", "Right", "q", "e", "r", "Enter"]);
    assert_eq!(panel.cells[0].open.content, "[");
    assert_eq!(panel.cells[0].close.content, "] ");
    assert_eq!(panel.cells[0].help.content, "Previous server/username");
    assert_eq!(panel.cells[0].key.style, style(Color::Reset, Color::DarkGray, true, false, false));
    assert_eq!(panel.cells[0].help.style, style(Color::Reset, Color::DarkGray, false, false, false));
    assert_eq!(panel.cells[4].key.style, style(Color::Reset, Color::LightYellow, true, false, false));
    assert_eq!(panel.cells[4].help.style, style(Color::Reset, Color::White, false, false, false));
    assert_eq!(panel.cells[0].open.style, Style::new());
}

#[test]
fn screen_shows_lists_or_the_failure() {
    let theme = Theme::default();
    let state = State::build(vec![server("a", 22, "", &["admin"])]);
    let size = room(80, 24);
    let screen = draw_ui(true, &state, &None, size, &theme).unwrap();
    assert_eq!(screen.area, size);
    assert_eq!(screen.title.content, "sssh");
    assert_eq!(screen.title_alignment, Alignment::Center);
    assert!(screen.rounded);
    assert_eq!(screen.title.style, style(Color::Reset, Color::White, true, false, false));
    assert_eq!(screen.border_style, style(Color::Reset, Color::White, false, false, false));
    assert_eq!(screen.help.lines.len(), 2);
    assert_eq!(screen.help.area, area(3, 2, 74, 2));
    assert_eq!(screen.keys.area, area(3, 19, 74, 3));
    match screen.body {
        Body::Lists(table, list) => {
            assert_eq!(table.rows.len(), 1);
            assert_eq!(texts(&list.items), vec!["admin"]);
            assert!(inside(table.area, area(3, 5, 74, 13)));
            assert!(inside(list.area, area(3, 5, 74, 13)));
            assert_eq!(table.area.x, 3);
            assert_eq!(table.area.x + table.area.width, list.area.x);
            assert_eq!(list.area.x + list.area.width, 77);
            assert_eq!((table.area.y, table.area.height), (5, 13));
            assert_eq!((list.area.y, list.area.height), (5, 13));
        }
        Body::Error(panel) => panic!("unexpected failure {:?}", panel),
    }
    assert_eq!(screen.keys.cells.len(), 8);
    assert!(screen.keys.cells.iter().all(|cell| inside(cell.area, area(3, 19, 74, 3))));
    assert!(screen.keys.cells.iter().all(|cell| cell.key.style.fg == Some(Color::LightYellow)));
    let screen = draw_ui(true, &state, &Some("it broke".to_string()), size, &theme).unwrap();
    assert_eq!(screen.help.lines.len(), 1);
    assert_eq!(screen.help.lines[0][0].content, "There is no server to choose...");
    match screen.body {
        Body::Error(panel) => {
            assert_eq!(texts(&panel.lines), vec!["it broke"]);
            assert_eq!(panel.room, area(3, 4, 74, 15));
            assert_eq!((panel.top, panel.height, panel.bottom), (7, 1, 7));
            assert_eq!((panel.left, panel.width, panel.right), (33, 8, 33));
            assert_eq!(panel.area, area(36, 11, 8, 1));
        }
        Body::Lists(..) => panic!("lists shown under a failure"),
    }
}

#[test]
fn screen_too_large_to_divide_is_not_described() {
    let theme = Theme::default();
    let state = State::build(Vec::new());
    assert!(is_drawable(room(819, 873)));
    assert!(draw_ui(false, &state, &None, room(819, 873), &theme).is_some());
    for size in [room(820, 24), room(80, 874), area(65000, 0, 600, 24), area(0, 65000, 80, 600)] {
        assert!(!is_drawable(size));
        assert!(draw_ui(false, &state, &None, size, &theme).is_none());
    }
    assert!(draw_ui(false, &state, &None, room(0, 0), &theme).is_some());
    assert!(draw_ui(false, &state, &Some("x".to_string()), room(1, 1), &theme).is_some());
}

#[test]
fn division_gives_one_part_for_each_extent() {
    let parts = split_within(
        Axis::Vertical,
        0,
        0,
        &vec![Extent::Length(2), Extent::Length(3), Extent::Length(5)],
        area(1, 1, 10, 10),
    );
    assert_eq!(parts, vec![area(1, 1, 10, 2), area(1, 3, 10, 3), area(1, 6, 10, 5)]);
    let parts = split_within(
        Axis::Horizontal,
        1,
        1,
        &vec![Extent::Percentage(50), Extent::Percentage(50)],
        area(0, 0, 22, 12),
    );
    assert_eq!(parts, vec![area(1, 1, 10, 10), area(11, 1, 10, 10)]);
    assert!(split_within(Axis::Vertical, 0, 0, &Vec::new(), room(5, 5)).is_empty());
}

#[test]
fn clip_keeps_what_lies_inside() {
    let outer = area(10, 10, 20, 5);
    assert_eq!(area(12, 11, 3, 2).clip(outer), area(12, 11, 3, 2));
    assert_eq!(outer.clip(outer), outer);
    assert_eq!(area(0, 0, 15, 12).clip(outer), area(10, 10, 5, 2));
    assert_eq!(area(25, 14, 100, 100).clip(outer), area(25, 14, 5, 1));
    assert_eq!(area(0, 0, 5, 5).clip(outer), area(10, 10, 0, 0));
    assert_eq!(area(40, 40, 5, 5).clip(outer), area(30, 15, 0, 0));
    assert_eq!(area(65535, 65535, 65535, 65535).clip(outer), area(30, 15, 0, 0));
}
