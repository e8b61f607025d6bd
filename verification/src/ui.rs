//! The screen as a description: what each panel shows and in which style.
//! Nothing here draws; the description is handed to whatever does.
use vstd::prelude::*;
use vstd::utf8::encode_utf8;
use crate::keys::WorkingKeys;
use crate::layout::split_within;
use crate::layout::Area;
use crate::layout::Axis;
use crate::layout::Extent;
use crate::select::State;
use crate::select::StateView;
use crate::settings::ConfigServer;
use crate::settings::ServerView;
use crate::settings::DEFAULT_PORT_NUMBER;
use crate::text::breaks;
use crate::text::count_breaks;
use crate::text::decimal;
use crate::text::decimal_text;
use crate::text::join3;
use crate::text::lines_of;
use crate::text::low16;
use crate::text::low16_of;
use crate::text::text_lines;
use crate::text::views;
use crate::theme::Color;
use crate::theme::Theme;

verus! {

/// How a piece of text looks.
#[derive(Debug, Clone, Copy, PartialEq, Eq, Structural)]
pub struct Style {
    pub bg: Option<Color>,
    pub fg: Option<Color>,
    pub bold: bool,
    pub dim: bool,
    pub rapid_blink: bool,
}

impl Style {
    /// No colour and no emphasis.
    pub open spec fn none() -> Style {
        Style { bg: None, fg: None, bold: false, dim: false, rapid_blink: false }
    }

    /// The two colours, without emphasis.
    pub open spec fn colored(bg: Color, fg: Color) -> Style {
        Style { bg: Some(bg), fg: Some(fg), bold: false, dim: false, rapid_blink: false }
    }

    /// The two colours, in bold.
    pub open spec fn strong(bg: Color, fg: Color) -> Style {
        Style { bg: Some(bg), fg: Some(fg), bold: true, dim: false, rapid_blink: false }
    }

    /// The two colours, dimmed.
    pub open spec fn faint(bg: Color, fg: Color) -> Style {
        Style { bg: Some(bg), fg: Some(fg), bold: false, dim: true, rapid_blink: false }
    }

    /// No colour and no emphasis.
    pub fn new() -> (style: Style)
        ensures
            style == Style::none(),
    {
        Style { bg: None, fg: None, bold: false, dim: false, rapid_blink: false }
    }

    /// The two colours, without emphasis.
    pub fn of(bg: Color, fg: Color) -> (style: Style)
        ensures
            style == Style::colored(bg, fg),
    {
        Style { bg: Some(bg), fg: Some(fg), bold: false, dim: false, rapid_blink: false }
    }

    /// The same style in bold.
    pub fn with_bold(self) -> (style: Style)
        ensures
            style == (Style { bold: true, ..self }),
    {
        Style { bold: true, ..self }
    }

    /// The same style dimmed.
    pub fn with_dim(self) -> (style: Style)
        ensures
            style == (Style { dim: true, ..self }),
    {
        Style { dim: true, ..self }
    }

    /// The same style blinking.
    pub fn with_rapid_blink(self) -> (style: Style)
        ensures
            style == (Style { rapid_blink: true, ..self }),
    {
        Style { rapid_blink: true, ..self }
    }
}

/// Where text stands in its room.
#[derive(Debug, Clone, Copy, PartialEq, Eq, Structural)]
pub enum Alignment {
    Left,
    Center,
    Right,
}

/// A piece of text in one style.
#[derive(Debug)]
pub struct Span {
    pub content: String,
    pub style: Style,
}

/// A piece of text in one style, as plain mathematical values.
pub struct SpanView {
    pub content: Seq<char>,
    pub style: Style,
}

impl View for Span {
    type V = SpanView;

    open spec fn view(&self) -> SpanView {
        SpanView { content: self.content@, style: self.style }
    }
}

/// The views of a list of spans.
pub open spec fn span_views(list: Seq<Span>) -> Seq<SpanView> {
    Seq::new(list.len(), |i: int| list[i]@)
}

/// The views of a list of lines of spans.
pub open spec fn line_views(list: Seq<Vec<Span>>) -> Seq<Seq<SpanView>> {
    Seq::new(list.len(), |i: int| span_views(list[i]@))
}

/// The span that shows `content` in `style`.
pub open spec fn span_of(content: Seq<char>, style: Style) -> SpanView {
    SpanView { content, style }
}

impl Span {
    /// A span of `content` in `style`.
    pub fn new(content: &str, style: Style) -> (span: Span)
        ensures
            span@ == span_of(content@, style),
    {
        Span { content: String::from_str(content), style }
    }
}

/// Each text as a span of its own, all in `style`.
pub open spec fn spans_of(texts: Seq<Seq<char>>, style: Style) -> Seq<SpanView> {
    Seq::new(texts.len(), |i: int| span_of(texts[i], style))
}

/// Makes a span of each text, all in `style`.
pub fn styled_spans(texts: &Vec<String>, style: Style) -> (spans: Vec<Span>)
    ensures
        span_views(spans@) == spans_of(views(texts@), style),
{
    let mut spans: Vec<Span> = Vec::new();
    let mut i: usize = 0;
    while i < texts.len()
        invariant
            i <= texts.len(),
            spans@.len() == i,
            forall|j: int| 0 <= j < i ==> (#[trigger] spans@[j])@ == span_of(texts@[j]@, style),
        decreases texts.len() - i,
    {
        spans.push(Span::new(texts[i].as_str(), style));
        i += 1;
    }
    assert(span_views(spans@) =~= spans_of(views(texts@), style));
    spans
}

/// The header: what the user is told above the lists.
#[derive(Debug)]
pub struct HelpPanel {
    pub area: Area,
    pub lines: Vec<Vec<Span>>,
    pub paragraph_style: Style,
    pub alignment: Alignment,
    /// Whether lines too long for the room are wrapped with their leading
    /// white space trimmed.
    pub trim: bool,
}

/// The lines of the header. With a failure shown, one line says that there
/// is nothing to choose. Otherwise one line asks for a choice, and a second
/// one hints at the edit key while the shipped configuration is in use.
pub open spec fn help_lines(is_default_servers: bool, has_error: bool, theme: Theme) -> Seq<
    Seq<SpanView>,
> {
    if has_error {
        seq![
            seq![
                span_of(
                    "There is no server to choose..."@,
                    Style::strong(theme.help_error_text_bg, theme.help_error_text_fg),
                ),
            ],
        ]
    } else {
        let first = seq![
            span_of(
                "Select Your SSH server to connect."@,
                Style::strong(theme.help_text_bg, theme.help_text_fg),
            ),
        ];
        if is_default_servers {
            let hint = Style::faint(theme.help_hint_text_bg, theme.help_hint_text_fg);
            seq![
                first,
                seq![
                    span_of("Hint: Press "@, hint),
                    span_of("e"@, Style { bold: true, rapid_blink: true, ..hint }),
                    span_of(" key to edit configuration file"@, hint),
                ],
            ]
        } else {
            seq![first]
        }
    }
}

/// Whether `panel` is the header in the room `rect`: its lines centred and
/// wrapped, in the colours of the paragraph.
pub open spec fn help_shows(
    panel: HelpPanel,
    is_default_servers: bool,
    has_error: bool,
    rect: Area,
    theme: Theme,
) -> bool {
    &&& panel.area == rect
    &&& line_views(panel.lines@) == help_lines(is_default_servers, has_error, theme)
    &&& panel.paragraph_style == Style::colored(theme.help_paragraph_bg, theme.help_paragraph_fg)
    &&& panel.alignment == Alignment::Center
    &&& panel.trim
}

/// Describes the header.
pub fn main_help_ui(is_default_servers: bool, has_error: bool, rect: Area, theme: &Theme) -> (panel:
    HelpPanel)
    ensures
        help_shows(panel, is_default_servers, has_error, rect, *theme),
{
    let mut lines: Vec<Vec<Span>> = Vec::new();
    if has_error {
        let mut line: Vec<Span> = Vec::new();
        line.push(
            Span::new(
                "There is no server to choose...",
                Style::of(theme.help_error_text_bg, theme.help_error_text_fg).with_bold(),
            ),
        );
        assert(span_views(line@) =~= help_lines(is_default_servers, has_error, *theme)[0]);
        lines.push(line);
    } else {
        let mut first: Vec<Span> = Vec::new();
        first.push(
            Span::new(
                "Select Your SSH server to connect.",
                Style::of(theme.help_text_bg, theme.help_text_fg).with_bold(),
            ),
        );
        assert(span_views(first@) =~= help_lines(is_default_servers, has_error, *theme)[0]);
        lines.push(first);
        if is_default_servers {
            let hint = Style::of(theme.help_hint_text_bg, theme.help_hint_text_fg).with_dim();
            let mut second: Vec<Span> = Vec::new();
            second.push(Span::new("Hint: Press ", hint));
            second.push(Span::new("e", hint.with_bold().with_rapid_blink()));
            second.push(Span::new(" key to edit configuration file", hint));
            assert(span_views(second@) =~= help_lines(is_default_servers, has_error, *theme)[1]);
            lines.push(second);
        }
    }
    assert(line_views(lines@) =~= help_lines(is_default_servers, has_error, *theme));
    HelpPanel {
        area: rect,
        lines,
        paragraph_style: Style::of(theme.help_paragraph_bg, theme.help_paragraph_fg),
        alignment: Alignment::Center,
        trim: true,
    }
}

/// The width of a line, in bytes.
pub open spec fn width_of(line: Seq<char>) -> usize {
    encode_utf8(line).len() as usize
}

/// The width of the widest of the first `end` lines.
pub open spec fn widest(lines: Seq<Seq<char>>, end: int) -> usize
    decreases end,
{
    if end <= 0 {
        0
    } else if width_of(lines[end - 1]) > widest(lines, end - 1) {
        width_of(lines[end - 1])
    } else {
        widest(lines, end - 1)
    }
}

/// Half of what is left of `available` once `used` is taken, or nothing if
/// `used` does not fit.
pub open spec fn margin(available: u16, used: u16) -> u16 {
    if available > used {
        ((available - used) / 2) as u16
    } else {
        0
    }
}

/// A failure shown in place of the lists, centred both ways: the margins
/// around the text and the room the text takes, in cells, and the rectangle
/// that the division of the room gave the text.
#[derive(Debug)]
pub struct ErrorPanel {
    pub room: Area,
    pub area: Area,
    pub lines: Vec<Span>,
    pub paragraph_style: Style,
    pub alignment: Alignment,
    /// Whether lines too long for the room are wrapped with their leading
    /// white space trimmed.
    pub trim: bool,
    pub top: u16,
    pub height: u16,
    pub bottom: u16,
    pub left: u16,
    pub width: u16,
    pub right: u16,
}

/// Whether `panel` shows `lines` centred in the room `rect`: the text takes
/// as many rows as it has lines and as many columns as its widest line has
/// bytes, both counts cut to sixteen bits, what is left is split evenly
/// around it, and the rectangle given to the text lies inside the room.
pub open spec fn centered(panel: ErrorPanel, lines: Seq<Seq<char>>, rect: Area, theme: Theme) -> bool {
    let rows = low16(lines.len() as int);
    let columns = low16(widest(lines, lines.len() as int) as int);
    let width = rect.width;
    let height = rect.height;
    &&& panel.room == rect
    &&& panel.area.inside(rect)
    &&& span_views(panel.lines@) == spans_of(
        lines,
        Style { fg: Some(Color::LightRed), ..Style::none() },
    )
    &&& panel.paragraph_style == Style::strong(theme.help_paragraph_bg, theme.help_paragraph_fg)
    &&& panel.alignment == Alignment::Left
    &&& !panel.trim
    &&& panel.height == rows
    &&& panel.top == margin(height, rows)
    &&& panel.bottom == margin(height, rows)
    &&& panel.width == columns
    &&& panel.left == margin(width, columns)
    &&& panel.right == margin(width, columns)
}

fn margin_of(available: u16, used: u16) -> (half: u16)
    ensures
        half == margin(available, used),
{
    if available > used {
        (available - used) / 2
    } else {
        0
    }
}

/// Three lengths, one after the other.
fn three_lengths(first: u16, second: u16, third: u16) -> (extents: Vec<Extent>)
    ensures
        extents@ == seq![Extent::Length(first), Extent::Length(second), Extent::Length(third)],
{
    let mut extents: Vec<Extent> = Vec::new();
    extents.push(Extent::Length(first));
    extents.push(Extent::Length(second));
    extents.push(Extent::Length(third));
    extents
}

/// Lays out the lines of a failure in the room `rect`.
pub fn error_layout(lines: &Vec<String>, rect: Area, theme: &Theme) -> (panel: ErrorPanel)
    requires
        rect.fits(),
    ensures
        centered(panel, views(lines@), rect, *theme),
{
    let mut max_line_length: usize = 0;
    let mut i: usize = 0;
    while i < lines.len()
        invariant
            i <= lines.len(),
            max_line_length == widest(views(lines@), i as int),
        decreases lines.len() - i,
    {
        let length = lines[i].as_str().len();
        assert(length == width_of(views(lines@)[i as int]));
        if length > max_line_length {
            max_line_length = length;
        }
        i += 1;
    }
    let rows = low16_of(lines.len());
    let columns = low16_of(max_line_length);
    let top = margin_of(rect.height, rows);
    let left = margin_of(rect.width, columns);
    let vertical = split_within(Axis::Vertical, 0, 0, &three_lengths(top, rows, top), rect);
    let middle = vertical[1];
    let horizontal = split_within(
        Axis::Horizontal,
        0,
        0,
        &three_lengths(left, columns, left),
        middle,
    );
    let mut line_style = Style::new();
    line_style.fg = Some(Color::LightRed);
    ErrorPanel {
        room: rect,
        area: horizontal[1],
        lines: styled_spans(lines, line_style),
        paragraph_style: Style::of(theme.help_paragraph_bg, theme.help_paragraph_fg).with_bold(),
        alignment: Alignment::Left,
        trim: false,
        top,
        height: rows,
        bottom: top,
        left,
        width: columns,
        right: left,
    }
}

/// Lays out the text of a failure, line by line, in the room `rect`.
pub fn error_ui(error: &str, rect: Area, theme: &Theme) -> (panel: ErrorPanel)
    requires
        rect.fits(),
    ensures
        centered(panel, lines_of(error@), rect, *theme),
{
    let lines = text_lines(error);
    error_layout(&lines, rect, theme)
}

/// One row of the table of targets.
#[derive(Debug)]
pub struct ServerRow {
    pub name: Span,
    pub hostname: Span,
    pub description: Vec<Span>,
    pub height: u16,
}

/// The host of a target as the table shows it: with the port after a colon
/// unless the port is the well-known one.
pub open spec fn host_text(server: ServerView) -> Seq<char> {
    if server.port == DEFAULT_PORT_NUMBER {
        server.hostname
    } else {
        server.hostname + ":"@ + decimal(server.port as nat)
    }
}

/// Whether `row` shows `server`: its name, its host, its description line
/// by line, each in the colours of its column, and as high as the
/// description has lines, the count cut to sixteen bits.
pub open spec fn row_shows(row: ServerRow, server: ServerView, theme: Theme) -> bool {
    &&& row.name@ == span_of(
        server.name,
        Style::colored(theme.table_row_name_bg, theme.table_row_name_fg),
    )
    &&& row.hostname@ == span_of(
        host_text(server),
        Style::colored(theme.table_row_hostname_bg, theme.table_row_hostname_fg),
    )
    &&& span_views(row.description@) == spans_of(
        lines_of(server.description),
        Style::colored(theme.table_row_description_bg, theme.table_row_description_fg),
    )
    &&& row.height == low16(breaks(server.description) as int + 1)
}

/// Describes the row of one target.
pub fn server_row(server: &ConfigServer, theme: &Theme) -> (row: ServerRow)
    ensures
        row_shows(row, server@, *theme),
{
    let count = count_breaks(server.description.as_str());
    let low = low16_of(count);
    let height: u16 = if low == 65535 {
        0
    } else {
        low + 1
    };
    let hostname = if server.port == DEFAULT_PORT_NUMBER {
        server.hostname.clone()
    } else {
        let port = decimal_text(server.port);
        join3(server.hostname.as_str(), ":", port.as_str())
    };
    let lines = text_lines(server.description.as_str());
    ServerRow {
        name: Span::new(
            server.name.as_str(),
            Style::of(theme.table_row_name_bg, theme.table_row_name_fg),
        ),
        hostname: Span::new(
            hostname.as_str(),
            Style::of(theme.table_row_hostname_bg, theme.table_row_hostname_fg),
        ),
        description: styled_spans(
            &lines,
            Style::of(theme.table_row_description_bg, theme.table_row_description_fg),
        ),
        height,
    }
}

/// The table of targets.
#[derive(Debug)]
pub struct ServerTable {
    pub area: Area,
    pub header: Vec<Span>,
    pub header_style: Style,
    pub header_height: u16,
    /// The empty rows below the header and below each row.
    pub bottom_margin: u16,
    /// The share of each column, in hundredths of the width.
    pub widths: Vec<u16>,
    pub rows: Vec<ServerRow>,
    pub selected: Option<usize>,
    pub title: Span,
    pub title_alignment: Alignment,
    pub border_style: Style,
    pub highlight_style: Style,
}

/// Whether `table` shows the targets of `state`, one row each and in their
/// order, with the target cursor highlighted and the border lit while the
/// panel has the focus.
pub open spec fn table_shows(table: ServerTable, state: StateView, rect: Area, theme: Theme) -> bool {
    &&& table.area == rect
    &&& span_views(table.header@) == spans_of(
        seq!["Name"@, "Hostname"@, "Description"@],
        Style::strong(theme.table_title_bg, theme.table_title_fg),
    )
    &&& table.header_style == (Style { fg: Some(Color::Reset), bold: true, ..Style::none() })
    &&& table.header_height == 1
    &&& table.bottom_margin == 1
    &&& table.widths@ == seq![15u16, 20u16, 65u16]
    &&& table.title_alignment == Alignment::Center
    &&& table.rows@.len() == state.server_list.len()
    &&& forall|i: int|
        0 <= i < state.server_list.len() ==> row_shows(
            #[trigger] table.rows@[i],
            state.server_list[i],
            theme,
        )
    &&& table.selected == state.server_table_state
    &&& table.title@ == span_of(
        "Servers"@,
        Style::strong(theme.table_border_title_bg, theme.table_border_title_fg),
    )
    &&& table.border_style == Style::colored(
        theme.table_border_bg,
        if state.choosing_username {
            theme.table_border_fg
        } else {
            theme.table_border_active_fg
        },
    )
    &&& table.highlight_style == Style::strong(theme.table_highlight_bg, theme.table_highlight_fg)
}

/// Describes the table of targets.
pub fn server_table_ui(state: &State, rect: Area, theme: &Theme) -> (table: ServerTable)
    ensures
        table_shows(table, state@, rect, *theme),
{
    let header_style = Style::of(theme.table_title_bg, theme.table_title_fg).with_bold();
    let mut header: Vec<Span> = Vec::new();
    header.push(Span::new("Name", header_style));
    header.push(Span::new("Hostname", header_style));
    header.push(Span::new("Description", header_style));
    assert(span_views(header@) =~= spans_of(
        seq!["Name"@, "Hostname"@, "Description"@],
        header_style,
    ));
    let mut rows: Vec<ServerRow> = Vec::new();
    let mut i: usize = 0;
    while i < state.server_list.len()
        invariant
            i <= state.server_list.len(),
            rows@.len() == i,
            forall|j: int|
                0 <= j < i ==> row_shows(#[trigger] rows@[j], state.server_list@[j]@, *theme),
        decreases state.server_list.len() - i,
    {
        rows.push(server_row(&state.server_list[i], theme));
        i += 1;
    }
    let mut header_row_style = Style::new().with_bold();
    header_row_style.fg = Some(Color::Reset);
    let mut widths: Vec<u16> = Vec::new();
    widths.push(15);
    widths.push(20);
    widths.push(65);
    assert(widths@ =~= seq![15u16, 20u16, 65u16]);
    ServerTable {
        area: rect,
        header,
        header_style: header_row_style,
        header_height: 1,
        bottom_margin: 1,
        widths,
        title_alignment: Alignment::Center,
        rows,
        selected: state.server_table_state,
        title: Span::new(
            "Servers",
            Style::of(theme.table_border_title_bg, theme.table_border_title_fg).with_bold(),
        ),
        border_style: Style::of(
            theme.table_border_bg,
            if state.choosing_username {
                theme.table_border_fg
            } else {
                theme.table_border_active_fg
            },
        ),
        highlight_style: Style::of(theme.table_highlight_bg, theme.table_highlight_fg).with_bold(),
    }
}

/// The list of identities.
#[derive(Debug)]
pub struct UsernameList {
    pub area: Area,
    pub items: Vec<Span>,
    pub selected: Option<usize>,
    pub title: Span,
    pub title_alignment: Alignment,
    pub border_style: Style,
    pub highlight_style: Style,
}

/// The identities to list: those of the highlighted target, or none if no
/// target is highlighted.
pub open spec fn listed_usernames(state: StateView) -> Seq<Seq<char>> {
    if state.server_offset < state.server_list.len() {
        state.usernames()
    } else {
        Seq::<Seq<char>>::empty()
    }
}

/// Whether `list` shows the identities of the highlighted target, with the
/// identity cursor highlighted and the border lit while the panel has the
/// focus.
pub open spec fn list_shows(list: UsernameList, state: StateView, rect: Area, theme: Theme) -> bool {
    &&& list.area == rect
    &&& span_views(list.items@) == spans_of(
        listed_usernames(state),
        Style::strong(theme.username_bg, theme.username_fg),
    )
    &&& list.selected == state.username_list_state
    &&& list.title@ == span_of(
        "Usernames"@,
        Style::strong(theme.list_border_title_bg, theme.list_border_title_fg),
    )
    &&& list.title_alignment == Alignment::Center
    &&& list.border_style == Style::colored(
        theme.list_border_bg,
        if state.choosing_username {
            theme.list_border_active_fg
        } else {
            theme.list_border_fg
        },
    )
    &&& list.highlight_style == Style::strong(theme.list_highlight_bg, theme.list_highlight_fg)
}

/// Describes the list of identities.
pub fn username_list_ui(state: &State, rect: Area, theme: &Theme) -> (list: UsernameList)
    ensures
        list_shows(list, state@, rect, *theme),
{
    let style = Style::of(theme.username_bg, theme.username_fg).with_bold();
    let items = if state.server_offset < state.server_list.len() {
        styled_spans(&state.server_list[state.server_offset].username_list, style)
    } else {
        let none: Vec<String> = Vec::new();
        let items = styled_spans(&none, style);
        assert(views(none@) =~= Seq::<Seq<char>>::empty());
        items
    };
    UsernameList {
        area: rect,
        items,
        title_alignment: Alignment::Center,
        selected: state.username_list_state,
        title: Span::new(
            "Usernames",
            Style::of(theme.list_border_title_bg, theme.list_border_title_fg).with_bold(),
        ),
        border_style: Style::of(
            theme.list_border_bg,
            if state.choosing_username {
                theme.list_border_active_fg
            } else {
                theme.list_border_fg
            },
        ),
        highlight_style: Style::of(theme.list_highlight_bg, theme.list_highlight_fg).with_bold(),
    }
}

/// One entry of the footer: the key between brackets, and what it does.
#[derive(Debug)]
pub struct KeyCell {
    pub area: Area,
    pub open: Span,
    pub key: Span,
    pub close: Span,
    pub help: Span,
}

/// The footer: every key binding, laid out in a grid.
#[derive(Debug)]
pub struct KeyPanel {
    pub area: Area,
    pub alignment: Alignment,
    pub column_count: usize,
    pub row_count: usize,
    pub row_percentage: u16,
    pub column_percentage: u16,
    pub cells: Vec<KeyCell>,
}

/// How many columns the footer has.
pub const KEY_COLUMNS: usize = 4;

/// Whether `cell` shows the binding `info`: lit if the binding works, grey
/// if not.
pub open spec fn cell_shows(cell: KeyCell, info: (&'static str, &'static str, bool), theme: Theme) -> bool {
    &&& cell.open@ == span_of("["@, Style::none())
    &&& cell.key@ == span_of(
        info.0@,
        if info.2 {
            Style::strong(theme.help_key_working_bg, theme.help_key_working_fg)
        } else {
            Style::strong(theme.help_key_not_working_bg, theme.help_key_not_working_fg)
        },
    )
    &&& cell.close@ == span_of("] "@, Style::none())
    &&& cell.help@ == span_of(
        info.1@,
        if info.2 {
            Style::colored(theme.help_key_guide_working_bg, theme.help_key_guide_working_fg)
        } else {
            Style::colored(
                theme.help_key_guide_not_working_bg,
                theme.help_key_guide_not_working_fg,
            )
        },
    )
}

/// Whether `panel` shows every binding of `keys` in the room `rect`, in
/// display order, four to a row, the rows and the columns sharing the room
/// evenly, each cell inside the room.
pub open spec fn keys_shown(panel: KeyPanel, keys: WorkingKeys, rect: Area, theme: Theme) -> bool {
    &&& panel.area == rect
    &&& panel.alignment == Alignment::Center
    &&& panel.column_count == 4
    &&& panel.row_count == 2
    &&& panel.row_percentage == 50
    &&& panel.column_percentage == 25
    &&& cells_show(panel.cells@, keys.info_list(), theme)
    &&& forall|i: int| 0 <= i < panel.cells@.len() ==> (#[trigger] panel.cells@[i]).area.inside(rect)
}

/// Whether the cells show the bindings, one each and in their order.
pub open spec fn cells_show(
    cells: Seq<KeyCell>,
    infos: Seq<(&'static str, &'static str, bool)>,
    theme: Theme,
) -> bool {
    &&& cells.len() == infos.len()
    &&& forall|i: int| 0 <= i < infos.len() ==> cell_shows(#[trigger] cells[i], infos[i], theme)
}

/// The same percentage, `count` times.
fn shares(count: usize, share: u16) -> (extents: Vec<Extent>)
    ensures
        extents@.len() == count,
        forall|i: int| 0 <= i < count ==> (#[trigger] extents@[i]) == Extent::Percentage(share),
{
    let mut extents: Vec<Extent> = Vec::new();
    let mut i: usize = 0;
    while i < count
        invariant
            i <= count,
            extents@.len() == i,
            forall|j: int| 0 <= j < i ==> (#[trigger] extents@[j]) == Extent::Percentage(share),
        decreases count - i,
    {
        extents.push(Extent::Percentage(share));
        i += 1;
    }
    extents
}

/// Divides `rect` into a grid of `row_count` rows of `column_count` cells,
/// listed row by row.
fn grid(
    rect: Area,
    row_count: usize,
    row_percentage: u16,
    column_count: usize,
    column_percentage: u16,
) -> (cells: Vec<Area>)
    requires
        rect.fits(),
        row_percentage * rect.height <= u16::MAX,
        column_percentage * rect.width <= u16::MAX,
        row_count * column_count <= usize::MAX,
    ensures
        cells@.len() == row_count * column_count,
        forall|i: int| 0 <= i < cells@.len() ==> (#[trigger] cells@[i]).inside(rect),
{
    let rows = split_within(Axis::Vertical, 0, 0, &shares(row_count, row_percentage), rect);
    let mut cells: Vec<Area> = Vec::new();
    let mut i: usize = 0;
    while i < rows.len()
        invariant
            i <= rows.len(),
            rows@.len() == row_count,
            rect.fits(),
            column_percentage * rect.width <= u16::MAX,
            row_count * column_count <= usize::MAX,
            cells@.len() == i * column_count,
            forall|j: int| 0 <= j < rows@.len() ==> (#[trigger] rows@[j]).inside(rect),
            forall|j: int| 0 <= j < cells@.len() ==> (#[trigger] cells@[j]).inside(rect),
        decreases rows.len() - i,
    {
        let row = rows[i];
        assert(column_percentage * row.width <= u16::MAX) by (nonlinear_arith)
            requires
                row.width <= rect.width,
                column_percentage * rect.width <= u16::MAX,
        ;
        let columns = split_within(
            Axis::Horizontal,
            0,
            0,
            &shares(column_count, column_percentage),
            row,
        );
        let ghost before = cells@;
        let mut j: usize = 0;
        while j < columns.len()
            invariant
                j <= columns.len(),
                columns@.len() == column_count,
                cells@.len() == before.len() + j,
                row.inside(rect),
                forall|k: int| 0 <= k < columns@.len() ==> (#[trigger] columns@[k]).inside(row),
                forall|k: int| 0 <= k < cells@.len() ==> (#[trigger] cells@[k]).inside(rect),
            decreases columns.len() - j,
        {
            cells.push(columns[j]);
            j += 1;
        }
        assert((i + 1) * column_count == i * column_count + column_count) by (nonlinear_arith);
        i += 1;
    }
    cells
}

/// Describes the footer in the room `rect`.
pub fn help_key_ui(working_keys: &WorkingKeys, rect: Area, theme: &Theme) -> (panel: KeyPanel)
    requires
        rect.fits(),
        50 * rect.height <= u16::MAX,
        25 * rect.width <= u16::MAX,
    ensures
        keys_shown(panel, *working_keys, rect, *theme),
{
    let key_info_list = working_keys.to_info_list();
    let key_info_list_length = key_info_list.len();
    assert(working_keys.info_list().len() == 8);
    let column_size: usize = KEY_COLUMNS;
    let mut row_size: usize = key_info_list_length / column_size;
    if key_info_list_length % column_size != 0 {
        row_size += 1;
    }
    assert(100usize / row_size == 50 && 100usize / column_size == 25) by (nonlinear_arith)
        requires
            row_size == 2,
            column_size == 4,
    ;
    let row_percentage: u16 = (100 / row_size) as u16;
    let column_percentage: u16 = (100 / column_size) as u16;
    let rect_list = grid(rect, row_size, row_percentage, column_size, column_percentage);
    let mut cells: Vec<KeyCell> = Vec::new();
    let mut i: usize = 0;
    while i < key_info_list.len()
        invariant
            i <= key_info_list.len(),
            key_info_list@ == working_keys.info_list(),
            key_info_list@.len() == 8,
            rect_list@.len() == 8,
            forall|j: int| 0 <= j < rect_list@.len() ==> (#[trigger] rect_list@[j]).inside(rect),
            cells@.len() == i,
            forall|j: int|
                0 <= j < i ==> cell_shows(#[trigger] cells@[j], key_info_list@[j], *theme),
            forall|j: int| 0 <= j < i ==> (#[trigger] cells@[j]).area.inside(rect),
        decreases key_info_list.len() - i,
    {
        let (key_name, help, is_working) = key_info_list[i];
        let key_style = if is_working {
            Style::of(theme.help_key_working_bg, theme.help_key_working_fg).with_bold()
        } else {
            Style::of(theme.help_key_not_working_bg, theme.help_key_not_working_fg).with_bold()
        };
        let help_style = if is_working {
            Style::of(theme.help_key_guide_working_bg, theme.help_key_guide_working_fg)
        } else {
            Style::of(theme.help_key_guide_not_working_bg, theme.help_key_guide_not_working_fg)
        };
        cells.push(
            KeyCell {
                area: rect_list[i],
                open: Span::new("[", Style::new()),
                key: Span::new(key_name, key_style),
                close: Span::new("] ", Style::new()),
                help: Span::new(help, help_style),
            },
        );
        i += 1;
    }
    assert(cells_show(cells@, key_info_list@, *theme));
    KeyPanel {
        area: rect,
        alignment: Alignment::Center,
        column_count: column_size,
        row_count: row_size,
        row_percentage: 50,
        column_percentage: 25,
        cells,
    }
}

/// What fills the room between header and footer.
#[derive(Debug)]
pub enum Body {
    /// The text of a failure, in place of the lists.
    Error(ErrorPanel),
    /// The table of targets and the list of identities, side by side.
    Lists(ServerTable, UsernameList),
}

/// The whole screen, top to bottom: the frame with its title, the header,
/// the body and the footer.
#[derive(Debug)]
pub struct Screen {
    pub area: Area,
    pub title: Span,
    pub title_alignment: Alignment,
    pub border_style: Style,
    /// Whether the corners of the frame are rounded.
    pub rounded: bool,
    pub help: HelpPanel,
    pub body: Body,
    pub keys: KeyPanel,
}

/// Whether a screen of this size can be divided among the panels: it ends
/// within the range of cell coordinates, and the largest share of its width
/// and of its height can be taken in sixteen bits.
pub open spec fn drawable(size: Area) -> bool {
    &&& size.fits()
    &&& 80 * size.width <= u16::MAX
    &&& 75 * size.height <= u16::MAX
}

/// Whether `screen` shows `state` on a screen of `size`: the frame carries
/// the program's name; the header asks for a choice, or says that there is
/// none while a failure is shown; the body is the text of the failure,
/// centred, if there is one, else the two lists; the footer shows which
/// keys work; and every panel lies inside the screen.
pub open spec fn screen_shows(
    screen: Screen,
    is_default_servers: bool,
    state: StateView,
    maybe_error: Option<Seq<char>>,
    size: Area,
    theme: Theme,
) -> bool {
    &&& screen.area == size
    &&& screen.title@ == span_of(
        "sssh"@,
        Style::strong(theme.main_border_title_bg, theme.main_border_title_fg),
    )
    &&& screen.title_alignment == Alignment::Center
    &&& screen.border_style == Style::colored(theme.main_border_bg, theme.main_border_fg)
    &&& screen.rounded
    &&& screen.help.area.inside(size)
    &&& help_shows(screen.help, is_default_servers, maybe_error is Some, screen.help.area, theme)
    &&& match maybe_error {
        Some(error) => {
            &&& screen.body matches Body::Error(panel)
            &&& panel.room.inside(size)
            &&& centered(panel, lines_of(error), panel.room, theme)
        },
        None => {
            &&& screen.body matches Body::Lists(table, list)
            &&& table.area.inside(size)
            &&& table_shows(table, state, table.area, theme)
            &&& list.area.inside(size)
            &&& list_shows(list, state, list.area, theme)
        },
    }
    &&& screen.keys.area.inside(size)
    &&& keys_shown(screen.keys, state.working_keys, screen.keys.area, theme)
}

/// The shares of the header, the body and the footer.
fn screen_shares() -> (extents: Vec<Extent>)
    ensures
        extents@ == seq![
            Extent::Percentage(10),
            Extent::Percentage(75),
            Extent::Percentage(15),
        ],
{
    let mut extents: Vec<Extent> = Vec::new();
    extents.push(Extent::Percentage(10));
    extents.push(Extent::Percentage(75));
    extents.push(Extent::Percentage(15));
    extents
}

/// The shares of the table of targets and of the list of identities.
fn list_shares() -> (extents: Vec<Extent>)
    ensures
        extents@ == seq![Extent::Percentage(80), Extent::Percentage(20)],
{
    let mut extents: Vec<Extent> = Vec::new();
    extents.push(Extent::Percentage(80));
    extents.push(Extent::Percentage(20));
    extents
}

/// Whether a screen of this size can be divided among the panels.
pub fn is_drawable(size: Area) -> (yes: bool)
    ensures
        yes == drawable(size),
{
    size.width <= u16::MAX - size.x && size.height <= u16::MAX - size.y && size.width <= 819
        && size.height <= 873
}

/// Describes the whole screen for the model, the text of a failure if one
/// is to be shown, the size of the screen and the theme. The model is only
/// read. There is no description for a screen too large to be divided.
pub fn draw_ui(
    is_default_servers: bool,
    state: &State,
    maybe_error: &Option<String>,
    size: Area,
    theme: &Theme,
) -> (drawn: Option<Screen>)
    ensures
        drawn is Some <==> drawable(size),
        drawn matches Some(screen) ==> screen_shows(
            screen,
            is_default_servers,
            state@,
            match *maybe_error {
                Some(text) => Some(text@),
                None => None,
            },
            size,
            *theme,
        ),
{
    if !is_drawable(size) {
        return None;
    }
    let shares = screen_shares();
    assert forall|i: int| 0 <= i < shares@.len() implies ((#[trigger] shares@[i]) matches Extent::Percentage(
        share,
    ) ==> share * size.height <= u16::MAX) by {
        assert(shares@[i] == Extent::Percentage(10) || shares@[i] == Extent::Percentage(75)
            || shares@[i] == Extent::Percentage(15));
    }
    let chunk_list = split_within(Axis::Vertical, 3, 2, &shares, size);
    let help_area = chunk_list[0];
    let body_area = chunk_list[1];
    let keys_area = chunk_list[2];
    let help = main_help_ui(is_default_servers, maybe_error.is_some(), help_area, theme);
    let body = match maybe_error {
        Some(error) => Body::Error(error_ui(error.as_str(), body_area, theme)),
        None => {
            assert(body_area.inside(size));
            let shares = list_shares();
            assert forall|i: int| 0 <= i < shares@.len() implies ((#[trigger] shares@[i]) matches Extent::Percentage(
                share,
            ) ==> share * body_area.width <= u16::MAX) by {
                assert(shares@[i] == Extent::Percentage(80) || shares@[i] == Extent::Percentage(
                    20,
                ));
            }
            let table_chunk_list = split_within(Axis::Horizontal, 0, 1, &shares, body_area);
            Body::Lists(
                server_table_ui(state, table_chunk_list[0], theme),
                username_list_ui(state, table_chunk_list[1], theme),
            )
        },
    };
    Some(
        Screen {
            area: size,
            title: Span::new(
                "sssh",
                Style::of(theme.main_border_title_bg, theme.main_border_title_fg).with_bold(),
            ),
            title_alignment: Alignment::Center,
            border_style: Style::of(theme.main_border_bg, theme.main_border_fg),
            rounded: true,
            help,
            body,
            keys: help_key_ui(&state.working_keys, keys_area, theme),
        },
    )
}

} // verus!
