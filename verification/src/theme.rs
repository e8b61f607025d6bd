//! The colours of the screen.
use vstd::prelude::*;

verus! {

/// A terminal colour.
#[derive(Debug, Clone, Copy, PartialEq, Eq, Structural)]
pub enum Color {
    Reset,
    White,
    Red,
    Yellow,
    LightYellow,
    Green,
    LightBlue,
    LightRed,
    DarkGray,
}

/// The colour of every part of the screen.
#[derive(Debug, Clone, Copy, PartialEq, Eq, Structural)]
pub struct Theme {
    pub main_border_bg: Color,
    pub main_border_fg: Color,
    pub main_border_title_bg: Color,
    pub main_border_title_fg: Color,
    pub help_text_bg: Color,
    pub help_text_fg: Color,
    pub help_hint_text_bg: Color,
    pub help_hint_text_fg: Color,
    pub help_error_text_bg: Color,
    pub help_error_text_fg: Color,
    pub help_paragraph_bg: Color,
    pub help_paragraph_fg: Color,
    pub table_border_bg: Color,
    pub table_border_fg: Color,
    pub table_border_active_fg: Color,
    pub table_border_title_bg: Color,
    pub table_border_title_fg: Color,
    pub table_title_bg: Color,
    pub table_title_fg: Color,
    pub table_row_name_bg: Color,
    pub table_row_name_fg: Color,
    pub table_row_hostname_bg: Color,
    pub table_row_hostname_fg: Color,
    pub table_row_description_bg: Color,
    pub table_row_description_fg: Color,
    pub table_highlight_bg: Color,
    pub table_highlight_fg: Color,
    pub list_border_bg: Color,
    pub list_border_fg: Color,
    pub list_border_active_fg: Color,
    pub list_border_title_bg: Color,
    pub list_border_title_fg: Color,
    pub username_bg: Color,
    pub username_fg: Color,
    pub list_highlight_bg: Color,
    pub list_highlight_fg: Color,
    pub help_key_working_bg: Color,
    pub help_key_working_fg: Color,
    pub help_key_not_working_bg: Color,
    pub help_key_not_working_fg: Color,
    pub help_key_guide_working_bg: Color,
    pub help_key_guide_working_fg: Color,
    pub help_key_guide_not_working_bg: Color,
    pub help_key_guide_not_working_fg: Color,
}

impl Theme {
    /// The one theme that ships with the program.
    pub open spec fn standard() -> Theme {
        Theme {
            main_border_bg: Color::Reset,
            main_border_fg: Color::White,
            main_border_title_bg: Color::Reset,
            main_border_title_fg: Color::White,
            help_text_bg: Color::Reset,
            help_text_fg: Color::White,
            help_hint_text_bg: Color::Reset,
            help_hint_text_fg: Color::White,
            help_error_text_bg: Color::Reset,
            help_error_text_fg: Color::Red,
            help_paragraph_bg: Color::Reset,
            help_paragraph_fg: Color::Reset,
            table_border_bg: Color::Reset,
            table_border_fg: Color::Yellow,
            table_border_active_fg: Color::LightYellow,
            table_border_title_bg: Color::Reset,
            table_border_title_fg: Color::Yellow,
            table_title_bg: Color::Reset,
            table_title_fg: Color::LightYellow,
            table_row_name_bg: Color::Reset,
            table_row_name_fg: Color::White,
            table_row_hostname_bg: Color::Reset,
            table_row_hostname_fg: Color::Green,
            table_row_description_bg: Color::Reset,
            table_row_description_fg: Color::LightBlue,
            table_highlight_bg: Color::Reset,
            table_highlight_fg: Color::Reset,
            list_border_bg: Color::Reset,
            list_border_fg: Color::Yellow,
            list_border_active_fg: Color::LightYellow,
            list_border_title_bg: Color::Reset,
            list_border_title_fg: Color::Yellow,
            username_bg: Color::Reset,
            username_fg: Color::LightBlue,
            list_highlight_bg: Color::Reset,
            list_highlight_fg: Color::Reset,
            help_key_working_bg: Color::Reset,
            help_key_working_fg: Color::LightYellow,
            help_key_not_working_bg: Color::Reset,
            help_key_not_working_fg: Color::DarkGray,
            help_key_guide_working_bg: Color::Reset,
            help_key_guide_working_fg: Color::White,
            help_key_guide_not_working_bg: Color::Reset,
            help_key_guide_not_working_fg: Color::DarkGray,
        }
    }
}

impl Default for Theme {
    fn default() -> (theme: Self)
        ensures
            theme == Theme::standard(),
    {
        Theme {
            main_border_bg: Color::Reset,
            main_border_fg: Color::White,
            main_border_title_bg: Color::Reset,
            main_border_title_fg: Color::White,
            help_text_bg: Color::Reset,
            help_text_fg: Color::White,
            help_hint_text_bg: Color::Reset,
            help_hint_text_fg: Color::White,
            help_error_text_bg: Color::Reset,
            help_error_text_fg: Color::Red,
            help_paragraph_bg: Color::Reset,
            help_paragraph_fg: Color::Reset,
            table_border_bg: Color::Reset,
            table_border_fg: Color::Yellow,
            table_border_active_fg: Color::LightYellow,
            table_border_title_bg: Color::Reset,
            table_border_title_fg: Color::Yellow,
            table_title_bg: Color::Reset,
            table_title_fg: Color::LightYellow,
            table_row_name_bg: Color::Reset,
            table_row_name_fg: Color::White,
            table_row_hostname_bg: Color::Reset,
            table_row_hostname_fg: Color::Green,
            table_row_description_bg: Color::Reset,
            table_row_description_fg: Color::LightBlue,
            table_highlight_bg: Color::Reset,
            table_highlight_fg: Color::Reset,
            list_border_bg: Color::Reset,
            list_border_fg: Color::Yellow,
            list_border_active_fg: Color::LightYellow,
            list_border_title_bg: Color::Reset,
            list_border_title_fg: Color::Yellow,
            username_bg: Color::Reset,
            username_fg: Color::LightBlue,
            list_highlight_bg: Color::Reset,
            list_highlight_fg: Color::Reset,
            help_key_working_bg: Color::Reset,
            help_key_working_fg: Color::LightYellow,
            help_key_not_working_bg: Color::Reset,
            help_key_not_working_fg: Color::DarkGray,
            help_key_guide_working_bg: Color::Reset,
            help_key_guide_working_fg: Color::White,
            help_key_guide_not_working_bg: Color::Reset,
            help_key_guide_not_working_fg: Color::DarkGray,
        }
    }
}

} // verus!
