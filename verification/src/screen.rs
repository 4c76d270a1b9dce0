//! What the plugin draws: each text, where it goes, and which of its
//! characters are colored.
use vstd::prelude::*;
use crate::plugin::{parent_folder_display_spec, plugin_name_display_spec, StateView};
use crate::text::slash_join;

verus! {

/// A stretch of a text's characters drawn in one of the host's emphasis
/// colors: from `start` up to, not including, `end`, or to the end of the
/// text where `end` is `None`.
#[derive(Clone, Copy, Debug, PartialEq, Eq, Structural)]
pub struct ColorRange {
    pub index_level: usize,
    pub start: usize,
    pub end: Option<usize>,
}

/// A text to draw at column `x`, line `y`, with its colored stretches.
#[derive(Debug)]
pub struct TextItem {
    pub text: String,
    pub color_ranges: Vec<ColorRange>,
    pub x: usize,
    pub y: usize,
}

/// A text to draw, as plain values.
pub struct TextItemView {
    pub text: Seq<char>,
    pub color_ranges: Seq<ColorRange>,
    pub x: usize,
    pub y: usize,
}

impl View for TextItem {
    type V = TextItemView;

    open spec fn view(&self) -> TextItemView {
        TextItemView { text: self.text@, color_ranges: self.color_ranges@, x: self.x, y: self.y }
    }
}

/// The views of a sequence of texts.
pub open spec fn text_items_view(v: Seq<TextItem>) -> Seq<TextItemView> {
    v.map_values(|t: TextItem| t@)
}

/// The first line of the screen.
pub const TITLE_TEXT: &'static str = "Hi there! Let's create your new Zellij Rust plugin. I'm about to:";

/// How the first step's line starts.
pub const BULLETIN_1_PREFIX: &'static str = "1. Create a new folder ";

/// The second step.
pub const BULLETIN_2: &'static str = "2. Git clone and adjust a template repository into it.";

/// The third step, the widest line of the screen.
pub const BULLETIN_3: &'static str = "3. Open a new tab with your $EDITOR and a development environment";

/// How the prompt starts.
pub const PROMPT_PREFIX: &'static str = "Plugin name: ";

/// The line of keys at the bottom.
pub const HELP_TEXT: &'static str = "Help: <ENTER> - create plugin, <Ctrl f> - change root folder, <ESC> - close";

/// The warning shown when the plugin's folder holds a project.
pub const WARNING_TEXT: &'static str = "Warning: destination folder exists, will start a workspace without overriding it.";

/// How an error line starts.
pub const ERROR_PREFIX: &'static str = "Error: ";

/// `a - b`, or 0 where `b` is larger, as `usize::saturating_sub` gives it.
pub open spec fn sat_sub(a: usize, b: usize) -> usize {
    if a >= b {
        (a - b) as usize
    } else {
        0
    }
}

/// The prompt line: the name typed so far, or nothing, then a cursor.
pub open spec fn prompt_spec(v: StateView) -> Seq<char> {
    match v.plugin_name {
        Some(n) => PROMPT_PREFIX@ + n + seq!['_'],
        None => PROMPT_PREFIX@ + seq!['_'],
    }
}

/// Column of the centered block on a screen `cols` wide: it is as wide as
/// the widest step plus two.
pub open spec fn block_x(cols: usize) -> usize {
    sat_sub(cols, (BULLETIN_3@.len() + 2) as usize) / 2
}

/// First line of the centered block on a screen `rows` high: it is eight lines high.
pub open spec fn block_y(rows: usize) -> usize {
    sat_sub(rows, 8) / 2
}

/// The title, the three steps and the prompt, centered.
pub open spec fn render_block(v: StateView, rows: usize, cols: usize) -> Seq<TextItemView> {
    let folder = parent_folder_display_spec(v);
    let x = block_x(cols);
    let y = block_y(rows);
    seq![
        TextItemView {
            text: TITLE_TEXT@,
            color_ranges: seq![ColorRange { index_level: 2, start: 0, end: None }],
            x: x,
            y: y,
        },
        TextItemView {
            text: BULLETIN_1_PREFIX@ + slash_join(folder, plugin_name_display_spec(v)),
            color_ranges: seq![
                ColorRange { index_level: 0, start: 23, end: Some((24 + folder.len()) as usize) },
                ColorRange { index_level: 3, start: (24 + folder.len()) as usize, end: None },
            ],
            x: (x + 2) as usize,
            y: (y + 2) as usize,
        },
        TextItemView { text: BULLETIN_2@, color_ranges: Seq::empty(), x: (x + 2) as usize, y: (y + 3) as usize },
        TextItemView {
            text: BULLETIN_3@,
            color_ranges: seq![ColorRange { index_level: 0, start: 28, end: Some(35) }],
            x: (x + 2) as usize,
            y: (y + 4) as usize,
        },
        TextItemView {
            text: prompt_spec(v),
            color_ranges: seq![
                ColorRange { index_level: 2, start: 0, end: Some(12) },
                ColorRange { index_level: 3, start: 13, end: None },
            ],
            x: x,
            y: (y + 6) as usize,
        },
    ]
}

/// The warning, when the plugin's folder holds a project, two lines below the block.
pub open spec fn render_warning(v: StateView, rows: usize, cols: usize) -> Seq<TextItemView> {
    if v.destination_folder_exists {
        seq![
            TextItemView {
                text: WARNING_TEXT@,
                color_ranges: seq![ColorRange { index_level: 3, start: 0, end: None }],
                x: block_x(cols),
                y: (block_y(rows) + 8) as usize,
            },
        ]
    } else {
        Seq::empty()
    }
}

/// The error, if one is shown: below the warning, or in its place.
pub open spec fn render_error(v: StateView, rows: usize, cols: usize) -> Seq<TextItemView> {
    match v.error {
        Some(e) => seq![
            TextItemView {
                text: ERROR_PREFIX@ + e,
                color_ranges: seq![ColorRange { index_level: 3, start: 0, end: None }],
                x: block_x(cols),
                y: if v.destination_folder_exists {
                    (block_y(rows) + 10) as usize
                } else {
                    (block_y(rows) + 8) as usize
                },
            },
        ],
        None => Seq::empty(),
    }
}

/// The line of keys, at the left edge of line `rows`.
pub open spec fn render_help(rows: usize) -> Seq<TextItemView> {
    seq![
        TextItemView {
            text: HELP_TEXT@,
            color_ranges: seq![
                ColorRange { index_level: 3, start: 6, end: Some(13) },
                ColorRange { index_level: 3, start: 31, end: Some(39) },
                ColorRange { index_level: 3, start: 62, end: Some(67) },
            ],
            x: 0,
            y: rows,
        },
    ]
}

/// What the screen shows, `rows` lines by `cols` columns: the block of
/// title, steps and prompt centered, then the warning and the error below it
/// if there are any, and the line of keys on line `rows`.
pub open spec fn render_spec(v: StateView, rows: usize, cols: usize) -> Seq<TextItemView> {
    render_block(v, rows, cols) + render_warning(v, rows, cols) + render_error(v, rows, cols)
        + render_help(rows)
}

} // verus!
