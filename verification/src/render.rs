//! What a game or an effect asks the screen to show, and what it is told
//! about the player: plain values that a renderer and an input source on
//! the outside turn into pixels and take from devices.

use vstd::prelude::*;

verus! {

/// The palette the games and effects draw with.
#[derive(Clone, Copy, Debug, PartialEq, Eq, Structural)]
pub enum Color {
    White,
    Black,
    Red,
    DarkRed,
    DarkGray,
    Green,
    GreenYellow,
}

/// One instruction to the renderer. Coordinates and sizes are whole pixels,
/// the origin is the top left corner of the screen.
#[derive(Debug, PartialEq, Eq)]
pub enum DrawCommand {
    /// A filled rectangle with its top left corner at `(x, y)`.
    Rectangle { x: i32, y: i32, width: i32, height: i32, color: Color },
    /// A filled circle around `(x, y)`; the radius is in tenths of a pixel.
    Circle { x: i32, y: i32, radius_tenths: i32, color: Color },
    /// A line of text with its top left corner at `(x, y)`.
    Text { text: String, x: i32, y: i32, size: i32, color: Color },
    /// A number written in decimal and centred on `center_x`, then moved
    /// `shift_x` pixels to the right: its left edge is at
    /// `center_x - width / 2 + shift_x`, for the width the renderer
    /// measures for the digits at `size`.
    CenteredNumber { value: i32, center_x: i32, shift_x: i32, y: i32, size: i32, color: Color },
}

/// What one tick knows of the player: where the pointer is, and which of
/// the keys and buttons the games listen to are held down.
#[derive(Clone, Copy, Debug, PartialEq, Eq, Structural)]
pub struct Input {
    pub pointer_x: i32,
    pub pointer_y: i32,
    pub up: bool,
    pub down: bool,
    pub left_button: bool,
}

/// `cmd` writes `text` at `(x, y)` in the given size and colour.
pub open spec fn is_text(
    cmd: DrawCommand,
    text: Seq<char>,
    x: int,
    y: int,
    size: int,
    color: Color,
) -> bool {
    match cmd {
        DrawCommand::Text { text: t, x: cx, y: cy, size: cs, color: cc } => {
            t@ == text && cx == x && cy == y && cs == size && cc == color
        },
        _ => false,
    }
}

/// `cmds` is the title overlay for a game called `title`: the caption and
/// the name, each written twice in white as a shadow and once in black.
pub open spec fn is_title_overlay(cmds: Seq<DrawCommand>, title: Seq<char>) -> bool {
    &&& cmds.len() == 6
    &&& is_text(cmds[0], "current game:"@, 9, 9, 30, Color::White)
    &&& is_text(cmds[1], "current game:"@, 11, 11, 30, Color::White)
    &&& is_text(cmds[2], "current game:"@, 10, 10, 30, Color::Black)
    &&& is_text(cmds[3], title, 9, 39, 50, Color::White)
    &&& is_text(cmds[4], title, 11, 41, 50, Color::White)
    &&& is_text(cmds[5], title, 10, 40, 50, Color::Black)
}

/// The commands that write the name of the running game over its frame.
pub fn draw_title(title: &str) -> (cmds: Vec<DrawCommand>)
    ensures
        is_title_overlay(cmds@, title@),
{
    let caption = "current game:";
    let mut cmds: Vec<DrawCommand> = Vec::new();
    cmds.push(DrawCommand::Text { text: caption.to_owned(), x: 9, y: 9, size: 30, color: Color::White });
    cmds.push(DrawCommand::Text { text: caption.to_owned(), x: 11, y: 11, size: 30, color: Color::White });
    cmds.push(DrawCommand::Text { text: caption.to_owned(), x: 10, y: 10, size: 30, color: Color::Black });
    cmds.push(DrawCommand::Text { text: title.to_owned(), x: 9, y: 39, size: 50, color: Color::White });
    cmds.push(DrawCommand::Text { text: title.to_owned(), x: 11, y: 41, size: 50, color: Color::White });
    cmds.push(DrawCommand::Text { text: title.to_owned(), x: 10, y: 40, size: 50, color: Color::Black });
    cmds
}

} // verus!
